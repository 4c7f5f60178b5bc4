//! Confirmations of deletions: what is to be deleted, and the answer given.
use vstd::prelude::*;

use crate::projects::{Header, PersistedEndpoint, PersistedProject, PersistedVariable};
use crate::text::append_str;

verus! {

/// A deletion that waits for a confirmation, or the answer to one.
#[derive(Debug)]
pub enum ConfirmAction {
    ConfirmDeletePersistedVariable(ConfirmDetails<PersistedVariable>),
    ConfirmationDeletePersistedVariable(ConfirmationAnswer<PersistedVariable>),
    ConfirmDeletePersistedProject(ConfirmDetails<PersistedProject>),
    ConfirmationDeletePersistedProject(ConfirmationAnswer<PersistedProject>),
    ConfirmDeletePersistedEndpoint(ConfirmDetails<PersistedEndpoint>),
    ConfirmationDeletePersistedEndpoint(ConfirmationAnswer<PersistedEndpoint>),
    ConfirmDeleteHeader(ConfirmDetails<Header>),
    ConfirmationDeleteHeader(ConfirmationAnswer<Header>),
}

/// What is to be deleted, with the title and message of the question.
#[derive(Debug)]
pub struct ConfirmDetails<T> {
    pub data: T,
    pub title: String,
    pub message: String,
}

/// What was to be deleted, and whether the user said yes.
#[derive(Debug)]
pub struct ConfirmationAnswer<T> {
    pub data: T,
    pub answer: bool,
}

/// The title of the question whether to delete what is called `name`.
pub open spec fn delete_title(name: Seq<char>) -> Seq<char> {
    "Delete "@ + name
}

/// The question asked before anything is deleted.
pub open spec fn delete_question() -> Seq<char> {
    "Are you sure you want to delete?"@
}

fn delete_title_string(name: &str) -> (r: String)
    ensures
        r@ == delete_title(name@),
{
    let mut title = "Delete ".to_owned();
    append_str(&mut title, name);
    title
}

/// Whether `a` asks whether to delete `header`.
pub open spec fn is_delete_header_question(a: ConfirmAction, header: Header) -> bool {
    a matches ConfirmAction::ConfirmDeleteHeader(d) && d.data == header && d.title@ == delete_title(
        header.name@,
    ) && d.message@ == delete_question()
}

/// Asks whether to delete `header`.
pub fn confirm_delete_header(header: Header) -> (r: ConfirmAction)
    ensures
        is_delete_header_question(r, header),
{
    let title = delete_title_string(header.name.as_str());
    ConfirmAction::ConfirmDeleteHeader(
        ConfirmDetails { data: header, title, message: "Are you sure you want to delete?".to_owned() },
    )
}

/// Whether `a` asks whether to delete `endpoint`.
pub open spec fn is_delete_endpoint_question(a: ConfirmAction, endpoint: PersistedEndpoint) -> bool {
    a matches ConfirmAction::ConfirmDeletePersistedEndpoint(d) && d.data == endpoint && d.title@
        == delete_title(endpoint.name@) && d.message@ == delete_question()
}

/// Asks whether to delete `endpoint`.
pub fn confirm_delete_endpoint(endpoint: PersistedEndpoint) -> (r: ConfirmAction)
    ensures
        is_delete_endpoint_question(r, endpoint),
{
    let title = delete_title_string(endpoint.name.as_str());
    ConfirmAction::ConfirmDeletePersistedEndpoint(
        ConfirmDetails {
            data: endpoint,
            title,
            message: "Are you sure you want to delete?".to_owned(),
        },
    )
}

/// Asks whether to delete `project`.
pub fn confirm_delete_project(project: PersistedProject) -> (r: ConfirmAction)
    ensures
        r matches ConfirmAction::ConfirmDeletePersistedProject(d) && d.data == project && d.title@
            == delete_title(project.name@) && d.message@ == delete_question(),
{
    let title = delete_title_string(project.name.as_str());
    ConfirmAction::ConfirmDeletePersistedProject(
        ConfirmDetails { data: project, title, message: "Are you sure you want to delete?".to_owned() },
    )
}

} // verus!
