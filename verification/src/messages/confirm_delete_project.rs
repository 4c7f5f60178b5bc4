//! Confirmations of the deletion of a project or of a project variable.
use vstd::prelude::*;

use crate::projects::{PersistedProject, PersistedVariable};

verus! {

/// A deletion of a project or variable that waits for a confirmation, or the
/// answer to one.
#[derive(Debug)]
pub enum ConfirmAction {
    ConfirmDeletePersistedProject(DeleteProjectDetails),
    ConfirmationDeletePersistedProject(DeleteProjectDetailsAnswer),
    ConfirmDeletePersistedProjectVariable(DeletePersistedVariableDetails),
    ConfirmationDeletePersistedProjectVariable(DeletePersistedVariableAnswer),
}

/// The project to delete, with the title and message of the question.
#[derive(Debug)]
pub struct DeleteProjectDetails {
    pub project: PersistedProject,
    pub title: String,
    pub message: String,
}

/// The project that was to be deleted, and whether the user said yes.
#[derive(Debug)]
pub struct DeleteProjectDetailsAnswer {
    pub project: PersistedProject,
    pub answer: bool,
}

/// The variable to delete, with the title and message of the question.
#[derive(Debug)]
pub struct DeletePersistedVariableDetails {
    pub project: PersistedVariable,
    pub title: String,
    pub message: String,
}

/// The variable that was to be deleted, and whether the user said yes.
#[derive(Debug)]
pub struct DeletePersistedVariableAnswer {
    pub project: PersistedVariable,
    pub answer: bool,
}

/// What the confirmation window answers to a key press while it asks about
/// `action`: for `'y'` or `'n'` the answer for the same project (yes for `'y'`),
/// for any other key nothing.
pub fn answer_confirmation(key: char, action: ConfirmAction) -> (r: Option<ConfirmAction>)
    requires
        key == 'y' || key == 'n' ==> action is ConfirmDeletePersistedProject,
    ensures
        key == 'y' || key == 'n' ==> r == Some(
            ConfirmAction::ConfirmationDeletePersistedProject(
                DeleteProjectDetailsAnswer { project: action->ConfirmDeletePersistedProject_0.project, answer: key == 'y' },
            ),
        ),
        !(key == 'y' || key == 'n') ==> r is None,
{
    if key == 'y' || key == 'n' {
        match action {
            ConfirmAction::ConfirmDeletePersistedProject(details) => {
                Some(
                    ConfirmAction::ConfirmationDeletePersistedProject(
                        DeleteProjectDetailsAnswer { project: details.project, answer: key == 'y' },
                    ),
                )
            },
            _ => None,
        }
    } else {
        None
    }
}

} // verus!
