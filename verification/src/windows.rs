//! The floating windows of the dashboard and the messages they are sent.
use vstd::prelude::*;

use crate::projects::{Header, PersistedEndpoint, PersistedProject, PersistedVariable};

verus! {

/// The window floating over the dashboard, if any.
#[derive(Debug, Clone, Copy, PartialEq, Eq, Structural)]
pub enum FloatingWindow {
    /// No window floats; templates see it as `None`.
    Closed,
    Method,
    AddHeader,
    Error,
    EditHeaderSelector,
    Project,
    ConfirmAction,
    Message,
    ChangeEndpointName,
    ChangeProjectName,
    EndpointsSelector,
    Commands,
    CodeGen,
    PostmanFileSelector,
    BodyModeSelector,
    AddProjectVariable,
    ViewProjectVariables,
}

/// The name under which templates see a floating window: the variant's name.
pub open spec fn floating_window_name(w: FloatingWindow) -> Seq<char> {
    match w {
        FloatingWindow::Closed => "None"@,
        FloatingWindow::Method => "Method"@,
        FloatingWindow::AddHeader => "AddHeader"@,
        FloatingWindow::Error => "Error"@,
        FloatingWindow::EditHeaderSelector => "EditHeaderSelector"@,
        FloatingWindow::Project => "Project"@,
        FloatingWindow::ConfirmAction => "ConfirmAction"@,
        FloatingWindow::Message => "Message"@,
        FloatingWindow::ChangeEndpointName => "ChangeEndpointName"@,
        FloatingWindow::ChangeProjectName => "ChangeProjectName"@,
        FloatingWindow::EndpointsSelector => "EndpointsSelector"@,
        FloatingWindow::Commands => "Commands"@,
        FloatingWindow::CodeGen => "CodeGen"@,
        FloatingWindow::PostmanFileSelector => "PostmanFileSelector"@,
        FloatingWindow::BodyModeSelector => "BodyModeSelector"@,
        FloatingWindow::AddProjectVariable => "AddProjectVariable"@,
        FloatingWindow::ViewProjectVariables => "ViewProjectVariables"@,
    }
}

impl FloatingWindow {
    /// The name under which templates see this window.
    pub fn as_str(&self) -> (r: &'static str)
        ensures
            r@ == floating_window_name(*self),
    {
        match self {
            FloatingWindow::Closed => "None",
            FloatingWindow::Method => "Method",
            FloatingWindow::AddHeader => "AddHeader",
            FloatingWindow::Error => "Error",
            FloatingWindow::EditHeaderSelector => "EditHeaderSelector",
            FloatingWindow::Project => "Project",
            FloatingWindow::ConfirmAction => "ConfirmAction",
            FloatingWindow::Message => "Message",
            FloatingWindow::ChangeEndpointName => "ChangeEndpointName",
            FloatingWindow::ChangeProjectName => "ChangeProjectName",
            FloatingWindow::EndpointsSelector => "EndpointsSelector",
            FloatingWindow::Commands => "Commands",
            FloatingWindow::CodeGen => "CodeGen",
            FloatingWindow::PostmanFileSelector => "PostmanFileSelector",
            FloatingWindow::BodyModeSelector => "BodyModeSelector",
            FloatingWindow::AddProjectVariable => "AddProjectVariable",
            FloatingWindow::ViewProjectVariables => "ViewProjectVariables",
        }
    }
}

/// Sent to the window that adds a header: the project name, the header being
/// edited and the header names already in use.
#[derive(Debug)]
pub enum AddHeaderWindowMessages {
    Specifically((String, Header, Vec<String>)),
}

/// Sent to the header selector: the headers to choose from.
#[derive(Debug)]
pub enum EditHeaderSelectorMessages {
    HeadersList(Vec<Header>),
}

/// Sent to the window that adds or edits a project variable.
#[derive(Debug)]
pub enum AddProjectVariableMessages {
    InitialFocus,
    ClearInput,
    Specifically((String, PersistedVariable, Vec<String>)),
}

/// Sent to the window that renames an endpoint.
#[derive(Debug)]
pub enum EditEndpointNameMessages {
    ClearInput,
    InputValue((String, Vec<String>)),
    Specifically((String, PersistedEndpoint, Vec<String>)),
}

/// Sent to the window that renames a project.
#[derive(Debug)]
pub enum EditProjectNameMessages {
    ClearInput,
    InputValue(String),
    Specifically(PersistedProject),
}

/// A rename: the name before and the name after.
#[derive(Debug)]
pub struct SpecificNameUpdate {
    pub old_name: String,
    pub new_name: String,
}

/// Sent to the endpoint selector: the endpoints to choose from.
#[derive(Debug)]
pub enum EndpointsSelectorMessages {
    EndpointsList(Vec<PersistedEndpoint>),
}

/// The names of the headers `hs`, in order.
pub fn header_names(hs: &Vec<Header>) -> (r: Vec<String>)
    ensures
        r.len() == hs.len(),
        forall|k: int| 0 <= k < hs.len() ==> #[trigger] r[k]@ == hs[k].name@,
{
    let mut r: Vec<String> = Vec::new();
    let mut i: usize = 0;
    while i < hs.len()
        invariant
            i <= hs.len(),
            r.len() == i,
            forall|k: int| 0 <= k < i ==> #[trigger] r[k]@ == hs[k].name@,
        decreases hs.len() - i,
    {
        r.push(hs[i].name.clone());
        i += 1;
    }
    r
}

/// The names of the endpoints of `project`, in order.
pub fn endpoint_names(project: &PersistedProject) -> (r: Vec<String>)
    ensures
        r.len() == project.endpoints.len(),
        forall|k: int| 0 <= k < project.endpoints.len() ==> #[trigger] r[k]@ == project.endpoints[k].name@,
{
    let mut r: Vec<String> = Vec::new();
    let mut i: usize = 0;
    while i < project.endpoints.len()
        invariant
            i <= project.endpoints.len(),
            r.len() == i,
            forall|k: int| 0 <= k < i ==> #[trigger] r[k]@ == project.endpoints[k].name@,
        decreases project.endpoints.len() - i,
    {
        r.push(project.endpoints[i].name.clone());
        i += 1;
    }
    r
}

/// Whether `m` asks the header window to edit `header` of `endpoint`: it holds
/// the header's name, the header, and the names of the endpoint's headers.
pub open spec fn is_edit_header_message(m: AddHeaderWindowMessages, endpoint: PersistedEndpoint, header: Header) -> bool {
    m matches AddHeaderWindowMessages::Specifically((name, h, names)) && name@ == header.name@ && h
        == header && names.len() == endpoint.headers.len() && forall|k: int|
        0 <= k < endpoint.headers.len() ==> #[trigger] names[k]@ == endpoint.headers[k].name@
}

/// What the header window is sent to edit `header` of `endpoint`: the header's
/// name, the header, and the names of the endpoint's headers.
pub fn edit_header_message(endpoint: &PersistedEndpoint, header: Header) -> (r: AddHeaderWindowMessages)
    ensures
        is_edit_header_message(r, *endpoint, header),
{
    let names = header_names(&endpoint.headers);
    let name = header.name.clone();
    AddHeaderWindowMessages::Specifically((name, header, names))
}

/// What the endpoint name window is sent to rename `endpoint` of `project`:
/// the project's name, the endpoint, and the names of the project's endpoints.
pub fn rename_endpoint_message(project: &PersistedProject, endpoint: PersistedEndpoint) -> (r:
    EditEndpointNameMessages)
    ensures
        r matches EditEndpointNameMessages::Specifically((name, e, names)) && name@ == project.name@
            && e == endpoint && names.len() == project.endpoints.len() && forall|k: int|
            0 <= k < project.endpoints.len() ==> #[trigger] names[k]@ == project.endpoints[k].name@,
{
    let names = endpoint_names(project);
    EditEndpointNameMessages::Specifically((project.name.clone(), endpoint, names))
}

} // verus!
