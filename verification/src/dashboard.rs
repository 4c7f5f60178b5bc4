//! The decisions of the dashboard: what a key press, a component event or a
//! message asks for, and how the dashboard's own state changes.
use vstd::prelude::*;

use crate::messages::confirm_actions::ConfirmAction;
use crate::options::{button_caps, get_button_caps, Options};
use crate::projects::{
    blank_endpoint, blank_endpoint_view, blank_project, blank_project_view, copy_endpoint,
    copy_project, endpoint_index, endpoints_equal, find_endpoint, find_header, header_index,
    lemma_endpoint_index_found, lemma_header_index_found,
    lemma_rename_keeps_names_unique, name_in_use_message, names_unique, remove_endpoint_named, remove_header_named, remove_variable,
    rename_endpoints, renamed_endpoints, saved_endpoints, upsert_endpoint, set_endpoint_headers, unique_name_error, url_changed,
    change_url,
    variable_index, EndpointView, Header, PersistedEndpoint, PersistedProject, ProjectView,
};
use crate::windows::{
    endpoint_names, edit_header_message, is_edit_header_message, AddHeaderWindowMessages, SpecificNameUpdate,
};
use crate::messages::confirm_actions::{
    confirm_delete_endpoint, confirm_delete_header, is_delete_endpoint_question,
    is_delete_header_question,
};
use crate::text::{append_str, chars_of, chars_upto, str_eq, string_of};
use crate::textarea::TextAreaMessages;
use crate::windows::FloatingWindow;

verus! {

/// What the main area of the dashboard shows.
#[derive(Debug, Clone, Copy, PartialEq, Eq, Structural)]
pub enum DashboardDisplay {
    RequestBody,
    RequestHeadersEditor,
    ResponseBody,
    ResponseHeaders,
}

/// The name under which templates see what the main area shows.
pub open spec fn display_name(d: DashboardDisplay) -> Seq<char> {
    match d {
        DashboardDisplay::RequestBody => "request_body"@,
        DashboardDisplay::RequestHeadersEditor => "request_headers_editor"@,
        DashboardDisplay::ResponseBody => "response_body"@,
        DashboardDisplay::ResponseHeaders => "response_headers"@,
    }
}

impl DashboardDisplay {
    /// The name under which templates see this display.
    pub fn to_common(&self) -> (r: &'static str)
        ensures
            r@ == display_name(*self),
    {
        match self {
            DashboardDisplay::RequestBody => "request_body",
            DashboardDisplay::RequestHeadersEditor => "request_headers_editor",
            DashboardDisplay::ResponseBody => "response_body",
            DashboardDisplay::ResponseHeaders => "response_headers",
        }
    }
}

/// The text of an input, with the input's id.
#[derive(Debug)]
pub struct TextUpdate {
    pub id: String,
    pub value: String,
}

/// Messages a text input sends: its text changed, was set, or Esc was pressed
/// in it.
#[derive(Debug)]
pub enum TextInputMessages {
    Change(String),
    Update(TextUpdate),
    Escape(TextUpdate),
}

/// Messages the dashboard receives from other components.
#[derive(Debug)]
pub enum DashboardMessages {
    TextInput(TextInputMessages),
    TextArea(TextAreaMessages),
    ThemeUpdate,
    ButtonStyleUpdate,
    ShowSucces((String, String)),
    ShowError(String),
    Confirmations(ConfirmAction),
    BackToRequest,
}

/// What the dashboard is asked to do. `apply_command` makes the changes to
/// the dashboard's state; the work outside it (saving, sending, messages to
/// other windows) is the caller's.
#[derive(Debug, Clone, Copy, PartialEq, Eq, Structural)]
pub enum DashboardCommand {
    Nothing,
    FocusApp,
    OpenCommands,
    SaveProject,
    EditEndpointName,
    EditProjectName,
    SaveEndpoint,
    OpenOptions,
    NewEndpoint,
    NewProject,
    SaveResponse,
    FocusUrl,
    Quit,
    SendRequest,
    GoBack,
    ShowRequestHeaders,
    OpenEndpointsSelector,
    OpenProjects,
    GoToHeaders,
    FocusMethodSelector,
    OpenAddHeader,
    OpenEditHeader,
    CopyResponse,
    BackToRequest,
    RenameProject,
    RenameEndpoint,
    RenameVariable,
    OpenAddVariable,
}

/// A key as the dashboard tells keys apart.
#[derive(Debug, Clone, Copy, PartialEq, Eq, Structural)]
pub enum DashboardKey {
    Char(char),
    Esc,
    Enter,
    Other,
}

/// What the dashboard shows: the main area and the floating window.
#[derive(Debug, Clone, Copy, PartialEq, Eq, Structural)]
pub struct DashboardView {
    pub main_display: DashboardDisplay,
    pub floating_window: FloatingWindow,
}

/// The command a character key asks for, given what the main area shows and
/// whether Ctrl is held.
pub open spec fn char_command(c: char, ctrl: bool, main: DashboardDisplay) -> DashboardCommand {
    if c == 'c' {
        DashboardCommand::OpenCommands
    } else if c == 's' {
        DashboardCommand::SaveProject
    } else if c == 'n' {
        DashboardCommand::EditEndpointName
    } else if c == 'j' {
        DashboardCommand::EditProjectName
    } else if c == 'i' {
        DashboardCommand::SaveEndpoint
    } else if c == 'o' {
        DashboardCommand::OpenOptions
    } else if c == 't' {
        DashboardCommand::NewEndpoint
    } else if c == 'w' {
        DashboardCommand::NewProject
    } else if c == 'v' {
        DashboardCommand::SaveResponse
    } else if c == 'u' {
        if ctrl {
            DashboardCommand::Nothing
        } else {
            DashboardCommand::FocusUrl
        }
    } else if c == 'q' {
        DashboardCommand::Quit
    } else if c == 'r' {
        DashboardCommand::SendRequest
    } else if c == 'b' {
        DashboardCommand::GoBack
    } else if c == 'd' {
        DashboardCommand::ShowRequestHeaders
    } else if c == 'e' {
        DashboardCommand::OpenEndpointsSelector
    } else if c == 'p' {
        DashboardCommand::OpenProjects
    } else if c == 'h' {
        DashboardCommand::GoToHeaders
    } else if c == 'm' {
        DashboardCommand::FocusMethodSelector
    } else if c == 'a' {
        if main == DashboardDisplay::RequestHeadersEditor {
            DashboardCommand::OpenAddHeader
        } else {
            DashboardCommand::Nothing
        }
    } else if c == 'y' {
        DashboardCommand::CopyResponse
    } else {
        DashboardCommand::Nothing
    }
}

/// The command a key asks for.
pub open spec fn key_command(key: DashboardKey, ctrl: bool, main: DashboardDisplay) -> DashboardCommand {
    match key {
        DashboardKey::Char(c) => char_command(c, ctrl, main),
        DashboardKey::Esc => DashboardCommand::FocusApp,
        _ => DashboardCommand::Nothing,
    }
}

/// What the dashboard shows after a key: `'m'` opens the method selector;
/// Esc closes the floating window, or, when none is open, goes back to the
/// request body.
pub open spec fn key_view(key: DashboardKey, v: DashboardView) -> DashboardView {
    match key {
        DashboardKey::Char(c) => if c == 'm' {
            DashboardView { floating_window: FloatingWindow::Method, ..v }
        } else {
            v
        },
        DashboardKey::Esc => if v.floating_window != FloatingWindow::Closed {
            DashboardView { floating_window: FloatingWindow::Closed, ..v }
        } else {
            DashboardView { main_display: DashboardDisplay::RequestBody, ..v }
        },
        _ => v,
    }
}

/// Handles a key press on the dashboard: updates what it shows and returns the
/// command the key asks for.
pub fn keyboard_events(view: &mut DashboardView, key: DashboardKey, ctrl: bool) -> (command:
    DashboardCommand)
    ensures
        command == key_command(key, ctrl, old(view).main_display),
        *final(view) == key_view(key, *old(view)),
{
    match key {
        DashboardKey::Char(c) => {
            let main = view.main_display;
            if c == 'c' {
                DashboardCommand::OpenCommands
            } else if c == 's' {
                DashboardCommand::SaveProject
            } else if c == 'n' {
                DashboardCommand::EditEndpointName
            } else if c == 'j' {
                DashboardCommand::EditProjectName
            } else if c == 'i' {
                DashboardCommand::SaveEndpoint
            } else if c == 'o' {
                DashboardCommand::OpenOptions
            } else if c == 't' {
                DashboardCommand::NewEndpoint
            } else if c == 'w' {
                DashboardCommand::NewProject
            } else if c == 'v' {
                DashboardCommand::SaveResponse
            } else if c == 'u' {
                if ctrl {
                    DashboardCommand::Nothing
                } else {
                    DashboardCommand::FocusUrl
                }
            } else if c == 'q' {
                DashboardCommand::Quit
            } else if c == 'r' {
                DashboardCommand::SendRequest
            } else if c == 'b' {
                DashboardCommand::GoBack
            } else if c == 'd' {
                DashboardCommand::ShowRequestHeaders
            } else if c == 'e' {
                DashboardCommand::OpenEndpointsSelector
            } else if c == 'p' {
                DashboardCommand::OpenProjects
            } else if c == 'h' {
                DashboardCommand::GoToHeaders
            } else if c == 'm' {
                view.floating_window = FloatingWindow::Method;
                DashboardCommand::FocusMethodSelector
            } else if c == 'a' {
                match main {
                    DashboardDisplay::RequestHeadersEditor => DashboardCommand::OpenAddHeader,
                    _ => DashboardCommand::Nothing,
                }
            } else if c == 'y' {
                DashboardCommand::CopyResponse
            } else {
                DashboardCommand::Nothing
            }
        },
        DashboardKey::Esc => {
            match view.floating_window {
                FloatingWindow::Closed => {
                    view.main_display = DashboardDisplay::RequestBody;
                },
                _ => {
                    view.floating_window = FloatingWindow::Closed;
                },
            }
            DashboardCommand::FocusApp
        },
        _ => DashboardCommand::Nothing,
    }
}

/// The letter keys that ask for a command whatever the dashboard shows and
/// whether Ctrl is held (`'u'` and `'a'` depend on one of these).
pub open spec fn is_shortcut_key(c: char) -> bool {
    c == 'c' || c == 's' || c == 'n' || c == 'j' || c == 'i' || c == 'o' || c == 't' || c == 'w'
        || c == 'v' || c == 'q' || c == 'r' || c == 'b' || c == 'd' || c == 'e' || c == 'p' || c
        == 'h' || c == 'm' || c == 'y'
}

/// Each shortcut key asks for a command of its own: two different shortcut
/// keys never ask for the same command, none asks for nothing, and what a
/// shortcut asks for depends neither on Ctrl nor on what the main area shows.
pub proof fn lemma_shortcut_keys_distinct(
    c1: char,
    c2: char,
    ctrl1: bool,
    ctrl2: bool,
    main1: DashboardDisplay,
    main2: DashboardDisplay,
)
    requires
        is_shortcut_key(c1),
        is_shortcut_key(c2),
    ensures
        key_command(DashboardKey::Char(c1), ctrl1, main1) != DashboardCommand::Nothing,
        c1 != c2 ==> key_command(DashboardKey::Char(c1), ctrl1, main1) != key_command(
            DashboardKey::Char(c2),
            ctrl2,
            main2,
        ),
        c1 == c2 ==> key_command(DashboardKey::Char(c1), ctrl1, main1) == key_command(
            DashboardKey::Char(c2),
            ctrl2,
            main2,
        ),
{
}

/// The dashboard's key map: what each letter asks for, whatever the
/// dashboard shows and whether Ctrl is held (but for `'u'`, which Ctrl turns
/// off, and `'a'`, which adds a header only in the headers editor); `'m'` also
/// opens the method selector, Esc gives the focus back to the app, and every
/// other key asks for nothing.
pub proof fn lemma_key_map(ctrl: bool, main: DashboardDisplay, v: DashboardView, other: char)
    ensures
        !is_shortcut_key(other) && other != 'u' && other != 'a' ==> key_command(
            DashboardKey::Char(other),
            ctrl,
            main,
        ) == DashboardCommand::Nothing,
        key_command(DashboardKey::Char('c'), ctrl, main) == DashboardCommand::OpenCommands,
        key_command(DashboardKey::Char('s'), ctrl, main) == DashboardCommand::SaveProject,
        key_command(DashboardKey::Char('n'), ctrl, main) == DashboardCommand::EditEndpointName,
        key_command(DashboardKey::Char('j'), ctrl, main) == DashboardCommand::EditProjectName,
        key_command(DashboardKey::Char('i'), ctrl, main) == DashboardCommand::SaveEndpoint,
        key_command(DashboardKey::Char('o'), ctrl, main) == DashboardCommand::OpenOptions,
        key_command(DashboardKey::Char('t'), ctrl, main) == DashboardCommand::NewEndpoint,
        key_command(DashboardKey::Char('w'), ctrl, main) == DashboardCommand::NewProject,
        key_command(DashboardKey::Char('v'), ctrl, main) == DashboardCommand::SaveResponse,
        key_command(DashboardKey::Char('u'), ctrl, main) == if ctrl {
            DashboardCommand::Nothing
        } else {
            DashboardCommand::FocusUrl
        },
        key_command(DashboardKey::Char('q'), ctrl, main) == DashboardCommand::Quit,
        key_command(DashboardKey::Char('r'), ctrl, main) == DashboardCommand::SendRequest,
        key_command(DashboardKey::Char('b'), ctrl, main) == DashboardCommand::GoBack,
        key_command(DashboardKey::Char('d'), ctrl, main) == DashboardCommand::ShowRequestHeaders,
        key_command(DashboardKey::Char('e'), ctrl, main) == DashboardCommand::OpenEndpointsSelector,
        key_command(DashboardKey::Char('p'), ctrl, main) == DashboardCommand::OpenProjects,
        key_command(DashboardKey::Char('h'), ctrl, main) == DashboardCommand::GoToHeaders,
        key_command(DashboardKey::Char('m'), ctrl, main) == DashboardCommand::FocusMethodSelector,
        key_view(DashboardKey::Char('m'), v) == (DashboardView {
            floating_window: FloatingWindow::Method,
            ..v
        }),
        key_command(DashboardKey::Char('a'), ctrl, main) == if main
            == DashboardDisplay::RequestHeadersEditor {
            DashboardCommand::OpenAddHeader
        } else {
            DashboardCommand::Nothing
        },
        key_command(DashboardKey::Char('y'), ctrl, main) == DashboardCommand::CopyResponse,
        key_command(DashboardKey::Esc, ctrl, main) == DashboardCommand::FocusApp,
        key_command(DashboardKey::Enter, ctrl, main) == DashboardCommand::Nothing,
{
}

/// Two presses of Esc always bring the dashboard back to the request body with
/// no floating window, whatever it showed before.
pub proof fn lemma_two_escapes_return_to_request_body(v: DashboardView)
    ensures
        key_view(DashboardKey::Esc, key_view(DashboardKey::Esc, v)) == (DashboardView {
            main_display: DashboardDisplay::RequestBody,
            floating_window: FloatingWindow::Closed,
        }),
{
}

/// Keys other than `'m'` and Esc leave what the dashboard shows as it was.
pub proof fn lemma_other_keys_keep_view(v: DashboardView, key: DashboardKey)
    requires
        key != DashboardKey::Char('m'),
        key != DashboardKey::Esc,
    ensures
        key_view(key, v) == v,
{
}

/// The command a component event called `ident` asks for, given what the main
/// area shows.
pub open spec fn event_command(ident: Seq<char>, main: DashboardDisplay) -> DashboardCommand {
    let response_body = main == DashboardDisplay::ResponseBody;
    let request_body = main == DashboardDisplay::RequestBody;
    let headers_editor = main == DashboardDisplay::RequestHeadersEditor;
    if ident == "url_input_focus"@ {
        DashboardCommand::FocusApp
    } else if ident == "add_new_project"@ {
        DashboardCommand::NewProject
    } else if ident == "project_name_click"@ {
        DashboardCommand::EditProjectName
    } else if ident == "endpoint_name_click"@ {
        DashboardCommand::EditEndpointName
    } else if ident == "new_project_click"@ {
        DashboardCommand::NewProject
    } else if ident == "new_endpoint_click"@ {
        DashboardCommand::NewEndpoint
    } else if ident == "commands_button_click"@ {
        DashboardCommand::OpenCommands
    } else if ident == "send_back_to_request_from_response_renderer_click"@ && response_body {
        DashboardCommand::GoBack
    } else if ident == "send_show_response_headers_click"@ && response_body {
        DashboardCommand::GoToHeaders
    } else if ident == "send_copy_response_click"@ && response_body {
        DashboardCommand::CopyResponse
    } else if ident == "send_save_response_click"@ && response_body {
        DashboardCommand::SaveResponse
    } else if ident == "send_request_click"@ && request_body {
        DashboardCommand::SendRequest
    } else if ident == "show_request_headers"@ && request_body {
        DashboardCommand::ShowRequestHeaders
    } else if ident == "send_request_click_request_body"@ && headers_editor {
        DashboardCommand::SendRequest
    } else if ident == "add_header_click"@ && headers_editor {
        DashboardCommand::OpenAddHeader
    } else if ident == "edit_header_click"@ && headers_editor {
        DashboardCommand::OpenEditHeader
    } else if ident == "back_to_request_click"@ && headers_editor {
        DashboardCommand::BackToRequest
    } else if ident == "save_project_click"@ {
        DashboardCommand::SaveProject
    } else if ident == "save_endpoint_click"@ {
        DashboardCommand::SaveEndpoint
    } else if ident == "swap_project_click"@ {
        DashboardCommand::OpenProjects
    } else if ident == "swap_endpoint_click"@ {
        DashboardCommand::OpenEndpointsSelector
    } else if ident == "options_button_click"@ {
        DashboardCommand::OpenOptions
    } else if ident == "rename_project"@ {
        DashboardCommand::RenameProject
    } else if ident == "rename_endpoint"@ {
        DashboardCommand::RenameEndpoint
    } else if ident == "rename_variable"@ {
        DashboardCommand::RenameVariable
    } else if ident == "open_add_variable_window"@ {
        DashboardCommand::OpenAddVariable
    } else {
        DashboardCommand::Nothing
    }
}

/// What each component event asks of the dashboard: the buttons of the
/// response view act only while it shows the response body, those of the
/// request view only while it shows the request body, those of the headers
/// editor only while it is open; the others act whatever the dashboard shows.
pub proof fn lemma_event_map(main: DashboardDisplay)
    ensures
        event_command("url_input_focus"@, main) == DashboardCommand::FocusApp,
        event_command("add_new_project"@, main) == DashboardCommand::NewProject,
        event_command("project_name_click"@, main) == DashboardCommand::EditProjectName,
        event_command("endpoint_name_click"@, main) == DashboardCommand::EditEndpointName,
        event_command("new_project_click"@, main) == DashboardCommand::NewProject,
        event_command("new_endpoint_click"@, main) == DashboardCommand::NewEndpoint,
        event_command("commands_button_click"@, main) == DashboardCommand::OpenCommands,
        event_command("send_back_to_request_from_response_renderer_click"@, main) == if main == DashboardDisplay::ResponseBody {
            DashboardCommand::GoBack
        } else {
            DashboardCommand::Nothing
        },
        event_command("send_show_response_headers_click"@, main) == if main == DashboardDisplay::ResponseBody {
            DashboardCommand::GoToHeaders
        } else {
            DashboardCommand::Nothing
        },
        event_command("send_copy_response_click"@, main) == if main == DashboardDisplay::ResponseBody {
            DashboardCommand::CopyResponse
        } else {
            DashboardCommand::Nothing
        },
        event_command("send_save_response_click"@, main) == if main == DashboardDisplay::ResponseBody {
            DashboardCommand::SaveResponse
        } else {
            DashboardCommand::Nothing
        },
        event_command("send_request_click"@, main) == if main == DashboardDisplay::RequestBody {
            DashboardCommand::SendRequest
        } else {
            DashboardCommand::Nothing
        },
        event_command("show_request_headers"@, main) == if main == DashboardDisplay::RequestBody {
            DashboardCommand::ShowRequestHeaders
        } else {
            DashboardCommand::Nothing
        },
        event_command("send_request_click_request_body"@, main) == if main == DashboardDisplay::RequestHeadersEditor {
            DashboardCommand::SendRequest
        } else {
            DashboardCommand::Nothing
        },
        event_command("add_header_click"@, main) == if main == DashboardDisplay::RequestHeadersEditor {
            DashboardCommand::OpenAddHeader
        } else {
            DashboardCommand::Nothing
        },
        event_command("edit_header_click"@, main) == if main == DashboardDisplay::RequestHeadersEditor {
            DashboardCommand::OpenEditHeader
        } else {
            DashboardCommand::Nothing
        },
        event_command("back_to_request_click"@, main) == if main == DashboardDisplay::RequestHeadersEditor {
            DashboardCommand::BackToRequest
        } else {
            DashboardCommand::Nothing
        },
        event_command("save_project_click"@, main) == DashboardCommand::SaveProject,
        event_command("save_endpoint_click"@, main) == DashboardCommand::SaveEndpoint,
        event_command("swap_project_click"@, main) == DashboardCommand::OpenProjects,
        event_command("swap_endpoint_click"@, main) == DashboardCommand::OpenEndpointsSelector,
        event_command("options_button_click"@, main) == DashboardCommand::OpenOptions,
        event_command("rename_project"@, main) == DashboardCommand::RenameProject,
        event_command("rename_endpoint"@, main) == DashboardCommand::RenameEndpoint,
        event_command("rename_variable"@, main) == DashboardCommand::RenameVariable,
        event_command("open_add_variable_window"@, main) == DashboardCommand::OpenAddVariable,
{
    reveal_strlit("url_input_focus");
    reveal_strlit("add_new_project");
    reveal_strlit("project_name_click");
    reveal_strlit("endpoint_name_click");
    reveal_strlit("new_project_click");
    reveal_strlit("new_endpoint_click");
    reveal_strlit("commands_button_click");
    reveal_strlit("send_back_to_request_from_response_renderer_click");
    reveal_strlit("send_show_response_headers_click");
    reveal_strlit("send_copy_response_click");
    reveal_strlit("send_save_response_click");
    reveal_strlit("send_request_click");
    reveal_strlit("show_request_headers");
    reveal_strlit("send_request_click_request_body");
    reveal_strlit("add_header_click");
    reveal_strlit("edit_header_click");
    reveal_strlit("back_to_request_click");
    reveal_strlit("save_project_click");
    reveal_strlit("save_endpoint_click");
    reveal_strlit("swap_project_click");
    reveal_strlit("swap_endpoint_click");
    reveal_strlit("options_button_click");
    reveal_strlit("rename_project");
    reveal_strlit("rename_endpoint");
    reveal_strlit("rename_variable");
    reveal_strlit("open_add_variable_window");
    assert("add_header_click"@.len() == 16);
    assert("add_new_project"@.len() == 15);
    assert("back_to_request_click"@.len() == 21);
    assert("commands_button_click"@.len() == 21);
    assert("edit_header_click"@.len() == 17);
    assert("endpoint_name_click"@.len() == 19);
    assert("new_endpoint_click"@.len() == 18);
    assert("new_project_click"@.len() == 17);
    assert("open_add_variable_window"@.len() == 24);
    assert("options_button_click"@.len() == 20);
    assert("project_name_click"@.len() == 18);
    assert("rename_endpoint"@.len() == 15);
    assert("rename_project"@.len() == 14);
    assert("rename_variable"@.len() == 15);
    assert("save_endpoint_click"@.len() == 19);
    assert("save_project_click"@.len() == 18);
    assert("send_back_to_request_from_response_renderer_click"@.len() == 49);
    assert("send_copy_response_click"@.len() == 24);
    assert("send_request_click"@.len() == 18);
    assert("send_request_click_request_body"@.len() == 31);
    assert("send_save_response_click"@.len() == 24);
    assert("send_show_response_headers_click"@.len() == 32);
    assert("show_request_headers"@.len() == 20);
    assert("swap_endpoint_click"@.len() == 19);
    assert("swap_project_click"@.len() == 18);
    assert("url_input_focus"@.len() == 15);
    assert("add_new_project"@[0] == 'a' && "url_input_focus"@[0] == 'u');
    assert("new_endpoint_click"@[0] == 'n' && "project_name_click"@[0] == 'p');
    assert("send_save_response_click"@[5] == 's' && "send_copy_response_click"@[5] == 'c');
    assert("send_request_click"@[0] == 's' && "project_name_click"@[0] == 'p');
    assert("send_request_click"@[0] == 's' && "new_endpoint_click"@[0] == 'n');
    assert("edit_header_click"@[0] == 'e' && "new_project_click"@[0] == 'n');
    assert("back_to_request_click"@[0] == 'b' && "commands_button_click"@[0] == 'c');
    assert("save_project_click"@[0] == 's' && "project_name_click"@[0] == 'p');
    assert("save_project_click"@[0] == 's' && "new_endpoint_click"@[0] == 'n');
    assert("save_project_click"@[1] == 'a' && "send_request_click"@[1] == 'e');
    assert("save_endpoint_click"@[0] == 's' && "endpoint_name_click"@[0] == 'e');
    assert("swap_project_click"@[0] == 's' && "project_name_click"@[0] == 'p');
    assert("swap_project_click"@[0] == 's' && "new_endpoint_click"@[0] == 'n');
    assert("swap_project_click"@[1] == 'w' && "send_request_click"@[1] == 'e');
    assert("swap_project_click"@[1] == 'w' && "save_project_click"@[1] == 'a');
    assert("swap_endpoint_click"@[0] == 's' && "endpoint_name_click"@[0] == 'e');
    assert("swap_endpoint_click"@[1] == 'w' && "save_endpoint_click"@[1] == 'a');
    assert("options_button_click"@[0] == 'o' && "show_request_headers"@[0] == 's');
    assert("rename_endpoint"@[0] == 'r' && "url_input_focus"@[0] == 'u');
    assert("rename_endpoint"@[0] == 'r' && "add_new_project"@[0] == 'a');
    assert("rename_variable"@[0] == 'r' && "url_input_focus"@[0] == 'u');
    assert("rename_variable"@[0] == 'r' && "add_new_project"@[0] == 'a');
    assert("rename_variable"@[7] == 'v' && "rename_endpoint"@[7] == 'e');
    assert("open_add_variable_window"@[0] == 'o' && "send_copy_response_click"@[0] == 's');
    assert("open_add_variable_window"@[0] == 'o' && "send_save_response_click"@[0] == 's');
}

/// The dashboard's buttons and its keys agree: clicking a button asks for the
/// same command as pressing its key (projects and `'p'`, endpoints and `'e'`,
/// saving the project and `'s'`, saving the endpoint and `'i'`, options and
/// `'o'`, commands and `'c'`, a new project and `'w'`, a new endpoint and `'t'`,
/// the project name and `'j'`, the endpoint name and `'n'`), whatever the
/// dashboard shows.
pub proof fn lemma_buttons_match_keys(ctrl: bool, main: DashboardDisplay)
    ensures
        event_command("swap_project_click"@, main) == key_command(DashboardKey::Char('p'), ctrl, main),
        event_command("swap_endpoint_click"@, main) == key_command(DashboardKey::Char('e'), ctrl, main),
        event_command("save_project_click"@, main) == key_command(DashboardKey::Char('s'), ctrl, main),
        event_command("save_endpoint_click"@, main) == key_command(DashboardKey::Char('i'), ctrl, main),
        event_command("options_button_click"@, main) == key_command(DashboardKey::Char('o'), ctrl, main),
        event_command("commands_button_click"@, main) == key_command(DashboardKey::Char('c'), ctrl, main),
        event_command("new_project_click"@, main) == key_command(DashboardKey::Char('w'), ctrl, main),
        event_command("new_endpoint_click"@, main) == key_command(DashboardKey::Char('t'), ctrl, main),
        event_command("project_name_click"@, main) == key_command(DashboardKey::Char('j'), ctrl, main),
        event_command("endpoint_name_click"@, main) == key_command(DashboardKey::Char('n'), ctrl, main),
{
    lemma_event_map(main);
}

/// The component that handles events of its own, sent to the dashboard.
#[derive(Debug, Clone, Copy, PartialEq, Eq, Structural)]
pub enum MessageHandler {
    Nobody,
    ConfirmAction,
    ProjectVariables,
    AddProjectVariable,
    BodyModeSelector,
    FileSelector,
    Commands,
    CodeGen,
    AddHeader,
    EditHeaderSelector,
    MethodSelector,
    ProjectWindow,
    EditEndpointName,
    EditProjectName,
    EndpointsSelector,
}

/// Whether `"__"` starts at index `i` of `s`.
pub open spec fn double_underscore_at(s: Seq<char>, i: int) -> bool {
    0 <= i && i + 1 < s.len() && s[i] == '_' && s[i + 1] == '_'
}

/// Index of the first `"__"` in `s`, if any.
pub open spec fn double_underscore_index(s: Seq<char>) -> Option<int> {
    if exists|i: int| #[trigger] double_underscore_at(s, i) {
        Some(
            choose|i: int|
                #[trigger] double_underscore_at(s, i) && forall|j: int|
                    0 <= j < i ==> !double_underscore_at(s, j),
        )
    } else {
        None
    }
}

/// The component an event called `ident` comes from: what stands before its
/// first `"__"`, or nothing.
pub open spec fn event_component(ident: Seq<char>) -> Seq<char> {
    match double_underscore_index(ident) {
        Some(i) => ident.take(i),
        None => Seq::empty(),
    }
}

/// The handler of the component called `component`.
pub open spec fn component_handler(component: Seq<char>) -> MessageHandler {
    if component == "confirm_action"@ {
        MessageHandler::ConfirmAction
    } else if component == "project_variables"@ {
        MessageHandler::ProjectVariables
    } else if component == "add_project_variable"@ {
        MessageHandler::AddProjectVariable
    } else if component == "body_mode_selector"@ {
        MessageHandler::BodyModeSelector
    } else if component == "file_selector"@ {
        MessageHandler::FileSelector
    } else if component == "commands"@ {
        MessageHandler::Commands
    } else if component == "codegen"@ {
        MessageHandler::CodeGen
    } else if component == "add_header"@ {
        MessageHandler::AddHeader
    } else if component == "edit_header_selector"@ {
        MessageHandler::EditHeaderSelector
    } else if component == "method_selector"@ {
        MessageHandler::MethodSelector
    } else if component == "project_window"@ {
        MessageHandler::ProjectWindow
    } else if component == "edit_endpoint_name"@ {
        MessageHandler::EditEndpointName
    } else if component == "edit_project_name"@ {
        MessageHandler::EditProjectName
    } else if component == "endpoints_selector"@ {
        MessageHandler::EndpointsSelector
    } else {
        MessageHandler::Nobody
    }
}

/// What stands before the first `"__"` of `ident`, or nothing.
fn component_of(ident: &str) -> (r: String)
    ensures
        r@ == event_component(ident@),
{
    let v = chars_of(ident);
    let ghost s = v@;
    let mut i: usize = 0;
    while v.len() > 0 && i < v.len() - 1
        invariant
            s == v@,
            s == ident@,
            i <= v.len(),
            forall|j: int| 0 <= j < i ==> !#[trigger] double_underscore_at(s, j),
        decreases v.len() - i,
    {
        if v[i] == '_' && v[i + 1] == '_' {
            proof {
                assert(double_underscore_at(s, i as int));
                let k = choose|k: int|
                    #[trigger] double_underscore_at(s, k) && forall|j: int|
                        0 <= j < k ==> !double_underscore_at(s, j);
                assert(k == i) by {
                    if k > i {
                        assert(!double_underscore_at(s, i as int));
                    }
                }
            }
            let prefix = chars_upto(&v, i);
            return string_of(prefix.as_slice());
        }
        i += 1;
    }
    proof {
        assert forall|k: int| !#[trigger] double_underscore_at(s, k) by {
            if double_underscore_at(s, k) {
                assert(k < i);
            }
        }
    }
    String::new()
}

/// Routes a component event called `ident`: the command it asks of the
/// dashboard, and the component whose handler then receives it.
pub fn associated_functions(ident: &str, main: DashboardDisplay) -> (r: (DashboardCommand, MessageHandler))
    ensures
        r.0 == event_command(ident@, main),
        r.1 == component_handler(event_component(ident@)),
{
    let response_body = main == DashboardDisplay::ResponseBody;
    let request_body = main == DashboardDisplay::RequestBody;
    let headers_editor = main == DashboardDisplay::RequestHeadersEditor;
    let command = if str_eq(ident, "url_input_focus") {
        DashboardCommand::FocusApp
    } else if str_eq(ident, "add_new_project") {
        DashboardCommand::NewProject
    } else if str_eq(ident, "project_name_click") {
        DashboardCommand::EditProjectName
    } else if str_eq(ident, "endpoint_name_click") {
        DashboardCommand::EditEndpointName
    } else if str_eq(ident, "new_project_click") {
        DashboardCommand::NewProject
    } else if str_eq(ident, "new_endpoint_click") {
        DashboardCommand::NewEndpoint
    } else if str_eq(ident, "commands_button_click") {
        DashboardCommand::OpenCommands
    } else if str_eq(ident, "send_back_to_request_from_response_renderer_click") && response_body {
        DashboardCommand::GoBack
    } else if str_eq(ident, "send_show_response_headers_click") && response_body {
        DashboardCommand::GoToHeaders
    } else if str_eq(ident, "send_copy_response_click") && response_body {
        DashboardCommand::CopyResponse
    } else if str_eq(ident, "send_save_response_click") && response_body {
        DashboardCommand::SaveResponse
    } else if str_eq(ident, "send_request_click") && request_body {
        DashboardCommand::SendRequest
    } else if str_eq(ident, "show_request_headers") && request_body {
        DashboardCommand::ShowRequestHeaders
    } else if str_eq(ident, "send_request_click_request_body") && headers_editor {
        DashboardCommand::SendRequest
    } else if str_eq(ident, "add_header_click") && headers_editor {
        DashboardCommand::OpenAddHeader
    } else if str_eq(ident, "edit_header_click") && headers_editor {
        DashboardCommand::OpenEditHeader
    } else if str_eq(ident, "back_to_request_click") && headers_editor {
        DashboardCommand::BackToRequest
    } else if str_eq(ident, "save_project_click") {
        DashboardCommand::SaveProject
    } else if str_eq(ident, "save_endpoint_click") {
        DashboardCommand::SaveEndpoint
    } else if str_eq(ident, "swap_project_click") {
        DashboardCommand::OpenProjects
    } else if str_eq(ident, "swap_endpoint_click") {
        DashboardCommand::OpenEndpointsSelector
    } else if str_eq(ident, "options_button_click") {
        DashboardCommand::OpenOptions
    } else if str_eq(ident, "rename_project") {
        DashboardCommand::RenameProject
    } else if str_eq(ident, "rename_endpoint") {
        DashboardCommand::RenameEndpoint
    } else if str_eq(ident, "rename_variable") {
        DashboardCommand::RenameVariable
    } else if str_eq(ident, "open_add_variable_window") {
        DashboardCommand::OpenAddVariable
    } else {
        DashboardCommand::Nothing
    };
    let component = component_of(ident);
    let c = component.as_str();
    let handler = if str_eq(c, "confirm_action") {
        MessageHandler::ConfirmAction
    } else if str_eq(c, "project_variables") {
        MessageHandler::ProjectVariables
    } else if str_eq(c, "add_project_variable") {
        MessageHandler::AddProjectVariable
    } else if str_eq(c, "body_mode_selector") {
        MessageHandler::BodyModeSelector
    } else if str_eq(c, "file_selector") {
        MessageHandler::FileSelector
    } else if str_eq(c, "commands") {
        MessageHandler::Commands
    } else if str_eq(c, "codegen") {
        MessageHandler::CodeGen
    } else if str_eq(c, "add_header") {
        MessageHandler::AddHeader
    } else if str_eq(c, "edit_header_selector") {
        MessageHandler::EditHeaderSelector
    } else if str_eq(c, "method_selector") {
        MessageHandler::MethodSelector
    } else if str_eq(c, "project_window") {
        MessageHandler::ProjectWindow
    } else if str_eq(c, "edit_endpoint_name") {
        MessageHandler::EditEndpointName
    } else if str_eq(c, "edit_project_name") {
        MessageHandler::EditProjectName
    } else if str_eq(c, "endpoints_selector") {
        MessageHandler::EndpointsSelector
    } else {
        MessageHandler::Nobody
    };
    (command, handler)
}

/// The id of the component that takes the focus for what the main area shows.
pub open spec fn display_focus(d: DashboardDisplay) -> Seq<char> {
    match d {
        DashboardDisplay::RequestBody => "request"@,
        DashboardDisplay::RequestHeadersEditor => "request_headers_editor"@,
        DashboardDisplay::ResponseBody => "response_renderer"@,
        DashboardDisplay::ResponseHeaders => "response_headers"@,
    }
}

/// The id of the component that takes the focus for a floating window, if any.
pub open spec fn window_focus(w: FloatingWindow) -> Option<Seq<char>> {
    match w {
        FloatingWindow::Closed => None,
        FloatingWindow::Method => Some("method_selector"@),
        FloatingWindow::AddHeader => Some("add_header_window"@),
        FloatingWindow::Error => None,
        FloatingWindow::Message => None,
        FloatingWindow::EditHeaderSelector => Some("edit_header_selector"@),
        FloatingWindow::Project => Some("project_selector"@),
        FloatingWindow::ConfirmAction => Some("confirm_action_window"@),
        FloatingWindow::ChangeEndpointName => Some("edit_endpoint_name"@),
        FloatingWindow::ChangeProjectName => Some("edit_project_name"@),
        FloatingWindow::EndpointsSelector => Some("endpoints_selector_window"@),
        FloatingWindow::Commands => Some("commands_window"@),
        FloatingWindow::CodeGen => Some("codegen_window"@),
        FloatingWindow::PostmanFileSelector => Some("postman_file_selector"@),
        FloatingWindow::BodyModeSelector => Some("body_mode_selector"@),
        FloatingWindow::AddProjectVariable => Some("add_project_variable"@),
        FloatingWindow::ViewProjectVariables => Some("project_variables"@),
    }
}

/// The components that take the focus, in turn, when the dashboard gets it:
/// the one for the main area, then the one for the floating window, if any.
pub fn focus_targets(view: &DashboardView) -> (r: (&'static str, Option<&'static str>))
    ensures
        r.0@ == display_focus(view.main_display),
        match window_focus(view.floating_window) {
            Some(id) => r.1 matches Some(s) && s@ == id,
            None => r.1 is None,
        },
{
    let main = match view.main_display {
        DashboardDisplay::RequestBody => "request",
        DashboardDisplay::RequestHeadersEditor => "request_headers_editor",
        DashboardDisplay::ResponseBody => "response_renderer",
        DashboardDisplay::ResponseHeaders => "response_headers",
    };
    let window = match view.floating_window {
        FloatingWindow::Closed => None,
        FloatingWindow::Method => Some("method_selector"),
        FloatingWindow::AddHeader => Some("add_header_window"),
        FloatingWindow::Error => None,
        FloatingWindow::Message => None,
        FloatingWindow::EditHeaderSelector => Some("edit_header_selector"),
        FloatingWindow::Project => Some("project_selector"),
        FloatingWindow::ConfirmAction => Some("confirm_action_window"),
        FloatingWindow::ChangeEndpointName => Some("edit_endpoint_name"),
        FloatingWindow::ChangeProjectName => Some("edit_project_name"),
        FloatingWindow::EndpointsSelector => Some("endpoints_selector_window"),
        FloatingWindow::Commands => Some("commands_window"),
        FloatingWindow::CodeGen => Some("codegen_window"),
        FloatingWindow::PostmanFileSelector => Some("postman_file_selector"),
        FloatingWindow::BodyModeSelector => Some("body_mode_selector"),
        FloatingWindow::AddProjectVariable => Some("add_project_variable"),
        FloatingWindow::ViewProjectVariables => Some("project_variables"),
    };
    (main, window)
}

/// The state of the dashboard that its decisions read and change.
#[derive(Debug)]
pub struct DashboardState {
    pub main_display: DashboardDisplay,
    pub floating_window: FloatingWindow,
    pub endpoint: PersistedEndpoint,
    pub project: PersistedProject,
    pub endpoint_count: usize,
    pub response: String,
    pub error_message: String,
    pub message: String,
    pub message_label: String,
    pub button_cap_left: String,
    pub button_cap_right: String,
}

pub struct DashboardStateView {
    pub main_display: DashboardDisplay,
    pub floating_window: FloatingWindow,
    pub endpoint: EndpointView,
    pub project: ProjectView,
    pub endpoint_count: usize,
    pub response: Seq<char>,
    pub error_message: Seq<char>,
    pub message: Seq<char>,
    pub message_label: Seq<char>,
    pub button_cap_left: Seq<char>,
    pub button_cap_right: Seq<char>,
}

impl View for DashboardState {
    type V = DashboardStateView;

    open spec fn view(&self) -> DashboardStateView {
        DashboardStateView {
            main_display: self.main_display,
            floating_window: self.floating_window,
            endpoint: self.endpoint@,
            project: self.project@,
            endpoint_count: self.endpoint_count,
            response: self.response@,
            error_message: self.error_message@,
            message: self.message@,
            message_label: self.message_label@,
            button_cap_left: self.button_cap_left@,
            button_cap_right: self.button_cap_right@,
        }
    }
}

/// The state after a message titled `title` is shown.
pub open spec fn message_shown(v: DashboardStateView, title: Seq<char>, message: Seq<char>) -> DashboardStateView {
    DashboardStateView {
        message,
        message_label: title,
        floating_window: FloatingWindow::Message,
        ..v
    }
}

/// The state after an error is shown.
pub open spec fn error_shown(v: DashboardStateView, message: Seq<char>) -> DashboardStateView {
    DashboardStateView { error_message: message, floating_window: FloatingWindow::Error, ..v }
}

/// What is left to do after the dashboard took a message in.
#[derive(Debug)]
pub enum MessageOutcome {
    /// Nothing more.
    Handled,
    /// The application takes the focus.
    FocusApp,
    /// The application takes the focus and the URL input is told it lost it.
    UnfocusUrl,
    /// A confirmation or its answer was taken in; what is left to do.
    Confirmation(ConfirmationEffect),
}

impl DashboardState {
    /// Shows a message titled `title` in a floating window.
    pub fn show_message(&mut self, title: &str, message: &str)
        ensures
            final(self)@ == message_shown(old(self)@, title@, message@),
    {
        self.message = message.to_owned();
        self.message_label = title.to_owned();
        self.floating_window = FloatingWindow::Message;
    }

    /// Shows an error in a floating window.
    pub fn show_error(&mut self, message: &str)
        ensures
            final(self)@ == error_shown(old(self)@, message@),
    {
        self.error_message = message.to_owned();
        self.floating_window = FloatingWindow::Error;
    }

    /// Takes in a message sent to the dashboard. The button caps follow the
    /// style of `options`; a request to set the text area's input is never
    /// sent to the dashboard.
    pub fn on_message(&mut self, message: DashboardMessages, options: &Options) -> (r: MessageOutcome)
        requires
            !(message matches DashboardMessages::TextArea(TextAreaMessages::SetInput(_))),
        ensures
            match message {
                DashboardMessages::BackToRequest => r is FocusApp && final(self)@ == (DashboardStateView {
                    main_display: DashboardDisplay::RequestBody,
                    ..old(self)@
                }),
                DashboardMessages::Confirmations(action) => r matches MessageOutcome::Confirmation(e)
                    && e@ == confirmation_effect(old(self)@, action) && final(self)@
                    == after_confirmation(old(self)@, action),
                DashboardMessages::TextInput(TextInputMessages::Change(value)) => r is Handled
                    && final(self)@ == (DashboardStateView {
                    endpoint: url_changed(old(self)@.endpoint, value@),
                    ..old(self)@
                }),
                DashboardMessages::TextInput(TextInputMessages::Update(u)) => r is Handled
                    && final(self)@ == if u.id@ == "endpoint_url_input"@ {
                    DashboardStateView {
                        endpoint: EndpointView { url: u.value@, ..old(self)@.endpoint },
                        ..old(self)@
                    }
                } else {
                    old(self)@
                },
                DashboardMessages::TextInput(TextInputMessages::Escape(u)) => final(self)@ == old(
                    self,
                )@ && if u.id@ == "endpoint_url_input"@ {
                    r is UnfocusUrl
                } else {
                    r is Handled
                },
                DashboardMessages::ShowSucces((title, text)) => r is Handled && final(self)@
                    == message_shown(old(self)@, title@, text@),
                DashboardMessages::ShowError(text) => r is Handled && final(self)@ == error_shown(
                    old(self)@,
                    text@,
                ),
                DashboardMessages::ThemeUpdate => r is Handled && final(self)@ == old(self)@,
                DashboardMessages::ButtonStyleUpdate => r is Handled && final(self)@ == (
                DashboardStateView {
                    button_cap_left: button_caps(options.button_style).0,
                    button_cap_right: button_caps(options.button_style).1,
                    ..old(self)@
                }),
                DashboardMessages::TextArea(TextAreaMessages::InputChange(value)) => r is Handled
                    && final(self)@ == (DashboardStateView {
                    endpoint: EndpointView { body: value@, ..old(self)@.endpoint },
                    ..old(self)@
                }),
                _ => true,
            },
    {
        match message {
            DashboardMessages::BackToRequest => {
                self.main_display = DashboardDisplay::RequestBody;
                MessageOutcome::FocusApp
            },
            DashboardMessages::Confirmations(action) => MessageOutcome::Confirmation(
                handle_confirmation(self, action),
            ),
            DashboardMessages::TextInput(TextInputMessages::Change(value)) => {
                change_url(&mut self.endpoint, value.as_str());
                MessageOutcome::Handled
            },
            DashboardMessages::TextInput(TextInputMessages::Update(u)) => {
                if str_eq(u.id.as_str(), "endpoint_url_input") {
                    self.endpoint.url = u.value;
                }
                MessageOutcome::Handled
            },
            DashboardMessages::TextInput(TextInputMessages::Escape(u)) => {
                if str_eq(u.id.as_str(), "endpoint_url_input") {
                    MessageOutcome::UnfocusUrl
                } else {
                    MessageOutcome::Handled
                }
            },
            DashboardMessages::ShowSucces((title, text)) => {
                self.show_message(title.as_str(), text.as_str());
                MessageOutcome::Handled
            },
            DashboardMessages::ShowError(text) => {
                self.show_error(text.as_str());
                MessageOutcome::Handled
            },
            DashboardMessages::ThemeUpdate => MessageOutcome::Handled,
            DashboardMessages::ButtonStyleUpdate => {
                let caps = get_button_caps(options);
                self.button_cap_left = caps.0.to_owned();
                self.button_cap_right = caps.1.to_owned();
                MessageOutcome::Handled
            },
            DashboardMessages::TextArea(TextAreaMessages::InputChange(value)) => {
                self.endpoint.body = value;
                MessageOutcome::Handled
            },
            DashboardMessages::TextArea(TextAreaMessages::SetInput(_)) => MessageOutcome::Handled,
        }
    }
    /// Closes the floating window (a window was cancelled).
    pub fn close_window(&mut self)
        ensures
            final(self)@ == (DashboardStateView { floating_window: FloatingWindow::Closed, ..old(self)@ }),
    {
        self.floating_window = FloatingWindow::Closed;
    }

    /// An endpoint was renamed from the endpoint name window: the endpoint being
    /// edited follows when it bore the old name, every endpoint of the project
    /// bearing it is renamed, and the window closes.
    pub fn rename_endpoint_everywhere(&mut self, update: &SpecificNameUpdate)
        ensures
            final(self)@ == (DashboardStateView {
                endpoint: if old(self)@.endpoint.name == update.old_name@ {
                    EndpointView { name: update.new_name@, ..old(self)@.endpoint }
                } else {
                    old(self)@.endpoint
                },
                project: ProjectView {
                    endpoints: renamed_endpoints(
                        old(self)@.project.endpoints,
                        update.old_name@,
                        update.new_name@,
                    ),
                    ..old(self)@.project
                },
                floating_window: FloatingWindow::Closed,
                ..old(self)@
            }),
    {
        if str_eq(self.endpoint.name.as_str(), update.old_name.as_str()) {
            self.endpoint.name = update.new_name.clone();
        }
        rename_endpoints(&mut self.project, update.old_name.as_str(), update.new_name.as_str());
        self.floating_window = FloatingWindow::Closed;
    }

    /// The endpoint being edited was given a name: the window closes.
    pub fn submit_endpoint_name(&mut self, new_name: String)
        ensures
            final(self)@ == (DashboardStateView {
                endpoint: EndpointView { name: new_name@, ..old(self)@.endpoint },
                floating_window: FloatingWindow::Closed,
                ..old(self)@
            }),
    {
        self.endpoint.name = new_name;
        self.floating_window = FloatingWindow::Closed;
    }

    /// A project was renamed from the project name window: the project being
    /// edited follows when it bore the old name, and the window closes.
    pub fn rename_project_specifically(&mut self, update: &SpecificNameUpdate)
        ensures
            final(self)@ == (DashboardStateView {
                project: if old(self)@.project.name == update.old_name@ {
                    ProjectView { name: update.new_name@, ..old(self)@.project }
                } else {
                    old(self)@.project
                },
                floating_window: FloatingWindow::Closed,
                ..old(self)@
            }),
    {
        if str_eq(self.project.name.as_str(), update.old_name.as_str()) {
            self.project.name = update.new_name.clone();
        }
        self.floating_window = FloatingWindow::Closed;
    }

    /// The project being edited was given a name: the window closes.
    pub fn submit_project_name(&mut self, new_name: String)
        ensures
            final(self)@ == (DashboardStateView {
                project: ProjectView { name: new_name@, ..old(self)@.project },
                floating_window: FloatingWindow::Closed,
                ..old(self)@
            }),
    {
        self.project.name = new_name;
        self.floating_window = FloatingWindow::Closed;
    }

    /// An endpoint was chosen in the endpoint selector: it becomes the endpoint
    /// being edited, and the window closes.
    pub fn select_endpoint(&mut self, endpoint: PersistedEndpoint)
        ensures
            final(self)@ == (DashboardStateView {
                endpoint: endpoint@,
                floating_window: FloatingWindow::Closed,
                ..old(self)@
            }),
    {
        self.endpoint = endpoint;
        self.floating_window = FloatingWindow::Closed;
    }

    /// The deletion of the header called `name` was confirmed: it leaves the
    /// endpoint being edited (its first header of that name), and the project's
    /// endpoint of the same name takes the remaining headers. Without such a
    /// header or such an endpoint nothing changes. Returns whether it applied.
    pub fn delete_header(&mut self, name: &str) -> (applied: bool)
        ensures
            applied == header_deletion_applies(old(self)@, name@),
            final(self)@ == header_deleted(old(self)@, name@),
    {
        let has_header = find_header(&self.endpoint.headers, name).is_some();
        let has_endpoint = find_endpoint(&self.project.endpoints, self.endpoint.name.as_str()).is_some();
        if !(has_header && has_endpoint) {
            return false;
        }
        let ghost v = self@;
        remove_header_named(&mut self.endpoint, name);
        set_endpoint_headers(&mut self.project, &self.endpoint);
        proof {
            assert(self@.endpoint.name == v.endpoint.name);
        }
        true
    }
}

/// Whether a confirmed header deletion applies to `v`: the endpoint being
/// edited has a header called `name`, and the project an endpoint of its name.
pub open spec fn header_deletion_applies(v: DashboardStateView, name: Seq<char>) -> bool {
    header_index(v.endpoint.headers, name) is Some && endpoint_index(v.project.endpoints, v.endpoint.name)
        is Some
}

/// The state after the header called `name` is deleted (when that applies).
pub open spec fn header_deleted(v: DashboardStateView, name: Seq<char>) -> DashboardStateView {
    if header_deletion_applies(v, name) {
        let e = v.endpoint;
        let headers = e.headers.remove(header_index(e.headers, name)->0);
        let k = endpoint_index(v.project.endpoints, e.name)->0;
        DashboardStateView {
            endpoint: EndpointView { headers, ..e },
            project: ProjectView {
                endpoints: v.project.endpoints.update(
                    k,
                    EndpointView { headers, ..v.project.endpoints[k] },
                ),
                ..v.project
            },
            ..v
        }
    } else {
        v
    }
}

/// The project without its first endpoint named `name`, if it has one.
pub open spec fn endpoint_removed(p: ProjectView, name: Seq<char>) -> ProjectView {
    match endpoint_index(p.endpoints, name) {
        Some(i) => ProjectView { endpoints: p.endpoints.remove(i), ..p },
        None => p,
    }
}

/// The project without its first variable equal to `var`, if it has one.
pub open spec fn variable_removed(p: ProjectView, var: crate::projects::VariableView) -> ProjectView {
    match variable_index(p.variable, var) {
        Some(i) => ProjectView { variable: p.variable.remove(i), ..p },
        None => p,
    }
}

/// What is done with the project files after a confirmed deletion.
#[derive(Debug, Clone, Copy, PartialEq, Eq, Structural)]
pub enum FileOperationKind {
    /// The saved project is deleted and saved again.
    ReplaceSavedProject,
    /// The saved project is deleted.
    DeleteProject,
    /// The project is saved.
    SaveProject,
}

/// A file operation on a project, and whether that project becomes the
/// dashboard's once the operation succeeds.
#[derive(Debug)]
pub struct FileOperation {
    pub kind: FileOperationKind,
    pub project: PersistedProject,
    pub adopt: bool,
}

/// What is left to do after a confirmation: the file operation to run, the
/// endpoint the dashboard takes once it succeeds, whether the application
/// takes the focus, whether the URL and body inputs are to be cleared, and the
/// message to show when the operation succeeds or the error when it fails.
#[derive(Debug)]
pub struct ConfirmationEffect {
    pub operation: Option<FileOperation>,
    pub endpoint_on_success: Option<PersistedEndpoint>,
    pub focus_app: bool,
    pub clear_inputs: bool,
    pub success: Option<(String, String)>,
    pub failure: Option<String>,
}

pub struct ConfirmationEffectView {
    pub operation: Option<(FileOperationKind, ProjectView, bool)>,
    pub endpoint_on_success: Option<EndpointView>,
    pub focus_app: bool,
    pub clear_inputs: bool,
    pub success: Option<(Seq<char>, Seq<char>)>,
    pub failure: Option<Seq<char>>,
}

impl View for ConfirmationEffect {
    type V = ConfirmationEffectView;

    open spec fn view(&self) -> ConfirmationEffectView {
        ConfirmationEffectView {
            operation: match self.operation {
                Some(op) => Some((op.kind, op.project@, op.adopt)),
                None => None,
            },
            endpoint_on_success: match self.endpoint_on_success {
                Some(e) => Some(e@),
                None => None,
            },
            focus_app: self.focus_app,
            clear_inputs: self.clear_inputs,
            success: match self.success {
                Some(m) => Some((m.0@, m.1@)),
                None => None,
            },
            failure: self.failure.deep_view(),
        }
    }
}

/// The effect that asks for nothing.
pub open spec fn no_effect() -> ConfirmationEffectView {
    ConfirmationEffectView {
        operation: None,
        endpoint_on_success: None,
        focus_app: false,
        clear_inputs: false,
        success: None,
        failure: None,
    }
}

/// The effect of a No answer: the application takes the focus.
pub open spec fn declined_effect() -> ConfirmationEffectView {
    ConfirmationEffectView { focus_app: true, ..no_effect() }
}

/// The state after a No answer: the floating window closes.
pub open spec fn declined(v: DashboardStateView) -> DashboardStateView {
    DashboardStateView { floating_window: FloatingWindow::Closed, ..v }
}

/// The name a variable is known by in messages: its name, or nothing.
pub open spec fn variable_label(var: crate::projects::VariableView) -> Seq<char> {
    match var.name {
        Some(n) => n,
        None => Seq::empty(),
    }
}

/// The state after the confirmation `a` is taken in.
pub open spec fn after_confirmation(v: DashboardStateView, a: ConfirmAction) -> DashboardStateView {
    match a {
        ConfirmAction::ConfirmationDeleteHeader(ans) => if ans.answer {
            v
        } else {
            declined(v)
        },
        ConfirmAction::ConfirmationDeletePersistedProject(ans) => if ans.answer {
            DashboardStateView { project: blank_project_view(), endpoint: blank_endpoint_view(), ..v }
        } else {
            declined(v)
        },
        ConfirmAction::ConfirmationDeletePersistedEndpoint(ans) => if ans.answer {
            DashboardStateView {
                endpoint: if ans.data@ == v.endpoint {
                    blank_endpoint_view()
                } else {
                    v.endpoint
                },
                ..v
            }
        } else {
            declined(v)
        },
        ConfirmAction::ConfirmationDeletePersistedVariable(ans) => if ans.answer {
            DashboardStateView { project: variable_removed(v.project, ans.data@), ..v }
        } else {
            declined(v)
        },
        _ => v,
    }
}

/// Whether `a` is a No answer to a deletion question.
pub open spec fn is_declined(a: ConfirmAction) -> bool {
    match a {
        ConfirmAction::ConfirmationDeleteHeader(ans) => !ans.answer,
        ConfirmAction::ConfirmationDeletePersistedProject(ans) => !ans.answer,
        ConfirmAction::ConfirmationDeletePersistedEndpoint(ans) => !ans.answer,
        ConfirmAction::ConfirmationDeletePersistedVariable(ans) => !ans.answer,
        _ => false,
    }
}

/// Answering No to a deletion question deletes nothing: the floating window
/// closes and all else stays as it was; no file is touched, no input cleared,
/// no message shown, and the application takes the focus.
pub proof fn lemma_declined_deletion_changes_nothing(v: DashboardStateView, a: ConfirmAction)
    requires
        is_declined(a),
    ensures
        after_confirmation(v, a) == (DashboardStateView {
            floating_window: FloatingWindow::Closed,
            ..v
        }),
        confirmation_effect(v, a).operation is None,
        confirmation_effect(v, a).endpoint_on_success is None,
        confirmation_effect(v, a).focus_app,
        !confirmation_effect(v, a).clear_inputs,
        confirmation_effect(v, a).success is None,
        confirmation_effect(v, a).failure is None,
{
}

/// Answering Yes to deleting a header of the endpoint being edited removes that
/// header, and only it, from the endpoint and from its copy in the project, and
/// asks for the project to be saved again.
pub proof fn lemma_confirmed_header_deletion(v: DashboardStateView, a: ConfirmAction)
    requires
        a matches ConfirmAction::ConfirmationDeleteHeader(ans) && ans.answer
            && header_deletion_applies(v, ans.data.name@),
    ensures
        a matches ConfirmAction::ConfirmationDeleteHeader(ans) && {
            let name = ans.data.name@;
            let i = header_index(v.endpoint.headers, name)->0;
            let e = confirmation_effect(v, a).endpoint_on_success->0;
            &&& after_confirmation(v, a) == v
            &&& confirmation_effect(v, a).endpoint_on_success is Some
            &&& e.headers.len() + 1 == v.endpoint.headers.len()
            &&& e.headers == v.endpoint.headers.take(i) + v.endpoint.headers.skip(i + 1)
            &&& v.endpoint.headers[i].name == name
            &&& e.name == v.endpoint.name && e.body == v.endpoint.body && e.url == v.endpoint.url
            &&& confirmation_effect(v, a).operation matches Some(op) && op.0
                == FileOperationKind::ReplaceSavedProject && op.1.endpoints.len()
                == v.project.endpoints.len()
        },
{
    if let ConfirmAction::ConfirmationDeleteHeader(ans) = a {
        let name = ans.data.name@;
        lemma_header_index_found(v.endpoint.headers, name);
        let i = header_index(v.endpoint.headers, name)->0;
        assert(v.endpoint.headers.remove(i) =~= v.endpoint.headers.take(i) + v.endpoint.headers.skip(
            i + 1,
        ));
        lemma_endpoint_index_found(v.project.endpoints, v.endpoint.name);
    }
}

/// What is left to do after the confirmation `a` is taken in.
pub open spec fn confirmation_effect(v: DashboardStateView, a: ConfirmAction) -> ConfirmationEffectView {
    match a {
        ConfirmAction::ConfirmationDeleteHeader(ans) => if !ans.answer {
            declined_effect()
        } else if header_deletion_applies(v, ans.data.name@) {
            ConfirmationEffectView {
                operation: Some(
                    (
                        FileOperationKind::ReplaceSavedProject,
                        header_deleted(v, ans.data.name@).project,
                        true,
                    ),
                ),
                endpoint_on_success: Some(header_deleted(v, ans.data.name@).endpoint),
                success: Some(("Delete Header"@, "Header was deleted successfully"@)),
                failure: Some("There was an error deleting the header"@),
                ..no_effect()
            }
        } else {
            no_effect()
        },
        ConfirmAction::ConfirmationDeletePersistedProject(ans) => if !ans.answer {
            declined_effect()
        } else {
            ConfirmationEffectView {
                operation: Some((FileOperationKind::DeleteProject, v.project, false)),
                clear_inputs: true,
                success: Some(
                    ("Delete Project Success"@, "Project '"@ + v.project.name + "' has been deleted"@),
                ),
                failure: Some("There was an error deleting '"@ + v.project.name),
                ..no_effect()
            }
        },
        ConfirmAction::ConfirmationDeletePersistedEndpoint(ans) => if !ans.answer {
            declined_effect()
        } else {
            ConfirmationEffectView {
                operation: Some(
                    (FileOperationKind::SaveProject, endpoint_removed(v.project, ans.data.name@), true),
                ),
                clear_inputs: ans.data@ == v.endpoint,
                success: Some(
                    (
                        "Delete Endpoint Success"@,
                        "The "@ + ans.data.name@ + " endpoint has been deleted."@,
                    ),
                ),
                failure: Some("There was an error deleting the "@ + ans.data.name@ + " endpoint"@),
                ..no_effect()
            }
        },
        ConfirmAction::ConfirmationDeletePersistedVariable(ans) => if !ans.answer {
            declined_effect()
        } else if variable_index(v.project.variable, ans.data@) is Some {
            ConfirmationEffectView {
                operation: Some(
                    (FileOperationKind::SaveProject, variable_removed(v.project, ans.data@), false),
                ),
                success: Some(
                    (
                        "Delete '"@ + variable_label(ans.data@) + "'"@,
                        "Variable deleted successfully"@,
                    ),
                ),
                failure: Some("Error deleting '"@ + variable_label(ans.data@) + "'"@),
                ..no_effect()
            }
        } else {
            no_effect()
        },
        _ => no_effect(),
    }
}

fn concat3(a: &str, b: &str, c: &str) -> (r: String)
    ensures
        r@ == a@ + b@ + c@,
{
    let mut r = a.to_owned();
    append_str(&mut r, b);
    append_str(&mut r, c);
    r
}

fn declined_now(state: &mut DashboardState) -> (r: ConfirmationEffect)
    ensures
        final(state)@ == declined(old(state)@),
        r@ == declined_effect(),
{
    state.floating_window = FloatingWindow::Closed;
    ConfirmationEffect {
        operation: None,
        endpoint_on_success: None,
        focus_app: true,
        clear_inputs: false,
        success: None,
        failure: None,
    }
}

fn nothing_to_do() -> (r: ConfirmationEffect)
    ensures
        r@ == no_effect(),
{
    ConfirmationEffect {
        operation: None,
        endpoint_on_success: None,
        focus_app: false,
        clear_inputs: false,
        success: None,
        failure: None,
    }
}

/// Takes in a deletion question or its answer. A question changes nothing. A
/// No answer closes the window and gives the focus back to the application. A
/// Yes answer deletes: the header from the endpoint being edited and its
/// project endpoint, once the project is saved again; the project being edited
/// (it and the endpoint start blank again at once); the endpoint from the
/// project once it is saved (the editor's endpoint starts blank at once when it
/// is that one); or the variable from the project, at once. The returned
/// effect names the file operation to run and what follows it
/// (`finish_confirmation`).
pub fn handle_confirmation(state: &mut DashboardState, action: ConfirmAction) -> (r: ConfirmationEffect)
    ensures
        final(state)@ == after_confirmation(old(state)@, action),
        r@ == confirmation_effect(old(state)@, action),
{
    match action {
        ConfirmAction::ConfirmationDeleteHeader(ans) => {
            if !ans.answer {
                return declined_now(state);
            }
            let name = ans.data.name.as_str();
            let has_header = find_header(&state.endpoint.headers, name).is_some();
            let has_endpoint = find_endpoint(&state.project.endpoints, state.endpoint.name.as_str()).is_some();
            if has_header && has_endpoint {
                let mut endpoint = copy_endpoint(&state.endpoint);
                let mut project = copy_project(&state.project);
                remove_header_named(&mut endpoint, name);
                set_endpoint_headers(&mut project, &endpoint);
                ConfirmationEffect {
                    operation: Some(
                        FileOperation {
                            kind: FileOperationKind::ReplaceSavedProject,
                            project,
                            adopt: true,
                        },
                    ),
                    endpoint_on_success: Some(endpoint),
                    focus_app: false,
                    clear_inputs: false,
                    success: Some(
                        ("Delete Header".to_owned(), "Header was deleted successfully".to_owned()),
                    ),
                    failure: Some("There was an error deleting the header".to_owned()),
                }
            } else {
                nothing_to_do()
            }
        },
        ConfirmAction::ConfirmationDeletePersistedProject(ans) => {
            if !ans.answer {
                return declined_now(state);
            }
            let mut old_project = blank_project();
            std::mem::swap(&mut old_project, &mut state.project);
            state.endpoint = blank_endpoint();
            let message = concat3("Project '", old_project.name.as_str(), "' has been deleted");
            let failure = concat3("There was an error deleting '", old_project.name.as_str(), "");
            proof {
                assert(""@ =~= Seq::<char>::empty()) by {
                    reveal_strlit("");
                }
                assert(failure@ =~= "There was an error deleting '"@ + old_project.name@);
            }
            ConfirmationEffect {
                operation: Some(
                    FileOperation {
                        kind: FileOperationKind::DeleteProject,
                        project: old_project,
                        adopt: false,
                    },
                ),
                endpoint_on_success: None,
                focus_app: false,
                clear_inputs: true,
                success: Some(("Delete Project Success".to_owned(), message)),
                failure: Some(failure),
            }
        },
        ConfirmAction::ConfirmationDeletePersistedEndpoint(ans) => {
            if !ans.answer {
                return declined_now(state);
            }
            let endpoint = ans.data;
            let is_current = endpoints_equal(&endpoint, &state.endpoint);
            if is_current {
                state.endpoint = blank_endpoint();
            }
            let mut project = copy_project(&state.project);
            remove_endpoint_named(&mut project, endpoint.name.as_str());
            let message = concat3("The ", endpoint.name.as_str(), " endpoint has been deleted.");
            let failure = concat3(
                "There was an error deleting the ",
                endpoint.name.as_str(),
                " endpoint",
            );
            ConfirmationEffect {
                operation: Some(
                    FileOperation { kind: FileOperationKind::SaveProject, project, adopt: true },
                ),
                endpoint_on_success: None,
                focus_app: false,
                clear_inputs: is_current,
                success: Some(("Delete Endpoint Success".to_owned(), message)),
                failure: Some(failure),
            }
        },
        ConfirmAction::ConfirmationDeletePersistedVariable(ans) => {
            if !ans.answer {
                return declined_now(state);
            }
            let variable = ans.data;
            let removed = remove_variable(&mut state.project, &variable);
            if !removed {
                return nothing_to_do();
            }
            let label = match &variable.name {
                Some(n) => n.clone(),
                None => String::new(),
            };
            let title = concat3("Delete '", label.as_str(), "'");
            let failure = concat3("Error deleting '", label.as_str(), "'");
            ConfirmationEffect {
                operation: Some(
                    FileOperation {
                        kind: FileOperationKind::SaveProject,
                        project: copy_project(&state.project),
                        adopt: false,
                    },
                ),
                endpoint_on_success: None,
                focus_app: false,
                clear_inputs: false,
                success: Some((title, "Variable deleted successfully".to_owned())),
                failure: Some(failure),
            }
        },
        _ => nothing_to_do(),
    }
}

/// The state after the file operation of effect `e` ran: on success the
/// project and endpoint it carries are taken over and its message is shown; on
/// failure its error is shown.
pub open spec fn confirmation_finished(v: DashboardStateView, e: ConfirmationEffectView, succeeded: bool) -> DashboardStateView {
    match e.operation {
        None => v,
        Some(op) => if succeeded {
            let v1 = DashboardStateView {
                project: if op.2 {
                    op.1
                } else {
                    v.project
                },
                endpoint: match e.endpoint_on_success {
                    Some(ep) => ep,
                    None => v.endpoint,
                },
                ..v
            };
            match e.success {
                Some(m) => message_shown(v1, m.0, m.1),
                None => v1,
            }
        } else {
            match e.failure {
                Some(f) => error_shown(v, f),
                None => v,
            }
        },
    }
}

/// Finishes a confirmation once its file operation ran, `succeeded` telling
/// how it went.
pub fn finish_confirmation(state: &mut DashboardState, effect: ConfirmationEffect, succeeded: bool)
    ensures
        final(state)@ == confirmation_finished(old(state)@, effect@, succeeded),
{
    let ConfirmationEffect { operation, endpoint_on_success, success, failure, .. } = effect;
    match operation {
        None => {},
        Some(op) => {
            if succeeded {
                if op.adopt {
                    state.project = op.project;
                }
                match endpoint_on_success {
                    Some(ep) => {
                        state.endpoint = ep;
                    },
                    None => {},
                }
                match success {
                    Some(m) => state.show_message(m.0.as_str(), m.1.as_str()),
                    None => {},
                }
            } else {
                match failure {
                    Some(f) => state.show_error(f.as_str()),
                    None => {},
                }
            }
        },
    }
}

/// Whether `c` only changes what the dashboard shows or where the focus is,
/// with nothing left for the caller to do.
pub open spec fn state_only(c: DashboardCommand) -> bool {
    c == DashboardCommand::Nothing || c == DashboardCommand::FocusApp || c
        == DashboardCommand::OpenCommands || c == DashboardCommand::FocusUrl || c
        == DashboardCommand::FocusMethodSelector || c == DashboardCommand::BackToRequest
}

/// The floating window a command opens, if any.
pub open spec fn command_window(c: DashboardCommand) -> Option<FloatingWindow> {
    match c {
        DashboardCommand::OpenCommands => Some(FloatingWindow::Commands),
        DashboardCommand::OpenAddHeader => Some(FloatingWindow::AddHeader),
        DashboardCommand::EditProjectName => Some(FloatingWindow::ChangeProjectName),
        DashboardCommand::EditEndpointName => Some(FloatingWindow::ChangeEndpointName),
        DashboardCommand::OpenEndpointsSelector => Some(FloatingWindow::EndpointsSelector),
        DashboardCommand::OpenAddVariable => Some(FloatingWindow::AddProjectVariable),
        DashboardCommand::FocusMethodSelector => Some(FloatingWindow::Method),
        _ => None,
    }
}

/// The component a command gives the focus to, if any.
pub open spec fn command_focus(c: DashboardCommand) -> Option<Seq<char>> {
    match c {
        DashboardCommand::FocusApp => Some("app"@),
        DashboardCommand::OpenCommands => Some("commands_window"@),
        DashboardCommand::FocusUrl => Some("url_input"@),
        DashboardCommand::FocusMethodSelector => Some("method_selector"@),
        DashboardCommand::OpenAddHeader => Some("add_header_window"@),
        DashboardCommand::EditProjectName => Some("edit_project_name"@),
        DashboardCommand::EditEndpointName => Some("edit_endpoint_name"@),
        DashboardCommand::OpenEndpointsSelector => Some("endpoints_selector_window"@),
        DashboardCommand::OpenAddVariable => Some("add_project_variable"@),
        _ => None,
    }
}

/// A command that opens a floating window gives the focus to that window; and
/// applying a command changes neither the project nor the endpoint being
/// edited (what changes them is left to the caller).
pub proof fn lemma_command_opens_and_focuses_same_window(v: DashboardStateView, c: DashboardCommand)
    ensures
        command_window(c) matches Some(w) ==> command_focus(c) == window_focus(w)
            && after_command(v, c).floating_window == w,
        after_command(v, c).project == v.project,
        after_command(v, c).endpoint == v.endpoint,
{
}

/// The state after command `c`: the window it opens, and for `BackToRequest`
/// the request body in the main area.
pub open spec fn after_command(v: DashboardStateView, c: DashboardCommand) -> DashboardStateView {
    let v1 = match command_window(c) {
        Some(w) => DashboardStateView { floating_window: w, ..v },
        None => v,
    };
    if c == DashboardCommand::BackToRequest {
        DashboardStateView { main_display: DashboardDisplay::RequestBody, ..v1 }
    } else {
        v1
    }
}

/// What is left after a command changed the state: where the focus goes, and
/// whether the caller still has work to do (files, requests, messages to other
/// windows).
#[derive(Debug, Clone, Copy, PartialEq, Eq)]
pub struct CommandEffect {
    pub focus: Option<&'static str>,
    pub caller_work: bool,
}

/// Applies command `c` to the dashboard's state. Commands with outside work
/// leave the rest to the caller; a new project or endpoint is saved first and
/// then started with `start_new_project` or `start_new_endpoint`.
pub fn apply_command(state: &mut DashboardState, c: DashboardCommand) -> (r: CommandEffect)
    ensures
        final(state)@ == after_command(old(state)@, c),
        r.caller_work == !state_only(c),
        match command_focus(c) {
            Some(id) => r.focus matches Some(f) && f@ == id,
            None => r.focus is None,
        },
{
    let window = match c {
        DashboardCommand::OpenCommands => Some(FloatingWindow::Commands),
        DashboardCommand::OpenAddHeader => Some(FloatingWindow::AddHeader),
        DashboardCommand::EditProjectName => Some(FloatingWindow::ChangeProjectName),
        DashboardCommand::EditEndpointName => Some(FloatingWindow::ChangeEndpointName),
        DashboardCommand::OpenEndpointsSelector => Some(FloatingWindow::EndpointsSelector),
        DashboardCommand::OpenAddVariable => Some(FloatingWindow::AddProjectVariable),
        DashboardCommand::FocusMethodSelector => Some(FloatingWindow::Method),
        _ => None,
    };
    match window {
        Some(w) => {
            state.floating_window = w;
        },
        None => {},
    }
    let back = match c {
        DashboardCommand::BackToRequest => true,
        _ => false,
    };
    if back {
        state.main_display = DashboardDisplay::RequestBody;
    }
    let focus = match c {
        DashboardCommand::FocusApp => Some("app"),
        DashboardCommand::OpenCommands => Some("commands_window"),
        DashboardCommand::FocusUrl => Some("url_input"),
        DashboardCommand::FocusMethodSelector => Some("method_selector"),
        DashboardCommand::OpenAddHeader => Some("add_header_window"),
        DashboardCommand::EditProjectName => Some("edit_project_name"),
        DashboardCommand::EditEndpointName => Some("edit_endpoint_name"),
        DashboardCommand::OpenEndpointsSelector => Some("endpoints_selector_window"),
        DashboardCommand::OpenAddVariable => Some("add_project_variable"),
        _ => None,
    };
    let caller_work = match c {
        DashboardCommand::Nothing | DashboardCommand::FocusApp | DashboardCommand::OpenCommands
        | DashboardCommand::FocusUrl | DashboardCommand::FocusMethodSelector
        | DashboardCommand::BackToRequest => false,
        _ => true,
    };
    CommandEffect { focus, caller_work }
}

/// Handles a component event called `ident`: routes it as
/// `associated_functions` does and applies the command to the state. Returns
/// what is left to do and the component whose handler receives the event.
pub fn on_event(state: &mut DashboardState, ident: &str) -> (r: (CommandEffect, MessageHandler))
    ensures
        final(state)@ == after_command(old(state)@, event_command(ident@, old(state)@.main_display)),
        r.0.caller_work == !state_only(event_command(ident@, old(state)@.main_display)),
        r.1 == component_handler(event_component(ident@)),
{
    let (command, handler) = associated_functions(ident, state.main_display);
    let effect = apply_command(state, command);
    (effect, handler)
}

/// A project was chosen in the project window: it becomes the project being
/// edited, the endpoint count follows, the endpoint being edited is its first
/// endpoint (a blank one when it has none), and the window closes. Returns
/// whether there was a first endpoint (whose URL and body the inputs then show).
pub fn select_project(state: &mut DashboardState, project: PersistedProject) -> (has_endpoint: bool)
    ensures
        has_endpoint == (project@.endpoints.len() > 0),
        final(state)@ == (DashboardStateView {
            floating_window: FloatingWindow::Closed,
            project: project@,
            endpoint_count: project@.endpoints.len() as usize,
            endpoint: if project@.endpoints.len() > 0 {
                project@.endpoints[0]
            } else {
                blank_endpoint_view()
            },
            ..old(state)@
        }),
{
    state.floating_window = FloatingWindow::Closed;
    state.endpoint_count = project.endpoints.len();
    let has_endpoint = project.endpoints.len() > 0;
    if has_endpoint {
        state.endpoint = copy_endpoint(&project.endpoints[0]);
    } else {
        state.endpoint = blank_endpoint();
    }
    state.project = project;
    has_endpoint
}

/// Events of the header selector window.
#[derive(Debug, Clone, Copy, PartialEq, Eq, Structural)]
pub enum HeaderSelectorEvent {
    Add,
    Edit,
    Cancel,
    Delete,
}

/// What follows an event of the header selector.
#[derive(Debug)]
pub enum HeaderSelectorAction {
    /// The header window takes the focus and is told to open.
    OpenAddHeader,
    /// The header window takes the focus and is sent this message.
    EditHeader(AddHeaderWindowMessages),
    /// The confirmation window takes the focus and is sent this question.
    Confirm(ConfirmAction),
    /// The application takes the focus.
    FocusApp,
}

/// Decides an event of the header selector about `header` of `endpoint`: the
/// floating window shown after it, and what follows.
pub fn edit_header_selector_event(
    event: HeaderSelectorEvent,
    header: Header,
    endpoint: &PersistedEndpoint,
) -> (r: (FloatingWindow, HeaderSelectorAction))
    ensures
        match event {
            HeaderSelectorEvent::Add => r.0 == FloatingWindow::AddHeader && r.1 is OpenAddHeader,
            HeaderSelectorEvent::Edit => r.0 == FloatingWindow::AddHeader && (r.1 matches HeaderSelectorAction::EditHeader(m)
                && is_edit_header_message(m, *endpoint, header)),
            HeaderSelectorEvent::Cancel => r.0 == FloatingWindow::Closed && r.1 is FocusApp,
            HeaderSelectorEvent::Delete => r.0 == FloatingWindow::ConfirmAction && (r.1 matches HeaderSelectorAction::Confirm(a)
                && is_delete_header_question(a, header)),
        },
{
    match event {
        HeaderSelectorEvent::Add => (FloatingWindow::AddHeader, HeaderSelectorAction::OpenAddHeader),
        HeaderSelectorEvent::Edit => (
            FloatingWindow::AddHeader,
            HeaderSelectorAction::EditHeader(edit_header_message(endpoint, header)),
        ),
        HeaderSelectorEvent::Cancel => (FloatingWindow::Closed, HeaderSelectorAction::FocusApp),
        HeaderSelectorEvent::Delete => (
            FloatingWindow::ConfirmAction,
            HeaderSelectorAction::Confirm(confirm_delete_header(header)),
        ),
    }
}

/// Whether an endpoint of `p` is named `name`.
pub open spec fn name_taken(p: ProjectView, name: Seq<char>) -> bool {
    exists|k: int| 0 <= k < p.endpoints.len() && #[trigger] p.endpoints[k].name == name
}

/// Submits a rename from the endpoint name window: when the new name is
/// already an endpoint's name, nothing changes and the error to show is
/// returned; otherwise the rename is made everywhere and the window closes.
/// A rename made this way keeps endpoint names unique.
pub fn submit_endpoint_rename(state: &mut DashboardState, update: &SpecificNameUpdate) -> (r: Option<String>)
    ensures
        name_taken(old(state)@.project, update.new_name@) ==> r.deep_view() == Some(
            name_in_use_message(update.new_name@),
        ) && final(state)@ == old(state)@,
        !name_taken(old(state)@.project, update.new_name@) ==> r is None && final(state)@ == (
        DashboardStateView {
            endpoint: if old(state)@.endpoint.name == update.old_name@ {
                EndpointView { name: update.new_name@, ..old(state)@.endpoint }
            } else {
                old(state)@.endpoint
            },
            project: ProjectView {
                endpoints: renamed_endpoints(
                    old(state)@.project.endpoints,
                    update.old_name@,
                    update.new_name@,
                ),
                ..old(state)@.project
            },
            floating_window: FloatingWindow::Closed,
            ..old(state)@
        }),
        names_unique(old(state)@.project.endpoints) ==> names_unique(final(state)@.project.endpoints),
{
    let names = endpoint_names(&state.project);
    let error = unique_name_error(&names, update.new_name.as_str());
    proof {
        let es = old(state)@.project.endpoints;
        if name_taken(old(state)@.project, update.new_name@) {
            let k = choose|k: int| 0 <= k < es.len() && #[trigger] es[k].name == update.new_name@;
            assert(names[k]@ == update.new_name@);
        } else {
            assert forall|k: int| 0 <= k < names.len() implies names[k]@ != update.new_name@ by {
                assert(es[k].name == names[k]@);
            }
        }
    }
    match error {
        Some(message) => Some(message),
        None => {
            proof {
                if names_unique(old(state)@.project.endpoints) {
                    lemma_rename_keeps_names_unique(
                        old(state)@.project.endpoints,
                        update.old_name@,
                        update.new_name@,
                    );
                }
            }
            state.rename_endpoint_everywhere(update);
            None
        },
    }
}

/// A new project is started: the project and endpoint being edited start
/// blank and the floating window closes. The current project was saved first;
/// `save_failure` is the error of that save when it failed, which the error
/// message then holds. The caller clears the URL and body inputs and gives the
/// focus to the application.
pub fn start_new_project(state: &mut DashboardState, save_failure: Option<String>)
    ensures
        final(state)@ == (DashboardStateView {
            error_message: match save_failure {
                Some(e) => e@,
                None => old(state)@.error_message,
            },
            project: blank_project_view(),
            endpoint: blank_endpoint_view(),
            floating_window: FloatingWindow::Closed,
            ..old(state)@
        }),
{
    match save_failure {
        Some(e) => {
            state.error_message = e;
        },
        None => {},
    }
    state.project = blank_project();
    state.endpoint = blank_endpoint();
    state.floating_window = FloatingWindow::Closed;
}

/// A new endpoint is started (after the current one was saved): the endpoint
/// being edited starts blank. The caller clears the URL and body inputs.
pub fn start_new_endpoint(state: &mut DashboardState)
    ensures
        final(state)@ == (DashboardStateView { endpoint: blank_endpoint_view(), ..old(state)@ }),
{
    state.endpoint = blank_endpoint();
}

/// The error shown when the endpoint still has its default name.
pub open spec fn unnamed_endpoint_error() -> Seq<char> {
    "Please give your endpoint a name to save"@
}

/// The error shown when the project still has its default name.
pub open spec fn unnamed_project_error() -> Seq<char> {
    "Please give your project a name to save"@
}

/// Saves the endpoint being edited into its project: refused, with an error
/// shown, while the endpoint or the project still bears its default name
/// (`default_endpoint_name`, `default_project_name`); otherwise the project
/// with the endpoint saved in it (as `upsert_endpoint` does) is returned for
/// the caller to write, and the state is unchanged until `endpoint_saved`.
pub fn save_endpoint(state: &mut DashboardState, default_project_name: &str, default_endpoint_name: &str) -> (r:
    Option<PersistedProject>)
    ensures
        old(state)@.endpoint.name == default_endpoint_name@ ==> r is None && final(state)@
            == error_shown(old(state)@, unnamed_endpoint_error()),
        old(state)@.endpoint.name != default_endpoint_name@ && old(state)@.project.name
            == default_project_name@ ==> r is None && final(state)@ == error_shown(
            old(state)@,
            unnamed_project_error(),
        ),
        old(state)@.endpoint.name != default_endpoint_name@ && old(state)@.project.name
            != default_project_name@ ==> final(state)@ == old(state)@ && (r matches Some(p) && p@ == (
        ProjectView {
            endpoints: saved_endpoints(old(state)@.project.endpoints, old(state)@.endpoint),
            ..old(state)@.project
        })),
{
    if str_eq(state.endpoint.name.as_str(), default_endpoint_name) {
        state.show_error("Please give your endpoint a name to save");
        return None;
    }
    if str_eq(state.project.name.as_str(), default_project_name) {
        state.show_error("Please give your project a name to save");
        return None;
    }
    let mut project = copy_project(&state.project);
    upsert_endpoint(&mut project, copy_endpoint(&state.endpoint));
    Some(project)
}

/// The project returned by `save_endpoint` was written, `error` telling how
/// it went: on success it becomes the dashboard's project (with a message
/// when `show_message` holds); on failure the error is shown.
pub fn endpoint_saved(state: &mut DashboardState, project: PersistedProject, error: Option<String>, show_message: bool)
    ensures
        final(state)@ == match error {
            Some(e) => error_shown(old(state)@, e@),
            None => {
                let v = DashboardStateView { project: project@, ..old(state)@ };
                if show_message {
                    message_shown(v, "Endpoint Save"@, "Saved endpoint successfully"@)
                } else {
                    v
                }
            },
        },
{
    match error {
        Some(e) => state.show_error(e.as_str()),
        None => {
            state.project = project;
            if show_message {
                state.show_message("Endpoint Save", "Saved endpoint successfully");
            }
        },
    }
}

/// The dashboard's project was written, `error` telling how it went: a
/// message on success when `show_message` holds, the error on failure.
pub fn project_saved(state: &mut DashboardState, error: Option<String>, show_message: bool)
    ensures
        final(state)@ == match error {
            Some(e) => error_shown(old(state)@, e@),
            None => if show_message {
                message_shown(old(state)@, "Project Save"@, "Saved project successfully"@)
            } else {
                old(state)@
            },
        },
{
    match error {
        Some(e) => state.show_error(e.as_str()),
        None => {
            if show_message {
                state.show_message("Project Save", "Saved project successfully");
            }
        },
    }
}

/// What a name window's input starts with: the name, or nothing while the name
/// is still the default one.
pub fn name_input_value(name: &str, default_name: &str) -> (r: String)
    ensures
        r@ == if name@ == default_name@ {
            Seq::<char>::empty()
        } else {
            name@
        },
{
    if str_eq(name, default_name) {
        String::new()
    } else {
        name.to_owned()
    }
}

/// Events of the endpoint selector window.
#[derive(Debug, Clone, Copy, PartialEq, Eq, Structural)]
pub enum EndpointsSelectorEvent {
    Cancel,
    Selection,
    Delete,
}

/// What follows an event of the endpoint selector.
#[derive(Debug)]
pub enum EndpointsSelectorAction {
    /// The application takes the focus.
    FocusApp,
    /// The confirmation window takes the focus and is sent this question.
    Confirm(ConfirmAction),
}

/// Handles an event of the endpoint selector about `endpoint`: cancelling
/// closes the window; choosing closes it and makes `endpoint` the one being
/// edited; deleting opens the confirmation window with the question whether to
/// delete `endpoint`.
pub fn endpoints_selector_event(
    state: &mut DashboardState,
    event: EndpointsSelectorEvent,
    endpoint: PersistedEndpoint,
) -> (r: EndpointsSelectorAction)
    ensures
        match event {
            EndpointsSelectorEvent::Cancel => r is FocusApp && final(state)@ == (DashboardStateView {
                floating_window: FloatingWindow::Closed,
                ..old(state)@
            }),
            EndpointsSelectorEvent::Selection => r is FocusApp && final(state)@ == (
            DashboardStateView {
                floating_window: FloatingWindow::Closed,
                endpoint: endpoint@,
                ..old(state)@
            }),
            EndpointsSelectorEvent::Delete => (r matches EndpointsSelectorAction::Confirm(a)
                && is_delete_endpoint_question(a, endpoint)) && final(state)@ == (DashboardStateView {
                floating_window: FloatingWindow::ConfirmAction,
                ..old(state)@
            }),
        },
{
    match event {
        EndpointsSelectorEvent::Cancel => {
            state.floating_window = FloatingWindow::Closed;
            EndpointsSelectorAction::FocusApp
        },
        EndpointsSelectorEvent::Selection => {
            state.select_endpoint(endpoint);
            EndpointsSelectorAction::FocusApp
        },
        EndpointsSelectorEvent::Delete => {
            state.floating_window = FloatingWindow::ConfirmAction;
            EndpointsSelectorAction::Confirm(confirm_delete_endpoint(endpoint))
        },
    }
}

/// Names the endpoint being edited from the endpoint name window: when an
/// endpoint of the project already bears the name, nothing changes and the
/// error to show is returned; otherwise the endpoint takes the name and the
/// window closes.
pub fn submit_new_endpoint_name(state: &mut DashboardState, new_name: String) -> (r: Option<String>)
    ensures
        name_taken(old(state)@.project, new_name@) ==> r.deep_view() == Some(
            name_in_use_message(new_name@),
        ) && final(state)@ == old(state)@,
        !name_taken(old(state)@.project, new_name@) ==> r is None && final(state)@ == (
        DashboardStateView {
            endpoint: EndpointView { name: new_name@, ..old(state)@.endpoint },
            floating_window: FloatingWindow::Closed,
            ..old(state)@
        }),
{
    let names = endpoint_names(&state.project);
    let error = unique_name_error(&names, new_name.as_str());
    proof {
        let es = old(state)@.project.endpoints;
        if name_taken(old(state)@.project, new_name@) {
            let k = choose|k: int| 0 <= k < es.len() && #[trigger] es[k].name == new_name@;
            assert(names[k]@ == new_name@);
        } else {
            assert forall|k: int| 0 <= k < names.len() implies names[k]@ != new_name@ by {
                assert(es[k].name == names[k]@);
            }
        }
    }
    match error {
        Some(message) => Some(message),
        None => {
            state.submit_endpoint_name(new_name);
            None
        },
    }
}

} // verus!
