//! Layout components that hold no state of their own.
use vstd::prelude::*;

verus! {

/// The section of the dashboard where request headers are edited.
#[derive(Debug, Default)]
pub struct RequestHeadersEditor;

/// The state of the request headers editor: it has none.
#[derive(Debug, Default, Clone, Copy, PartialEq, Eq, Structural)]
pub struct RequestHeadersEditorState {}

impl RequestHeadersEditorState {
    /// The (empty) state of a new request headers editor.
    pub fn new() -> (s: Self)
        ensures
            s == (RequestHeadersEditorState {}),
    {
        RequestHeadersEditorState {}
    }
}

/// A row of the layout; it never takes the focus.
#[derive(Debug, Default)]
pub struct Row;

/// The state of a row: it has none.
#[derive(Debug, Default, Clone, Copy, PartialEq, Eq, Structural)]
pub struct RowState {}

impl RowState {
    /// The (empty) state of a new row.
    pub fn new() -> (s: Self)
        ensures
            s == (RowState {}),
    {
        RowState {}
    }
}

impl Row {
    /// Whether a row takes the focus: never.
    pub fn accept_focus(&self) -> (r: bool)
        ensures
            !r,
    {
        false
    }
}

/// A titled section of the application window.
#[derive(Debug, Default)]
pub struct AppSection;

/// What a section does when the focus moves to or away from it: the color of
/// its title, and whether the application takes the focus back.
#[derive(Debug, Clone, Copy, PartialEq, Eq)]
pub struct FocusChangeEffect {
    pub foreground: &'static str,
    pub focus_app: bool,
}

impl AppSection {
    /// Whether a section takes the focus: never.
    pub fn accept_focus(&self) -> (r: bool)
        ensures
            !r,
    {
        false
    }

    /// A focused section's title turns yellow (`#ffff00`); one that lost the
    /// focus turns red (`#ff0000`) and hands the focus back to the application.
    pub fn on_focus_change(&self, focus: bool) -> (r: FocusChangeEffect)
        ensures
            r.foreground@ == if focus {
                "#ffff00"@
            } else {
                "#ff0000"@
            },
            r.focus_app == !focus,
    {
        if focus {
            FocusChangeEffect { foreground: "#ffff00", focus_app: false }
        } else {
            FocusChangeEffect { foreground: "#ff0000", focus_app: true }
        }
    }
}

} // verus!
