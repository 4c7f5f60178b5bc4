//! The window where the button style is chosen: a list of the style labels, a
//! cursor over them, and the row colors that show the cursor or the current
//! style.
use vstd::prelude::*;

use crate::selector::SelectorKey;
use crate::text::str_eq;

verus! {

/// The color of a row that is not highlighted.
pub const DEFAULT_PROJECT_ROW_COLOR: &'static str = "#333333";

/// The color of the highlighted row.
pub const SELECTED_PROJECT_ROW_COLOR: &'static str = "#FFFFFF";

/// A row of the list: a style label and the color it is drawn in.
#[derive(Debug)]
pub struct ButtonStyleRow {
    pub name: String,
    pub row_color: String,
}

/// The state of the button style window.
#[derive(Debug)]
pub struct ButtonStyleSelectorState {
    pub cursor: u8,
    pub visible_items: u8,
    pub window_list: Vec<ButtonStyleRow>,
    pub selected_button_style: String,
}

pub struct ButtonStyleSelectorView {
    pub cursor: u8,
    pub visible_items: u8,
    pub names: Seq<Seq<char>>,
    pub colors: Seq<Seq<char>>,
    pub selected_button_style: Seq<char>,
}

impl View for ButtonStyleSelectorState {
    type V = ButtonStyleSelectorView;

    open spec fn view(&self) -> ButtonStyleSelectorView {
        ButtonStyleSelectorView {
            cursor: self.cursor,
            visible_items: self.visible_items,
            names: self.window_list@.map_values(|r: ButtonStyleRow| r.name@),
            colors: self.window_list@.map_values(|r: ButtonStyleRow| r.row_color@),
            selected_button_style: self.selected_button_style@,
        }
    }
}

/// The color of a row: highlighted or not.
pub open spec fn row_color(highlighted: bool) -> Seq<char> {
    if highlighted {
        SELECTED_PROJECT_ROW_COLOR@
    } else {
        DEFAULT_PROJECT_ROW_COLOR@
    }
}

/// The state after the rows are colored with the row at `selected` highlighted.
pub open spec fn with_row_highlighted(v: ButtonStyleSelectorView, selected: int) -> ButtonStyleSelectorView {
    ButtonStyleSelectorView {
        colors: Seq::new(v.names.len(), |i: int| row_color(i == selected)),
        ..v
    }
}

/// The state after the rows are colored with the rows labelled `current`
/// highlighted.
pub open spec fn with_style_highlighted(v: ButtonStyleSelectorView, current: Seq<char>) -> ButtonStyleSelectorView {
    ButtonStyleSelectorView {
        colors: Seq::new(v.names.len(), |i: int| row_color(v.names[i] == current)),
        ..v
    }
}

/// Where the cursor goes down to: one row further, no further than the last
/// row (the index kept to eight bits, as the window counts rows).
pub open spec fn style_cursor_down(v: ButtonStyleSelectorView) -> int {
    let last = (if v.names.len() > 0 {
        v.names.len() - 1
    } else {
        0
    }) % 256;
    if v.cursor + 1 < last {
        v.cursor + 1
    } else {
        last
    }
}

/// Where the cursor goes up to: one row back, not below the first.
pub open spec fn style_cursor_up(v: ButtonStyleSelectorView) -> int {
    if v.cursor > 0 {
        v.cursor - 1
    } else {
        0
    }
}

/// The state after `key`.
pub open spec fn after_style_key(v: ButtonStyleSelectorView, key: SelectorKey) -> ButtonStyleSelectorView {
    if key == SelectorKey::Char('j') || key == SelectorKey::Down {
        with_row_highlighted(
            ButtonStyleSelectorView { cursor: style_cursor_down(v) as u8, ..v },
            style_cursor_down(v),
        )
    } else if key == SelectorKey::Char('k') || key == SelectorKey::Up {
        with_row_highlighted(
            ButtonStyleSelectorView { cursor: style_cursor_up(v) as u8, ..v },
            style_cursor_up(v),
        )
    } else if key == SelectorKey::Enter && v.cursor < v.names.len() {
        ButtonStyleSelectorView { selected_button_style: v.names[v.cursor as int], ..v }
    } else {
        v
    }
}

/// What the window publishes after a key.
#[derive(Debug, Clone, Copy, PartialEq, Eq, Structural)]
pub enum ButtonStyleEvent {
    /// Nothing.
    Nothing,
    /// The window is cancelled.
    Cancel,
    /// The style under the cursor is chosen; it is in `selected_button_style`.
    Selection,
}

/// What the window publishes after `key`: Esc cancels; Enter chooses the style
/// under the cursor, or cancels when there is none.
pub open spec fn style_key_event(v: ButtonStyleSelectorView, key: SelectorKey) -> ButtonStyleEvent {
    if key == SelectorKey::Esc {
        ButtonStyleEvent::Cancel
    } else if key == SelectorKey::Enter {
        if v.cursor < v.names.len() {
            ButtonStyleEvent::Selection
        } else {
            ButtonStyleEvent::Cancel
        }
    } else {
        ButtonStyleEvent::Nothing
    }
}

/// In the button style window, Down (or `j`) and Up (or `k`) move the cursor
/// one row, never past the last row or before the first, and leave exactly the
/// cursor row highlighted; Enter chooses the label under the cursor; Esc
/// cancels and changes nothing.
pub proof fn lemma_style_window_keys(v: ButtonStyleSelectorView, key: SelectorKey)
    requires
        v.names.len() <= 256,
        v.cursor < v.names.len(),
    ensures
        key == SelectorKey::Down || key == SelectorKey::Char('j') ==> {
            let w = after_style_key(v, key);
            &&& w.cursor < v.names.len()
            &&& (w.cursor == v.cursor + 1 || (w.cursor == v.cursor && v.cursor + 1 == v.names.len())
                || (w.cursor == v.names.len() - 1 && v.cursor + 1 == v.names.len() - 1))
            &&& w.colors.len() == v.names.len()
            &&& forall|i: int| 0 <= i < w.colors.len() ==> (#[trigger] w.colors[i]
                == SELECTED_PROJECT_ROW_COLOR@ <==> i == w.cursor)
        },
        key == SelectorKey::Up || key == SelectorKey::Char('k') ==> {
            let w = after_style_key(v, key);
            &&& w.cursor + 1 == v.cursor || (w.cursor == 0 && v.cursor == 0)
            &&& w.colors.len() == v.names.len()
            &&& forall|i: int| 0 <= i < w.colors.len() ==> (#[trigger] w.colors[i]
                == SELECTED_PROJECT_ROW_COLOR@ <==> i == w.cursor)
        },
        key == SelectorKey::Enter ==> after_style_key(v, key).selected_button_style
            == v.names[v.cursor as int] && style_key_event(v, key) == ButtonStyleEvent::Selection,
        key == SelectorKey::Esc ==> after_style_key(v, key) == v && style_key_event(v, key)
            == ButtonStyleEvent::Cancel,
{
    reveal_strlit("#333333");
    reveal_strlit("#FFFFFF");
    assert(SELECTED_PROJECT_ROW_COLOR@[1] == 'F' && DEFAULT_PROJECT_ROW_COLOR@[1] == '3');
    assert(v.names.len() - 1 < 256);
    assert((v.names.len() - 1) % 256 == v.names.len() - 1);
}

impl ButtonStyleSelectorState {
    /// Colors the rows with the row at `selected_index` highlighted.
    pub fn update_item_list(&mut self, selected_index: usize)
        ensures
            final(self)@ == with_row_highlighted(old(self)@, selected_index as int),
    {
        let ghost before = self@;
        let mut rows: Vec<ButtonStyleRow> = Vec::new();
        let mut i: usize = 0;
        while i < self.window_list.len()
            invariant
                self@ == before,
                i <= self.window_list.len(),
                rows.len() == i,
                forall|k: int| 0 <= k < i ==> #[trigger] rows@[k].name@ == self.window_list@[k].name@,
                forall|k: int|
                    0 <= k < i ==> #[trigger] rows@[k].row_color@ == row_color(k == selected_index),
            decreases self.window_list.len() - i,
        {
            let color = if i == selected_index {
                SELECTED_PROJECT_ROW_COLOR
            } else {
                DEFAULT_PROJECT_ROW_COLOR
            };
            rows.push(ButtonStyleRow { name: self.window_list[i].name.clone(), row_color: color.to_owned() });
            i += 1;
        }
        self.window_list = rows;
        proof {
            assert(self@.names =~= before.names);
            assert(self@.colors =~= with_row_highlighted(before, selected_index as int).colors);
        }
    }

    /// Colors the rows with those labelled `current` highlighted: the window
    /// shows the style in use when it gets the focus.
    pub fn on_focus(&mut self, current: &str)
        ensures
            final(self)@ == with_style_highlighted(old(self)@, current@),
    {
        let ghost before = self@;
        let mut rows: Vec<ButtonStyleRow> = Vec::new();
        let mut i: usize = 0;
        while i < self.window_list.len()
            invariant
                self@ == before,
                i <= self.window_list.len(),
                rows.len() == i,
                forall|k: int| 0 <= k < i ==> #[trigger] rows@[k].name@ == self.window_list@[k].name@,
                forall|k: int|
                    0 <= k < i ==> #[trigger] rows@[k].row_color@ == row_color(
                        self.window_list@[k].name@ == current@,
                    ),
            decreases self.window_list.len() - i,
        {
            let color = if str_eq(self.window_list[i].name.as_str(), current) {
                SELECTED_PROJECT_ROW_COLOR
            } else {
                DEFAULT_PROJECT_ROW_COLOR
            };
            rows.push(ButtonStyleRow { name: self.window_list[i].name.clone(), row_color: color.to_owned() });
            i += 1;
        }
        self.window_list = rows;
        proof {
            assert(self@.names =~= before.names);
            assert(self@.colors =~= with_style_highlighted(before, current@).colors);
        }
    }

    /// Handles a key pressed in the window.
    pub fn on_key(&mut self, key: SelectorKey) -> (event: ButtonStyleEvent)
        requires
            key == SelectorKey::Char('j') || key == SelectorKey::Down ==> old(self).cursor < 255,
        ensures
            final(self)@ == after_style_key(old(self)@, key),
            event == style_key_event(old(self)@, key),
    {
        let down = match key {
            SelectorKey::Char(c) => c == 'j',
            SelectorKey::Down => true,
            _ => false,
        };
        let up = match key {
            SelectorKey::Char(c) => c == 'k',
            SelectorKey::Up => true,
            _ => false,
        };
        if down {
            let len = self.window_list.len();
            let last_complete_list_index = if len > 0 { len - 1 } else { 0 };
            let last = (last_complete_list_index % 256) as u8;
            let new_cursor = if self.cursor + 1 < last { self.cursor + 1 } else { last };
            self.cursor = new_cursor;
            self.update_item_list(new_cursor as usize);
            ButtonStyleEvent::Nothing
        } else if up {
            let new_cursor = if self.cursor > 0 { self.cursor - 1 } else { 0 };
            self.cursor = new_cursor;
            self.update_item_list(new_cursor as usize);
            ButtonStyleEvent::Nothing
        } else {
            match key {
                SelectorKey::Esc => ButtonStyleEvent::Cancel,
                SelectorKey::Enter => {
                    let selected_index = self.cursor as usize;
                    if selected_index < self.window_list.len() {
                        self.selected_button_style = self.window_list[selected_index].name.clone();
                        ButtonStyleEvent::Selection
                    } else {
                        ButtonStyleEvent::Cancel
                    }
                },
                _ => ButtonStyleEvent::Nothing,
            }
        }
    }
}

} // verus!
