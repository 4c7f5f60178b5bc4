//! The scrolling list of the selector windows (headers, endpoints, projects,
//! project variables): a cursor over the items and a window of the rows on
//! screen that follows it.
use vstd::prelude::*;

verus! {

/// One row of the visible window: which item it shows and whether it is the
/// highlighted one.
#[derive(Clone, Copy, Debug, PartialEq, Eq)]
pub struct ListRow {
    pub index: usize,
    pub selected: bool,
}

/// Cursor, visible range and visible rows of a selector list.
#[derive(Debug)]
pub struct ListWindow {
    pub cursor: u8,
    pub current_first_index: u8,
    pub current_last_index: u8,
    pub visible_rows: u8,
    pub window: Vec<ListRow>,
}

/// Mathematical model of a [`ListWindow`].
pub struct ListWindowView {
    pub cursor: u8,
    pub current_first_index: u8,
    pub current_last_index: u8,
    pub visible_rows: u8,
    pub window: Seq<ListRow>,
}

impl View for ListWindow {
    type V = ListWindowView;

    open spec fn view(&self) -> ListWindowView {
        ListWindowView {
            cursor: self.cursor,
            current_first_index: self.current_first_index,
            current_last_index: self.current_last_index,
            visible_rows: self.visible_rows,
            window: self.window@,
        }
    }
}

/// Index of the last item the cursor can reach in a list of `count` items, as
/// the selectors compute it: `count - 1` kept to its low eight bits.
pub open spec fn last_reachable(count: int) -> int {
    if count <= 0 {
        0
    } else {
        (count - 1) % 256
    }
}

/// Where `move_cursor_down` puts the cursor: one item further, no further than
/// the last reachable item.
pub open spec fn cursor_down(w: ListWindowView, count: int) -> int {
    if w.cursor + 1 < last_reachable(count) {
        w.cursor + 1
    } else {
        last_reachable(count)
    }
}

/// Where `move_cursor_up` puts the cursor: one item back, not below the first.
pub open spec fn cursor_up(w: ListWindowView) -> int {
    if w.cursor > 0 {
        w.cursor - 1
    } else {
        0
    }
}

/// The rows shown for the items `first ..= end`, the one at `selected` being
/// highlighted.
pub open spec fn rows_for(first: int, end: int, selected: int) -> Seq<ListRow> {
    Seq::new(
        (end - first + 1) as nat,
        |i: int|
            ListRow {
                index: (first + i) as usize,
                selected: i == if selected > first {
                    selected - first
                } else {
                    0
                },
            },
    )
}

/// The last item shown: the end of the visible range, kept within the list when
/// `clamp` holds.
pub open spec fn window_end(w: ListWindowView, count: int, clamp: bool) -> int {
    if clamp && w.current_last_index > count - 1 {
        count - 1
    } else {
        w.current_last_index as int
    }
}

/// The cursor lies in the visible range, the range is at most `visible_rows`
/// long, and the cursor does not pass the last reachable item. Every
/// selector keeps this.
pub open spec fn well_formed(w: ListWindowView, count: int) -> bool {
    &&& w.visible_rows >= 1
    &&& w.current_first_index <= w.cursor <= w.current_last_index
    &&& w.current_last_index - w.current_first_index <= w.visible_rows - 1
    &&& w.cursor <= last_reachable(count)
    &&& w.current_last_index >= w.visible_rows - 1 || w.current_last_index >= last_reachable(count)
}

/// The window after `move_cursor_down` over `count` items: when the cursor
/// passes the end of the visible range, the range scrolls to end at the cursor.
pub open spec fn moved_down(w: ListWindowView, count: int) -> ListWindowView {
    let nc = cursor_down(w, count);
    if nc > w.current_last_index {
        ListWindowView {
            cursor: nc as u8,
            current_first_index: (nc - (w.visible_rows - 1)) as u8,
            current_last_index: nc as u8,
            ..w
        }
    } else {
        ListWindowView { cursor: nc as u8, ..w }
    }
}

/// The window after `move_cursor_up`: when the cursor passes the start of the
/// visible range, the range scrolls to start at the cursor.
pub open spec fn moved_up(w: ListWindowView) -> ListWindowView {
    let nc = cursor_up(w);
    if nc < w.current_first_index {
        ListWindowView {
            cursor: nc as u8,
            current_first_index: nc as u8,
            current_last_index: (nc + w.visible_rows - 1) as u8,
            ..w
        }
    } else {
        ListWindowView { cursor: nc as u8, ..w }
    }
}

/// `move_cursor_down` runs without overflow.
pub open spec fn down_ok(w: ListWindowView, count: int) -> bool {
    &&& w.cursor < 255
    &&& cursor_down(w, count) > w.current_last_index ==> w.visible_rows >= 1 && cursor_down(
        w,
        count,
    ) >= w.visible_rows - 1
}

/// `move_cursor_up` runs without overflow.
pub open spec fn up_ok(w: ListWindowView) -> bool {
    cursor_up(w) < w.current_first_index ==> w.visible_rows >= 1 && cursor_up(w)
        + w.visible_rows - 1 <= 255
}

/// The window after the items are replaced by a list of `count` items: cursor
/// and range back to the top, the range as long as the list allows.
pub open spec fn reset_for(w: ListWindowView, count: int) -> ListWindowView {
    let shown = if (w.visible_rows as int) < count % 256 {
        w.visible_rows as int
    } else {
        count % 256
    };
    ListWindowView {
        cursor: 0,
        current_first_index: 0,
        current_last_index: (if shown > 0 {
            shown - 1
        } else {
            0
        }) as u8,
        ..w
    }
}

/// The window after its rows are rebuilt for `count` items: no rows for an
/// empty list, otherwise the rows of the visible range with the cursor row
/// highlighted.
pub open spec fn updated(w: ListWindowView, count: int, clamp: bool) -> ListWindowView {
    if count == 0 {
        ListWindowView { window: Seq::empty(), ..w }
    } else {
        ListWindowView {
            window: rows_for(
                w.current_first_index as int,
                window_end(w, count, clamp),
                w.cursor as int,
            ),
            ..w
        }
    }
}

/// `update_list` can run: for a non-empty list it takes the items from the
/// first to the last index of the range, which must lie within the list.
pub open spec fn update_ok(w: ListWindowView, count: int, clamp: bool) -> bool {
    count > 0 ==> w.current_first_index <= window_end(w, count, clamp) + 1 && window_end(
        w,
        count,
        clamp,
    ) < count
}

/// Moving the cursor down or up keeps a well-formed window well-formed: the
/// cursor stays inside the visible range, the range stays no longer than the
/// number of visible rows, and the cursor stays within the list.
pub proof fn lemma_moves_keep_window_well_formed(w: ListWindowView, count: int)
    requires
        well_formed(w, count),
    ensures
        w.cursor < 255 ==> down_ok(w, count),
        w.cursor < 255 ==> well_formed(moved_down(w, count), count),
        up_ok(w) ==> well_formed(moved_up(w), count),
{
}

/// Taking a new list puts the window back in a well-formed state, unless the
/// number of items is a non-zero multiple of 256 (the selectors keep the count
/// to eight bits) and more than one row is visible.
pub proof fn lemma_reset_well_formed(w: ListWindowView, count: int)
    requires
        w.visible_rows >= 1,
        count >= 0,
        count % 256 != 0 || count == 0 || w.visible_rows == 1,
    ensures
        well_formed(reset_for(w, count), count),
{
}

/// In a well-formed window over a non-empty list, the rebuilt rows highlight
/// exactly one row, the one of the item under the cursor.
pub proof fn lemma_window_highlights_cursor(w: ListWindowView, count: int, clamp: bool)
    requires
        well_formed(w, count),
        count > 0,
        update_ok(w, count, clamp),
    ensures
        ({
            let rows = updated(w, count, clamp).window;
            &&& exists|i: int| 0 <= i < rows.len() && rows[i].selected && rows[i].index == w.cursor
            &&& forall|i: int, j: int|
                0 <= i < rows.len() && 0 <= j < rows.len() && rows[i].selected && rows[j].selected
                    ==> i == j
        }),
{
    let rows = updated(w, count, clamp).window;
    let i = w.cursor - w.current_first_index;
    assert(0 <= i < rows.len());
    assert(rows[i].selected && rows[i].index == w.cursor);
}

impl ListWindow {
    /// A window of five rows at the top of the list.
    pub fn new() -> (w: ListWindow)
        ensures
            w.cursor == 0,
            w.current_first_index == 0,
            w.current_last_index == 4,
            w.visible_rows == 5,
            w.window@.len() == 0,
    {
        ListWindow {
            cursor: 0,
            current_first_index: 0,
            current_last_index: 4,
            visible_rows: 5,
            window: Vec::new(),
        }
    }

    /// Moves the cursor one item down in a list of `item_count` items.
    pub fn move_cursor_down(&mut self, item_count: usize)
        requires
            down_ok(old(self)@, item_count as int),
        ensures
            final(self)@ == moved_down(old(self)@, item_count as int),
    {
        let last_complete_list_index = if item_count > 0 { item_count - 1 } else { 0 };
        let last = (last_complete_list_index % 256) as u8;
        let new_cursor = if self.cursor + 1 < last { self.cursor + 1 } else { last };
        self.cursor = new_cursor;
        if new_cursor > self.current_last_index {
            self.current_last_index = new_cursor;
            self.current_first_index = new_cursor - (self.visible_rows - 1);
        }
    }

    /// Moves the cursor one item up.
    pub fn move_cursor_up(&mut self)
        requires
            up_ok(old(self)@),
        ensures
            final(self)@ == moved_up(old(self)@),
    {
        let new_cursor = if self.cursor > 0 { self.cursor - 1 } else { 0 };
        self.cursor = new_cursor;
        if new_cursor < self.current_first_index {
            self.current_first_index = new_cursor;
            self.current_last_index = new_cursor + (self.visible_rows - 1);
        }
    }

    /// Takes a new list of `item_count` items: cursor and range back to the top.
    pub fn reset(&mut self, item_count: usize)
        ensures
            final(self)@ == reset_for(old(self)@, item_count as int),
    {
        let count = (item_count % 256) as u8;
        let shown = if self.visible_rows < count { self.visible_rows } else { count };
        self.cursor = 0;
        self.current_first_index = 0;
        self.current_last_index = if shown > 0 { shown - 1 } else { 0 };
    }

    /// Rebuilds the visible rows for a list of `item_count` items; with `clamp`
    /// the range is cut at the end of the list.
    pub fn update_list(&mut self, item_count: usize, clamp: bool)
        requires
            update_ok(old(self)@, item_count as int, clamp),
        ensures
            final(self)@ == updated(old(self)@, item_count as int, clamp),
    {
        if item_count == 0 {
            self.window = Vec::new();
            return ;
        }
        let first = self.current_first_index as usize;
        let last = self.current_last_index as usize;
        let range_end = if clamp && last > item_count - 1 { item_count - 1 } else { last };
        let selected = self.cursor as usize;
        let visible_index = if selected > first { selected - first } else { 0 };
        let mut rows: Vec<ListRow> = Vec::new();
        let mut i = first;
        while i <= range_end
            invariant
                first <= i <= range_end + 1,
                range_end < item_count,
                rows@ =~= rows_for(first as int, i as int - 1, selected as int),
                visible_index == if selected > first {
                    selected - first
                } else {
                    0
                },
            decreases range_end + 1 - i,
        {
            rows.push(ListRow { index: i, selected: i - first == visible_index });
            i += 1;
        }
        self.window = rows;
    }
}

/// A key as the selector windows tell keys apart.
#[derive(Debug, Clone, Copy, PartialEq, Eq, Structural)]
pub enum SelectorKey {
    Char(char),
    Up,
    Down,
    Esc,
    Enter,
    Other,
}

/// What a key asks of a selector window beyond moving its cursor.
#[derive(Debug, Clone, Copy, PartialEq, Eq, Structural)]
pub enum SelectorAction {
    /// Nothing more.
    Nothing,
    /// The window is cancelled.
    Cancel,
    /// The item at this index is chosen.
    Select(usize),
    /// A letter the window binds to an action of its own (delete, rename, ...).
    Letter(char),
}

/// Whether `key` moves the cursor down (`'j'` or Down).
pub open spec fn moves_down(key: SelectorKey) -> bool {
    key == SelectorKey::Char('j') || key == SelectorKey::Down
}

/// Whether `key` moves the cursor up (`'k'` or Up).
pub open spec fn moves_up(key: SelectorKey) -> bool {
    key == SelectorKey::Char('k') || key == SelectorKey::Up
}

/// The window after `key` in a list of `count` items.
pub open spec fn after_selector_key(w: ListWindowView, key: SelectorKey, count: int) -> ListWindowView {
    if moves_down(key) {
        moved_down(w, count)
    } else if moves_up(key) {
        moved_up(w)
    } else {
        w
    }
}

/// What `key` asks of a window over a list of `count` items: Esc cancels;
/// Enter chooses the item under the cursor, or cancels when there is none;
/// other letters than `'j'` and `'k'` are left to the window.
pub open spec fn selector_action(w: ListWindowView, key: SelectorKey, count: int) -> SelectorAction {
    match key {
        SelectorKey::Char(c) => if c == 'j' || c == 'k' {
            SelectorAction::Nothing
        } else {
            SelectorAction::Letter(c)
        },
        SelectorKey::Esc => SelectorAction::Cancel,
        SelectorKey::Enter => if w.cursor < count {
            SelectorAction::Select(w.cursor as usize)
        } else {
            SelectorAction::Cancel
        },
        _ => SelectorAction::Nothing,
    }
}

/// In a selector over at most 256 items, Down (or `j`) moves the cursor to the
/// next item and Up (or `k`) to the previous one, staying put at the last and
/// at the first; Enter chooses the item under the cursor and Esc cancels.
pub proof fn lemma_selector_keys_move_by_one(w: ListWindowView, key: SelectorKey, count: int)
    requires
        0 < count <= 256,
        w.cursor < count,
    ensures
        moves_down(key) ==> after_selector_key(w, key, count).cursor == if w.cursor + 1 < count {
            w.cursor + 1
        } else {
            w.cursor as int
        },
        moves_up(key) ==> after_selector_key(w, key, count).cursor == if w.cursor > 0 {
            w.cursor - 1
        } else {
            0
        },
        key == SelectorKey::Enter ==> selector_action(w, key, count) == SelectorAction::Select(
            w.cursor as usize,
        ),
        key == SelectorKey::Esc ==> selector_action(w, key, count) == SelectorAction::Cancel
            && after_selector_key(w, key, count) == w,
{
    assert((count - 1) % 256 == count - 1);
}

impl ListWindow {
    /// Handles a key pressed in a selector window over `item_count` items.
    pub fn on_key(&mut self, key: SelectorKey, item_count: usize) -> (action: SelectorAction)
        requires
            moves_down(key) ==> down_ok(old(self)@, item_count as int),
            moves_up(key) ==> up_ok(old(self)@),
        ensures
            final(self)@ == after_selector_key(old(self)@, key, item_count as int),
            action == selector_action(old(self)@, key, item_count as int),
    {
        match key {
            SelectorKey::Char(c) => {
                if c == 'j' {
                    self.move_cursor_down(item_count);
                    SelectorAction::Nothing
                } else if c == 'k' {
                    self.move_cursor_up();
                    SelectorAction::Nothing
                } else {
                    SelectorAction::Letter(c)
                }
            },
            SelectorKey::Down => {
                self.move_cursor_down(item_count);
                SelectorAction::Nothing
            },
            SelectorKey::Up => {
                self.move_cursor_up();
                SelectorAction::Nothing
            },
            SelectorKey::Esc => SelectorAction::Cancel,
            SelectorKey::Enter => {
                let selected = self.cursor as usize;
                if selected < item_count {
                    SelectorAction::Select(selected)
                } else {
                    SelectorAction::Cancel
                }
            },
            SelectorKey::Other => SelectorAction::Nothing,
        }
    }
}

} // verus!
