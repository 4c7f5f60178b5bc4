//! The multi-line text editor of the request body: its state, cursor movement,
//! insertion and deletion.
//!
//! The cursor is a column `x` and a row `y`; columns are counted the way the
//! editor counts them, in bytes of the current line. The text offset of the
//! cursor is `x + y` plus the bytes of the lines above it.
use vstd::prelude::*;

use crate::text::{
    byte_len, bytes_before_line, bytes_before_line_exec, char_width, char_width_exec, chars_of,
    lemma_byte_len_remove, lemma_byte_len_take_mono, lemma_byte_len_take_step, line_len_or,
    join_lines, line_lengths, lines, split_lines, string_of,
};

verus! {

/// Messages a text area sends or is sent: its input changed, or it is to show
/// a new input.
#[derive(Debug)]
pub enum TextAreaMessages {
    InputChange(String),
    SetInput(String),
}

/// Column and row of the editing cursor.
#[derive(Default, Debug)]
pub struct CursorPosition {
    pub x: usize,
    pub y: usize,
}

/// State of a text area: the edited text, the text on display, and what is drawn
/// around the cursor.
#[derive(Default)]
pub struct TextAreaState {
    pub foreground: String,
    pub background: String,
    pub display_input: String,
    pub cursor_prefix: String,
    pub cursor_char: char,
    pub focused: bool,
    pub input: String,
    pub cursor_pos: CursorPosition,
    pub ident: String,
}

/// Mathematical model of a [`TextAreaState`].
pub struct TextAreaView {
    pub foreground: Seq<char>,
    pub background: Seq<char>,
    pub display_input: Seq<char>,
    pub cursor_prefix: Seq<char>,
    pub cursor_char: char,
    pub focused: bool,
    pub input: Seq<char>,
    pub x: usize,
    pub y: usize,
    pub ident: Seq<char>,
}

impl View for TextAreaState {
    type V = TextAreaView;

    open spec fn view(&self) -> TextAreaView {
        TextAreaView {
            foreground: self.foreground@,
            background: self.background@,
            display_input: self.display_input@,
            cursor_prefix: self.cursor_prefix@,
            cursor_char: self.cursor_char,
            focused: self.focused,
            input: self.input@,
            x: self.cursor_pos.x,
            y: self.cursor_pos.y,
            ident: self.ident@,
        }
    }
}

/// Offset in `s` of the cursor at column `x`, row `y`.
pub open spec fn insert_position(s: Seq<char>, x: int, y: int) -> int {
    x + y + bytes_before_line(s, y as nat)
}

/// The first `pos` characters of `s` (all of `s` when it is shorter).
pub open spec fn prefix_at(s: Seq<char>, pos: int) -> Seq<char> {
    if pos < s.len() {
        s.take(pos)
    } else {
        s
    }
}

/// The character drawn under the cursor at offset `pos`: the character there,
/// a space past the end, and a space in place of a newline.
pub open spec fn char_at_cursor(s: Seq<char>, pos: int) -> char {
    if 0 <= pos < s.len() && s[pos] != '\n' {
        s[pos]
    } else {
        ' '
    }
}

/// `s` with `c` inserted before the character at index `k`.
pub open spec fn inserted(s: Seq<char>, k: int, c: char) -> Seq<char> {
    s.take(k) + seq![c] + s.skip(k)
}

/// `String::insert` can take `pos` for `s`: `pos` is an offset in bytes that
/// starts a character or is the end of `s`.
pub open spec fn is_char_boundary(s: Seq<char>, pos: int) -> bool {
    exists|k: int| 0 <= k <= s.len() && byte_len(s.take(k)) == pos
}

/// `do_insert` can insert at `pos` in `s` without panicking.
pub open spec fn insert_ok(s: Seq<char>, pos: int) -> bool {
    pos < s.len() || s.len() == 0 || is_char_boundary(s, pos)
}

/// Index of the character of `s` that starts at byte offset `pos`.
pub open spec fn boundary_index(s: Seq<char>, pos: int) -> int {
    choose|k: int| 0 <= k <= s.len() && byte_len(s.take(k)) == pos
}

/// What `do_insert` leaves in a text `s` when it inserts `c` at `pos`, where
/// `pos` counts characters when it is less than their number and bytes
/// otherwise.
pub open spec fn insert_result(s: Seq<char>, pos: int, c: char) -> Seq<char> {
    if pos < s.len() {
        inserted(s, pos, c)
    } else if s.len() == 0 {
        seq![c]
    } else {
        inserted(s, boundary_index(s, pos), c)
    }
}

/// Returns the index of the next character insertion in the input string
pub fn get_insert_position(input: &str, cursor_pos: &CursorPosition) -> (r: usize)
    requires
        insert_position(input@, cursor_pos.x as int, cursor_pos.y as int) <= usize::MAX,
    ensures
        r == insert_position(input@, cursor_pos.x as int, cursor_pos.y as int),
{
    let chars = chars_of(input);
    cursor_pos.x + cursor_pos.y + bytes_before_line_exec(&chars, cursor_pos.y)
}

fn insert_position_of(chars: &Vec<char>, x: usize, y: usize) -> (r: usize)
    requires
        insert_position(chars@, x as int, y as int) <= usize::MAX,
    ensures
        r == insert_position(chars@, x as int, y as int),
{
    x + y + bytes_before_line_exec(chars, y)
}

/// Index of the character that starts at byte offset `pos` of `v`.
fn char_index_at_byte(v: &Vec<char>, pos: usize) -> (k: usize)
    requires
        is_char_boundary(v@, pos as int),
    ensures
        k <= v.len(),
        byte_len(v@.take(k as int)) == pos,
{
    let ghost kk = choose|k: int| 0 <= k <= v@.len() && byte_len(v@.take(k)) == pos;
    let mut j: usize = 0;
    let mut off: usize = 0;
    proof {
        assert(v@.take(0).len() == 0);
    }
    while j < v.len() && off < pos
        invariant
            j <= v.len(),
            0 <= kk <= v@.len(),
            byte_len(v@.take(kk)) == pos,
            off == byte_len(v@.take(j as int)),
            off <= pos,
            j <= kk,
        decreases v.len() - j,
    {
        proof {
            lemma_byte_len_take_step(v@, j as int);
            if kk == j {
                assert(false);
            }
            lemma_byte_len_take_mono(v@, j as int + 1, kk);
        }
        off = off + char_width_exec(v[j]);
        j += 1;
    }
    proof {
        if j < kk {
            lemma_byte_len_take_mono(v@, j as int, kk);
        }
    }
    j
}

/// Inserts `c` into `current_input` at `insert_position`, which is taken as a
/// character index when it is less than the number of characters and as a byte
/// offset otherwise.
pub fn do_insert(current_input: &mut String, insert_position: usize, c: char)
    requires
        insert_ok(old(current_input)@, insert_position as int),
    ensures
        final(current_input)@ == insert_result(old(current_input)@, insert_position as int, c),
{
    let mut v = chars_of(current_input.as_str());
    let ghost s = v@;
    if insert_position < v.len() {
        v.insert(insert_position, c);
        proof {
            assert(v@ =~= inserted(s, insert_position as int, c));
        }
    } else if v.len() == 0 {
        v.push(c);
        proof {
            assert(v@ =~= seq![c]);
        }
    } else {
        let k = char_index_at_byte(&v, insert_position);
        v.insert(k, c);
        proof {
            assert(v@ =~= inserted(s, k as int, c));
            let k2 = boundary_index(s, insert_position as int);
            if k2 < k {
                lemma_byte_len_take_mono(s, k2, k as int);
            } else if k2 > k {
                lemma_byte_len_take_mono(s, k as int, k2);
            }
        }
    }
    *current_input = string_of(v.as_slice());
}

/// The state after the cursor display is recomputed from the displayed text:
/// the text before the cursor and the character under it.
pub open spec fn with_cursor_display(v: TextAreaView) -> TextAreaView {
    let pos = insert_position(v.display_input, v.x as int, v.y as int);
    TextAreaView {
        cursor_prefix: prefix_at(v.display_input, pos),
        cursor_char: char_at_cursor(v.display_input, pos),
        ..v
    }
}

/// The state after the edited text is put on display, with the text before
/// the cursor taken from it.
pub open spec fn rendered(v: TextAreaView) -> TextAreaView {
    TextAreaView {
        display_input: v.input,
        cursor_prefix: prefix_at(v.input, insert_position(v.input, v.x as int, v.y as int)),
        ..v
    }
}

/// The cursor display of `v` can be computed without overflow.
pub open spec fn display_fits(v: TextAreaView) -> bool {
    insert_position(v.display_input, v.x as int, v.y as int) <= usize::MAX
}

/// The cursor offset in the edited text of `v` fits in a `usize`.
pub open spec fn input_fits(v: TextAreaView) -> bool {
    insert_position(v.input, v.x as int, v.y as int) <= usize::MAX
}

/// Whether the cursor stands after the last character of `s`.
pub open spec fn cursor_at_end(s: Seq<char>, x: int, y: int) -> bool {
    s.len() == 0 || insert_position(s, x, y) == byte_len(s) - char_width(s.last()) + 1
}

/// The state after `c` is typed at the cursor: `c` is inserted where the cursor
/// stands and the cursor moves past it, to the next row for a newline.
pub open spec fn typed(v: TextAreaView, c: char) -> TextAreaView {
    let pos = insert_position(v.input, v.x as int, v.y as int);
    TextAreaView {
        input: insert_result(v.input, pos, c),
        x: if c == '\n' { 0 } else { (v.x + 1) as usize },
        y: if c == '\n' { (v.y + 1) as usize } else { v.y },
        ..v
    }
}

/// `add_character` can type `c` in `v` without panicking.
pub open spec fn typing_ok(v: TextAreaView, c: char) -> bool {
    &&& input_fits(v)
    &&& insert_ok(v.input, insert_position(v.input, v.x as int, v.y as int))
    &&& c == '\n' ==> v.y < usize::MAX
    &&& c != '\n' ==> v.x < usize::MAX
}

impl TextAreaState {
    pub fn new(input: String, prefix: String, x: usize, y: usize, fg: &str, bg: &str) -> (s: Self)
        ensures
            s@ == (TextAreaView {
                foreground: fg@,
                background: bg@,
                display_input: input@,
                cursor_prefix: prefix@,
                cursor_char: '\0',
                focused: false,
                input: Seq::empty(),
                x,
                y,
                ident: Seq::empty(),
            }),
    {
        TextAreaState {
            display_input: input,
            cursor_prefix: prefix,
            cursor_pos: CursorPosition { x, y },
            focused: false,
            foreground: fg.to_owned(),
            background: bg.to_owned(),
            cursor_char: '\0',
            input: String::new(),
            ident: String::new(),
        }
    }
}

/// Whether the cursor stands after the last character of `input`.
pub fn is_cursor_at_end(cursor: &CursorPosition, input: &str) -> (r: bool)
    requires
        input@.len() > 0 ==> insert_position(input@, cursor.x as int, cursor.y as int)
            <= usize::MAX && byte_len(input@) <= usize::MAX,
    ensures
        r == cursor_at_end(input@, cursor.x as int, cursor.y as int),
{
    let chars = chars_of(input);
    if chars.len() == 0 {
        return true;
    }
    let curr_pos = insert_position_of(&chars, cursor.x, cursor.y);
    let total = crate::text::byte_len_exec(&chars);
    let last_width = char_width_exec(chars[chars.len() - 1]);
    proof {
        assert(chars@.drop_last() =~= chars@.take(chars@.len() - 1));
        lemma_byte_len_take_mono(chars@, chars@.len() - 1, chars@.len() - 1);
    }
    let last_index = total - last_width;
    let last_cursor_index = last_index + 1;
    last_cursor_index == curr_pos
}

/// The first `pos` characters of `chars`, as a string.
fn prefix_string(chars: &Vec<char>, pos: usize) -> (r: String)
    ensures
        r@ == prefix_at(chars@, pos as int),
{
    if pos < chars.len() {
        crate::text::string_of_first(chars.as_slice(), pos)
    } else {
        string_of(chars.as_slice())
    }
}

/// The text of `state.input` before the cursor.
pub fn get_cursor_prefix(state: &TextAreaState) -> (r: String)
    requires
        input_fits(state@),
    ensures
        r@ == prefix_at(state@.input, insert_position(state@.input, state@.x as int, state@.y as int)),
{
    let chars = chars_of(state.input.as_str());
    let index = insert_position_of(&chars, state.cursor_pos.x, state.cursor_pos.y);
    prefix_string(&chars, index)
}

/// Puts the edited text on display and recomputes the text before the cursor.
pub fn render_display(state: &mut TextAreaState)
    requires
        input_fits(old(state)@),
    ensures
        final(state)@ == rendered(old(state)@),
{
    state.display_input = state.input.clone();
    let prefix = get_cursor_prefix(state);
    state.cursor_prefix = prefix;
}

/// Recomputes the text before the cursor and the character under it from the
/// displayed text.
pub fn update_cursor_after_move(state: &mut TextAreaState)
    requires
        display_fits(old(state)@),
    ensures
        final(state)@ == with_cursor_display(old(state)@),
{
    let chars = chars_of(state.display_input.as_str());
    let pos = insert_position_of(&chars, state.cursor_pos.x, state.cursor_pos.y);
    let prefix = prefix_string(&chars, pos);
    let mut cursor_char = if pos < chars.len() { chars[pos] } else { ' ' };
    if cursor_char == '\n' {
        cursor_char = ' ';
    }
    state.cursor_prefix = prefix;
    state.cursor_char = cursor_char;
}

/// Types `c` at the cursor and moves the cursor past it.
pub fn add_character(c: char, state: &mut TextAreaState)
    requires
        typing_ok(old(state)@, c),
    ensures
        final(state)@ == typed(old(state)@, c),
{
    let insert_position = get_insert_position(state.input.as_str(), &state.cursor_pos);
    do_insert(&mut state.input, insert_position, c);
    if c == '\n' {
        state.cursor_pos.x = 0;
        state.cursor_pos.y = state.cursor_pos.y + 1;
    } else {
        state.cursor_pos.x = state.cursor_pos.x + 1;
    }
}

/// Shows `prefix` as the text before the cursor and picks the character drawn
/// under the cursor: a space at the end of the displayed text, otherwise the
/// last character of `prefix`.
pub fn update_cursor_display(prefix: String, state: &mut TextAreaState)
    requires
        old(state)@.display_input.len() > 0 ==> display_fits(old(state)@) && byte_len(
            old(state)@.display_input,
        ) <= usize::MAX,
        !cursor_at_end(old(state)@.display_input, old(state)@.x as int, old(state)@.y as int)
            ==> prefix@.len() > 0,
    ensures
        final(state)@ == (TextAreaView {
            cursor_prefix: prefix@,
            cursor_char: if cursor_at_end(
                old(state)@.display_input,
                old(state)@.x as int,
                old(state)@.y as int,
            ) {
                ' '
            } else {
                prefix@.last()
            },
            ..old(state)@
        }),
{
    let chars = chars_of(prefix.as_str());
    let is_at_end = is_cursor_at_end(&state.cursor_pos, state.display_input.as_str());
    state.cursor_prefix = prefix;
    if is_at_end {
        state.cursor_char = ' ';
    } else {
        state.cursor_char = chars[chars.len() - 1];
    }
}

/// Number of lines of `s`, less one (zero for a text without lines).
pub open spec fn last_line_index(s: Seq<char>) -> int {
    if lines(s).len() == 0 {
        0
    } else {
        lines(s).len() - 1
    }
}

/// Whether `move_left` moves the cursor of `v`.
pub open spec fn left_moves(v: TextAreaView) -> bool {
    if v.x == 0 && v.y == 0 {
        false
    } else if v.x == 0 {
        v.y - 1 < lines(v.display_input).len()
    } else {
        true
    }
}

/// Where `move_left` puts the cursor of `v` when it moves it: one column to
/// the left, or the end of the line above from the first column.
pub open spec fn left_cursor(v: TextAreaView) -> TextAreaView {
    if v.x == 0 {
        TextAreaView {
            x: byte_len(lines(v.display_input)[v.y - 1]) as usize,
            y: (v.y - 1) as usize,
            ..v
        }
    } else {
        TextAreaView { x: (v.x - 1) as usize, ..v }
    }
}

/// The state after `move_left`.
pub open spec fn moved_left(v: TextAreaView) -> TextAreaView {
    if left_moves(v) {
        with_cursor_display(left_cursor(v))
    } else {
        v
    }
}

/// Whether `move_right` moves the cursor of `v`: not at the end of the last line.
pub open spec fn right_moves(v: TextAreaView) -> bool {
    !(v.x == line_len_or(v.display_input, v.y as int, 1) && v.y == last_line_index(
        v.display_input,
    ))
}

/// Where `move_right` puts the cursor when it moves it: one column to the
/// right, or the start of the next line from the end of a line.
pub open spec fn right_cursor(v: TextAreaView) -> TextAreaView {
    if v.x == line_len_or(v.display_input, v.y as int, 1) {
        TextAreaView { x: 0, y: (v.y + 1) as usize, ..v }
    } else {
        TextAreaView { x: (v.x + 1) as usize, ..v }
    }
}

/// The state after `move_right`.
pub open spec fn moved_right(v: TextAreaView) -> TextAreaView {
    if right_moves(v) {
        with_cursor_display(right_cursor(v))
    } else {
        v
    }
}

/// Moving the cursor right and then left brings it back where it stood, as
/// long as it stands on a line of the text, within that line, and not at the
/// very end of the text.
pub proof fn lemma_right_then_left(v: TextAreaView)
    requires
        v.y < lines(v.display_input).len(),
        v.x <= line_len_or(v.display_input, v.y as int, 1),
        right_moves(v),
        v.x < usize::MAX,
        v.y < usize::MAX,
    ensures
        moved_left(moved_right(v)) == with_cursor_display(v),
{
    let r = moved_right(v);
    if v.x == line_len_or(v.display_input, v.y as int, 1) {
        assert(r.x == 0 && r.y == v.y + 1);
        assert(left_moves(r));
        assert(left_cursor(r).x == v.x && left_cursor(r).y == v.y);
    } else {
        assert(r.x == v.x + 1 && r.y == v.y);
        assert(left_cursor(r).x == v.x && left_cursor(r).y == v.y);
    }
}

/// `move_right` can run on `v` without overflow.
pub open spec fn right_ok(v: TextAreaView) -> bool {
    &&& byte_len(v.display_input) <= usize::MAX
    &&& right_moves(v) ==> v.x < usize::MAX && v.y < usize::MAX && display_fits(right_cursor(v))
}

/// `move_left` can run on `v` without overflow.
pub open spec fn left_ok(v: TextAreaView) -> bool {
    &&& byte_len(v.display_input) <= usize::MAX
    &&& left_moves(v) ==> display_fits(left_cursor(v))
}

fn line_len_at(ls: &Vec<usize>, y: usize, default: usize, s: Ghost<Seq<char>>) -> (r: usize)
    requires
        ls.len() == lines(s@).len(),
        forall|k: int| 0 <= k < ls.len() ==> ls[k] == byte_len(#[trigger] lines(s@)[k]),
    ensures
        r == line_len_or(s@, y as int, default as nat),
{
    if y < ls.len() {
        ls[y]
    } else {
        default
    }
}

/// Moves the cursor one column to the left, to the end of the line above from
/// the first column.
pub fn move_left(state: &mut TextAreaState)
    requires
        left_ok(old(state)@),
    ensures
        final(state)@ == moved_left(old(state)@),
{
    let x = state.cursor_pos.x;
    let y = state.cursor_pos.y;
    if x == 0 && y == 0 {
        return ;
    } else if x == 0 {
        let d = chars_of(state.display_input.as_str());
        let ls = line_lengths(&d);
        let prev_line_ndx = y - 1;
        if prev_line_ndx >= ls.len() {
            return ;
        }
        state.cursor_pos.x = ls[prev_line_ndx];
        state.cursor_pos.y = y - 1;
    } else {
        state.cursor_pos.x = x - 1;
    }
    update_cursor_after_move(state);
}

/// Moves the cursor one column to the right, to the start of the next line from
/// the end of a line; the end of the last line stays put.
pub fn move_right(state: &mut TextAreaState)
    requires
        right_ok(old(state)@),
    ensures
        final(state)@ == moved_right(old(state)@),
{
    let x = state.cursor_pos.x;
    let y = state.cursor_pos.y;
    let d = chars_of(state.display_input.as_str());
    let ls = line_lengths(&d);
    let total_lines = ls.len();
    let current_line_len = line_len_at(&ls, y, 1, Ghost(d@));
    let is_at_end_of_line = x == current_line_len;
    let is_at_last_line = y == if total_lines == 0 { 0 } else { total_lines - 1 };
    if is_at_end_of_line && is_at_last_line {
        return ;
    } else if is_at_end_of_line && !is_at_last_line {
        state.cursor_pos.x = 0;
        state.cursor_pos.y = y + 1;
    } else {
        state.cursor_pos.x = x + 1;
    }
    update_cursor_after_move(state);
}

/// `a - b`, or zero when `b` is larger.
pub open spec fn sat_sub(a: int, b: int) -> int {
    if a > b {
        a - b
    } else {
        0
    }
}

/// Sum over the first `k` lines of `ls` of their byte length less one.
pub open spec fn lens_less_one(ls: Seq<Seq<char>>, k: int) -> int
    decreases k,
{
    if k <= 0 || ls.len() == 0 {
        0
    } else if k > ls.len() {
        lens_less_one(ls, ls.len() as int)
    } else {
        lens_less_one(ls, k - 1) + sat_sub(byte_len(ls[k - 1]) as int, 1)
    }
}

proof fn lemma_lens_less_one_mono(ls: Seq<Seq<char>>, i: int, j: int)
    requires
        0 <= i <= j <= ls.len(),
    ensures
        0 <= lens_less_one(ls, i) <= lens_less_one(ls, j),
    decreases j,
{
    if i < j {
        lemma_lens_less_one_mono(ls, i, j - 1);
    } else if i > 0 {
        lemma_lens_less_one_mono(ls, i - 1, i - 1);
    }
}

/// How far `move_up` shifts the column to reach the last screen row of a line
/// of `nl` bytes wrapped at `w` columns (computed through an `i16`, as the
/// editor does).
pub open spec fn up_shift(nl: int, w: int) -> int {
    (((nl / w) as i16) as usize) as int * w
}

/// The state after `move_up` in an area `w` columns wide: within a wrapped line
/// the cursor goes up one screen row; otherwise it goes to the line above (to
/// its last screen row when that line is wrapped), and the text is redrawn.
pub open spec fn moved_up(v: TextAreaView, w: int) -> TextAreaView {
    let d = v.display_input;
    let cur = line_len_or(d, v.y as int, 0);
    if cur > w && v.x > w {
        TextAreaView { x: (v.x - w) as usize, ..v }
    } else if v.y == 0 {
        v
    } else {
        let ny = v.y - 1;
        let nl = line_len_or(d, ny, 0);
        let x1 = if v.x > nl {
            nl as int
        } else {
            v.x as int
        };
        let x2 = if nl > w {
            x1 + up_shift(nl as int, w)
        } else {
            x1
        };
        rendered(TextAreaView { x: x2 as usize, y: ny as usize, ..v })
    }
}

/// `move_up` can run on `v` without panicking.
pub open spec fn up_ok(v: TextAreaView, w: int) -> bool {
    let d = v.display_input;
    let cur = line_len_or(d, v.y as int, 0);
    let ny = v.y - 1;
    let nl = line_len_or(d, ny, 0);
    let x1 = if v.x > nl {
        nl as int
    } else {
        v.x as int
    };
    &&& byte_len(d) <= usize::MAX
    &&& !(cur > w && v.x > w) && v.y > 0 ==> {
        &&& nl > w ==> w > 0 && up_shift(nl as int, w) <= usize::MAX && x1 + up_shift(nl as int, w)
            <= usize::MAX
        &&& input_fits(moved_up_cursor(v, w))
    }
}

/// The cursor of `moved_up(v, w)` before the text is redrawn, on a line change.
pub open spec fn moved_up_cursor(v: TextAreaView, w: int) -> TextAreaView {
    let d = v.display_input;
    let ny = v.y - 1;
    let nl = line_len_or(d, ny, 0);
    let x1 = if v.x > nl {
        nl as int
    } else {
        v.x as int
    };
    let x2 = if nl > w {
        x1 + up_shift(nl as int, w)
    } else {
        x1
    };
    TextAreaView { x: x2 as usize, y: ny as usize, ..v }
}

/// Moves the cursor up one screen row in an area `width` columns wide.
pub fn move_up(state: &mut TextAreaState, width: usize)
    requires
        up_ok(old(state)@, width as int),
    ensures
        final(state)@ == moved_up(old(state)@, width as int),
{
    let x = state.cursor_pos.x;
    let y = state.cursor_pos.y;
    let d = chars_of(state.display_input.as_str());
    let ls = line_lengths(&d);
    let current_line_len = line_len_at(&ls, y, 0, Ghost(d@));
    let is_wider_than_width = current_line_len > width;
    let is_cursor_on_subline = x > width;
    if is_wider_than_width && is_cursor_on_subline {
        state.cursor_pos.x = x - width;
        return ;
    }
    if y == 0 {
        return ;
    }
    state.cursor_pos.y = y - 1;
    let line_width = line_len_at(&ls, y - 1, 0, Ghost(d@));
    if x > line_width {
        state.cursor_pos.x = line_width;
    }
    if line_width > width {
        let sub_lines = (line_width / width) as i16;
        let shift = sub_lines as usize * width;
        state.cursor_pos.x = state.cursor_pos.x + shift;
    }
    render_display(state);
}

/// Within a line wider than the area, with the cursor past the first screen
/// row, Up moves the cursor exactly one screen row up in the same line: the
/// column drops by the width, the row and the text stay, and the cursor is
/// redrawn there.
pub proof fn lemma_up_within_wrapped_line(v: TextAreaView, w: int)
    requires
        line_len_or(v.display_input, v.y as int, 0) > w,
        v.x > w,
        w >= 0,
    ensures
        moved_up(v, w).x + w == v.x,
        moved_up(v, w).y == v.y,
        moved_up(v, w).input == v.input,
        moved_up(v, w).display_input == v.display_input,
        w > 0 ==> moved_up(v, w).x < v.x,
        with_cursor_display(moved_up(v, w)).x + w == v.x,
        with_cursor_display(moved_up(v, w)).cursor_prefix == prefix_at(
            v.display_input,
            insert_position(v.display_input, v.x - w, v.y as int),
        ),
{
}

/// Up from the first screen row of a line: on the first line nothing moves;
/// otherwise the cursor goes to the line above, no further right than that
/// line's end when the line fits the area, and the edited text is put on
/// display.
pub proof fn lemma_up_between_lines(v: TextAreaView, w: int)
    requires
        !(line_len_or(v.display_input, v.y as int, 0) > w && v.x > w),
        line_len_or(v.display_input, v.y - 1, 0) <= w,
    ensures
        v.y == 0 ==> moved_up(v, w) == v,
        v.y > 0 ==> {
            let nl = line_len_or(v.display_input, v.y - 1, 0);
            &&& moved_up(v, w).y + 1 == v.y
            &&& moved_up(v, w).x <= nl
            &&& moved_up(v, w).x <= v.x
            &&& (moved_up(v, w).x == v.x || moved_up(v, w).x == nl)
            &&& moved_up(v, w).input == v.input
            &&& moved_up(v, w).display_input == v.input
        },
{
}

/// Moves the cursor up one screen row and redraws the cursor.
pub fn handle_move_up(state: &mut TextAreaState, width: usize)
    requires
        up_ok(old(state)@, width as int),
        display_fits(moved_up(old(state)@, width as int)),
    ensures
        final(state)@ == with_cursor_display(moved_up(old(state)@, width as int)),
{
    move_up(state, width);
    update_cursor_after_move(state);
}

/// Byte offset at which `move_down` takes the line `y` of `d` to start.
pub open spec fn down_start(d: Seq<char>, y: int) -> int {
    lens_less_one(lines(d), y)
}

/// The pieces of arithmetic `move_down` does for `v` in an area `w` wide:
/// the length of the cursor line, where it starts and ends, and the bounds of
/// its last full screen row.
pub open spec fn down_cur(v: TextAreaView) -> int {
    line_len_or(v.display_input, v.y as int, 0) as int
}

pub open spec fn down_ending(v: TextAreaView) -> int {
    down_start(v.display_input, v.y as int) + sat_sub(down_cur(v), 1)
}

pub open spec fn down_last_full_start(v: TextAreaView, w: int) -> int {
    down_start(v.display_input, v.y as int) + sat_sub(down_cur(v) / w, 1) * w
}

/// Whether `move_down` keeps the cursor within a wrapped line (one screen row
/// down), and so does not change lines.
pub open spec fn down_within_line(v: TextAreaView, w: int) -> bool {
    let cur = down_cur(v);
    let lfls = down_last_full_start(v, w);
    cur > w && (v.x < sat_sub(cur, w) || (v.x >= lfls && v.x <= lfls + w))
}

/// The state after `move_down` in an area `w` columns wide: within a wrapped
/// line the cursor goes down one screen row; otherwise, unless the cursor is
/// on the last line of the edited text, it goes to the line below (no further
/// than its end) and the text is redrawn.
pub open spec fn moved_down(v: TextAreaView, w: int) -> TextAreaView {
    let cur = down_cur(v);
    if cur > w && v.x < sat_sub(cur, w) {
        TextAreaView { x: (v.x + w) as usize, ..v }
    } else if down_within_line(v, w) {
        let p = v.x + w;
        let e = down_ending(v);
        TextAreaView {
            x: (if p < e {
                p
            } else {
                e
            }) as usize,
            ..v
        }
    } else if v.y == sat_sub(lines(v.input).len() as int, 1) {
        v
    } else {
        rendered(moved_down_cursor(v))
    }
}

/// The cursor of `moved_down(v, w)` before the text is redrawn, on a line change.
pub open spec fn moved_down_cursor(v: TextAreaView) -> TextAreaView {
    let ny = v.y + 1;
    let nl = line_len_or(v.display_input, ny, 0);
    TextAreaView {
        x: if v.x > nl {
            nl as usize
        } else {
            v.x
        },
        y: ny as usize,
        ..v
    }
}

/// `move_down` can run on `v` without panicking or overflow. The editor rounds
/// the number of screen rows of the cursor line through an `f32`, which keeps it
/// exact up to 2^24 rows; the line must have no more.
pub open spec fn down_ok(v: TextAreaView, w: int) -> bool {
    &&& w > 0
    &&& byte_len(v.display_input) <= usize::MAX
    &&& byte_len(v.input) <= usize::MAX
    &&& down_cur(v) / w <= 0x100_0000
    &&& down_ending(v) <= usize::MAX
    &&& down_last_full_start(v, w) + w <= usize::MAX
    &&& down_within_line(v, w) ==> v.x + w <= usize::MAX
    &&& !down_within_line(v, w) && v.y != sat_sub(lines(v.input).len() as int, 1) ==> {
        &&& v.y < usize::MAX
        &&& input_fits(moved_down_cursor(v))
    }
}

fn sum_lens_less_one(ls: &Vec<usize>, y: usize, s: Ghost<Seq<char>>) -> (r: usize)
    requires
        ls.len() == lines(s@).len(),
        forall|k: int| 0 <= k < ls.len() ==> ls[k] == byte_len(#[trigger] lines(s@)[k]),
        lens_less_one(lines(s@), y as int) <= usize::MAX,
    ensures
        r == lens_less_one(lines(s@), y as int),
{
    let n = if y < ls.len() { y } else { ls.len() };
    let ghost l = lines(s@);
    let mut acc: usize = 0;
    let mut i: usize = 0;
    while i < n
        invariant
            n <= ls.len(),
            n == if y < ls.len() { y as int } else { ls.len() as int },
            i <= n,
            ls.len() == l.len(),
            forall|k: int| 0 <= k < ls.len() ==> ls[k] == byte_len(#[trigger] l[k]),
            acc == lens_less_one(l, i as int),
            lens_less_one(l, n as int) <= usize::MAX,
        decreases n - i,
    {
        proof {
            lemma_lens_less_one_mono(l, i as int + 1, n as int);
        }
        let li = ls[i];
        acc = acc + if li > 1 { li - 1 } else { 0 };
        i += 1;
    }
    acc
}

/// Moves the cursor down one screen row in an area `width` columns wide.
pub fn move_down(state: &mut TextAreaState, width: usize)
    requires
        down_ok(old(state)@, width as int),
    ensures
        final(state)@ == moved_down(old(state)@, width as int),
{
    let x = state.cursor_pos.x;
    let y = state.cursor_pos.y;
    let d = chars_of(state.display_input.as_str());
    let ls = line_lengths(&d);
    let current_line_len = line_len_at(&ls, y, 0, Ghost(d@));
    proof {
        lemma_lens_less_one_mono(
            lines(d@),
            if (y as int) < lines(d@).len() { y as int } else { lines(d@).len() as int },
            lines(d@).len() as int,
        );
    }
    let starting_index = sum_lens_less_one(&ls, y, Ghost(d@));
    let ending_index = starting_index + if current_line_len > 1 { current_line_len - 1 } else { 0 };
    let is_wider_than_width = current_line_len > width;
    let last_sub_start = if current_line_len > width { current_line_len - width } else { 0 };
    let is_cursor_not_on_last_subline = x < last_sub_start;
    let total_sublines = current_line_len / width;
    let last_full_line_start = starting_index + (if total_sublines > 1 { total_sublines - 1 } else { 0 }) * width;
    let last_full_line_end = last_full_line_start + width;
    if is_wider_than_width && is_cursor_not_on_last_subline {
        state.cursor_pos.x = x + width;
        return ;
    } else if is_wider_than_width && x >= last_full_line_start && x <= last_full_line_end {
        let last_line_pos = x + width;
        state.cursor_pos.x = if last_line_pos < ending_index { last_line_pos } else { ending_index };
        return ;
    }
    let i = chars_of(state.input.as_str());
    let input_lines = line_lengths(&i);
    let total_lines = input_lines.len();
    if y == if total_lines > 1 { total_lines - 1 } else { 0 } {
        return ;
    }
    state.cursor_pos.y = y + 1;
    let new_line_len = line_len_at(&ls, y + 1, 0, Ghost(d@));
    if x > new_line_len {
        state.cursor_pos.x = new_line_len;
    }
    render_display(state);
}

/// Moves the cursor down one screen row and redraws the cursor.
pub fn handle_move_down(state: &mut TextAreaState, width: usize)
    requires
        down_ok(old(state)@, width as int),
        display_fits(moved_down(old(state)@, width as int)),
    ensures
        final(state)@ == with_cursor_display(moved_down(old(state)@, width as int)),
{
    move_down(state, width);
    update_cursor_after_move(state);
}

/// Down within a line wider than the area, with a full screen row below the
/// cursor, moves the cursor exactly one screen row down in the same line.
pub proof fn lemma_down_within_wrapped_line(v: TextAreaView, w: int)
    requires
        w >= 0,
        down_cur(v) > w,
        v.x + w < down_cur(v),
        v.x + w <= usize::MAX,
    ensures
        moved_down(v, w).x == v.x + w,
        moved_down(v, w).y == v.y,
        moved_down(v, w).input == v.input,
        moved_down(v, w).display_input == v.display_input,
{
}

/// Down from the last screen row of a line: on the last line of the edited
/// text nothing moves; otherwise the cursor goes to the line below, no further
/// right than that line's end, and the edited text is put on display.
pub proof fn lemma_down_between_lines(v: TextAreaView, w: int)
    requires
        !down_within_line(v, w),
        v.y < usize::MAX,
        line_len_or(v.display_input, v.y + 1, 0) <= usize::MAX,
    ensures
        v.y == sat_sub(lines(v.input).len() as int, 1) ==> moved_down(v, w) == v,
        v.y != sat_sub(lines(v.input).len() as int, 1) ==> {
            let nl = line_len_or(v.display_input, v.y + 1, 0);
            &&& moved_down(v, w).y == v.y + 1
            &&& moved_down(v, w).x <= nl
            &&& moved_down(v, w).x <= v.x
            &&& (moved_down(v, w).x == v.x || moved_down(v, w).x == nl)
            &&& moved_down(v, w).input == v.input
            &&& moved_down(v, w).display_input == v.input
        },
{
}

/// Left and right move the cursor by one column within a line, and across a
/// line end to the neighbouring line; neither changes the text.
pub proof fn lemma_left_right_steps(v: TextAreaView)
    ensures
        v.x > 0 ==> moved_left(v).x + 1 == v.x && moved_left(v).y == v.y,
        v.x == 0 && v.y == 0 ==> moved_left(v) == v,
        v.x == 0 && 0 < v.y <= lines(v.display_input).len() && byte_len(
            lines(v.display_input)[v.y - 1],
        ) <= usize::MAX ==> moved_left(v).y + 1 == v.y && moved_left(v).x == byte_len(
            lines(v.display_input)[v.y - 1],
        ),
        right_moves(v) && v.x != line_len_or(v.display_input, v.y as int, 1) && v.x < usize::MAX
            ==> moved_right(v).x == v.x + 1 && moved_right(v).y == v.y,
        right_moves(v) && v.x == line_len_or(v.display_input, v.y as int, 1) && v.y < usize::MAX
            ==> moved_right(v).x == 0 && moved_right(v).y == v.y + 1,
        !right_moves(v) ==> moved_right(v) == v,
        moved_left(v).input == v.input && moved_left(v).display_input == v.display_input,
        moved_right(v).input == v.input && moved_right(v).display_input == v.display_input,
{
}

/// Whether `backspace` removes a character of `v`: the cursor is not at the
/// very start and there is a character before its offset.
pub open spec fn backspace_removes(v: TextAreaView) -> bool {
    !(v.x == 0 && v.y == 0) && insert_position(v.input, v.x as int, v.y as int) - 1
        < v.input.len()
}

/// The state after `backspace` removed a character: the character before the
/// cursor offset is gone, the new text is on display, and the cursor moves one
/// column left (to the end of the line above from the first column).
pub open spec fn after_backspace(v: TextAreaView) -> TextAreaView {
    let t = v.input.remove(insert_position(v.input, v.x as int, v.y as int) - 1);
    with_cursor_display(
        TextAreaView {
            input: t,
            display_input: t,
            x: if v.x > 0 {
                (v.x - 1) as usize
            } else {
                line_len_or(t, v.y - 1, 0) as usize
            },
            y: if v.x > 0 {
                v.y
            } else {
                (v.y - 1) as usize
            },
            ..v
        },
    )
}

/// Backspace removes exactly the character just before the cursor offset,
/// whatever it is (a newline too, which joins two lines), unless the cursor is
/// at the very start; the cursor moves one column left, or from the first
/// column to the line above.
pub proof fn lemma_backspace_removes_char_before_cursor(v: TextAreaView)
    requires
        !(v.x == 0 && v.y == 0),
        insert_position(v.input, v.x as int, v.y as int) <= v.input.len(),
    ensures
        backspace_removes(v),
        ({
            let pos = insert_position(v.input, v.x as int, v.y as int);
            let t = after_backspace(v).input;
            &&& t.len() + 1 == v.input.len()
            &&& t == v.input.take(pos - 1) + v.input.skip(pos)
            &&& after_backspace(v).display_input == t
            &&& v.x > 0 ==> after_backspace(v).x + 1 == v.x && after_backspace(v).y == v.y
            &&& v.x == 0 ==> after_backspace(v).y + 1 == v.y
        }),
{
    let pos = insert_position(v.input, v.x as int, v.y as int);
    assert(v.input.remove(pos - 1) =~= v.input.take(pos - 1) + v.input.skip(pos));
}

/// `backspace` can run on `v` without overflow.
pub open spec fn backspace_ok(v: TextAreaView) -> bool {
    &&& !(v.x == 0 && v.y == 0) ==> input_fits(v)
    &&& byte_len(v.input) <= usize::MAX
    &&& backspace_removes(v) ==> display_fits(after_backspace_cursor(v))
}

/// `after_backspace(v)` before the cursor display is recomputed.
pub open spec fn after_backspace_cursor(v: TextAreaView) -> TextAreaView {
    let t = v.input.remove(insert_position(v.input, v.x as int, v.y as int) - 1);
    TextAreaView {
        input: t,
        display_input: t,
        x: if v.x > 0 {
            (v.x - 1) as usize
        } else {
            line_len_or(t, v.y - 1, 0) as usize
        },
        y: if v.x > 0 {
            v.y
        } else {
            (v.y - 1) as usize
        },
        ..v
    }
}

/// Removes the character before the cursor; returns whether the text changed.
pub fn backspace(state: &mut TextAreaState) -> (changed: bool)
    requires
        backspace_ok(old(state)@),
    ensures
        changed == backspace_removes(old(state)@),
        final(state)@ == if changed {
            after_backspace(old(state)@)
        } else {
            old(state)@
        },
{
    let x = state.cursor_pos.x;
    let y = state.cursor_pos.y;
    if x == 0 && y == 0 {
        return false;
    }
    let mut v = chars_of(state.input.as_str());
    let index = insert_position_of(&v, x, y);
    if index - 1 >= v.len() {
        return false;
    }
    let ghost s = v@;
    v.remove(index - 1);
    proof {
        lemma_byte_len_remove(s, index - 1);
    }
    state.input = string_of(v.as_slice());
    state.display_input = state.input.clone();
    if x > 0 {
        state.cursor_pos.x = x - 1;
    } else {
        state.cursor_pos.y = y - 1;
        let ls = line_lengths(&v);
        state.cursor_pos.x = line_len_at(&ls, y - 1, 0, Ghost(v@));
    }
    update_cursor_after_move(state);
    true
}

/// Byte length of the last line of `s` (zero when it has no lines).
pub open spec fn last_line_len(s: Seq<char>) -> int {
    if lines(s).len() == 0 {
        0
    } else {
        byte_len(lines(s).last()) as int
    }
}

/// Whether `delete` removes a character of `v`: the cursor is not on the last
/// column of the last line and there is a character at its offset.
pub open spec fn delete_removes(v: TextAreaView) -> bool {
    !(v.x == last_line_len(v.input) - 1 && v.y == lines(v.input).len() - 1) && insert_position(
        v.input,
        v.x as int,
        v.y as int,
    ) < v.input.len()
}

/// The state after `delete` removed the character at the cursor offset; the
/// new text is on display.
pub open spec fn after_delete(v: TextAreaView) -> TextAreaView {
    let t = v.input.remove(insert_position(v.input, v.x as int, v.y as int));
    with_cursor_display(TextAreaView { input: t, display_input: t, ..v })
}

/// `delete` can run on `v` without panicking: the editor takes one from the
/// length of the last line, which must not be empty.
pub open spec fn delete_ok(v: TextAreaView) -> bool {
    let t = v.input.remove(insert_position(v.input, v.x as int, v.y as int));
    &&& last_line_len(v.input) >= 1
    &&& byte_len(v.input) <= usize::MAX
    &&& !(v.x == last_line_len(v.input) - 1 && v.y == lines(v.input).len() - 1) ==> input_fits(v)
    &&& delete_removes(v) ==> display_fits(TextAreaView { input: t, display_input: t, ..v })
}

/// Delete removes exactly the character at the cursor offset, whatever it is
/// (a newline too, which joins two lines), whenever the cursor is not on the
/// last column of the last line and its offset lies within the text; the rest
/// of the text keeps its order, and the new text is put on display.
pub proof fn lemma_delete_removes_char_at_cursor(v: TextAreaView)
    requires
        !(v.x == last_line_len(v.input) - 1 && v.y == lines(v.input).len() - 1),
        insert_position(v.input, v.x as int, v.y as int) < v.input.len(),
    ensures
        delete_removes(v),
        ({
            let pos = insert_position(v.input, v.x as int, v.y as int);
            let t = after_delete(v).input;
            &&& t.len() + 1 == v.input.len()
            &&& t == v.input.take(pos) + v.input.skip(pos + 1)
            &&& after_delete(v).display_input == t
            &&& after_delete(v).x == v.x && after_delete(v).y == v.y
        }),
{
    let pos = insert_position(v.input, v.x as int, v.y as int);
    assert(v.input.remove(pos) =~= v.input.take(pos) + v.input.skip(pos + 1));
}

/// Removes the character at the cursor; returns whether the text changed.
pub fn delete(state: &mut TextAreaState) -> (changed: bool)
    requires
        delete_ok(old(state)@),
    ensures
        changed == delete_removes(old(state)@),
        final(state)@ == if changed {
            after_delete(old(state)@)
        } else {
            old(state)@
        },
{
    let x = state.cursor_pos.x;
    let y = state.cursor_pos.y;
    let mut v = chars_of(state.input.as_str());
    let ls = line_lengths(&v);
    let lines_count = ls.len();
    let last_line_len = if lines_count > 0 { ls[lines_count - 1] } else { 0 };
    if x == last_line_len - 1 && y == lines_count - 1 {
        return false;
    }
    let current_input_index = insert_position_of(&v, x, y);
    if current_input_index >= v.len() {
        return false;
    }
    v.remove(current_input_index);
    state.input = string_of(v.as_slice());
    state.display_input = state.input.clone();
    update_cursor_after_move(state);
    true
}

/// Types `c` at the cursor and redraws the text.
pub fn handle_typing(c: char, state: &mut TextAreaState)
    requires
        typing_ok(old(state)@, c),
        input_fits(typed(old(state)@, c)),
    ensures
        final(state)@ == rendered(typed(old(state)@, c)),
{
    add_character(c, state);
    render_display(state);
}

/// Number of newlines in `s`.
pub open spec fn newline_count(s: Seq<char>) -> nat
    decreases s.len(),
{
    if s.len() == 0 {
        0
    } else {
        (if s[0] == '\n' {
            1nat
        } else {
            0nat
        }) + newline_count(s.drop_first())
    }
}

/// In a text of one-byte characters with at least `y` newlines, the offset of
/// column 0 on row `y` is where line `y` starts: exactly `y` newlines come
/// before it, and for `y > 0` the character just before it is a newline.
/// Column `x` of that row lies `x` characters further on.
pub proof fn lemma_insert_position_at_line_start(s: Seq<char>, x: int, y: nat)
    requires
        forall|i: int| 0 <= i < s.len() ==> char_width(#[trigger] s[i]) == 1,
        newline_count(s) >= y,
    ensures
        insert_position(s, 0, y as int) <= s.len(),
        newline_count(s.take(insert_position(s, 0, y as int))) == y,
        y > 0 ==> s[insert_position(s, 0, y as int) - 1] == '\n',
        insert_position(s, x, y as int) == insert_position(s, 0, y as int) + x,
    decreases s.len(),
{
    if y == 0 {
        assert(s.take(0) =~= Seq::<char>::empty());
    } else {
        assert(s.len() > 0);
        let t = s.drop_first();
        assert forall|i: int| 0 <= i < t.len() implies char_width(#[trigger] t[i]) == 1 by {
            assert(t[i] == s[i + 1]);
        }
        if s[0] == '\n' {
            lemma_insert_position_at_line_start(t, 0, (y - 1) as nat);
            let q = insert_position(t, 0, y - 1);
            assert(insert_position(s, 0, y as int) == q + 1);
            assert(s.take(q + 1).drop_first() =~= t.take(q));
            if y > 1 {
                assert(s[q] == t[q - 1]);
            }
        } else {
            assert(char_width(s[0]) == 1);
            lemma_insert_position_at_line_start(t, 0, y);
            let q = insert_position(t, 0, y as int);
            assert(insert_position(s, 0, y as int) == q + 1);
            assert(s.take(q + 1).drop_first() =~= t.take(q));
            assert(s[q] == t[q - 1]);
        }
    }
}

/// Inserting a character other than a newline after the first `y` newlines
/// leaves the bytes before line `y` as they were.
proof fn lemma_bytes_before_line_insert(s: Seq<char>, k: int, c: char, y: nat)
    requires
        c != '\n',
        0 <= k <= s.len(),
        newline_count(s.take(k)) >= y,
    ensures
        bytes_before_line(inserted(s, k, c), y) == bytes_before_line(s, y),
    decreases s.len(),
{
    if y > 0 {
        if k == 0 {
            assert(s.take(0) =~= Seq::<char>::empty());
        }
        let t = inserted(s, k, c);
        assert(t[0] == s[0]);
        assert(t.drop_first() =~= inserted(s.drop_first(), k - 1, c));
        assert(s.take(k).drop_first() =~= s.drop_first().take(k - 1));
        if s[0] == '\n' {
            lemma_bytes_before_line_insert(s.drop_first(), k - 1, c, (y - 1) as nat);
        } else {
            lemma_bytes_before_line_insert(s.drop_first(), k - 1, c, y);
        }
    }
}

/// Typing a character other than a newline inside the text, with the cursor
/// standing on its row (at least as many newlines before its offset as its row
/// number), and then pressing backspace gives back the text and the cursor.
pub proof fn lemma_type_then_backspace(v: TextAreaView, c: char)
    requires
        c != '\n',
        v.x < usize::MAX,
        insert_position(v.input, v.x as int, v.y as int) < v.input.len(),
        newline_count(v.input.take(insert_position(v.input, v.x as int, v.y as int))) >= v.y,
    ensures
        backspace_removes(rendered(typed(v, c))),
        after_backspace(rendered(typed(v, c))).input == v.input,
        after_backspace(rendered(typed(v, c))).display_input == v.input,
        after_backspace(rendered(typed(v, c))).x == v.x,
        after_backspace(rendered(typed(v, c))).y == v.y,
{
    let s = v.input;
    let pos = insert_position(s, v.x as int, v.y as int);
    let t = inserted(s, pos, c);
    lemma_bytes_before_line_insert(s, pos, c, v.y as nat);
    let w = rendered(typed(v, c));
    assert(w.input == t);
    assert(insert_position(t, w.x as int, w.y as int) == pos + 1);
    assert(t.remove(pos) =~= s);
}

/// A key as the text area tells keys apart.
#[derive(Debug, Clone, Copy, PartialEq, Eq, Structural)]
pub enum TextAreaKey {
    Char(char),
    Enter,
    Backspace,
    Delete,
    Tab,
    CtrlC,
    Left,
    Right,
    Up,
    Down,
    Esc,
    Other,
}

/// What is left to do after the text area took a key: publish that its text
/// changed, send its input to its listeners, copy its text, or give the
/// focus back.
#[derive(Debug, Clone, Copy, PartialEq, Eq, Structural)]
pub struct KeyEffects {
    pub text_changed: bool,
    pub send_input: bool,
    pub copy: bool,
    pub escape: bool,
}

/// The text area after `c` is typed, when it is editable.
pub open spec fn typed_if(v: TextAreaView, c: char, editable: bool) -> TextAreaView {
    if editable {
        rendered(typed(v, c))
    } else {
        v
    }
}

/// Whether the text area can take `key`: what each step it takes asks of the
/// text before it.
pub open spec fn key_ok(v: TextAreaView, key: TextAreaKey, editable: bool, width: int) -> bool {
    match key {
        TextAreaKey::Char(c) => editable ==> typing_ok(v, c) && input_fits(typed(v, c)),
        TextAreaKey::Enter => editable ==> typing_ok(v, '\n') && input_fits(typed(v, '\n')),
        TextAreaKey::Tab => editable ==> {
            &&& typing_ok(v, ' ')
            &&& input_fits(typed(v, ' '))
            &&& typing_ok(rendered(typed(v, ' ')), ' ')
            &&& input_fits(typed(rendered(typed(v, ' ')), ' '))
        },
        TextAreaKey::Backspace => editable ==> backspace_ok(v),
        TextAreaKey::Delete => editable ==> delete_ok(v),
        TextAreaKey::Left => left_ok(v),
        TextAreaKey::Right => right_ok(v),
        TextAreaKey::Up => up_ok(v, width) && display_fits(moved_up(v, width)),
        TextAreaKey::Down => down_ok(v, width) && display_fits(moved_down(v, width)),
        _ => true,
    }
}

/// The text area after it took `key`.
pub open spec fn after_key(v: TextAreaView, key: TextAreaKey, editable: bool, width: int) -> TextAreaView {
    match key {
        TextAreaKey::Char(c) => typed_if(v, c, editable),
        TextAreaKey::Enter => typed_if(v, '\n', editable),
        TextAreaKey::Tab => typed_if(typed_if(v, ' ', editable), ' ', editable),
        TextAreaKey::Backspace => if editable && backspace_removes(v) {
            after_backspace(v)
        } else {
            v
        },
        TextAreaKey::Delete => if editable && delete_removes(v) {
            after_delete(v)
        } else {
            v
        },
        TextAreaKey::Left => moved_left(v),
        TextAreaKey::Right => moved_right(v),
        TextAreaKey::Up => with_cursor_display(moved_up(v, width)),
        TextAreaKey::Down => with_cursor_display(moved_down(v, width)),
        _ => v,
    }
}

/// What is left to do after the text area took `key`.
pub open spec fn key_effects(v: TextAreaView, key: TextAreaKey, editable: bool) -> KeyEffects {
    KeyEffects {
        text_changed: match key {
            TextAreaKey::Char(_) | TextAreaKey::Enter | TextAreaKey::Tab => editable,
            TextAreaKey::Backspace => editable && backspace_removes(v),
            TextAreaKey::Delete => editable && delete_removes(v),
            _ => false,
        },
        send_input: key is Char,
        copy: key is CtrlC,
        escape: key is Esc,
    }
}

/// A text area that cannot be edited keeps its text whatever the key, and
/// never reports a change of it; a character key is the only one whose input
/// is sent on, Ctrl+C the only one that copies, Esc the only one that gives
/// the focus back.
pub proof fn lemma_read_only_keeps_text(v: TextAreaView, key: TextAreaKey, width: int)
    ensures
        after_key(v, key, false, width).input == v.input,
        !key_effects(v, key, false).text_changed,
        key_effects(v, key, false).send_input <==> key is Char,
        key_effects(v, key, false).copy <==> key == TextAreaKey::CtrlC,
        key_effects(v, key, false).escape <==> key == TextAreaKey::Esc,
{
}

/// In an editable text area, a character key or Enter inserts exactly that
/// character (a newline for Enter) at the cursor offset, when the offset lies
/// within the text, and reports a change; the cursor moves past it, to the
/// start of the next row for a newline; the new text is put on display.
pub proof fn lemma_typing_inserts_at_cursor(v: TextAreaView, key: TextAreaKey, width: int)
    requires
        key is Char || key == TextAreaKey::Enter,
        insert_position(v.input, v.x as int, v.y as int) < v.input.len(),
        v.x < usize::MAX,
        v.y < usize::MAX,
    ensures
        ({
            let c = match key {
                TextAreaKey::Char(c) => c,
                _ => '\n',
            };
            let pos = insert_position(v.input, v.x as int, v.y as int);
            let w = after_key(v, key, true, width);
            &&& w.input == v.input.take(pos) + seq![c] + v.input.skip(pos)
            &&& w.display_input == w.input
            &&& c == '\n' ==> w.x == 0 && w.y == v.y + 1
            &&& c != '\n' ==> w.x == v.x + 1 && w.y == v.y
            &&& key_effects(v, key, true).text_changed
        }),
{
}

/// Types `c` when the text area is editable.
fn type_if_editable(c: char, state: &mut TextAreaState, editable: bool)
    requires
        editable ==> typing_ok(old(state)@, c) && input_fits(typed(old(state)@, c)),
    ensures
        final(state)@ == typed_if(old(state)@, c, editable),
{
    if editable {
        handle_typing(c, state);
    }
}

/// Handles a key pressed in the text area, whose rows are `width` columns wide
/// and whose text can be edited when `editable` holds.
pub fn on_key(state: &mut TextAreaState, key: TextAreaKey, editable: bool, width: usize) -> (effects:
    KeyEffects)
    requires
        key_ok(old(state)@, key, editable, width as int),
    ensures
        final(state)@ == after_key(old(state)@, key, editable, width as int),
        effects == key_effects(old(state)@, key, editable),
{
    let ghost v = state@;
    let text_changed = match key {
        TextAreaKey::Char(c) => {
            type_if_editable(c, state, editable);
            editable
        },
        TextAreaKey::Enter => {
            type_if_editable('\n', state, editable);
            editable
        },
        TextAreaKey::Tab => {
            type_if_editable(' ', state, editable);
            type_if_editable(' ', state, editable);
            editable
        },
        TextAreaKey::Backspace => editable && backspace(state),
        TextAreaKey::Delete => editable && delete(state),
        TextAreaKey::Left => {
            move_left(state);
            false
        },
        TextAreaKey::Right => {
            move_right(state);
            false
        },
        TextAreaKey::Up => {
            handle_move_up(state, width);
            false
        },
        TextAreaKey::Down => {
            handle_move_down(state, width);
            false
        },
        _ => false,
    };
    let send_input = match key {
        TextAreaKey::Char(_) => true,
        _ => false,
    };
    let copy = match key {
        TextAreaKey::CtrlC => true,
        _ => false,
    };
    let escape = match key {
        TextAreaKey::Esc => true,
        _ => false,
    };
    KeyEffects { text_changed, send_input, copy, escape }
}

/// `l` cut into pieces of `n` characters, the last piece holding the rest (an
/// empty line gives one empty piece).
pub open spec fn chunks(l: Seq<char>, n: nat) -> Seq<Seq<char>>
    decreases l.len(),
{
    if n == 0 || l.len() <= n {
        seq![l]
    } else {
        seq![l.take(n as int)] + chunks(l.skip(n as int), n)
    }
}

/// The pieces of all lines of `ls`, line after line.
pub open spec fn all_chunks(ls: Seq<Seq<char>>, n: nat) -> Seq<Seq<char>>
    decreases ls.len(),
{
    if ls.len() == 0 {
        Seq::empty()
    } else {
        all_chunks(ls.drop_last(), n) + chunks(ls.last(), n)
    }
}

/// `s` with every line wrapped to rows of `width - 1` characters.
pub open spec fn wrapped(s: Seq<char>, width: int) -> Seq<char> {
    join_lines(all_chunks(lines(s), (width - 1) as nat))
}

/// The characters of `v` from index `a` up to `b`.
fn copy_range(v: &Vec<char>, a: usize, b: usize) -> (r: Vec<char>)
    requires
        a <= b <= v.len(),
    ensures
        r@ == v@.subrange(a as int, b as int),
{
    let mut r: Vec<char> = Vec::new();
    let mut i = a;
    while i < b
        invariant
            a <= i <= b <= v.len(),
            r@ == v@.subrange(a as int, i as int),
        decreases b - i,
    {
        r.push(v[i]);
        proof {
            assert(r@ =~= v@.subrange(a as int, i as int + 1));
        }
        i += 1;
    }
    r
}

/// Wraps every line of `input` to rows of `width - 1` characters, each row on
/// a line of its own.
pub fn adjust_lines(input: &str, width: usize) -> (r: String)
    requires
        width >= 2,
    ensures
        r@ == wrapped(input@, width as int),
{
    let chars = chars_of(input);
    let ls = split_lines(&chars);
    let n = width - 1;
    let ghost l = lines(chars@);
    let mut pieces: Vec<Vec<char>> = Vec::new();
    let mut i: usize = 0;
    while i < ls.len()
        invariant
            i <= ls.len(),
            n >= 1,
            ls.len() == l.len(),
            forall|k: int| 0 <= k < ls.len() ==> ls[k]@ == #[trigger] l[k],
            ({
                let x = all_chunks(l.take(i as int), n as nat);
                &&& pieces.len() == x.len()
                &&& forall|k: int| 0 <= k < pieces.len() ==> pieces[k]@ == #[trigger] x[k]
            }),
        decreases ls.len() - i,
    {
        let line = &ls[i];
        let ghost before = all_chunks(l.take(i as int), n as nat);
        let ghost produced: Seq<Seq<char>> = Seq::empty();
        let mut p: usize = 0;
        proof {
            assert(line@.skip(0) =~= line@);
        }
        while line.len() - p > n
            invariant
                p <= line.len(),
                n >= 1,
                produced + chunks(line@.skip(p as int), n as nat) == chunks(line@, n as nat),
                pieces.len() == before.len() + produced.len(),
                forall|k: int| 0 <= k < pieces.len() ==> pieces[k]@ == #[trigger] (before + produced)[k],
            decreases line.len() - p,
        {
            let piece = copy_range(line, p, p + n);
            let ghost produced_before = produced;
            proof {
                let rest = line@.skip(p as int);
                assert(rest.take(n as int) =~= line@.subrange(p as int, p + n));
                assert(rest.skip(n as int) =~= line@.skip(p + n));
                assert(produced.push(rest.take(n as int)) + chunks(rest.skip(n as int), n as nat)
                    =~= produced + chunks(rest, n as nat));
                produced = produced.push(rest.take(n as int));
            }
            pieces.push(piece);
            p = p + n;
            proof {
                assert forall|k: int| 0 <= k < pieces.len() implies pieces[k]@ == #[trigger] (before
                    + produced)[k] by {
                    if k < pieces.len() - 1 {
                        assert((before + produced)[k] == (before + produced_before)[k]);
                    }
                }
            }
        }
        let last = copy_range(line, p, line.len());
        let ghost produced_before = produced;
        proof {
            let rest = line@.skip(p as int);
            assert(last@ =~= rest);
            assert(produced.push(rest) =~= chunks(line@, n as nat));
            assert(l.take(i as int + 1).drop_last() =~= l.take(i as int));
            assert(all_chunks(l.take(i as int + 1), n as nat) =~= before + chunks(l[i as int], n as nat));
            produced = produced.push(rest);
        }
        pieces.push(last);
        proof {
            assert forall|k: int| 0 <= k < pieces.len() implies pieces[k]@ == #[trigger] (before
                + produced)[k] by {
                if k < pieces.len() - 1 {
                    assert((before + produced)[k] == (before + produced_before)[k]);
                }
            }
        }
        i += 1;
    }
    proof {
        assert(l.take(ls.len() as int) =~= l);
    }
    let ghost x = all_chunks(l, n as nat);
    let mut out: Vec<char> = Vec::new();
    let mut k: usize = 0;
    while k < pieces.len()
        invariant
            k <= pieces.len(),
            pieces.len() == x.len(),
            forall|j: int| 0 <= j < pieces.len() ==> pieces[j]@ == #[trigger] x[j],
            out@ == join_lines(x.take(k as int)),
        decreases pieces.len() - k,
    {
        proof {
            assert(x.take(k as int + 1).drop_last() =~= x.take(k as int));
        }
        if k > 0 {
            out.push('\n');
        }
        let piece = &pieces[k];
        let ghost out0 = out@;
        let mut j: usize = 0;
        while j < piece.len()
            invariant
                j <= piece.len(),
                out@ == out0 + piece@.take(j as int),
            decreases piece.len() - j,
        {
            out.push(piece[j]);
            proof {
                assert(out@ =~= out0 + piece@.take(j as int + 1));
            }
            j += 1;
        }
        proof {
            assert(piece@.take(j as int) =~= piece@);
            if k == 0 {
                assert(out@ =~= x.take(1)[0]);
            }
        }
        k += 1;
    }
    proof {
        assert(x.take(k as int) =~= x);
    }
    string_of(out.as_slice())
}

} // verus!
