use tome::textarea::{
    add_character, adjust_lines, backspace, delete, do_insert, get_insert_position,
    handle_typing, is_cursor_at_end, move_down, move_left, move_right, move_up, on_key,
    update_cursor_display, CursorPosition, KeyEffects, TextAreaKey, TextAreaState,
};

fn state_with(x: usize, y: usize, cursor_char: char, prefix: &str, input: &str, display: &str) -> TextAreaState {
    TextAreaState {
        cursor_pos: CursorPosition { x, y },
        cursor_char,
        cursor_prefix: prefix.to_string(),
        display_input: display.to_string(),
        input: input.to_string(),
        background: "#000000".to_string(),
        foreground: "#ffffff".to_string(),
        ..Default::default()
    }
}

fn outcome(state: &TextAreaState) -> (char, String, usize, usize) {
    (
        state.cursor_char,
        state.cursor_prefix.clone(),
        state.cursor_pos.x,
        state.cursor_pos.y,
    )
}

#[test]
fn test_add_character_at_end() {
    let mut state = state_with(2, 0, ' ', "", "ab", "ab");
    add_character('x', &mut state);
    assert_eq!(outcome(&state), (' ', "".to_string(), 3, 0));
    assert_eq!(state.input, "abx");
}

#[test]
fn test_add_character_empty() {
    let mut state = state_with(0, 0, ' ', "", "", "");
    add_character('a', &mut state);
    assert_eq!(outcome(&state), (' ', "".to_string(), 1, 0));
    assert_eq!(state.input, "a");
}

#[test]
fn test_add_character_at_start() {
    let mut state = state_with(0, 0, 'a', "", "ab\n", "ab\n");
    add_character('x', &mut state);
    assert_eq!(outcome(&state), ('a', "".to_string(), 1, 0));
    assert_eq!(state.input, "xab\n");
}

#[test]
fn test_add_character_newline_moves_to_next_row() {
    let mut state = state_with(2, 0, ' ', "", "ab", "ab");
    add_character('\n', &mut state);
    assert_eq!((state.cursor_pos.x, state.cursor_pos.y), (0, 1));
    assert_eq!(state.input, "ab\n");
}

#[test]
fn test_move_down_to_next_line() {
    let mut state = state_with(3, 0, ' ', "abc\n", "abc\ndef", "abc\ndef");
    move_down(&mut state, 100);
    assert_eq!(outcome(&state), (' ', "abc\ndef".to_string(), 3, 1));
}

#[test]
fn test_move_down_clamps_to_shorter_line() {
    let mut state = state_with(6, 0, ' ', "abcdef\n", "abcdef\nghi", "abcdef\nghi");
    move_down(&mut state, 100);
    assert_eq!(outcome(&state), (' ', "abcdef\nghi".to_string(), 3, 1));
}

#[test]
fn test_move_down_on_last_line() {
    let mut state = state_with(6, 1, ' ', "abcdef\nghi", "abcdef\nghi", "abcdef\nghi");
    move_down(&mut state, 100);
    assert_eq!(outcome(&state), (' ', "abcdef\nghi".to_string(), 6, 1));
}

#[test]
fn test_move_up_to_previous_line() {
    let mut state = state_with(3, 1, ' ', "abc\ndef", "abc\ndef", "abc\ndef");
    move_up(&mut state, 100);
    assert_eq!(outcome(&state), (' ', "abc".to_string(), 3, 0));
}

#[test]
fn test_move_up_clamps_to_shorter_line() {
    let mut state = state_with(5, 1, ' ', "abc\ndefgh", "abc\ndefgh", "abc\ndefgh");
    move_up(&mut state, 100);
    assert_eq!(outcome(&state), (' ', "abc".to_string(), 3, 0));
}

#[test]
fn test_move_up_on_first_line() {
    let mut state = state_with(3, 0, ' ', "abc", "abc\ndef", "abc\ndef");
    move_up(&mut state, 100);
    assert_eq!(outcome(&state), (' ', "abc".to_string(), 3, 0));
}

#[test]
fn test_move_right_to_next_line() {
    let mut state = state_with(3, 0, ' ', "abc", "", "abc\ndef");
    move_right(&mut state);
    assert_eq!(outcome(&state), ('d', "abc\n".to_string(), 0, 1));
}

#[test]
fn test_move_right_at_end_of_text() {
    let mut state = state_with(3, 0, ' ', "abc", "", "abc");
    move_right(&mut state);
    assert_eq!(outcome(&state), (' ', "abc".to_string(), 3, 0));
}

#[test]
fn test_move_right_at_end_of_last_line() {
    let mut state = state_with(3, 1, ' ', "abc\ndef", "", "abc\ndef");
    move_right(&mut state);
    assert_eq!(outcome(&state), (' ', "abc\ndef".to_string(), 3, 1));
}

#[test]
fn test_move_left_in_line() {
    let mut state = state_with(3, 0, ' ', "abc", "", "abc");
    move_left(&mut state);
    assert_eq!(outcome(&state), ('c', "ab".to_string(), 2, 0));
}

#[test]
fn test_move_left_to_previous_line() {
    let mut state = state_with(0, 1, 'd', "abc\n", "", "abc\ndef");
    move_left(&mut state);
    assert_eq!(outcome(&state), (' ', "abc".to_string(), 3, 0));
}

#[test]
fn test_do_insert_ascii() {
    let mut input = "Som string".to_string();
    do_insert(&mut input, 3, 'e');
    assert_eq!(input, "Some string");
}

#[test]
fn test_do_insert_after_two_byte_char() {
    let mut input = "Sàm string".to_string();
    do_insert(&mut input, 3, 'e');
    assert_eq!(input, "Sàme string");
}

#[test]
fn test_do_insert_after_umlaut() {
    let mut input = "Söm string".to_string();
    do_insert(&mut input, 3, 'e');
    assert_eq!(input, "Söme string");
}

#[test]
fn test_do_insert_into_empty() {
    let mut input = String::new();
    do_insert(&mut input, 5, 'z');
    assert_eq!(input, "z");
}

#[test]
fn test_get_insert_position_cases() {
    let cases = [
        ("", 0, 0, 0),
        ("Some word\nthing", 0, 1, 10),
        ("Some word\nthing", 4, 1, 14),
        ("Some word\nthing", 1, 1, 11),
        ("Some word\nthing", 3, 0, 3),
    ];
    for (input, x, y, expected) in cases {
        assert_eq!(get_insert_position(input, &CursorPosition { x, y }), expected, "{input:?} {x} {y}");
    }
}

#[test]
fn test_is_cursor_at_end_cases() {
    let cases = [
        (0, 0, "Some text", false),
        (9, 0, "Some text", true),
        (5, 1, "Some\n text", true),
        (4, 1, "Some\n text", false),
        (0, 1, "Some\n text", false),
        (2, 0, "ab", true),
    ];
    for (x, y, input, expected) in cases {
        assert_eq!(is_cursor_at_end(&CursorPosition { x, y }, input), expected, "{input:?} {x} {y}");
    }
}

#[test]
fn test_update_cursor_display_at_end() {
    let mut state = TextAreaState::new(
        "Test input".to_string(),
        "Test input".to_string(),
        10,
        0,
        "",
        "",
    );
    update_cursor_display("Some input".to_string(), &mut state);
    assert_eq!(state.cursor_char.to_string(), " ");
    assert_eq!(state.cursor_prefix, "Some input");
}

#[test]
fn test_update_cursor_display_inside() {
    let mut state = TextAreaState::new("abc".to_string(), "ab".to_string(), 2, 0, "", "");
    update_cursor_display("abc".to_string(), &mut state);
    assert_eq!(state.cursor_char.to_string(), "c");
}

#[test]
fn test_adjust_lines_wraps_rows() {
    assert_eq!(
        adjust_lines("Here is a line\n and more text", 5),
        "Here\n is \na li\nne\n and\n mor\ne te\nxt"
    );
}

#[test]
fn test_adjust_lines_short_lines_unchanged() {
    assert_eq!(adjust_lines("ab\ncd", 10), "ab\ncd");
}

#[test]
fn test_typing_then_backspace_restores_text() {
    let mut state = state_with(2, 0, ' ', "", "abcd", "abcd");
    handle_typing('x', &mut state);
    assert_eq!(state.input, "abxcd");
    assert_eq!(state.display_input, "abxcd");
    assert!(backspace(&mut state));
    assert_eq!(state.input, "abcd");
    assert_eq!(state.display_input, "abcd");
    assert_eq!((state.cursor_pos.x, state.cursor_pos.y), (2, 0));
}

#[test]
fn test_backspace_at_start_changes_nothing() {
    let mut state = state_with(0, 0, 'a', "", "abc", "abc");
    assert!(!backspace(&mut state));
    assert_eq!(state.input, "abc");
}

#[test]
fn test_backspace_at_line_start_joins_lines() {
    let mut state = state_with(0, 1, 'd', "", "abc\ndef", "abc\ndef");
    assert!(backspace(&mut state));
    assert_eq!(state.input, "abcdef");
    assert_eq!((state.cursor_pos.x, state.cursor_pos.y), (6, 0));
}

#[test]
fn test_delete_removes_char_at_cursor() {
    let mut state = state_with(1, 0, 'b', "", "abc", "abc");
    assert!(delete(&mut state));
    assert_eq!(state.input, "ac");
    assert_eq!(state.display_input, "ac");
}

#[test]
fn test_on_key_char_types_and_sends() {
    let mut state = state_with(0, 0, ' ', "", "", "");
    let effects = on_key(&mut state, TextAreaKey::Char('h'), true, 80);
    assert_eq!(state.input, "h");
    assert_eq!(
        effects,
        KeyEffects { text_changed: true, send_input: true, copy: false, escape: false }
    );
}

#[test]
fn test_on_key_not_editable_keeps_text() {
    let mut state = state_with(0, 0, ' ', "", "abc", "abc");
    let effects = on_key(&mut state, TextAreaKey::Char('h'), false, 80);
    assert_eq!(state.input, "abc");
    assert!(!effects.text_changed);
    assert!(effects.send_input);
}

#[test]
fn test_on_key_tab_types_two_spaces() {
    let mut state = state_with(0, 0, ' ', "", "ab", "ab");
    let effects = on_key(&mut state, TextAreaKey::Tab, true, 80);
    assert_eq!(state.input, "  ab");
    assert_eq!((state.cursor_pos.x, state.cursor_pos.y), (2, 0));
    assert!(effects.text_changed);
    assert!(!effects.send_input);
}

#[test]
fn test_on_key_esc_and_copy() {
    let mut state = state_with(0, 0, ' ', "", "ab", "ab");
    assert!(on_key(&mut state, TextAreaKey::Esc, true, 80).escape);
    assert!(on_key(&mut state, TextAreaKey::CtrlC, true, 80).copy);
    assert_eq!(state.input, "ab");
}

#[test]
fn test_right_then_left_returns() {
    let mut state = state_with(1, 0, ' ', "", "", "abc\ndef");
    move_right(&mut state);
    assert_eq!((state.cursor_pos.x, state.cursor_pos.y), (2, 0));
    move_left(&mut state);
    assert_eq!((state.cursor_pos.x, state.cursor_pos.y), (1, 0));
    assert_eq!((state.cursor_char, state.cursor_prefix.as_str()), ('b', "a"));

    let mut state = state_with(3, 0, ' ', "", "", "abc\ndef");
    move_right(&mut state);
    assert_eq!((state.cursor_pos.x, state.cursor_pos.y), (0, 1));
    move_left(&mut state);
    assert_eq!((state.cursor_pos.x, state.cursor_pos.y), (3, 0));
}
