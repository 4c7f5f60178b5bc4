use tome::button_styles::{
    ButtonStyleEvent, ButtonStyleRow, ButtonStyleSelectorState, DEFAULT_PROJECT_ROW_COLOR,
    SELECTED_PROJECT_ROW_COLOR,
};
use tome::options::{BUTTON_STYLE_ANGLED, BUTTON_STYLE_ROUNDED, BUTTON_STYLE_SQUARED};
use tome::selector::SelectorKey;

fn styles() -> ButtonStyleSelectorState {
    let rows = [BUTTON_STYLE_ANGLED, BUTTON_STYLE_ROUNDED, BUTTON_STYLE_SQUARED]
        .iter()
        .map(|name| ButtonStyleRow { name: name.to_string(), row_color: "#000000".to_string() })
        .collect();
    ButtonStyleSelectorState {
        cursor: 0,
        visible_items: 5,
        window_list: rows,
        selected_button_style: String::new(),
    }
}

fn colors(state: &ButtonStyleSelectorState) -> Vec<&str> {
    state.window_list.iter().map(|r| r.row_color.as_str()).collect()
}

#[test]
fn test_button_style_cursor_moves_highlight() {
    let mut s = styles();
    assert_eq!(s.on_key(SelectorKey::Char('j')), ButtonStyleEvent::Nothing);
    assert_eq!(s.cursor, 1);
    assert_eq!(colors(&s), vec![DEFAULT_PROJECT_ROW_COLOR, SELECTED_PROJECT_ROW_COLOR, DEFAULT_PROJECT_ROW_COLOR]);
    s.on_key(SelectorKey::Down);
    s.on_key(SelectorKey::Down);
    assert_eq!(s.cursor, 2);
    s.on_key(SelectorKey::Up);
    s.on_key(SelectorKey::Char('k'));
    s.on_key(SelectorKey::Char('k'));
    assert_eq!(s.cursor, 0);
    assert_eq!(colors(&s)[0], SELECTED_PROJECT_ROW_COLOR);
}

#[test]
fn test_button_style_enter_and_escape() {
    let mut s = styles();
    s.on_key(SelectorKey::Down);
    assert_eq!(s.on_key(SelectorKey::Enter), ButtonStyleEvent::Selection);
    assert_eq!(s.selected_button_style, BUTTON_STYLE_ROUNDED);
    assert_eq!(s.on_key(SelectorKey::Esc), ButtonStyleEvent::Cancel);
    let mut empty = ButtonStyleSelectorState {
        cursor: 0,
        visible_items: 5,
        window_list: vec![],
        selected_button_style: String::new(),
    };
    assert_eq!(empty.on_key(SelectorKey::Enter), ButtonStyleEvent::Cancel);
}

#[test]
fn test_button_style_focus_shows_current_style() {
    let mut s = styles();
    s.on_focus(BUTTON_STYLE_SQUARED);
    assert_eq!(colors(&s), vec![DEFAULT_PROJECT_ROW_COLOR, DEFAULT_PROJECT_ROW_COLOR, SELECTED_PROJECT_ROW_COLOR]);
    s.update_item_list(0);
    assert_eq!(colors(&s), vec![SELECTED_PROJECT_ROW_COLOR, DEFAULT_PROJECT_ROW_COLOR, DEFAULT_PROJECT_ROW_COLOR]);
}
