use tome::syntax::{find_theme, highlight};

fn line_text(line: &tome::syntax::Line) -> String {
    let mut s = line.head.src.clone();
    for span in &line.tail {
        s.push_str(&span.src);
    }
    s
}

#[test]
fn test_find_theme_by_key() {
    assert_eq!(find_theme("InspiredGitHub").as_deref(), Some("InspiredGitHub"));
    assert_eq!(find_theme("[ Solarized (dark) ]").as_deref(), Some("Solarized (dark)"));
    assert_eq!(find_theme("base16-ocean.dark").as_deref(), Some("base16-ocean.dark"));
    assert_eq!(find_theme("Monokai Dark"), None);
}

#[test]
fn test_highlight_keeps_the_text_line_by_line() {
    let src = "{\"a\": 1}\n[true]\n";
    let lines = highlight(src, "json; charset=utf-8", "InspiredGitHub").expect("highlighted");
    assert_eq!(lines.len(), 2);
    assert_eq!(line_text(&lines[0]), "{\"a\": 1}\n");
    assert_eq!(line_text(&lines[1]), "[true]\n");
    assert!(lines.iter().any(|l| !l.tail.is_empty()));
}

#[test]
fn test_highlight_plain_text_and_unknown_theme() {
    let lines = highlight("plain words", "no-such-ext", "[ Solarized (light) ]").expect("highlighted");
    assert_eq!(lines.len(), 1);
    assert_eq!(line_text(&lines[0]), "plain words");
    assert!(highlight("x", "json", "Monokai Dark").is_none());
}
