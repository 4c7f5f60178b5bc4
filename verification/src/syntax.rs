//! Names used around syntax highlighting: the constant name of a theme, the key
//! of a highlight theme, and the file extension a response is highlighted as.
use syntect::easy::HighlightLines;
use syntect::highlighting::ThemeSet;
use syntect::parsing::SyntaxSet;
use syntect::util::LinesWithEndings;
use vstd::prelude::*;

use crate::text::{
    str_eq, chars_of, chars_upto, find_char, first_index, replace_char, replace_char_exec, replace_pair,
    replace_pair_exec, string_of, to_uppercase, trim_chars, trimmed, uppercase, is_whitespace,
    leading_ws, trailing_ws,
};

verus! {

/// The characters left out of a constant name.
pub open spec fn is_symbol(c: char) -> bool {
    c == '\'' || c == '[' || c == ']' || c == '(' || c == ')' || c == '&' || c == '-'
}

/// `s` without the characters `' [ ] ( ) & -`.
pub open spec fn without_symbols(s: Seq<char>) -> Seq<char>
    decreases s.len(),
{
    if s.len() == 0 {
        Seq::empty()
    } else if is_symbol(s.last()) {
        without_symbols(s.drop_last())
    } else {
        without_symbols(s.drop_last()).push(s.last())
    }
}

/// The constant name of a theme called `name`: uppercased, without the
/// characters `' [ ] ( ) & -`, trimmed, spaces as underscores, and each double
/// underscore made single.
pub open spec fn constant_name(name: Seq<char>) -> Seq<char> {
    replace_pair(
        replace_char(trimmed(without_symbols(uppercase(name))), ' ', '_'),
        '_',
        '_',
        seq!['_'],
    )
}

/// The key under which the highlight theme called `name` is found: uppercased,
/// without `"[ "` and `" ]"`, spaces as underscores.
pub open spec fn theme_key(name: Seq<char>) -> Seq<char> {
    replace_char(
        replace_pair(replace_pair(uppercase(name), '[', ' ', Seq::empty()), ' ', ']', Seq::empty()),
        ' ',
        '_',
    )
}

/// The extension a response is highlighted as: the part of `ext` before its
/// first `';'`, or all of it.
pub open spec fn highlight_extension(ext: Seq<char>) -> Seq<char> {
    match first_index(ext, ';') {
        Some(i) => ext.take(i),
        None => ext,
    }
}

proof fn lemma_without_symbols_clean(s: Seq<char>)
    ensures
        forall|i: int|
            0 <= i < without_symbols(s).len() ==> !is_symbol(#[trigger] without_symbols(s)[i]),
    decreases s.len(),
{
    if s.len() > 0 {
        lemma_without_symbols_clean(s.drop_last());
        let r = without_symbols(s.drop_last());
        if !is_symbol(s.last()) {
            assert forall|i: int| 0 <= i < r.push(s.last()).len() implies !is_symbol(
                #[trigger] r.push(s.last())[i],
            ) by {
                if i < r.len() {
                    assert(r.push(s.last())[i] == r[i]);
                }
            }
        }
    }
}

/// Taking the symbols out of a name drops the characters `' [ ] ( ) & -` and
/// keeps all others, in order.
pub proof fn lemma_without_symbols_keeps_the_rest(s: Seq<char>)
    ensures
        without_symbols(s) == s.filter(|c: char| !is_symbol(c)),
    decreases s.len(),
{
    reveal(Seq::filter);
    if s.len() > 0 {
        lemma_without_symbols_keeps_the_rest(s.drop_last());
    }
}

proof fn lemma_trailing_ws_all(s: Seq<char>)
    ensures
        trailing_ws(s) <= s.len(),
        forall|k: int| s.len() - trailing_ws(s) <= k < s.len() ==> is_whitespace(#[trigger] s[k]),
    decreases s.len(),
{
    if s.len() > 0 && is_whitespace(s.last()) {
        lemma_trailing_ws_all(s.drop_last());
        assert forall|k: int| s.len() - trailing_ws(s) <= k < s.len() implies is_whitespace(
            #[trigger] s[k],
        ) by {
            if k < s.len() - 1 {
                assert(s[k] == s.drop_last()[k]);
            }
        }
    }
}

proof fn lemma_leading_ws_all(s: Seq<char>)
    ensures
        leading_ws(s) <= s.len(),
        leading_ws(s) < s.len() ==> !is_whitespace(s[leading_ws(s) as int]),
    decreases s.len(),
{
    if s.len() > 0 && is_whitespace(s[0]) {
        lemma_leading_ws_all(s.drop_first());
        if leading_ws(s) < s.len() {
            assert(s[leading_ws(s) as int] == s.drop_first()[leading_ws(s.drop_first()) as int]);
        }
    }
}

/// Every character of `trimmed(s)` is one of `s`, so what holds of all the
/// characters of `s` holds of all those of `trimmed(s)`.
proof fn lemma_trimmed_keeps(s: Seq<char>, p: spec_fn(char) -> bool)
    requires
        forall|k: int| 0 <= k < s.len() ==> p(#[trigger] s[k]),
    ensures
        forall|i: int| 0 <= i < trimmed(s).len() ==> p(#[trigger] trimmed(s)[i]),
{
    lemma_leading_ws_all(s);
    lemma_trailing_ws_all(s);
    let a = leading_ws(s) as int;
    if a < s.len() {
        assert(a < s.len() - trailing_ws(s)) by {
            if a >= s.len() - trailing_ws(s) {
                assert(is_whitespace(s[a]));
            }
        }
        assert forall|i: int| 0 <= i < trimmed(s).len() implies p(#[trigger] trimmed(s)[i]) by {
            assert(trimmed(s)[i] == s[a + i]);
        }
    }
}

/// What holds of every character of `s` and of `rep` holds of every
/// character of `replace_pair(s, a, b, rep)`.
proof fn lemma_replace_pair_keeps(s: Seq<char>, a: char, b: char, rep: Seq<char>, p: spec_fn(char) -> bool)
    requires
        forall|k: int| 0 <= k < s.len() ==> p(#[trigger] s[k]),
        forall|k: int| 0 <= k < rep.len() ==> p(#[trigger] rep[k]),
    ensures
        forall|i: int|
            0 <= i < replace_pair(s, a, b, rep).len() ==> p(#[trigger] replace_pair(s, a, b, rep)[i]),
    decreases s.len(),
{
    if s.len() > 0 {
        if s.len() >= 2 && s[0] == a && s[1] == b {
            let t = s.skip(2);
            assert forall|k: int| 0 <= k < t.len() implies p(#[trigger] t[k]) by {
                assert(t[k] == s[k + 2]);
            }
            lemma_replace_pair_keeps(t, a, b, rep, p);
            let r = replace_pair(t, a, b, rep);
            assert forall|i: int| 0 <= i < (rep + r).len() implies p(#[trigger] (rep + r)[i]) by {
                if i >= rep.len() {
                    assert((rep + r)[i] == r[i - rep.len()]);
                }
            }
        } else {
            let t = s.skip(1);
            assert forall|k: int| 0 <= k < t.len() implies p(#[trigger] t[k]) by {
                assert(t[k] == s[k + 1]);
            }
            lemma_replace_pair_keeps(t, a, b, rep, p);
            let r = replace_pair(t, a, b, rep);
            assert forall|i: int| 0 <= i < (seq![s[0]] + r).len() implies p(
                #[trigger] (seq![s[0]] + r)[i],
            ) by {
                if i >= 1 {
                    assert((seq![s[0]] + r)[i] == r[i - 1]);
                }
            }
        }
    }
}

/// A theme's constant name holds none of the characters `' [ ] ( ) & -` and
/// no space, whatever the theme's name.
pub proof fn lemma_constant_name_is_clean(name: Seq<char>)
    ensures
        forall|i: int|
            0 <= i < constant_name(name).len() ==> !is_symbol(#[trigger] constant_name(name)[i])
                && constant_name(name)[i] != ' ',
{
    let s0 = without_symbols(uppercase(name));
    lemma_without_symbols_clean(uppercase(name));
    let p1 = |c: char| !is_symbol(c);
    assert forall|k: int| 0 <= k < s0.len() implies p1(#[trigger] s0[k]) by {}
    lemma_trimmed_keeps(s0, p1);
    let s1 = trimmed(s0);
    let s2 = replace_char(s1, ' ', '_');
    let p2 = |c: char| !is_symbol(c) && c != ' ';
    assert forall|k: int| 0 <= k < s2.len() implies p2(#[trigger] s2[k]) by {
        assert(p1(s1[k]));
    }
    assert forall|k: int| 0 <= k < seq!['_'].len() implies p2(#[trigger] seq!['_'][k]) by {}
    lemma_replace_pair_keeps(s2, '_', '_', seq!['_'], p2);
    assert forall|i: int| 0 <= i < constant_name(name).len() implies !is_symbol(
        #[trigger] constant_name(name)[i],
    ) && constant_name(name)[i] != ' ' by {
        assert(p2(constant_name(name)[i]));
    }
}

/// The part of a response's extension that names its syntax holds no `';'`,
/// and the extension is that part, or that part, a `';'` and the rest.
pub proof fn lemma_highlight_extension_before_semicolon(ext: Seq<char>)
    ensures
        !highlight_extension(ext).contains(';'),
        ext == highlight_extension(ext) || exists|rest: Seq<char>|
            ext == highlight_extension(ext) + seq![';'] + rest,
{
    if exists|i: int| 0 <= i < ext.len() && ext[i] == ';' {
        let i = choose|i: int| 0 <= i < ext.len() && ext[i] == ';';
        lemma_first_semicolon_exists(ext, i);
        let k = first_index(ext, ';')->0;
        assert(ext =~= ext.take(k) + seq![';'] + ext.skip(k + 1));
        assert(!ext.take(k).contains(';')) by {
            if ext.take(k).contains(';') {
                let j = choose|j: int| 0 <= j < ext.take(k).len() && ext.take(k)[j] == ';';
                assert(ext[j] == ';');
            }
        }
    }
}

proof fn lemma_first_semicolon_exists(s: Seq<char>, i: int)
    requires
        0 <= i < s.len(),
        s[i] == ';',
    ensures
        exists|m: int| 0 <= m < s.len() && s[m] == ';' && forall|j: int| 0 <= j < m ==> s[j] != ';',
    decreases i,
{
    if exists|j: int| 0 <= j < i && s[j] == ';' {
        let j = choose|j: int| 0 <= j < i && s[j] == ';';
        lemma_first_semicolon_exists(s, j);
    } else {
        assert(forall|j: int| 0 <= j < i ==> s[j] != ';');
    }
}

fn symbols_removed(v: &Vec<char>) -> (r: Vec<char>)
    ensures
        r@ == without_symbols(v@),
{
    let mut out: Vec<char> = Vec::new();
    let mut i: usize = 0;
    while i < v.len()
        invariant
            i <= v.len(),
            out@ == without_symbols(v@.take(i as int)),
        decreases v.len() - i,
    {
        let c = v[i];
        proof {
            assert(v@.take(i as int + 1).drop_last() =~= v@.take(i as int));
        }
        if !(c == '\'' || c == '[' || c == ']' || c == '(' || c == ')' || c == '&' || c == '-') {
            out.push(c);
        }
        i += 1;
    }
    proof {
        assert(v@.take(i as int) =~= v@);
    }
    out
}

/// The constant name of a theme called `name`.
pub fn get_constant_from_name(name: &str) -> (r: String)
    ensures
        r@ == constant_name(name@),
{
    let upper = to_uppercase(name);
    let chars = chars_of(upper.as_str());
    let stripped = symbols_removed(&chars);
    let trimmed_chars = trim_chars(&stripped);
    let underscored = replace_char_exec(&trimmed_chars, ' ', '_');
    let mut single: Vec<char> = Vec::new();
    single.push('_');
    proof {
        assert(single@ =~= seq!['_']);
    }
    let result = replace_pair_exec(&underscored, '_', '_', &single);
    string_of(result.as_slice())
}

/// The key of the highlight theme called `name`.
pub fn highlight_theme_key(name: &str) -> (r: String)
    ensures
        r@ == theme_key(name@),
{
    let upper = to_uppercase(name);
    let chars = chars_of(upper.as_str());
    let nothing: Vec<char> = Vec::new();
    let a = replace_pair_exec(&chars, '[', ' ', &nothing);
    let b = replace_pair_exec(&a, ' ', ']', &nothing);
    let c = replace_char_exec(&b, ' ', '_');
    string_of(c.as_slice())
}

/// The extension a response with extension `ext` is highlighted as.
pub fn syntax_extension(ext: &str) -> (r: String)
    ensures
        r@ == highlight_extension(ext@),
{
    let chars = chars_of(ext);
    match find_char(&chars, ';') {
        Some(i) => string_of(chars_upto(&chars, i).as_slice()),
        None => string_of(chars.as_slice()),
    }
}

/// The bit of a font style that marks bold text.
pub const FONT_STYLE_BOLD: u8 = 1;

/// A piece of highlighted text with its colors, as red, green and blue.
#[derive(Debug)]
pub struct Span {
    pub src: String,
    pub fg: (u8, u8, u8),
    pub bg: (u8, u8, u8),
    pub bold: bool,
}

impl Span {
    /// The span of `src` drawn in the colors `fg` and `bg`, bold when the font
    /// style bits `font_style` hold the bold bit.
    pub fn from_style(fg: (u8, u8, u8), bg: (u8, u8, u8), font_style: u8, src: &str) -> (s: Span)
        ensures
            s.src@ == src@,
            s.fg == fg,
            s.bg == bg,
            s.bold == (font_style & FONT_STYLE_BOLD != 0),
    {
        Span { src: src.to_owned(), fg, bg, bold: font_style & FONT_STYLE_BOLD != 0 }
    }
}

/// A highlighted line: its first span and the others.
#[derive(Debug)]
pub struct Line {
    pub head: Span,
    pub tail: Vec<Span>,
}

/// The line made of `spans`, which holds at least one span.
pub fn line_from_spans(spans: Vec<Span>) -> (l: Line)
    requires
        spans.len() >= 1,
    ensures
        l.head == spans[0],
        l.tail@ == spans@.skip(1),
{
    let mut spans = spans;
    let ghost all = spans@;
    let head = spans.remove(0);
    proof {
        assert(spans@ =~= all.skip(1));
    }
    Line { head, tail: spans }
}

/// A piece of highlighted text as plain values.
pub struct StyledTextView {
    pub fg: (u8, u8, u8),
    pub bg: (u8, u8, u8),
    pub bold: bool,
    pub text: Seq<char>,
}

/// The plain values of a span.
pub open spec fn span_view(s: Span) -> StyledTextView {
    StyledTextView { fg: s.fg, bg: s.bg, bold: s.bold, text: s.src@ }
}

/// The plain values of the spans of a line.
pub open spec fn spans_view(spans: Seq<Span>) -> Seq<StyledTextView> {
    spans.map_values(|s: Span| span_view(s))
}

/// What syntect gives for `src` highlighted as a file with extension `ext`
/// (plain text when no syntax has it) in the bundled theme called `theme`:
/// for each line (ending included) its pieces with their colors and boldness.
/// `None` when no bundled theme has that name or syntect reports an error.
pub uninterp spec fn highlighted(src: Seq<char>, ext: Seq<char>, theme: Seq<char>) -> Option<
    Seq<Seq<StyledTextView>>,
>;

/// The themes bundled with syntect (`ThemeSet::load_defaults`), as its
/// documentation lists them, in the order of its map (sorted by name).
pub open spec fn bundled_theme_names() -> Seq<Seq<char>> {
    seq![
        "InspiredGitHub"@,
        "Solarized (dark)"@,
        "Solarized (light)"@,
        "base16-eighties.dark"@,
        "base16-mocha.dark"@,
        "base16-ocean.dark"@,
        "base16-ocean.light"@,
    ]
}

/// The keys of the map `ThemeSet::load_defaults` from syntect gives: the names
/// of the bundled themes, which its documentation lists, in the map's sorted
/// order.
#[verifier::external_body]
fn theme_names() -> (r: Vec<String>)
    ensures
        r.len() == bundled_theme_names().len(),
        forall|k: int| 0 <= k < r.len() ==> #[trigger] r[k]@ == bundled_theme_names()[k],
{
    ThemeSet::load_defaults().themes.into_keys().collect()
}

/// Index of the first of `names` whose theme key is `key`, if any.
pub open spec fn theme_index(names: Seq<Seq<char>>, key: Seq<char>) -> Option<int> {
    if exists|i: int| 0 <= i < names.len() && #[trigger] theme_key(names[i]) == key {
        Some(
            choose|i: int|
                0 <= i < names.len() && #[trigger] theme_key(names[i]) == key && forall|j: int|
                    0 <= j < i ==> theme_key(names[j]) != key,
        )
    } else {
        None
    }
}

/// `HighlightLines::highlight_line` from syntect, run over the lines of `src`
/// (`LinesWithEndings`) with the syntax found for `ext` by
/// `SyntaxSet::find_syntax_by_extension` in syntect's bundled syntaxes (plain
/// text when there is none) and the theme called `theme` in syntect's bundled
/// themes; each style and piece is turned into a `Span`. The outcome is the
/// named result `highlighted`.
#[verifier::external_body]
fn highlight_spans(src: &str, ext: &str, theme: &str) -> (r: Option<Vec<Vec<Span>>>)
    ensures
        match r {
            Some(lines) => highlighted(src@, ext@, theme@) matches Some(h) && lines.len() == h.len()
                && forall|i: int| 0 <= i < lines.len() ==> spans_view(#[trigger] lines[i]@) == h[i],
            None => highlighted(src@, ext@, theme@) is None,
        },
{
    let (ps, ts) = (SyntaxSet::load_defaults_newlines(), ThemeSet::load_defaults());
    let syntax = ps.find_syntax_by_extension(ext).unwrap_or_else(|| ps.find_syntax_plain_text());
    let mut h = HighlightLines::new(syntax, ts.themes.get(theme)?);
    LinesWithEndings::from(src).map(|line| {
        let pieces = h.highlight_line(line, &ps).ok()?;
        Some(pieces.into_iter().map(|(st, t)| {
            let (f, b) = (st.foreground, st.background);
            Span::from_style((f.r, f.g, f.b), (b.r, b.g, b.b), st.font_style.bits(), t)
        }).collect())
    }).collect()
}

/// The bundled theme whose key is the key of `theme_name`, if any: the first
/// such in the bundled order.
pub open spec fn chosen_theme(theme_name: Seq<char>) -> Option<Seq<char>> {
    match theme_index(bundled_theme_names(), theme_key(theme_name)) {
        Some(i) => Some(bundled_theme_names()[i]),
        None => None,
    }
}

/// Finds the bundled theme whose key (`highlight_theme_key`) is that of
/// `theme_name`.
pub fn find_theme(theme_name: &str) -> (r: Option<String>)
    ensures
        r.deep_view() == chosen_theme(theme_name@),
{
    let key = highlight_theme_key(theme_name);
    let names = theme_names();
    let ghost ns = bundled_theme_names();
    let mut i: usize = 0;
    while i < names.len()
        invariant
            i <= names.len(),
            names.len() == ns.len(),
            ns == bundled_theme_names(),
            key@ == theme_key(theme_name@),
            forall|k: int| 0 <= k < names.len() ==> #[trigger] names[k]@ == ns[k],
            forall|j: int| 0 <= j < i ==> theme_key(ns[j]) != key@,
        decreases names.len() - i,
    {
        let k = highlight_theme_key(names[i].as_str());
        if str_eq(k.as_str(), key.as_str()) {
            proof {
                assert(theme_key(ns[i as int]) == key@);
                let c = choose|c: int|
                    0 <= c < ns.len() && #[trigger] theme_key(ns[c]) == key@ && forall|j: int|
                        0 <= j < c ==> theme_key(ns[j]) != key@;
                assert(c == i) by {
                    if c > i {
                        assert(theme_key(ns[i as int]) != key@);
                    }
                }
            }
            return Some(names[i].clone());
        }
        i += 1;
    }
    proof {
        assert(!(exists|c: int| 0 <= c < ns.len() && #[trigger] theme_key(ns[c]) == key@));
    }
    None
}

/// What `highlight` gives for the lines `h`: a line each, its first piece as
/// head and the others as tail.
pub open spec fn highlighted_lines_ok(h: Seq<Seq<StyledTextView>>, lines: Seq<Line>) -> bool {
    &&& lines.len() == h.len()
    &&& forall|i: int|
        0 <= i < lines.len() ==> h[i].len() > 0 && span_view(#[trigger] lines[i].head) == h[i][0]
            && spans_view(lines[i].tail@) == h[i].drop_first()
}

/// Highlights the response `src` of extension `ext` (what stands before a
/// `;` counts) in the bundled theme whose key is that of `theme_name`: the
/// highlighted lines, each split into its first span and the rest. `None` when
/// no theme has that key, syntect fails, or a line has no span.
pub fn highlight(src: &str, ext: &str, theme_name: &str) -> (r: Option<Vec<Line>>)
    ensures
        match chosen_theme(theme_name@) {
            None => r is None,
            Some(theme) => match highlighted(src@, highlight_extension(ext@), theme) {
                None => r is None,
                Some(h) => if exists|i: int| 0 <= i < h.len() && #[trigger] h[i].len() == 0 {
                    r is None
                } else {
                    r matches Some(lines) && highlighted_lines_ok(h, lines@)
                },
            },
        },
{
    let theme = match find_theme(theme_name) {
        Some(t) => t,
        None => return None,
    };
    let extension = syntax_extension(ext);
    let spans = highlight_spans(src, extension.as_str(), theme.as_str());
    let mut rest = match spans {
        Some(lines) => lines,
        None => return None,
    };
    let ghost h = highlighted(src@, highlight_extension(ext@), theme@)->0;
    let ghost all = rest@;
    let mut out: Vec<Line> = Vec::new();
    while rest.len() > 0
        invariant
            chosen_theme(theme_name@) == Some(theme@),
            highlighted(src@, highlight_extension(ext@), theme@) == Some(h),
            all.len() == h.len(),
            forall|i: int| 0 <= i < all.len() ==> spans_view(#[trigger] all[i]@) == h[i],
            out.len() + rest.len() == all.len(),
            rest@ == all.skip(out.len() as int),
            forall|i: int| 0 <= i < out.len() ==> #[trigger] h[i].len() > 0,
            forall|i: int|
                0 <= i < out.len() ==> span_view(#[trigger] out@[i].head) == h[i][0] && spans_view(
                    out@[i].tail@,
                ) == h[i].drop_first(),
        decreases rest.len(),
    {
        let spans = rest.remove(0);
        let ghost k = out.len() as int;
        proof {
            assert(spans == all[k]);
            assert(rest@ =~= all.skip(k + 1));
        }
        if spans.len() == 0 {
            proof {
                assert(spans_view(all[k]@) == h[k]);
                assert(h[k].len() == 0);
                let o = highlighted(src@, highlight_extension(ext@), theme@);
                assert(o->0 == h);
                assert(exists|i: int| 0 <= i < o->0.len() && #[trigger] o->0[i].len() == 0);
            }
            return None;
        }
        let ghost sv = spans@;
        let line = line_from_spans(spans);
        proof {
            assert(spans_view(sv)[0] == h[k][0]);
            assert(spans_view(line.tail@) =~= spans_view(sv).drop_first());
        }
        out.push(line);
    }
    proof {
        assert(highlighted_lines_ok(h, out@));
    }
    Some(out)
}

} // verus!
