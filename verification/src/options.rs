//! User options: themes and button style, and what is drawn for each style.
use vstd::prelude::*;

use crate::text::{chars_of, lines, split_lines, string_of};

verus! {

pub const DEFAULT_SYNTAX_THEME: &'static str = "monokai";

pub const DEFAULT_APP_THEME: &'static str = "gruvbox";

pub const BUTTON_STYLE_ANGLED: &'static str = "Angled ██";

pub const BUTTON_STYLE_SQUARED: &'static str = "Squared  ███";

pub const BUTTON_STYLE_ROUNDED: &'static str = "Rounded ██";

/// Shape of the caps drawn at both ends of a button.
#[derive(Debug, Clone, Copy, PartialEq, Eq)]
pub enum ButtonStyle {
    Angled,
    Squared,
    Rounded,
}

impl Default for ButtonStyle {
    fn default() -> (s: Self)
        ensures
            s == ButtonStyle::Rounded,
    {
        ButtonStyle::Rounded
    }
}

/// The options the user saves.
#[derive(Debug)]
pub struct Options {
    pub syntax_theme: String,
    pub app_theme_name: String,
    pub button_style: Option<ButtonStyle>,
}

impl Default for Options {
    fn default() -> (o: Self)
        ensures
            o.syntax_theme@ == Seq::<char>::empty(),
            o.app_theme_name@ == Seq::<char>::empty(),
            o.button_style == None::<ButtonStyle>,
    {
        Options { syntax_theme: String::new(), app_theme_name: String::new(), button_style: None }
    }
}

/// The names of the syntax themes listed in `themes_list`, one per line.
pub fn get_syntax_themes(themes_list: &str) -> (r: Vec<String>)
    ensures
        r.len() == lines(themes_list@).len(),
        forall|k: int| 0 <= k < r.len() ==> r[k]@ == #[trigger] lines(themes_list@)[k],
{
    let chars = chars_of(themes_list);
    let ls = split_lines(&chars);
    let mut r: Vec<String> = Vec::new();
    let mut i: usize = 0;
    while i < ls.len()
        invariant
            i <= ls.len(),
            ls.len() == lines(themes_list@).len(),
            forall|k: int| 0 <= k < ls.len() ==> ls[k]@ == #[trigger] lines(themes_list@)[k],
            r.len() == i,
            forall|k: int| 0 <= k < i ==> r[k]@ == #[trigger] lines(themes_list@)[k],
        decreases ls.len() - i,
    {
        r.push(string_of(ls[i].as_slice()));
        i += 1;
    }
    r
}

/// The syntax theme the options name.
pub fn get_syntax_theme(options: &Options) -> (r: String)
    ensures
        r@ == options.syntax_theme@,
{
    options.syntax_theme.clone()
}

/// The application theme the options name.
pub fn get_app_theme_name(options: &Options) -> (r: String)
    ensures
        r@ == options.app_theme_name@,
{
    options.app_theme_name.clone()
}

/// The options used when none are saved: the monokai syntax theme, the gruvbox
/// application theme, and no button style.
pub fn get_default_options() -> (o: Options)
    ensures
        o.syntax_theme@ == DEFAULT_SYNTAX_THEME@,
        o.app_theme_name@ == DEFAULT_APP_THEME@,
        o.button_style == None::<ButtonStyle>,
{
    Options {
        syntax_theme: DEFAULT_SYNTAX_THEME.to_owned(),
        app_theme_name: DEFAULT_APP_THEME.to_owned(),
        button_style: None,
    }
}

/// The label of a button style; angled when none is chosen.
pub open spec fn button_style_label(style: Option<ButtonStyle>) -> Seq<char> {
    match style {
        Some(ButtonStyle::Squared) => BUTTON_STYLE_SQUARED@,
        Some(ButtonStyle::Rounded) => BUTTON_STYLE_ROUNDED@,
        _ => BUTTON_STYLE_ANGLED@,
    }
}

/// The left and right caps of a button style; angled when none is chosen.
pub open spec fn button_caps(style: Option<ButtonStyle>) -> (Seq<char>, Seq<char>) {
    match style {
        Some(ButtonStyle::Squared) => (" █"@, "█ "@),
        Some(ButtonStyle::Rounded) => (" █"@, "█ "@),
        _ => ("█"@, "█"@),
    }
}

/// The label of the button style the options name.
pub fn get_button_style(options: &Options) -> (r: String)
    ensures
        r@ == button_style_label(options.button_style),
{
    match options.button_style {
        Some(style) => match style {
            ButtonStyle::Angled => BUTTON_STYLE_ANGLED,
            ButtonStyle::Squared => BUTTON_STYLE_SQUARED,
            ButtonStyle::Rounded => BUTTON_STYLE_ROUNDED,
        },
        None => BUTTON_STYLE_ANGLED,
    }.to_owned()
}

/// The button caps of the button style the options name.
pub fn get_button_caps(options: &Options) -> (r: (&'static str, &'static str))
    ensures
        (r.0@, r.1@) == button_caps(options.button_style),
{
    match options.button_style {
        Some(style) => match style {
            ButtonStyle::Angled => ("█", "█"),
            ButtonStyle::Squared => (" █", "█ "),
            ButtonStyle::Rounded => (" █", "█ "),
        },
        None => ("█", "█"),
    }
}

} // verus!
