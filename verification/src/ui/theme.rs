//! Colors of the switcher.

use crate::document::{
    lookup, optional_text, read_optional_text, read_text, required_text, Json, JsonView,
};
use crate::text::{
    append, clone_optional, decimal, decimal_chars, from_chars, optional_view, parse_unsigned,
    slice, to_chars, trim, trimmed, unsigned_value,
};
use vstd::prelude::*;

verus! {

/// A named set of colors.
#[derive(Debug, PartialEq, Eq)]
pub struct Theme {
    pub name: String,
    pub colors: ThemeColors,
}

/// The colors of a theme, each as `#rrggbb`.
#[derive(Debug, PartialEq, Eq)]
pub struct ThemeColors {
    pub header_fg: String,
    pub header_bg: Option<String>,
    pub selection_fg: String,
    pub selection_bg: String,
    pub text_normal: String,
    pub text_dim: String,
    pub border: String,
    pub search_bar_border: String,
    pub match_highlight_fg: String,
    pub match_highlight_bg: String,
    pub empty_state_fg: String,
    pub active_session_fg: String,
}

/// The mathematical value of a [`Theme`].
pub struct ThemeView {
    pub name: Seq<char>,
    pub header_fg: Seq<char>,
    pub header_bg: Option<Seq<char>>,
    pub selection_fg: Seq<char>,
    pub selection_bg: Seq<char>,
    pub text_normal: Seq<char>,
    pub text_dim: Seq<char>,
    pub border: Seq<char>,
    pub search_bar_border: Seq<char>,
    pub match_highlight_fg: Seq<char>,
    pub match_highlight_bg: Seq<char>,
    pub empty_state_fg: Seq<char>,
    pub active_session_fg: Seq<char>,
}

impl View for Theme {
    type V = ThemeView;

    open spec fn view(&self) -> ThemeView {
        ThemeView {
            name: self.name@,
            header_fg: self.colors.header_fg@,
            header_bg: optional_view(self.colors.header_bg),
            selection_fg: self.colors.selection_fg@,
            selection_bg: self.colors.selection_bg@,
            text_normal: self.colors.text_normal@,
            text_dim: self.colors.text_dim@,
            border: self.colors.border@,
            search_bar_border: self.colors.search_bar_border@,
            match_highlight_fg: self.colors.match_highlight_fg@,
            match_highlight_bg: self.colors.match_highlight_bg@,
            empty_state_fg: self.colors.empty_state_fg@,
            active_session_fg: self.colors.active_session_fg@,
        }
    }
}

/// The theme that a document holds, if it holds one: an object with the
/// text `name` and the object `colors`, which has a text for every color;
/// `header_bg` may be missing.
pub open spec fn read_theme(document: JsonView) -> Option<ThemeView> {
    let name = read_text(document.member("name"@));
    match document.member("colors"@) {
        Some(colors) => {
            let header_fg = read_text(colors.member("header_fg"@));
            let header_bg = read_optional_text(colors.member("header_bg"@));
            let selection_fg = read_text(colors.member("selection_fg"@));
            let selection_bg = read_text(colors.member("selection_bg"@));
            let text_normal = read_text(colors.member("text_normal"@));
            let text_dim = read_text(colors.member("text_dim"@));
            let border = read_text(colors.member("border"@));
            let search_bar_border = read_text(colors.member("search_bar_border"@));
            let match_highlight_fg = read_text(colors.member("match_highlight_fg"@));
            let match_highlight_bg = read_text(colors.member("match_highlight_bg"@));
            let empty_state_fg = read_text(colors.member("empty_state_fg"@));
            let active_session_fg = read_text(colors.member("active_session_fg"@));
            if colors is Object && name is Some && header_fg is Some && header_bg is Some
                && selection_fg is Some && selection_bg is Some && text_normal is Some
                && text_dim is Some && border is Some && search_bar_border is Some
                && match_highlight_fg is Some && match_highlight_bg is Some
                && empty_state_fg is Some && active_session_fg is Some {
                Some(
                    ThemeView {
                        name: name->0,
                        header_fg: header_fg->0,
                        header_bg: header_bg->0,
                        selection_fg: selection_fg->0,
                        selection_bg: selection_bg->0,
                        text_normal: text_normal->0,
                        text_dim: text_dim->0,
                        border: border->0,
                        search_bar_border: search_bar_border->0,
                        match_highlight_fg: match_highlight_fg->0,
                        match_highlight_bg: match_highlight_bg->0,
                        empty_state_fg: empty_state_fg->0,
                        active_session_fg: active_session_fg->0,
                    },
                )
            } else {
                None
            }
        },
        None => None,
    }
}

impl Clone for ThemeColors {
    fn clone(&self) -> (copy: Self)
        ensures
            copy == *self,
    {
        ThemeColors {
            header_fg: self.header_fg.clone(),
            header_bg: clone_optional(&self.header_bg),
            selection_fg: self.selection_fg.clone(),
            selection_bg: self.selection_bg.clone(),
            text_normal: self.text_normal.clone(),
            text_dim: self.text_dim.clone(),
            border: self.border.clone(),
            search_bar_border: self.search_bar_border.clone(),
            match_highlight_fg: self.match_highlight_fg.clone(),
            match_highlight_bg: self.match_highlight_bg.clone(),
            empty_state_fg: self.empty_state_fg.clone(),
            active_session_fg: self.active_session_fg.clone(),
        }
    }
}

impl Clone for Theme {
    fn clone(&self) -> (copy: Self)
        ensures
            copy == *self,
    {
        Theme { name: self.name.clone(), colors: self.colors.clone() }
    }
}

/// What two digits of a color mean: their value as a hexadecimal number.
pub open spec fn hex_value(digits: Seq<char>) -> Option<u8> {
    match unsigned_value(digits, 16, 255) {
        Some(value) => Some(value as u8),
        None => None,
    }
}

/// `text` without the `#` characters at its start.
pub open spec fn without_leading_hashes(text: Seq<char>) -> Seq<char>
    decreases text.len(),
{
    if text.len() > 0 && text[0] == '#' {
        without_leading_hashes(text.skip(1))
    } else {
        text
    }
}

/// The digits of a color: the text without leading `#` and without
/// whitespace around it.
pub open spec fn color_digits(hex: Seq<char>) -> Seq<char> {
    trimmed(without_leading_hashes(hex))
}

/// The channel written in the two digits from `from`; 255 where they are
/// no hexadecimal number.
pub open spec fn channel(digits: Seq<char>, from: int) -> u8 {
    match hex_value(digits.subrange(from, from + 2)) {
        Some(value) => value,
        None => 255,
    }
}

/// The red, green and blue of a color given as `#rrggbb`; white where the
/// color does not have six digits.
pub open spec fn rgb_of(hex: Seq<char>) -> (u8, u8, u8) {
    let digits = color_digits(hex);
    if digits.len() != 6 {
        (255, 255, 255)
    } else {
        (channel(digits, 0), channel(digits, 2), channel(digits, 4))
    }
}

/// The escape sequence that selects the color `rgb`, for the foreground
/// with `layer` 38 and for the background with `layer` 48.
pub open spec fn color_sequence(layer: Seq<char>, rgb: (u8, u8, u8)) -> Seq<char> {
    "\u{1b}["@ + layer + ";2;"@ + decimal(rgb.0 as nat) + ";"@ + decimal(rgb.1 as nat) + ";"@
        + decimal(rgb.2 as nat) + "m"@
}

fn strip_leading_hashes(chars: &Vec<char>) -> (rest: Vec<char>)
    ensures
        rest@ == without_leading_hashes(chars@),
{
    let mut i: usize = 0;
    assert(chars@.skip(0) =~= chars@);
    while i < chars.len() && chars[i] == '#'
        invariant
            i <= chars.len(),
            without_leading_hashes(chars@) == without_leading_hashes(chars@.skip(i as int)),
        decreases chars.len() - i,
    {
        assert(chars@.skip(i as int).skip(1) =~= chars@.skip(i + 1));
        i += 1;
    }
    let rest = slice(chars, i, chars.len());
    assert(rest@ =~= chars@.skip(i as int));
    rest
}

fn channel_at(digits: &Vec<char>, from: usize) -> (value: u8)
    requires
        from + 2 <= digits.len(),
    ensures
        value == channel(digits@, from as int),
{
    let pair = from_chars(&slice(digits, from, from + 2));
    match parse_unsigned(pair.as_str(), 16, 255) {
        Some(value) => value as u8,
        None => 255,
    }
}

fn sequence(layer: &str, rgb: (u8, u8, u8)) -> (text: String)
    ensures
        text@ == color_sequence(layer@, rgb),
{
    let mut out = to_chars("\u{1b}[");
    append(&mut out, &to_chars(layer));
    append(&mut out, &to_chars(";2;"));
    append(&mut out, &decimal_chars(rgb.0 as u64));
    append(&mut out, &to_chars(";"));
    append(&mut out, &decimal_chars(rgb.1 as u64));
    append(&mut out, &to_chars(";"));
    append(&mut out, &decimal_chars(rgb.2 as u64));
    append(&mut out, &to_chars("m"));
    from_chars(&out)
}

impl Theme {
    /// The theme that the document holds, if it holds one.
    pub fn from_document(document: &Json) -> (theme: Option<Theme>)
        ensures
            match theme {
                Some(t) => read_theme(document@) == Some(t@),
                None => read_theme(document@) is None,
            },
    {
        let name = required_text(lookup(document, "name"));
        let colors = match lookup(document, "colors") {
            Some(colors) => colors,
            None => {
                return None;
            },
        };
        if colors.object().is_none() {
            return None;
        }
        let header_fg = required_text(lookup(colors, "header_fg"));
        let header_bg = optional_text(lookup(colors, "header_bg"));
        let selection_fg = required_text(lookup(colors, "selection_fg"));
        let selection_bg = required_text(lookup(colors, "selection_bg"));
        let text_normal = required_text(lookup(colors, "text_normal"));
        let text_dim = required_text(lookup(colors, "text_dim"));
        let border = required_text(lookup(colors, "border"));
        let search_bar_border = required_text(lookup(colors, "search_bar_border"));
        let match_highlight_fg = required_text(lookup(colors, "match_highlight_fg"));
        let match_highlight_bg = required_text(lookup(colors, "match_highlight_bg"));
        let empty_state_fg = required_text(lookup(colors, "empty_state_fg"));
        let active_session_fg = required_text(lookup(colors, "active_session_fg"));
        match (name, header_fg, header_bg, selection_fg, selection_bg, text_normal) {
            (
                Some(name),
                Some(header_fg),
                Some(header_bg),
                Some(selection_fg),
                Some(selection_bg),
                Some(text_normal),
            ) => match (
                text_dim,
                border,
                search_bar_border,
                match_highlight_fg,
                match_highlight_bg,
                empty_state_fg,
                active_session_fg,
            ) {
                (
                    Some(text_dim),
                    Some(border),
                    Some(search_bar_border),
                    Some(match_highlight_fg),
                    Some(match_highlight_bg),
                    Some(empty_state_fg),
                    Some(active_session_fg),
                ) => Some(
                    Theme {
                        name,
                        colors: ThemeColors {
                            header_fg,
                            header_bg,
                            selection_fg,
                            selection_bg,
                            text_normal,
                            text_dim,
                            border,
                            search_bar_border,
                            match_highlight_fg,
                            match_highlight_bg,
                            empty_state_fg,
                            active_session_fg,
                        },
                    },
                ),
                _ => None,
            },
            _ => None,
        }
    }

    /// The red, green and blue of a color given as `#rrggbb`.
    pub fn hex_to_rgb(hex: &str) -> (rgb: (u8, u8, u8))
        ensures
            rgb == rgb_of(hex@),
    {
        let chars = to_chars(hex);
        let stripped = from_chars(&strip_leading_hashes(&chars));
        let digits = to_chars(trim(stripped.as_str()).as_str());
        if digits.len() != 6 {
            return (255, 255, 255);
        }
        (channel_at(&digits, 0), channel_at(&digits, 2), channel_at(&digits, 4))
    }

    /// The escape sequence that sets the foreground to the color.
    pub fn fg(hex: &str) -> (text: String)
        ensures
            text@ == color_sequence("38"@, rgb_of(hex@)),
    {
        sequence("38", Theme::hex_to_rgb(hex))
    }

    /// The escape sequence that sets the background to the color.
    pub fn bg(hex: &str) -> (text: String)
        ensures
            text@ == color_sequence("48"@, rgb_of(hex@)),
    {
        sequence("48", Theme::hex_to_rgb(hex))
    }

    /// The escape sequence for bold text.
    pub fn bold() -> (text: &'static str)
        ensures
            text@ == "\u{1b}[1m"@,
    {
        "\u{1b}[1m"
    }

    /// The escape sequence for dim text.
    pub fn dim() -> (text: &'static str)
        ensures
            text@ == "\u{1b}[2m"@,
    {
        "\u{1b}[2m"
    }

    /// The escape sequence that ends all styling.
    pub fn reset() -> (text: &'static str)
        ensures
            text@ == "\u{1b}[0m"@,
    {
        "\u{1b}[0m"
    }
}

} // verus!
