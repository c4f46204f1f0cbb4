//! Colour settings as users write them: `#rrggbb`, `rgb(r, g, b)`, or the
//! name of a terminal colour.

use vstd::prelude::*;

use crate::text::{
    chars_of, drop_leading, drop_leading_word, drop_trailing, has_piece, parse_u8_radix, piece,
    spec_parse_u8, split_three, starts_with, starts_with_exec, string_of, strip_leading_char,
    strip_leading_word, strip_trailing_char, sub_vec, trim, trim_ws, utf8_len, utf8_len_is,
};

verus! {

/// A colour: three channel values, or a terminal colour by name.
#[derive(Clone, Debug, PartialEq, Eq)]
pub enum ColorType {
    RGB(u8, u8, u8),
    ANSI(String),
}

/// The model of a [`ColorType`].
pub enum ColorView {
    RGB(u8, u8, u8),
    ANSI(Seq<char>),
}

impl View for ColorType {
    type V = ColorView;

    open spec fn view(&self) -> ColorView {
        match self {
            ColorType::RGB(r, g, b) => ColorView::RGB(*r, *g, *b),
            ColorType::ANSI(s) => ColorView::ANSI(s@),
        }
    }
}

/// The model of a parse result.
pub open spec fn color_result_view(r: Result<ColorType, String>) -> Result<ColorView, Seq<char>> {
    match r {
        Ok(c) => Ok(c@),
        Err(e) => Err(e@),
    }
}

impl Default for ColorType {
    fn default() -> (r: Self)
        ensures
            r@ == ColorView::ANSI(Seq::empty()),
    {
        ColorType::ANSI(String::new())
    }
}

/// The characters of an `rgb(...)` colour between the parentheses: `s`
/// without its leading `rgb`s, spaces and `(`s and its trailing spaces and
/// `)`s.
pub open spec fn rgb_body(s: Seq<char>) -> Seq<char> {
    let a = drop_leading_word(s, "rgb"@);
    let b = drop_leading(a, |c: char| c == ' ');
    let c = drop_leading(b, |c: char| c == '(');
    let d = drop_trailing(c, |c: char| c == ' ');
    drop_trailing(d, |c: char| c == ')')
}

/// Channel `k` of an `rgb(...)` body: its `k`-th comma-separated piece,
/// trimmed and read as a decimal byte.
pub open spec fn rgb_channel(body: Seq<char>, k: nat) -> Option<u8> {
    if has_piece(body, k, ',') {
        spec_parse_u8(trim_ws(piece(body, k, ',')), 10)
    } else {
        None
    }
}

/// The colour that a trimmed, lower-cased setting `s` names.
///
/// After a `#`, six bytes of hex digits give the three channels. After
/// `rgb`, the first three comma-separated pieces between the parentheses
/// give them in decimal; further pieces are not read. Anything else is the
/// name of a terminal colour.
pub open spec fn spec_color_from_normalized(s: Seq<char>) -> Result<ColorView, Seq<char>> {
    if starts_with(s, "#"@) {
        let t = drop_leading(s, |c: char| c == '#');
        if utf8_len(t) != 6 {
            Err("RGB color must be 6 characters long"@)
        } else if t.len() == 6 && spec_parse_u8(t.subrange(0, 2), 16) is Some && spec_parse_u8(
            t.subrange(2, 4),
            16,
        ) is Some && spec_parse_u8(t.subrange(4, 6), 16) is Some {
            Ok(
                ColorView::RGB(
                    spec_parse_u8(t.subrange(0, 2), 16)->Some_0,
                    spec_parse_u8(t.subrange(2, 4), 16)->Some_0,
                    spec_parse_u8(t.subrange(4, 6), 16)->Some_0,
                ),
            )
        } else {
            Err("invalid hex color"@)
        }
    } else if starts_with(s, "rgb"@) {
        let body = rgb_body(s);
        if rgb_channel(body, 0) is Some && rgb_channel(body, 1) is Some && rgb_channel(
            body,
            2,
        ) is Some {
            Ok(
                ColorView::RGB(
                    rgb_channel(body, 0)->Some_0,
                    rgb_channel(body, 1)->Some_0,
                    rgb_channel(body, 2)->Some_0,
                ),
            )
        } else {
            Err("invalid RGB color"@)
        }
    } else {
        Ok(ColorView::ANSI(s))
    }
}

/// The colour that a setting `s` names, read without regard to surrounding
/// white space or to case.
pub open spec fn spec_color_from_str(s: Seq<char>) -> Result<ColorView, Seq<char>> {
    spec_color_from_normalized(lower_of(trim_ws(s)))
}

/// What `str::to_lowercase` makes of a string.
pub uninterp spec fn lower_of(s: Seq<char>) -> Seq<char>;

/// Relies on `str::to_lowercase`, whose result depends on the characters
/// of `s` alone.
#[verifier::external_body]
fn to_lowercase(s: &str) -> (r: String)
    ensures
        r@ == lower_of(s@),
{
    s.to_lowercase()
}

/// Reads an optional channel piece: trimmed, then a decimal byte.
fn channel(p: &Option<String>) -> (r: Option<u8>)
    ensures
        p is None ==> r is None,
        p is Some ==> r == spec_parse_u8(trim_ws(p->Some_0@), 10),
{
    match p {
        Some(text) => {
            let t = trim(&chars_of(text.as_str()));
            parse_u8_radix(&t, 10)
        },
        None => None,
    }
}

impl ColorType {
    /// Reads a colour from a setting that is already trimmed and lower-cased.
    pub fn from_normalized(s: &str) -> (r: Result<ColorType, String>)
        ensures
            color_result_view(r) == spec_color_from_normalized(s@),
    {
        let v = chars_of(s);
        if starts_with_exec(&v, "#") {
            let t = strip_leading_char(&v, '#');
            if !utf8_len_is(&t, 6) {
                return Err("RGB color must be 6 characters long".to_owned());
            }
            if t.len() != 6 {
                return Err("invalid hex color".to_owned());
            }
            let r = parse_u8_radix(&sub_vec(&t, 0, 2), 16);
            let g = parse_u8_radix(&sub_vec(&t, 2, 4), 16);
            let b = parse_u8_radix(&sub_vec(&t, 4, 6), 16);
            match (r, g, b) {
                (Some(r), Some(g), Some(b)) => Ok(ColorType::RGB(r, g, b)),
                _ => Err("invalid hex color".to_owned()),
            }
        } else if starts_with_exec(&v, "rgb") {
            let a = strip_leading_word(&v, "rgb");
            let b = strip_leading_char(&a, ' ');
            let c = strip_leading_char(&b, '(');
            let d = strip_trailing_char(&c, ' ');
            let body = strip_trailing_char(&d, ')');
            let (p0, p1, p2, _) = split_three(&body, ',');
            assert(has_piece(body@, 0, ','));
            let r = channel(&p0);
            let g = channel(&p1);
            let b = channel(&p2);
            match (r, g, b) {
                (Some(r), Some(g), Some(b)) => Ok(ColorType::RGB(r, g, b)),
                _ => Err("invalid RGB color".to_owned()),
            }
        } else {
            Ok(ColorType::ANSI(s.to_owned()))
        }
    }

    /// Reads a colour setting: surrounding white space is ignored and
    /// letters are read without regard to case.
    pub fn from_str(s: &str) -> (r: Result<ColorType, String>)
        ensures
            color_result_view(r) == spec_color_from_str(s@),
    {
        let trimmed = string_of(&trim(&chars_of(s)));
        let lowered = to_lowercase(trimmed.as_str());
        ColorType::from_normalized(lowered.as_str())
    }
}

} // verus!
