//! Settings read from the configuration file: comma-separated lists and
//! the colours of each column.

use vstd::prelude::*;

use crate::color_type::{spec_color_from_str, ColorType, ColorView};
use crate::text::{chars_of, string_of, trim, trim_ws};

verus! {

/// The pieces of `s` split at every `sep`; there is always at least one.
pub open spec fn split_all(s: Seq<char>, sep: char) -> Seq<Seq<char>>
    decreases s.len(),
{
    if s.len() == 0 {
        seq![Seq::empty()]
    } else {
        let prev = split_all(s.drop_last(), sep);
        if s.last() == sep {
            prev.push(Seq::empty())
        } else {
            prev.update(prev.len() - 1, prev.last().push(s.last()))
        }
    }
}

/// The pieces, trimmed, leaving out those that are then empty.
pub open spec fn keep_trimmed(pieces: Seq<Seq<char>>) -> Seq<Seq<char>>
    decreases pieces.len(),
{
    if pieces.len() == 0 {
        Seq::empty()
    } else {
        let prev = keep_trimmed(pieces.drop_last());
        let t = trim_ws(pieces.last());
        if t.len() > 0 {
            prev.push(t)
        } else {
            prev
        }
    }
}

/// The entries of a comma-separated list: each piece between commas,
/// trimmed, with the empty ones left out.
pub fn split_comma_list(s: &str) -> (r: Vec<String>)
    ensures
        r@.map_values(|x: String| x@) == keep_trimmed(split_all(s@, ',')),
{
    let v = chars_of(s);
    let mut out: Vec<String> = Vec::new();
    let mut current: Vec<char> = Vec::new();
    assert(v@.subrange(0, 0) =~= Seq::<char>::empty());
    assert(out@.map_values(|x: String| x@) =~= Seq::<Seq<char>>::empty());
    for i in 0..v.len()
        invariant
            v@ == s@,
            split_all(v@.subrange(0, i as int), ',').len() >= 1,
            current@ == split_all(v@.subrange(0, i as int), ',').last(),
            out@.map_values(|x: String| x@) == keep_trimmed(
                split_all(v@.subrange(0, i as int), ',').drop_last(),
            ),
    {
        let ghost prev = split_all(v@.subrange(0, i as int), ',');
        let ghost next = split_all(v@.subrange(0, i + 1), ',');
        assert(v@.subrange(0, i + 1).drop_last() =~= v@.subrange(0, i as int));
        if v[i] == ',' {
            assert(next == prev.push(Seq::empty()));
            assert(next.drop_last() =~= prev);
            let t = trim(&current);
            if t.len() > 0 {
                let ghost before = out@;
                out.push(string_of(&t));
                assert(out@.map_values(|x: String| x@) =~= before.map_values(|x: String| x@).push(
                    t@,
                ));
            }
            current = Vec::new();
            assert(current@ =~= next.last());
        } else {
            assert(next == prev.update(prev.len() - 1, prev.last().push(v@[i as int])));
            assert(next.drop_last() =~= prev.drop_last());
            current.push(v[i]);
        }
    }
    assert(v@.subrange(0, v.len() as int) =~= v@);
    let t = trim(&current);
    if t.len() > 0 {
        let ghost before = out@;
        out.push(string_of(&t));
        assert(out@.map_values(|x: String| x@) =~= before.map_values(|x: String| x@).push(t@));
    }
    out
}

/// A column's colours as configured; an empty text means "not set".
#[derive(Clone, Debug, PartialEq, Eq)]
pub struct ConfigColor {
    pub foreground: String,
    pub background: String,
}

impl Default for ConfigColor {
    fn default() -> (r: Self)
        ensures
            r.foreground@.len() == 0,
            r.background@.len() == 0,
    {
        ConfigColor { foreground: String::new(), background: String::new() }
    }
}

/// The colour `s` names, or the empty terminal colour when it names none.
pub open spec fn color_or_default(s: Seq<char>) -> ColorView {
    match spec_color_from_str(s) {
        Ok(c) => c,
        Err(_) => ColorView::ANSI(Seq::empty()),
    }
}

/// The colours a column is drawn in: the configured foreground, or
/// `default_foreground` when none is set, falling back to the empty terminal
/// colour when the text names no colour; and the configured background,
/// when one is set and names a colour.
pub fn resolve_colors(config: &ConfigColor, default_foreground: &str) -> (r: (
    ColorType,
    Option<ColorType>,
))
    ensures
        r.0@ == color_or_default(
            if config.foreground@.len() == 0 {
                default_foreground@
            } else {
                config.foreground@
            },
        ),
        r.1 is Some == (config.background@.len() > 0 && spec_color_from_str(
            config.background@,
        ) is Ok),
        r.1 matches Some(c) ==> spec_color_from_str(config.background@) == Ok::<
            ColorView,
            Seq<char>,
        >(c@),
{
    let foreground = if config.foreground.as_str().is_empty() {
        default_foreground
    } else {
        config.foreground.as_str()
    };
    let fg = match ColorType::from_str(foreground) {
        Ok(c) => c,
        Err(_) => ColorType::default(),
    };
    let bg = if config.background.as_str().is_empty() {
        None
    } else {
        match ColorType::from_str(config.background.as_str()) {
            Ok(c) => Some(c),
            Err(_) => None,
        }
    };
    (fg, bg)
}

} // verus!
