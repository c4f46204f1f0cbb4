//! Line-ending repair for error payloads and timestamp recognition.

use vstd::prelude::*;

use crate::text::{chars_of, string_of};

verus! {

/// What the rewrite emits for element `i` of `s`: the element itself,
/// preceded by `lf` when the element before it is a `cr` and it is not
/// itself an `lf`.
pub open spec fn crlf_piece<A>(s: Seq<A>, i: int, cr: A, lf: A) -> Seq<A> {
    if i > 0 && s[i - 1] == cr && s[i] != lf {
        seq![lf, s[i]]
    } else {
        seq![s[i]]
    }
}

/// The rewrite of the first `n` elements of `s`.
pub open spec fn crlf_prefix<A>(s: Seq<A>, n: nat, cr: A, lf: A) -> Seq<A>
    decreases n,
{
    if n == 0 {
        Seq::empty()
    } else {
        crlf_prefix(s, (n - 1) as nat, cr, lf) + crlf_piece(s, n - 1, cr, lf)
    }
}

/// `s` with an `lf` inserted after every `cr` that is followed by an element
/// other than `lf`. A `cr` at the very end has no follower and is kept as is.
pub open spec fn crlf_expand<A>(s: Seq<A>, cr: A, lf: A) -> Seq<A> {
    crlf_prefix(s, s.len(), cr, lf)
}

/// Every lone carriage return of `s` that some other character follows
/// becomes a CR LF pair.
pub open spec fn lone_cr_to_crlf(s: Seq<char>) -> Seq<char> {
    crlf_expand(s, '\r', '\n')
}

/// Rewrites every carriage return that is followed by a character other than
/// a line feed into a CR LF pair, scanning once with the previous character
/// as state. A carriage return at the end of `buf` is left alone.
pub fn replace_trailing_cr_with_crlf(buf: &mut String)
    ensures
        final(buf)@ == lone_cr_to_crlf(old(buf)@),
{
    let src = chars_of(buf.as_str());
    let mut out: Vec<char> = Vec::new();
    let mut prev: char = '\0';
    for i in 0..src.len()
        invariant
            src@ == old(buf)@,
            out@ == crlf_prefix(src@, i as nat, '\r', '\n'),
            i > 0 ==> prev == src@[i - 1],
    {
        let c = src[i];
        if i > 0 && prev == '\r' && c != '\n' {
            out.push('\n');
        }
        out.push(c);
        prev = c;
        assert(out@ =~= crlf_prefix(src@, (i + 1) as nat, '\r', '\n'));
    }
    *buf = string_of(&out);
}

/// The byte form of the same rewrite: 13 is a carriage return, 10 a line feed.
pub fn replace_trailing_cr_with_crlf_bytes(buf: &mut Vec<u8>)
    ensures
        final(buf)@ == crlf_expand(old(buf)@, 13u8, 10u8),
{
    let mut out: Vec<u8> = Vec::new();
    let mut prev: u8 = 0;
    for i in 0..buf.len()
        invariant
            buf@ == old(buf)@,
            out@ == crlf_prefix(buf@, i as nat, 13u8, 10u8),
            i > 0 ==> prev == buf@[i - 1],
    {
        let b = buf[i];
        if i > 0 && prev == 13 && b != 10 {
            out.push(10);
        }
        out.push(b);
        prev = b;
        assert(out@ =~= crlf_prefix(buf@, (i + 1) as nat, 13u8, 10u8));
    }
    *buf = out;
}

/// Whether `iso8601`'s datetime parser accepts a prefix of these characters.
pub uninterp spec fn iso_datetime_prefix(s: Seq<char>) -> bool;

/// Relies on `iso8601::parsers::parse_datetime`, a parser over the UTF-8
/// bytes of `s` whose outcome depends on those bytes alone; it succeeds when
/// some prefix is a full date, a `T`, and a time.
#[verifier::external_body]
fn parses_as_datetime(s: &str) -> (r: bool)
    ensures
        r == iso_datetime_prefix(s@),
{
    iso8601::parsers::parse_datetime(s.as_bytes()).is_ok()
}

/// `s` with every space replaced by a `T`.
pub open spec fn spaces_to_t(s: Seq<char>) -> Seq<char> {
    s.map_values(|c: char| if c == ' ' { 'T' } else { c })
}

/// Whether `s` reads as a timestamp: a date and a time separated by a space
/// or a `T`.
pub fn is_timestamp(s: &str) -> (r: bool)
    ensures
        r == iso_datetime_prefix(spaces_to_t(s@)),
{
    let src = chars_of(s);
    let mut out: Vec<char> = Vec::new();
    for i in 0..src.len()
        invariant
            src@ == s@,
            out@ == spaces_to_t(s@).subrange(0, i as int),
    {
        if src[i] == ' ' {
            out.push('T');
        } else {
            out.push(src[i]);
        }
        assert(out@ =~= spaces_to_t(s@).subrange(0, i + 1));
    }
    assert(out@ =~= spaces_to_t(s@));
    let replaced = string_of(&out);
    parses_as_datetime(replaced.as_str())
}

} // verus!
