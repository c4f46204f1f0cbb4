//! Character-sequence primitives shared by the classifier and the rule engine.

use vstd::prelude::*;

verus! {

/// `pat` occurs in `s` starting at index `i`.
pub open spec fn occurs_at(s: Seq<char>, pat: Seq<char>, i: int) -> bool {
    0 <= i && i + pat.len() <= s.len() && s.subrange(i, i + pat.len()) == pat
}

/// `pat` occurs somewhere in `s`.
pub open spec fn contains(s: Seq<char>, pat: Seq<char>) -> bool {
    exists|i: int| occurs_at(s, pat, i)
}

/// `s` begins with `pat`.
pub open spec fn starts_with(s: Seq<char>, pat: Seq<char>) -> bool {
    occurs_at(s, pat, 0)
}

/// `s` ends with `pat`.
pub open spec fn ends_with(s: Seq<char>, pat: Seq<char>) -> bool {
    occurs_at(s, pat, s.len() - pat.len())
}

/// The characters of `s`, in order.
pub fn chars_of(s: &str) -> (r: Vec<char>)
    ensures
        r@ == s@,
{
    let mut r: Vec<char> = Vec::new();
    for c in it: s.chars()
        invariant
            it.seq() == s@,
            r@ == it.seq().subrange(0, it.index() as int),
    {
        r.push(c);
    }
    r
}

/// Relies on `String::push`: the character is appended at the end.
pub assume_specification[ String::push ](s: &mut String, ch: char)
    ensures
        final(s)@ == old(s)@.push(ch),
;

/// A `String` holding exactly the characters of `v`.
pub fn string_of(v: &Vec<char>) -> (r: String)
    ensures
        r@ == v@,
{
    let mut r = String::new();
    for i in 0..v.len()
        invariant
            r@ == v@.subrange(0, i as int),
    {
        r.push(v[i]);
    }
    r
}

/// A `String` holding the characters `v[from..to]`.
pub fn string_of_range(v: &Vec<char>, from: usize, to: usize) -> (r: String)
    requires
        from <= to <= v.len(),
    ensures
        r@ == v@.subrange(from as int, to as int),
{
    let mut r = String::new();
    for i in from..to
        invariant
            from <= to <= v.len(),
            r@ == v@.subrange(from as int, i as int),
    {
        r.push(v[i]);
    }
    r
}

/// Whether `pat` occurs in `s` at index `i`.
pub fn occurs_at_exec(s: &Vec<char>, pat: &Vec<char>, i: usize) -> (r: bool)
    ensures
        r == occurs_at(s@, pat@, i as int),
{
    if pat.len() > s.len() || i > s.len() - pat.len() {
        return false;
    }
    let mut k: usize = 0;
    while k < pat.len()
        invariant
            k <= pat.len(),
            i + pat.len() <= s.len(),
            forall|j: int| 0 <= j < k ==> s@[i + j] == pat@[j],
        decreases pat.len() - k,
    {
        if s[i + k] != pat[k] {
            assert(s@.subrange(i as int, i + pat.len())[k as int] != pat@[k as int]);
            return false;
        }
        k = k + 1;
    }
    assert(s@.subrange(i as int, i + pat.len()) =~= pat@);
    true
}

/// Whether `pat` occurs anywhere in `s`.
pub fn contains_exec(s: &Vec<char>, pat: &str) -> (r: bool)
    ensures
        r == contains(s@, pat@),
{
    let p = chars_of(pat);
    if p.len() > s.len() {
        return false;
    }
    let last = s.len() - p.len();
    let mut i: usize = 0;
    loop
        invariant
            i <= last,
            last == s.len() - p.len(),
            p@ == pat@,
            forall|j: int| 0 <= j < i ==> !occurs_at(s@, pat@, j),
        decreases last - i,
    {
        if occurs_at_exec(s, &p, i) {
            return true;
        }
        if i == last {
            assert forall|j: int| !occurs_at(s@, pat@, j) by {
                if 0 <= j <= last {
                    assert(j < i || j == i);
                }
            }
            return false;
        }
        i = i + 1;
    }
}

/// Whether `s` begins with `pat`.
pub fn starts_with_exec(s: &Vec<char>, pat: &str) -> (r: bool)
    ensures
        r == starts_with(s@, pat@),
{
    let p = chars_of(pat);
    occurs_at_exec(s, &p, 0)
}

/// Whether `s` ends with `pat`.
pub fn ends_with_exec(s: &Vec<char>, pat: &str) -> (r: bool)
    ensures
        r == ends_with(s@, pat@),
{
    let p = chars_of(pat);
    if p.len() > s.len() {
        return false;
    }
    occurs_at_exec(s, &p, s.len() - p.len())
}

/// Whether `a` and `b` hold the same characters.
pub fn str_eq(a: &str, b: &str) -> (r: bool)
    ensures
        r == (a@ == b@),
{
    let x = chars_of(a);
    let y = chars_of(b);
    if x.len() != y.len() {
        return false;
    }
    let r = occurs_at_exec(&x, &y, 0);
    proof {
        if r {
            assert(x@ =~= x@.subrange(0, y@.len() as int));
        } else if x@ == y@ {
            assert(x@.subrange(0, y@.len() as int) =~= y@);
        }
    }
    r
}

/// The index of the first `sep` in `s` at or after `from`, or the length of
/// `s` when there is none.
pub open spec fn next_index_of(s: Seq<char>, from: int, sep: char) -> int
    decreases s.len() - from,
{
    if from < 0 || from >= s.len() {
        s.len() as int
    } else if s[from] == sep {
        from
    } else {
        next_index_of(s, from + 1, sep)
    }
}

/// Where piece `k` of `s`, split at `sep`, starts; past the end of `s` when
/// `s` has fewer than `k` separators.
pub open spec fn piece_start(s: Seq<char>, k: nat, sep: char) -> int
    decreases k,
{
    if k == 0 {
        0
    } else {
        next_index_of(s, piece_start(s, (k - 1) as nat, sep), sep) + 1
    }
}

/// Whether `s`, split at `sep`, has a piece `k`.
pub open spec fn has_piece(s: Seq<char>, k: nat, sep: char) -> bool {
    piece_start(s, k, sep) <= s.len()
}

/// Piece `k` of `s` split at `sep`: the text from its start up to the next
/// separator; empty when there is no such piece.
pub open spec fn piece(s: Seq<char>, k: nat, sep: char) -> Seq<char> {
    let st = piece_start(s, k, sep);
    if st > s.len() {
        Seq::empty()
    } else {
        s.subrange(st, next_index_of(s, st, sep))
    }
}

/// Everything of `s` from the start of piece `k` on, separators included;
/// empty when there is no such piece.
pub open spec fn rest_from(s: Seq<char>, k: nat, sep: char) -> Seq<char> {
    let st = piece_start(s, k, sep);
    if st > s.len() {
        Seq::empty()
    } else {
        s.subrange(st, s.len() as int)
    }
}

/// The index of the first `sep` of `v` at or after `from`, or `v.len()`.
pub fn find_char(v: &Vec<char>, from: usize, sep: char) -> (r: usize)
    requires
        from <= v.len(),
    ensures
        r == next_index_of(v@, from as int, sep),
        from <= r <= v.len(),
{
    let mut i = from;
    while i < v.len() && v[i] != sep
        invariant
            from <= i <= v.len(),
            next_index_of(v@, from as int, sep) == next_index_of(v@, i as int, sep),
        decreases v.len() - i,
    {
        i = i + 1;
    }
    i
}

/// Pieces `0`, `1` and `2` of `v` split at `sep`, each present only when
/// `v` has that piece, and the rest from piece `3` on.
pub fn split_three(v: &Vec<char>, sep: char) -> (r: (Option<String>, Option<String>, Option<String>, String))
    ensures
        r.0 is Some && r.0->Some_0@ == piece(v@, 0, sep),
        has_piece(v@, 1, sep) == r.1 is Some,
        r.1 is Some ==> r.1->Some_0@ == piece(v@, 1, sep),
        has_piece(v@, 2, sep) == r.2 is Some,
        r.2 is Some ==> r.2->Some_0@ == piece(v@, 2, sep),
        r.3@ == rest_from(v@, 3, sep),
{
    let n = v.len();
    let e0 = find_char(v, 0, sep);
    let p0 = string_of_range(v, 0, e0);
    let mut p1: Option<String> = None;
    let mut p2: Option<String> = None;
    let mut p3 = String::new();
    if e0 < n {
        let e1 = find_char(v, e0 + 1, sep);
        p1 = Some(string_of_range(v, e0 + 1, e1));
        if e1 < n {
            let e2 = find_char(v, e1 + 1, sep);
            p2 = Some(string_of_range(v, e1 + 1, e2));
            if e2 < n {
                p3 = string_of_range(v, e2 + 1, n);
            }
        }
    }
    proof {
        let s = v@;
        assert(piece_start(s, 0, sep) == 0);
        assert(piece_start(s, 1, sep) == e0 + 1);
        assert(piece_start(s, 2, sep) == next_index_of(s, piece_start(s, 1, sep), sep) + 1);
        assert(piece_start(s, 3, sep) == next_index_of(s, piece_start(s, 2, sep), sep) + 1);
        if e0 == n {
            assert(next_index_of(s, n + 1, sep) == n);
            assert(next_index_of(s, n + 2, sep) == n);
        } else {
            let e1 = next_index_of(s, e0 + 1, sep);
            if e1 == n {
                assert(next_index_of(s, n + 1, sep) == n);
            }
        }
    }
    (Some(p0), p1, p2, p3)
}

/// `v[from..to]` as a vector.
pub fn sub_vec(v: &Vec<char>, from: usize, to: usize) -> (r: Vec<char>)
    requires
        from <= to <= v.len(),
    ensures
        r@ == v@.subrange(from as int, to as int),
{
    let mut r: Vec<char> = Vec::new();
    for i in from..to
        invariant
            from <= to <= v.len(),
            r@ == v@.subrange(from as int, i as int),
    {
        r.push(v[i]);
    }
    r
}

/// `s` without its leading characters that satisfy `p`.
pub open spec fn drop_leading(s: Seq<char>, p: spec_fn(char) -> bool) -> Seq<char>
    decreases s.len(),
{
    if s.len() > 0 && p(s[0]) {
        drop_leading(s.drop_first(), p)
    } else {
        s
    }
}

/// `s` without its trailing characters that satisfy `p`.
pub open spec fn drop_trailing(s: Seq<char>, p: spec_fn(char) -> bool) -> Seq<char>
    decreases s.len(),
{
    if s.len() > 0 && p(s.last()) {
        drop_trailing(s.drop_last(), p)
    } else {
        s
    }
}

/// `s` without the copies of the non-empty `w` that it begins with, one
/// after another.
pub open spec fn drop_leading_word(s: Seq<char>, w: Seq<char>) -> Seq<char>
    decreases s.len(),
{
    if w.len() > 0 && starts_with(s, w) {
        drop_leading_word(s.subrange(w.len() as int, s.len() as int), w)
    } else {
        s
    }
}

/// Whether a character has Unicode's White_Space property, the set that
/// `char::is_whitespace` answers for: the controls U+0009 to U+000D, the
/// space, U+0085, U+00A0, U+1680, U+2000 to U+200A, U+2028, U+2029, U+202F,
/// U+205F and U+3000.
pub open spec fn is_white_space(c: char) -> bool {
    let u = c as u32;
    (0x09 <= u <= 0x0D) || u == 0x20 || u == 0x85 || u == 0xA0 || u == 0x1680 || (0x2000 <= u
        <= 0x200A) || u == 0x2028 || u == 0x2029 || u == 0x202F || u == 0x205F || u == 0x3000
}

/// Whether `c` is white space.
pub fn char_is_whitespace(c: char) -> (r: bool)
    ensures
        r == is_white_space(c),
{
    let u = c as u32;
    (0x09 <= u && u <= 0x0D) || u == 0x20 || u == 0x85 || u == 0xA0 || u == 0x1680 || (0x2000 <= u
        && u <= 0x200A) || u == 0x2028 || u == 0x2029 || u == 0x202F || u == 0x205F || u == 0x3000
}

/// `s` without leading and trailing white space.
pub open spec fn trim_ws(s: Seq<char>) -> Seq<char> {
    drop_trailing(drop_leading(s, |c: char| is_white_space(c)), |c: char| is_white_space(c))
}

/// Where the run of leading `c` (or white space, when `ws`) of `v[from..]`
/// ends.
fn leading_run_end(v: &Vec<char>, ws: bool, c: char) -> (r: usize)
    ensures
        r <= v.len(),
        ws ==> v@.subrange(r as int, v.len() as int) == drop_leading(
            v@,
            |x: char| is_white_space(x),
        ),
        !ws ==> v@.subrange(r as int, v.len() as int) == drop_leading(v@, |x: char| x == c),
{
    let mut i: usize = 0;
    assert(v@.subrange(0, v.len() as int) =~= v@);
    loop
        invariant
            i <= v.len(),
            ws ==> drop_leading(v@, |x: char| is_white_space(x)) == drop_leading(
                v@.subrange(i as int, v.len() as int),
                |x: char| is_white_space(x),
            ),
            !ws ==> drop_leading(v@, |x: char| x == c) == drop_leading(
                v@.subrange(i as int, v.len() as int),
                |x: char| x == c,
            ),
        decreases v.len() - i,
    {
        if i == v.len() {
            return i;
        }
        let hit = if ws {
            char_is_whitespace(v[i])
        } else {
            v[i] == c
        };
        if !hit {
            return i;
        }
        assert(v@.subrange(i as int, v.len() as int).drop_first() =~= v@.subrange(
            i + 1,
            v.len() as int,
        ));
        i = i + 1;
    }
}

/// Where `v[..]` ends once its trailing run of `c` (or white space, when
/// `ws`) is cut off.
fn trailing_run_start(v: &Vec<char>, ws: bool, c: char) -> (r: usize)
    ensures
        r <= v.len(),
        ws ==> v@.subrange(0, r as int) == drop_trailing(v@, |x: char| is_white_space(x)),
        !ws ==> v@.subrange(0, r as int) == drop_trailing(v@, |x: char| x == c),
{
    let mut i: usize = v.len();
    assert(v@.subrange(0, v.len() as int) =~= v@);
    loop
        invariant
            i <= v.len(),
            ws ==> drop_trailing(v@, |x: char| is_white_space(x)) == drop_trailing(
                v@.subrange(0, i as int),
                |x: char| is_white_space(x),
            ),
            !ws ==> drop_trailing(v@, |x: char| x == c) == drop_trailing(
                v@.subrange(0, i as int),
                |x: char| x == c,
            ),
        decreases i,
    {
        if i == 0 {
            return i;
        }
        let hit = if ws {
            char_is_whitespace(v[i - 1])
        } else {
            v[i - 1] == c
        };
        if !hit {
            return i;
        }
        assert(v@.subrange(0, i as int).drop_last() =~= v@.subrange(0, i - 1));
        i = i - 1;
    }
}

/// `v` without its leading copies of `c`.
pub fn strip_leading_char(v: &Vec<char>, c: char) -> (r: Vec<char>)
    ensures
        r@ == drop_leading(v@, |x: char| x == c),
{
    let st = leading_run_end(v, false, c);
    sub_vec(v, st, v.len())
}

/// `v` without its trailing copies of `c`.
pub fn strip_trailing_char(v: &Vec<char>, c: char) -> (r: Vec<char>)
    ensures
        r@ == drop_trailing(v@, |x: char| x == c),
{
    let en = trailing_run_start(v, false, c);
    sub_vec(v, 0, en)
}

/// `v` without leading and trailing white space.
pub fn trim(v: &Vec<char>) -> (r: Vec<char>)
    ensures
        r@ == trim_ws(v@),
{
    let st = leading_run_end(v, true, ' ');
    let lead = sub_vec(v, st, v.len());
    let en = trailing_run_start(&lead, true, ' ');
    sub_vec(&lead, 0, en)
}

/// `v` without the copies of `w` that it begins with.
pub fn strip_leading_word(v: &Vec<char>, w: &str) -> (r: Vec<char>)
    ensures
        r@ == drop_leading_word(v@, w@),
{
    let wc = chars_of(w);
    if wc.len() == 0 {
        return sub_vec(v, 0, v.len());
    }
    let mut i: usize = 0;
    assert(v@.subrange(0, v.len() as int) =~= v@);
    while occurs_at_exec(v, &wc, i)
        invariant
            wc@ == w@,
            wc@.len() > 0,
            i <= v.len(),
            drop_leading_word(v@, w@) == drop_leading_word(v@.subrange(i as int, v.len() as int), w@),
        decreases v.len() - i,
    {
        let ghost rest = v@.subrange(i as int, v.len() as int);
        assert(rest.subrange(0, w@.len() as int) =~= v@.subrange(i as int, i + w@.len()));
        assert(rest.subrange(w@.len() as int, rest.len() as int) =~= v@.subrange(
            i + w@.len(),
            v.len() as int,
        ));
        i = i + wc.len();
    }
    let ghost rest = v@.subrange(i as int, v.len() as int);
    assert(!starts_with(rest, w@)) by {
        if starts_with(rest, w@) {
            assert(rest.subrange(0, w@.len() as int) =~= v@.subrange(i as int, i + w@.len()));
        }
    }
    sub_vec(v, i, v.len())
}

/// The value of a digit in base `radix`, as `u8::from_str_radix` reads it:
/// `0`-`9`, then `a`-`z` or `A`-`Z` for ten upwards.
pub open spec fn digit_value(c: char, radix: nat) -> Option<nat> {
    let v: int = if '0' <= c <= '9' {
        c as u32 - '0' as u32
    } else if 'a' <= c <= 'z' {
        c as u32 - 'a' as u32 + 10
    } else if 'A' <= c <= 'Z' {
        c as u32 - 'A' as u32 + 10
    } else {
        radix as int
    };
    if v < radix {
        Some(v as nat)
    } else {
        None
    }
}

/// The number that the digits `d` spell in base `radix`.
pub open spec fn digits_value(d: Seq<char>, radix: nat) -> nat
    decreases d.len(),
{
    if d.len() == 0 {
        0
    } else {
        digits_value(d.drop_last(), radix) * radix + match digit_value(d.last(), radix) {
            Some(x) => x,
            None => 0,
        }
    }
}

/// `s` without one leading `+`.
pub open spec fn unsigned_digits(s: Seq<char>) -> Seq<char> {
    if s.len() > 0 && s[0] == '+' {
        s.drop_first()
    } else {
        s
    }
}

/// What `u8::from_str_radix(s, radix)` accepts: an optional `+`, then one
/// or more digits whose value fits in a byte.
pub open spec fn spec_parse_u8(s: Seq<char>, radix: nat) -> Option<u8> {
    let d = unsigned_digits(s);
    if d.len() > 0 && (forall|i: int| 0 <= i < d.len() ==> (#[trigger] digit_value(d[i], radix)) is Some)
        && digits_value(d, radix) <= 255 {
        Some(digits_value(d, radix) as u8)
    } else {
        None
    }
}

/// The value of `c` as a digit in base `radix`.
fn digit_of(c: char, radix: u32) -> (r: Option<u32>)
    requires
        2 <= radix <= 36,
    ensures
        r is Some == digit_value(c, radix as nat) is Some,
        r is Some ==> r->Some_0 == digit_value(c, radix as nat)->Some_0,
{
    let v: u32 = if '0' <= c && c <= '9' {
        c as u32 - '0' as u32
    } else if 'a' <= c && c <= 'z' {
        c as u32 - 'a' as u32 + 10
    } else if 'A' <= c && c <= 'Z' {
        c as u32 - 'A' as u32 + 10
    } else {
        radix
    };
    if v < radix {
        Some(v)
    } else {
        None
    }
}

/// Reads a byte written in base `radix`, as `u8::from_str_radix` does.
pub fn parse_u8_radix(s: &Vec<char>, radix: u32) -> (r: Option<u8>)
    requires
        2 <= radix <= 36,
    ensures
        r == spec_parse_u8(s@, radix as nat),
{
    let start: usize = if s.len() > 0 && s[0] == '+' {
        1
    } else {
        0
    };
    let ghost d = unsigned_digits(s@);
    assert(d =~= s@.subrange(start as int, s.len() as int));
    if start >= s.len() {
        return None;
    }
    let mut acc: u32 = 0;
    for i in start..s.len()
        invariant
            start <= i <= s.len(),
            d == unsigned_digits(s@),
            d == s@.subrange(start as int, s.len() as int),
            2 <= radix <= 36,
            acc <= 256,
            forall|j: int| 0 <= j < i - start ==> (#[trigger] digit_value(d[j], radix as nat)) is Some,
            acc as nat == if digits_value(d.subrange(0, i - start), radix as nat) < 256 {
                digits_value(d.subrange(0, i - start), radix as nat)
            } else {
                256
            },
    {
        let ghost k = i - start;
        let ghost before = digits_value(d.subrange(0, k), radix as nat);
        assert(d[k] == s@[i as int]);
        match digit_of(s[i], radix) {
            None => {
                assert(!(digit_value(d[k], radix as nat) is Some));
                assert(0 <= k < d.len());
                assert(!(forall|j: int|
                    0 <= j < d.len() ==> (#[trigger] digit_value(d[j], radix as nat)) is Some));
                return None;
            },
            Some(x) => {
                assert(d.subrange(0, k + 1).drop_last() =~= d.subrange(0, k));
                let ghost after = digits_value(d.subrange(0, k + 1), radix as nat);
                assert(after == before * radix + x);
                assert(acc * radix + x <= 256 * 36 + 36) by (nonlinear_arith)
                    requires
                        acc <= 256,
                        radix <= 36,
                        x < 36,
                ;
                assert(before >= 256 ==> before * radix + x >= 256) by (nonlinear_arith)
                    requires
                        radix >= 2,
                ;
                acc = acc * radix + x;
                if acc > 256 {
                    acc = 256;
                }
            },
        }
    }
    assert(d.subrange(0, d.len() as int) =~= d);
    if acc <= 255 {
        Some(acc as u8)
    } else {
        None
    }
}

/// How many bytes UTF-8 spends on `c`.
pub open spec fn char_utf8_len(c: char) -> nat {
    if (c as u32) < 0x80 {
        1
    } else if (c as u32) < 0x800 {
        2
    } else if (c as u32) < 0x10000 {
        3
    } else {
        4
    }
}

/// How many bytes the UTF-8 encoding of `s` takes.
pub open spec fn utf8_len(s: Seq<char>) -> nat
    decreases s.len(),
{
    if s.len() == 0 {
        0
    } else {
        utf8_len(s.drop_last()) + char_utf8_len(s.last())
    }
}

/// Whether the UTF-8 encoding of `v` takes exactly `n` bytes.
pub fn utf8_len_is(v: &Vec<char>, n: usize) -> (r: bool)
    requires
        n < usize::MAX,
    ensures
        r == (utf8_len(v@) == n),
{
    let mut total: usize = 0;
    for i in 0..v.len()
        invariant
            n < usize::MAX,
            total <= n + 1,
            total as int == if utf8_len(v@.subrange(0, i as int)) <= n {
                utf8_len(v@.subrange(0, i as int)) as int
            } else {
                n + 1
            },
    {
        assert(v@.subrange(0, i + 1).drop_last() =~= v@.subrange(0, i as int));
        let c = v[i] as u32;
        let w: usize = if c < 0x80 {
            1
        } else if c < 0x800 {
            2
        } else if c < 0x10000 {
            3
        } else {
            4
        };
        if total > n || w > n - total {
            total = n + 1;
        } else {
            total = total + w;
        }
    }
    assert(v@.subrange(0, v.len() as int) =~= v@);
    total == n
}

} // verus!
