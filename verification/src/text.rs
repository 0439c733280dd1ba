//! Character-level text utilities: prefixes, suffixes, substrings,
//! hexadecimal digits, decimal numerals, white space and lines.
use vstd::prelude::*;
use vstd::string::StrSliceExecFns;
use vstd::utf8::{decode_utf8, valid_utf8};

verus! {

#[verifier::external_type_specification]
#[verifier::external_body]
pub struct ExUtf8Error(std::str::Utf8Error);

/// `p` is a prefix of `s`.
pub open spec fn has_prefix(s: Seq<char>, p: Seq<char>) -> bool {
    p.len() <= s.len() && s.take(p.len() as int) == p
}

/// `p` is a suffix of `s`.
pub open spec fn has_suffix(s: Seq<char>, p: Seq<char>) -> bool {
    p.len() <= s.len() && s.skip(s.len() - p.len()) == p
}

/// `p` occurs somewhere in `s` as a contiguous run.
pub open spec fn occurs_in(s: Seq<char>, p: Seq<char>) -> bool {
    exists|i: int| 0 <= i <= s.len() - p.len() && #[trigger] s.subrange(i, i + p.len()) == p
}

/// An ASCII hexadecimal digit: `0-9`, `a-f` or `A-F`.
pub open spec fn is_hex_digit(c: char) -> bool {
    ('0' <= c && c <= '9') || ('a' <= c && c <= 'f') || ('A' <= c && c <= 'F')
}

/// The sixteen lower-case hexadecimal digits, in order of value.
pub open spec fn lower_hex_digits() -> Seq<char> {
    seq!['0', '1', '2', '3', '4', '5', '6', '7', '8', '9', 'a', 'b', 'c', 'd', 'e', 'f']
}

/// Lower-case hexadecimal encoding: each byte becomes two digits, the high
/// nibble first.
pub open spec fn hex_lower(bytes: Seq<u8>) -> Seq<char> {
    Seq::new(
        2 * bytes.len(),
        |i: int|
            if i % 2 == 0 {
                lower_hex_digits()[bytes[i / 2] as int / 16]
            } else {
                lower_hex_digits()[bytes[i / 2] as int % 16]
            },
    )
}

/// The characters of `s`, in order.
pub fn chars_of(s: &str) -> (v: Vec<char>)
    ensures
        v@ == s@,
{
    let mut v: Vec<char> = Vec::new();
    for c in it: s.chars()
        invariant
            v@ == it.seq().take(it.index() as int),
    {
        v.push(c);
    }
    v
}

/// Whether `p` is a prefix of `s`.
pub fn starts_with_chars(s: &Vec<char>, p: &Vec<char>) -> (r: bool)
    ensures
        r == has_prefix(s@, p@),
{
    if p.len() > s.len() {
        return false;
    }
    let mut i: usize = 0;
    while i < p.len()
        invariant
            p@.len() <= s@.len(),
            i <= p@.len(),
            forall|j: int| 0 <= j < i ==> s@[j] == p@[j],
        decreases p@.len() - i,
    {
        if s[i] != p[i] {
            assert(s@.take(p@.len() as int)[i as int] != p@[i as int]);
            return false;
        }
        i = i + 1;
    }
    assert(s@.take(p@.len() as int) =~= p@);
    true
}

/// Whether `p` is a suffix of `s`.
pub fn ends_with_chars(s: &Vec<char>, p: &Vec<char>) -> (r: bool)
    ensures
        r == has_suffix(s@, p@),
{
    if p.len() > s.len() {
        return false;
    }
    let off: usize = s.len() - p.len();
    let mut i: usize = 0;
    while i < p.len()
        invariant
            p@.len() <= s@.len(),
            off == s@.len() - p@.len(),
            s@.len() == s.len(),
            i <= p@.len(),
            forall|j: int| 0 <= j < i ==> s@[off + j] == p@[j],
        decreases p@.len() - i,
    {
        if s[off + i] != p[i] {
            assert(s@.skip(off as int)[i as int] != p@[i as int]);
            return false;
        }
        i = i + 1;
    }
    assert(s@.skip(off as int) =~= p@);
    true
}

/// Whether `p` occurs in `s` at position `at`.
fn occurs_at(s: &Vec<char>, p: &Vec<char>, at: usize) -> (r: bool)
    requires
        at + p@.len() <= s@.len(),
    ensures
        r == (s@.subrange(at as int, at + p@.len()) == p@),
{
    let mut i: usize = 0;
    while i < p.len()
        invariant
            at + p@.len() <= s@.len(),
            s@.len() == s.len(),
            i <= p@.len(),
            forall|j: int| 0 <= j < i ==> s@[at + j] == p@[j],
        decreases p@.len() - i,
    {
        if s[at + i] != p[i] {
            assert(s@.subrange(at as int, at + p@.len())[i as int] != p@[i as int]);
            return false;
        }
        i = i + 1;
    }
    assert(s@.subrange(at as int, at + p@.len()) =~= p@);
    true
}

/// Whether `p` occurs anywhere in `s`.
pub fn contains_chars(s: &Vec<char>, p: &Vec<char>) -> (r: bool)
    ensures
        r == occurs_in(s@, p@),
{
    if p.len() > s.len() {
        return false;
    }
    let last: usize = s.len() - p.len();
    let mut at: usize = 0;
    while at <= last
        invariant
            last == s@.len() - p@.len(),
            s@.len() == s.len(),
            at <= last + 1,
            forall|i: int| 0 <= i < at ==> #[trigger] s@.subrange(i, i + p@.len()) != p@,
        decreases last + 1 - at,
    {
        if occurs_at(s, p, at) {
            return true;
        }
        if at == last {
            return false;
        }
        at = at + 1;
    }
    false
}

/// Whether `c` is an ASCII hexadecimal digit.
pub fn hex_digit(c: char) -> (r: bool)
    ensures
        r == is_hex_digit(c),
{
    ('0' <= c && c <= '9') || ('a' <= c && c <= 'f') || ('A' <= c && c <= 'F')
}

/// The ASCII digit for `d`, which is below ten.
pub open spec fn ascii_digit(d: int) -> char {
    (d + 48) as char
}

/// The decimal numeral of `n`, without leading zeros.
pub open spec fn decimal(n: nat) -> Seq<char>
    decreases n,
{
    if n < 10 {
        seq![ascii_digit(n as int)]
    } else {
        decimal(n / 10).push(ascii_digit(n as int % 10))
    }
}

/// The decimal numeral of `x`, with a leading `-` when `x` is negative.
pub open spec fn signed_decimal(x: int) -> Seq<char> {
    if x < 0 {
        seq!['-'] + decimal((-x) as nat)
    } else {
        decimal(x as nat)
    }
}

/// Unicode `White_Space`, the property that `char::is_whitespace` tests.
pub open spec fn is_white_space(c: char) -> bool {
    ||| ('\u{9}' <= c && c <= '\u{d}')
    ||| c == ' '
    ||| c == '\u{85}'
    ||| c == '\u{a0}'
    ||| c == '\u{1680}'
    ||| ('\u{2000}' <= c && c <= '\u{200a}')
    ||| c == '\u{2028}'
    ||| c == '\u{2029}'
    ||| c == '\u{202f}'
    ||| c == '\u{205f}'
    ||| c == '\u{3000}'
}

/// `s` without its leading white space.
pub open spec fn trim_start(s: Seq<char>) -> Seq<char>
    decreases s.len(),
{
    if s.len() > 0 && is_white_space(s[0]) {
        trim_start(s.drop_first())
    } else {
        s
    }
}

/// `s` without its trailing white space.
pub open spec fn trim_end(s: Seq<char>) -> Seq<char>
    decreases s.len(),
{
    if s.len() > 0 && is_white_space(s.last()) {
        trim_end(s.drop_last())
    } else {
        s
    }
}

/// `s` without leading or trailing white space.
pub open spec fn trim(s: Seq<char>) -> Seq<char> {
    trim_start(trim_end(s))
}

/// The position just after the last line feed of `s`, or zero when there is none.
pub open spec fn after_last_line_feed(s: Seq<char>) -> int
    decreases s.len(),
{
    if s.len() == 0 {
        0
    } else if s.last() == '\n' {
        s.len() as int
    } else {
        after_last_line_feed(s.drop_last())
    }
}

/// The last of the lines of `s`, as `str::lines` splits them: lines end at
/// `\n` or `\r\n`, a final line feed opens no further line, and text without
/// any line has the empty string as its last line.
pub open spec fn final_line(s: Seq<char>) -> Seq<char> {
    if s.len() == 0 {
        seq![]
    } else {
        let ends_with_feed = s.last() == '\n';
        let body = if ends_with_feed { s.drop_last() } else { s };
        let line = body.skip(after_last_line_feed(body));
        if ends_with_feed && line.len() > 0 && line.last() == '\r' {
            line.drop_last()
        } else {
            line
        }
    }
}

/// Where the last line feed of a concatenation is: in the second part when
/// that holds one, else where it is in the first part.
proof fn lemma_after_last_line_feed_concat(p: Seq<char>, q: Seq<char>)
    ensures
        after_last_line_feed(p + q) == if after_last_line_feed(q) > 0 {
            p.len() + after_last_line_feed(q)
        } else {
            after_last_line_feed(p)
        },
    decreases q.len(),
{
    if q.len() == 0 {
        assert(p + q =~= p);
    } else {
        assert((p + q).last() == q.last());
        if q.last() != '\n' {
            assert((p + q).drop_last() =~= p + q.drop_last());
            lemma_after_last_line_feed_concat(p, q.drop_last());
        }
    }
}

/// No line feed follows the position [`after_last_line_feed`] gives, and that
/// position lies within the text.
proof fn lemma_after_last_line_feed_bounds(s: Seq<char>)
    ensures
        0 <= after_last_line_feed(s) <= s.len(),
        forall|i: int| after_last_line_feed(s) <= i < s.len() ==> #[trigger] s[i] != '\n',
    decreases s.len(),
{
    if s.len() > 0 && s.last() != '\n' {
        lemma_after_last_line_feed_bounds(s.drop_last());
        assert forall|i: int| after_last_line_feed(s) <= i < s.len() implies #[trigger] s[i] != '\n' by {
            if i < s.len() - 1 {
                assert(s[i] == s.drop_last()[i]);
            }
        }
    }
}

/// A line holds no line feed: the last line of any text is free of `\n`.
pub proof fn lemma_final_line_has_no_line_feed(s: Seq<char>)
    ensures
        forall|i: int| 0 <= i < final_line(s).len() ==> #[trigger] final_line(s)[i] != '\n',
{
    if s.len() > 0 {
        let body = if s.last() == '\n' { s.drop_last() } else { s };
        lemma_after_last_line_feed_bounds(body);
        let k = after_last_line_feed(body);
        let line = body.skip(k);
        assert forall|i: int| 0 <= i < line.len() implies #[trigger] line[i] != '\n' by {
            assert(line[i] == body[k + i]);
        }
    }
}

/// The last line depends only on the text after the last line break: for any
/// `s` and any non-empty `t`, the last line of `s`, `\n`, `t` is the last line of `t`.
pub proof fn lemma_final_line_after_break(s: Seq<char>, t: Seq<char>)
    requires
        t.len() > 0,
    ensures
        final_line(s + seq!['\n'] + t) == final_line(t),
{
    let p = s + seq!['\n'];
    let u = p + t;
    assert(s + seq!['\n'] + t == u);
    assert(u.last() == t.last());
    let feed = t.last() == '\n';
    let body_t = if feed { t.drop_last() } else { t };
    let body_u = if feed { u.drop_last() } else { u };
    assert(body_u =~= p + body_t);
    lemma_after_last_line_feed_concat(p, body_t);
    assert(after_last_line_feed(p) == p.len());
    lemma_after_last_line_feed_bounds(body_t);
    let k = after_last_line_feed(body_t);
    assert(after_last_line_feed(body_u) == p.len() + k);
    assert(body_u.skip(p.len() + k) =~= body_t.skip(k));
}

/// A final line feed closes the last line without opening another, so adding
/// one to a text that does not already end a line (with `\n` or `\r`) keeps its
/// last line.
pub proof fn lemma_final_line_ignores_closing_feed(s: Seq<char>)
    requires
        s.len() > 0 ==> s.last() != '\n' && s.last() != '\r',
    ensures
        final_line(s.push('\n')) == final_line(s),
{
    let t = s.push('\n');
    assert(t.drop_last() =~= s);
    lemma_after_last_line_feed_bounds(s);
    if s.len() > 0 {
        let k = after_last_line_feed(s);
        let line = s.skip(k);
        if line.len() > 0 {
            assert(line.last() == s.last());
        }
    }
}

/// A text without a line feed is a single line: its last line is the whole text.
pub proof fn lemma_final_line_of_single_line(s: Seq<char>)
    requires
        forall|i: int| 0 <= i < s.len() ==> #[trigger] s[i] != '\n',
    ensures
        final_line(s) == s,
{
    if s.len() > 0 {
        lemma_after_last_line_feed_none(s);
        assert(s.skip(0) =~= s);
    }
}

/// Without a line feed, nothing precedes the last line.
proof fn lemma_after_last_line_feed_none(s: Seq<char>)
    requires
        forall|i: int| 0 <= i < s.len() ==> #[trigger] s[i] != '\n',
    ensures
        after_last_line_feed(s) == 0,
    decreases s.len(),
{
    if s.len() > 0 {
        assert(s.last() == s[s.len() - 1]);
        assert forall|i: int| 0 <= i < s.drop_last().len() implies #[trigger] s.drop_last()[i] != '\n' by {
            assert(s.drop_last()[i] == s[i]);
        }
        lemma_after_last_line_feed_none(s.drop_last());
    }
}

/// Trimming cuts only white space, and only from the ends: the result is a
/// contiguous part of the text, everything cut off is white space, and the
/// result neither starts nor ends with white space.
pub proof fn lemma_trim_cuts_white_space_ends(s: Seq<char>)
    ensures
        exists|lo: int, hi: int|
            0 <= lo <= hi <= s.len() && trim(s) == s.subrange(lo, hi) && (forall|i: int|
                0 <= i < lo ==> is_white_space(#[trigger] s[i])) && (forall|i: int|
                hi <= i < s.len() ==> is_white_space(#[trigger] s[i])),
        trim(s).len() > 0 ==> !is_white_space(trim(s)[0]) && !is_white_space(trim(s).last()),
{
    lemma_trim_end_shape(s);
    let e = trim_end(s);
    lemma_trim_start_shape(e);
    let hi = e.len() as int;
    let lo = e.len() - trim_start(e).len();
    assert(trim(s) =~= s.subrange(lo, hi));
    assert forall|i: int| 0 <= i < lo implies is_white_space(#[trigger] s[i]) by {
        assert(s[i] == e[i]);
    }
    if trim(s).len() > 0 {
        assert(trim(s).last() == e.last());
    }
}

/// `trim_end` keeps a prefix and cuts only white space.
proof fn lemma_trim_end_shape(s: Seq<char>)
    ensures
        trim_end(s).len() <= s.len(),
        trim_end(s) == s.take(trim_end(s).len() as int),
        forall|i: int| trim_end(s).len() <= i < s.len() ==> is_white_space(#[trigger] s[i]),
        trim_end(s).len() > 0 ==> !is_white_space(trim_end(s).last()),
    decreases s.len(),
{
    if s.len() > 0 && is_white_space(s.last()) {
        lemma_trim_end_shape(s.drop_last());
        let e = trim_end(s.drop_last());
        assert(e =~= s.take(e.len() as int));
        assert forall|i: int| e.len() <= i < s.len() implies is_white_space(#[trigger] s[i]) by {
            if i < s.len() - 1 {
                assert(s[i] == s.drop_last()[i]);
            }
        }
    } else {
        assert(s.take(s.len() as int) =~= s);
    }
}

/// `trim_start` keeps a suffix and cuts only white space.
proof fn lemma_trim_start_shape(s: Seq<char>)
    ensures
        trim_start(s).len() <= s.len(),
        trim_start(s) == s.skip(s.len() - trim_start(s).len()),
        forall|i: int| 0 <= i < s.len() - trim_start(s).len() ==> is_white_space(#[trigger] s[i]),
        trim_start(s).len() > 0 ==> !is_white_space(trim_start(s)[0]),
    decreases s.len(),
{
    if s.len() > 0 && is_white_space(s[0]) {
        lemma_trim_start_shape(s.drop_first());
        let b = trim_start(s.drop_first());
        assert(b =~= s.skip(s.len() - b.len()));
        assert forall|i: int| 0 <= i < s.len() - b.len() implies is_white_space(#[trigger] s[i]) by {
            if i > 0 {
                assert(s[i] == s.drop_first()[i - 1]);
            }
        }
    } else {
        assert(s.skip(0) =~= s);
    }
}

/// `std::str::from_utf8`: succeeds exactly on valid UTF-8, and the text is
/// the decoding of the bytes.
#[verifier::external_body]
pub(crate) fn str_from_utf8(v: &[u8]) -> (r: Result<&str, std::str::Utf8Error>)
    ensures
        r is Ok <==> valid_utf8(v@),
        r matches Ok(s) ==> s@ == decode_utf8(v@),
{
    std::str::from_utf8(v)
}

/// `String::push` (std): appends one character.
#[verifier::external_body]
pub(crate) fn push_char(s: &mut String, c: char)
    ensures
        final(s)@ == old(s)@.push(c),
{
    s.push(c)
}

/// The ASCII digit for `d`.
fn digit_char(d: u64) -> (c: char)
    requires
        d < 10,
    ensures
        c == ascii_digit(d as int),
{
    ((d as u8) + 48u8) as char
}

/// Appends the decimal numeral of `n` to `s`.
pub fn push_decimal(s: &mut String, n: u64)
    ensures
        final(s)@ == old(s)@ + decimal(n as nat),
    decreases n,
{
    if n >= 10 {
        push_decimal(s, n / 10);
    }
    push_char(s, digit_char(n % 10));
    assert(final(s)@ =~= old(s)@ + decimal(n as nat));
}

/// The decimal numeral of `n`.
pub fn decimal_string(n: u64) -> (r: String)
    ensures
        r@ == decimal(n as nat),
{
    let mut r = String::new();
    push_decimal(&mut r, n);
    assert(r@ =~= decimal(n as nat));
    r
}

/// The decimal numeral of `x`, signed.
pub fn signed_decimal_string(x: i32) -> (r: String)
    ensures
        r@ == signed_decimal(x as int),
{
    let mut r = String::new();
    if x < 0 {
        push_char(&mut r, '-');
        let m: i64 = x as i64;
        push_decimal(&mut r, (-m) as u64);
    } else {
        push_decimal(&mut r, x as u64);
    }
    assert(r@ =~= signed_decimal(x as int));
    r
}

/// Whether `c` is Unicode white space.
pub fn white_space(c: char) -> (r: bool)
    ensures
        r == is_white_space(c),
{
    ('\u{9}' <= c && c <= '\u{d}') || c == ' ' || c == '\u{85}' || c == '\u{a0}'
        || c == '\u{1680}' || ('\u{2000}' <= c && c <= '\u{200a}') || c == '\u{2028}'
        || c == '\u{2029}' || c == '\u{202f}' || c == '\u{205f}' || c == '\u{3000}'
}

/// The bounds `(lo, hi)` of `v` with its leading and trailing white space cut off.
pub fn trim_bounds(v: &Vec<char>) -> (r: (usize, usize))
    ensures
        r.0 <= r.1 <= v@.len(),
        v@.subrange(r.0 as int, r.1 as int) == trim(v@),
{
    let mut hi: usize = v.len();
    assert(v@.take(hi as int) =~= v@);
    while hi > 0 && white_space(v[hi - 1])
        invariant
            hi <= v@.len(),
            trim_end(v@) == trim_end(v@.take(hi as int)),
        decreases hi,
    {
        assert(v@.take(hi as int).drop_last() =~= v@.take(hi - 1));
        hi = hi - 1;
    }
    let ghost t = v@.take(hi as int);
    assert(trim_end(t) == t);
    let mut lo: usize = 0;
    assert(t.subrange(0, hi as int) =~= t);
    while lo < hi && white_space(v[lo])
        invariant
            lo <= hi <= v@.len(),
            t == v@.take(hi as int),
            trim_start(t) == trim_start(t.subrange(lo as int, hi as int)),
        decreases hi - lo,
    {
        assert(t.subrange(lo as int, hi as int).drop_first() =~= t.subrange(lo + 1, hi as int));
        lo = lo + 1;
    }
    assert(t.subrange(lo as int, hi as int) =~= v@.subrange(lo as int, hi as int));
    (lo, hi)
}

/// The bounds `(start, end)` of the last line of `v` (see [`final_line`]).
pub fn final_line_bounds(v: &Vec<char>) -> (r: (usize, usize))
    ensures
        r.0 <= r.1 <= v@.len(),
        v@.subrange(r.0 as int, r.1 as int) == final_line(v@),
{
    let n = v.len();
    if n == 0 {
        assert(v@.subrange(0, 0) =~= final_line(v@));
        return (0, 0);
    }
    let ends_with_feed = v[n - 1] == '\n';
    let end: usize = if ends_with_feed { n - 1 } else { n };
    let ghost body = if ends_with_feed { v@.drop_last() } else { v@ };
    assert(body =~= v@.take(end as int));
    let mut k: usize = end;
    while k > 0 && v[k - 1] != '\n'
        invariant
            k <= end <= v@.len(),
            after_last_line_feed(v@.take(end as int)) == after_last_line_feed(v@.take(k as int)),
        decreases k,
    {
        assert(v@.take(k as int).drop_last() =~= v@.take(k - 1));
        k = k - 1;
    }
    assert(after_last_line_feed(v@.take(k as int)) == k);
    let ghost line = body.skip(k as int);
    assert(line =~= v@.subrange(k as int, end as int));
    if ends_with_feed && end > k && v[end - 1] == '\r' {
        assert(line.drop_last() =~= v@.subrange(k as int, end - 1));
        (k, end - 1)
    } else {
        (k, end)
    }
}

/// The text of the last line of `s` (see [`final_line`]).
pub fn final_line_of(s: &str) -> (r: String)
    ensures
        r@ == final_line(s@),
{
    let v = chars_of(s);
    let (start, end) = final_line_bounds(&v);
    s.substring_char(start, end).to_owned()
}

} // verus!
