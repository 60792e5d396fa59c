//! Lexical primitives shared by every parser in the grammar: literal
//! matching, whitespace runs, and bounded decimal numbers, together with the
//! ghost [`Parsed`] outcome type that the parsers' contracts are written in.

use vstd::prelude::*;

verus! {

/// The shape of token that a parser missed when it failed.
#[derive(Clone, Copy, Debug, PartialEq, Eq, Structural)]
pub enum ErrorKind {
    /// A literal keyword or punctuation mark was expected.
    Tag,
    /// A decimal digit was expected.
    Digit,
    /// At least one blank was expected.
    Space,
    /// A number was read but lies outside its allowed range.
    Bounds,
    /// The grammar matched a prefix but the input did not end there.
    Trailing,
}

/// A parse failure: the character position of the offending token in the
/// full input, and the shape of token that was expected there.
#[derive(Clone, Copy, Debug, PartialEq, Eq, Structural)]
pub struct ParseError {
    pub at: usize,
    pub kind: ErrorKind,
}

/// Ghost description of a parser's outcome at a position: the parsed value
/// together with the position just past it, or the failure spot.
pub enum Parsed<T> {
    Found { val: T, end: int },
    Fail { at: int, kind: ErrorKind },
}

/// Relates a parser's executable result to its ghost description.
pub open spec fn agrees<T>(r: Result<(T, usize), ParseError>, p: Parsed<T>) -> bool {
    match r {
        Ok((v, end)) => p == (Parsed::Found { val: v, end: end as int }),
        Err(e) => p == (Parsed::Fail::<T> { at: e.at as int, kind: e.kind }),
    }
}

/// Ordered choice reports one failure for the whole alternation: a bounds
/// violation wins over any other kind, then the failure that reached
/// furthest, then the earlier alternative.
pub open spec fn spec_merge_fail(at1: int, k1: ErrorKind, at2: int, k2: ErrorKind) -> (int, ErrorKind) {
    if k1 == ErrorKind::Bounds && k2 != ErrorKind::Bounds {
        (at1, k1)
    } else if k2 == ErrorKind::Bounds && k1 != ErrorKind::Bounds {
        (at2, k2)
    } else if at2 > at1 {
        (at2, k2)
    } else {
        (at1, k1)
    }
}

pub fn merge_fail(e1: ParseError, e2: ParseError) -> (r: ParseError)
    ensures
        (r.at as int, r.kind) == spec_merge_fail(e1.at as int, e1.kind, e2.at as int, e2.kind),
{
    if e1.kind == ErrorKind::Bounds && e2.kind != ErrorKind::Bounds {
        e1
    } else if e2.kind == ErrorKind::Bounds && e1.kind != ErrorKind::Bounds {
        e2
    } else if e2.at > e1.at {
        e2
    } else {
        e1
    }
}

/// Ordered choice: the first alternative's success wins, then the
/// second's; two failures are merged by [`spec_merge_fail`].
pub open spec fn or_else<T>(first: Parsed<T>, second: Parsed<T>) -> Parsed<T> {
    match first {
        Parsed::Found { val, end } => first,
        Parsed::Fail { at: at1, kind: k1 } => match second {
            Parsed::Found { val, end } => second,
            Parsed::Fail { at: at2, kind: k2 } => {
                let (at, kind) = spec_merge_fail(at1, k1, at2, k2);
                Parsed::Fail { at, kind }
            },
        },
    }
}

/// The literal `t` occurs in `s` at position `pos`.
pub open spec fn tag_matches(s: Seq<char>, pos: int, t: Seq<char>) -> bool {
    &&& 0 <= pos
    &&& pos + t.len() <= s.len()
    &&& s.subrange(pos, pos + t.len()) == t
}

/// Matches the literal `t` at position `pos` and gives the position just
/// past it.
pub fn tag_at(s: &str, pos: usize, t: &str) -> (r: Option<usize>)
    requires
        pos <= s@.len(),
    ensures
        match r {
            Some(end) => tag_matches(s@, pos as int, t@) && end as int == pos + t@.len()
                && pos <= end <= s@.len(),
            None => !tag_matches(s@, pos as int, t@),
        },
{
    let slen = s.unicode_len();
    let tlen = t.unicode_len();
    if slen - pos < tlen {
        return None;
    }
    let mut i: usize = 0;
    while i < tlen
        invariant
            0 <= i <= tlen,
            pos + tlen <= slen,
            slen == s@.len(),
            tlen == t@.len(),
            forall|j: int| 0 <= j < i ==> s@[pos + j] == t@[j],
        decreases tlen - i,
    {
        if s.get_char(pos + i) != t.get_char(i) {
            proof {
                assert(!tag_matches(s@, pos as int, t@)) by {
                    if s@.subrange(pos as int, pos as int + t@.len()) == t@ {
                        assert(s@.subrange(pos as int, pos as int + t@.len())[i as int]
                            == s@[pos + i]);
                    }
                }
            }
            return None;
        }
        i += 1;
    }
    proof {
        assert(s@.subrange(pos as int, pos as int + t@.len()) =~= t@);
    }
    Some(pos + tlen)
}

/// The single character `c` stands at position `pos` of `s`.
pub open spec fn char_matches(s: Seq<char>, pos: int, c: char) -> bool {
    0 <= pos < s.len() && s[pos] == c
}

/// Whether the single character `c` stands at position `pos`.
pub fn char_at(s: &str, pos: usize, c: char) -> (r: bool)
    requires
        pos <= s@.len(),
    ensures
        r == char_matches(s@, pos as int, c),
        s@.len() <= usize::MAX,
{
    let slen = s.unicode_len();
    pos < slen && s.get_char(pos) == c
}

/// The suffix of `input` that starts at `end`, handed back beside a parsed
/// value as the remaining input.
pub fn rest_of(input: &str, end: usize) -> (r: &str)
    requires
        end <= input@.len(),
    ensures
        r@ == input@.skip(end as int),
{
    let n = input.unicode_len();
    input.substring_char(end, n)
}

/// A blank that separates tokens.
pub open spec fn is_space_char(c: char) -> bool {
    c == ' ' || c == '\t'
}

/// A decimal digit.
pub open spec fn is_digit_char(c: char) -> bool {
    48 <= c as int <= 57
}

/// The numeric value of a decimal digit.
pub open spec fn digit_value(c: char) -> int {
    c as int - 48
}

/// The position just past the run of blanks starting at `pos`.
pub open spec fn spaces_end(s: Seq<char>, pos: int) -> int
    decreases s.len() - pos,
{
    if 0 <= pos < s.len() && is_space_char(s[pos]) {
        spaces_end(s, pos + 1)
    } else {
        pos
    }
}

/// The position just past the run of digits starting at `pos`.
pub open spec fn digits_end(s: Seq<char>, pos: int) -> int
    decreases s.len() - pos,
{
    if 0 <= pos < s.len() && is_digit_char(s[pos]) {
        digits_end(s, pos + 1)
    } else {
        pos
    }
}

/// The value of the digit run `s[pos..end]` read as a decimal number.
pub open spec fn digits_value(s: Seq<char>, pos: int, end: int) -> int
    decreases end - pos,
{
    if pos < end {
        digits_value(s, pos, end - 1) * 10 + digit_value(s[end - 1])
    } else {
        0
    }
}

/// One or more blanks, as the grammar's token separator.
pub open spec fn spec_space1(s: Seq<char>, pos: int) -> Parsed<()> {
    if 0 <= pos < s.len() && is_space_char(s[pos]) {
        Parsed::Found { val: (), end: spaces_end(s, pos) }
    } else {
        Parsed::Fail { at: pos, kind: ErrorKind::Space }
    }
}

/// Consumes one or more blanks.
pub fn space1(s: &str, pos: usize) -> (r: Result<((), usize), ParseError>)
    requires
        pos <= s@.len(),
    ensures
        agrees(r, spec_space1(s@, pos as int)),
        r matches Ok((v, end)) ==> pos < end <= s@.len(),
{
    let slen = s.unicode_len();
    if pos >= slen || !is_space(s.get_char(pos)) {
        return Err(ParseError { at: pos, kind: ErrorKind::Space });
    }
    let mut i: usize = pos;
    while i < slen && is_space(s.get_char(i))
        invariant
            pos <= i <= slen,
            slen == s@.len(),
            spaces_end(s@, pos as int) == spaces_end(s@, i as int),
        decreases slen - i,
    {
        i += 1;
    }
    Ok(((), i))
}

/// Zero or more blanks.
pub fn space0(s: &str, pos: usize) -> (end: usize)
    requires
        pos <= s@.len(),
    ensures
        end as int == spaces_end(s@, pos as int),
        pos <= end <= s@.len(),
{
    let slen = s.unicode_len();
    let mut i: usize = pos;
    while i < slen && is_space(s.get_char(i))
        invariant
            pos <= i <= slen,
            slen == s@.len(),
            spaces_end(s@, pos as int) == spaces_end(s@, i as int),
        decreases slen - i,
    {
        i += 1;
    }
    i
}

fn is_space(c: char) -> (r: bool)
    ensures
        r == is_space_char(c),
{
    c == ' ' || c == '\t'
}

fn is_digit(c: char) -> (r: bool)
    ensures
        r == is_digit_char(c),
{
    let u = c as u32;
    48 <= u && u <= 57
}

/// Every character of `s[pos..end)` is a digit.
pub open spec fn digit_run(s: Seq<char>, pos: int, end: int) -> bool {
    forall|i: int| pos <= i < end ==> is_digit_char(s[i])
}

/// Where a digit run ends at the input's end or at a non-digit, the scan
/// stops exactly there.
pub proof fn lemma_digits_end_at(s: Seq<char>, pos: int, end: int)
    requires
        0 <= pos <= end <= s.len(),
        digit_run(s, pos, end),
        end == s.len() || !is_digit_char(s[end]),
    ensures
        digits_end(s, pos) == end,
    decreases end - pos,
{
    if pos < end {
        lemma_digits_end_at(s, pos + 1, end);
    }
}

/// The value of a digit run depends only on the characters it covers.
pub proof fn lemma_digits_value_congruent(
    s1: Seq<char>,
    pos1: int,
    s2: Seq<char>,
    pos2: int,
    k: int,
)
    requires
        0 <= pos1,
        0 <= pos2,
        forall|i: int| 0 <= i < k ==> s1[#[trigger] (pos1 + i)] == s2[pos2 + i],
    ensures
        digits_value(s1, pos1, pos1 + k) == digits_value(s2, pos2, pos2 + k),
    decreases k,
{
    if k > 0 {
        lemma_digits_value_congruent(s1, pos1, s2, pos2, k - 1);
        assert(s1[pos1 + (k - 1)] == s2[pos2 + (k - 1)]);
    }
}

/// Every character of `s[pos..end)` is a blank.
pub open spec fn space_run(s: Seq<char>, pos: int, end: int) -> bool {
    forall|i: int| pos <= i < end ==> is_space_char(s[i])
}

/// Where a run of blanks ends at the input's end or at a non-blank, the
/// scan stops exactly there.
pub proof fn lemma_spaces_end_at(s: Seq<char>, pos: int, end: int)
    requires
        0 <= pos <= end <= s.len(),
        space_run(s, pos, end),
        end == s.len() || !is_space_char(s[end]),
    ensures
        spaces_end(s, pos) == end,
    decreases end - pos,
{
    if pos < end {
        lemma_spaces_end_at(s, pos + 1, end);
    }
}

/// A literal cannot match where the first characters differ.
pub proof fn lemma_tag_first_char(s: Seq<char>, pos: int, t: Seq<char>)
    requires
        t.len() > 0,
        0 <= pos < s.len(),
        s[pos] != t[0],
    ensures
        !tag_matches(s, pos, t),
{
    if tag_matches(s, pos, t) {
        assert(s.subrange(pos, pos + t.len())[0] == s[pos]);
    }
}

/// A run of digits at `pos` read as a number that must lie in
/// `[min, max]`: missing digits fail as [`ErrorKind::Digit`], a value
/// outside the bounds as [`ErrorKind::Bounds`], both at the token's start.
pub open spec fn spec_number(s: Seq<char>, pos: int, min: int, max: int) -> Parsed<int> {
    let end = digits_end(s, pos);
    if end == pos {
        Parsed::Fail { at: pos, kind: ErrorKind::Digit }
    } else {
        let v = digits_value(s, pos, end);
        if min <= v <= max {
            Parsed::Found { val: v, end }
        } else {
            Parsed::Fail { at: pos, kind: ErrorKind::Bounds }
        }
    }
}

/// Finds the end of the digit run starting at `pos`.
fn digits_run_end(s: &str, pos: usize) -> (end: usize)
    requires
        pos <= s@.len(),
    ensures
        end as int == digits_end(s@, pos as int),
        pos <= end <= s@.len(),
        forall|j: int| pos <= j < end ==> is_digit_char(s@[j]),
{
    let slen = s.unicode_len();
    let mut i: usize = pos;
    while i < slen && is_digit(s.get_char(i))
        invariant
            pos <= i <= slen,
            slen == s@.len(),
            digits_end(s@, pos as int) == digits_end(s@, i as int),
            forall|j: int| pos <= j < i ==> is_digit_char(s@[j]),
        decreases slen - i,
    {
        i += 1;
    }
    i
}

/// Reads a run of digits as a decimal number in `[min, max]`.
pub fn scan_number(s: &str, pos: usize, min: u32, max: u32) -> (r: Result<(u32, usize), ParseError>)
    requires
        pos <= s@.len(),
    ensures
        match r {
            Ok((v, end)) => spec_number(s@, pos as int, min as int, max as int)
                == (Parsed::Found { val: v as int, end: end as int })
                && pos < end <= s@.len() && min <= v <= max,
            Err(e) => spec_number(s@, pos as int, min as int, max as int)
                == (Parsed::Fail::<int> { at: e.at as int, kind: e.kind }),
        },
{
    let end = digits_run_end(s, pos);
    if end == pos {
        return Err(ParseError { at: pos, kind: ErrorKind::Digit });
    }
    let mut i: usize = pos;
    let mut acc: u64 = 0;
    while i < end
        invariant
            pos <= i <= end <= s@.len(),
            forall|j: int| pos <= j < end ==> is_digit_char(s@[j]),
            digits_value(s@, pos as int, i as int) >= 0,
            acc <= 5_000_000_000,
            acc as int == if digits_value(s@, pos as int, i as int) <= 5_000_000_000 {
                digits_value(s@, pos as int, i as int)
            } else {
                5_000_000_000int
            },
        decreases end - i,
    {
        let c = s.get_char(i);
        let d = c as u32 as u64 - 48;
        acc = acc * 10 + d;
        if acc > 5_000_000_000 {
            acc = 5_000_000_000;
        }
        i += 1;
        proof {
            assert(digits_value(s@, pos as int, i as int)
                == digits_value(s@, pos as int, i - 1) * 10 + digit_value(s@[i - 1]));
        }
    }
    let ghost v = digits_value(s@, pos as int, end as int);
    if acc < min as u64 || acc > max as u64 {
        proof {
            if acc > max as u64 {
                assert(v > max);
            } else {
                assert(v < min);
            }
        }
        return Err(ParseError { at: pos, kind: ErrorKind::Bounds });
    }
    Ok((acc as u32, end))
}

} // verus!
