//! Verified character-level string helpers shared by the parsers and
//! formatters of this crate: conversion between `str` and `Vec<char>`,
//! trimming, searching, splitting, decimal formatting and port parsing.

use vstd::prelude::*;

verus! {

/// Relies on `alloc::string::String::push`: appends exactly the one
/// character to the end of the string.
#[verifier::external_body]
pub fn push_char(s: &mut String, c: char)
    ensures
        final(s)@ == old(s)@.push(c),
{
    s.push(c);
}

/// Collect the characters of a string slice into a vector.
pub fn to_chars(s: &str) -> (r: Vec<char>)
    ensures
        r@ == s@,
{
    let n: usize = s.unicode_len();
    let mut out: Vec<char> = Vec::new();
    let mut i: usize = 0;
    while i < n
        invariant
            i <= n,
            n == s@.len(),
            out@ == s@.take(i as int),
        decreases n - i,
    {
        let c = s.get_char(i);
        out.push(c);
        i = i + 1;
        assert(out@ =~= s@.take(i as int));
    }
    assert(out@ =~= s@);
    out
}

/// Build an owned string from a vector of characters.
pub fn chars_to_string(v: &Vec<char>) -> (r: String)
    ensures
        r@ == v@,
{
    let mut out = String::new();
    let mut i: usize = 0;
    while i < v.len()
        invariant
            i <= v.len(),
            out@ == v@.take(i as int),
        decreases v.len() - i,
    {
        push_char(&mut out, v[i]);
        i = i + 1;
        assert(out@ =~= v@.take(i as int));
    }
    assert(out@ =~= v@);
    out
}

/// ASCII whitespace, the characters stripped by [`trim_chars`].
pub open spec fn spec_is_space(c: char) -> bool {
    c == ' ' || c == '\t' || c == '\n' || c == '\r'
}

pub open spec fn spec_trim_front(s: Seq<char>) -> Seq<char>
    decreases s.len(),
{
    if s.len() > 0 && spec_is_space(s[0]) {
        spec_trim_front(s.skip(1))
    } else {
        s
    }
}

pub open spec fn spec_trim_back(s: Seq<char>) -> Seq<char>
    decreases s.len(),
{
    if s.len() > 0 && spec_is_space(s[s.len() - 1]) {
        spec_trim_back(s.take(s.len() - 1))
    } else {
        s
    }
}

/// The string with leading and trailing ASCII whitespace removed.
pub open spec fn spec_trim(s: Seq<char>) -> Seq<char> {
    spec_trim_back(spec_trim_front(s))
}

fn is_space(c: char) -> (r: bool)
    ensures
        r == spec_is_space(c),
{
    c == ' ' || c == '\t' || c == '\n' || c == '\r'
}

/// Remove leading and trailing ASCII whitespace.
pub fn trim_chars(v: &Vec<char>) -> (r: Vec<char>)
    ensures
        r@ == spec_trim(v@),
{
    let mut start: usize = 0;
    proof {
        assert(v@.skip(0) =~= v@);
    }
    while start < v.len() && is_space(v[start])
        invariant
            start <= v.len(),
            spec_trim_front(v@) == spec_trim_front(v@.skip(start as int)),
        decreases v.len() - start,
    {
        assert(v@.skip(start as int).skip(1) =~= v@.skip(start as int + 1));
        start = start + 1;
    }
    let ghost t = v@.skip(start as int);
    proof {
        assert(spec_trim_front(v@) == t);
    }
    let mut end: usize = v.len();
    proof {
        assert(t.take(end - start as int) =~= t);
    }
    while end > start && is_space(v[end - 1])
        invariant
            start <= end <= v.len(),
            t == v@.skip(start as int),
            spec_trim_back(t) == spec_trim_back(t.take(end - start as int)),
        decreases end,
    {
        proof {
            assert(t.take(end - start as int).last() == v@[end - 1]);
            assert(t.take(end - start as int).take(end - start as int - 1) =~= t.take(
                end - 1 - start as int,
            ));
        }
        end = end - 1;
    }
    let mut out: Vec<char> = Vec::new();
    let mut i: usize = start;
    while i < end
        invariant
            start <= i <= end <= v.len(),
            out@ == v@.subrange(start as int, i as int),
        decreases end - i,
    {
        out.push(v[i]);
        i = i + 1;
        assert(out@ =~= v@.subrange(start as int, i as int));
    }
    proof {
        assert(out@ =~= t.take(end - start as int));
        if end > start {
            assert(!spec_is_space(t.take(end - start as int).last()));
        }
        assert(spec_trim_back(t.take(end - start as int)) == t.take(end - start as int));
    }
    out
}

/// Index of the first occurrence of `c`, if any.
pub open spec fn spec_find(s: Seq<char>, c: char) -> Option<int>
    decreases s.len(),
{
    if s.len() == 0 {
        None
    } else if s[0] == c {
        Some(0int)
    } else {
        match spec_find(s.skip(1), c) {
            Some(i) => Some(i + 1),
            None => None,
        }
    }
}

proof fn lemma_find_characterization(s: Seq<char>, c: char)
    ensures
        match spec_find(s, c) {
            Some(i) => 0 <= i < s.len() && s[i] == c && forall|j: int|
                0 <= j < i ==> s[j] != c,
            None => forall|j: int| 0 <= j < s.len() ==> s[j] != c,
        },
    decreases s.len(),
{
    if s.len() > 0 && s[0] != c {
        lemma_find_characterization(s.skip(1), c);
        match spec_find(s.skip(1), c) {
            Some(i) => {
                assert(s.skip(1)[i] == s[i + 1]);
                assert forall|j: int| 0 <= j < i + 1 implies s[j] != c by {
                    if j > 0 {
                        assert(s.skip(1)[j - 1] == s[j]);
                    }
                }
            },
            None => {
                assert forall|j: int| 0 <= j < s.len() implies s[j] != c by {
                    if j > 0 {
                        assert(s.skip(1)[j - 1] == s[j]);
                    }
                }
            },
        }
    }
}

/// Find the first occurrence of `c` in `v`.
pub fn find_char(v: &Vec<char>, c: char) -> (r: Option<usize>)
    ensures
        match r {
            Some(i) => spec_find(v@, c) == Some(i as int),
            None => spec_find(v@, c) == None::<int>,
        },
{
    proof {
        lemma_find_characterization(v@, c);
    }
    let mut i: usize = 0;
    while i < v.len()
        invariant
            i <= v.len(),
            forall|j: int| 0 <= j < i ==> v@[j] != c,
            match spec_find(v@, c) {
                Some(k) => 0 <= k < v@.len() && v@[k] == c && forall|j: int|
                    0 <= j < k ==> v@[j] != c,
                None => forall|j: int| 0 <= j < v@.len() ==> v@[j] != c,
            },
        decreases v.len() - i,
    {
        if v[i] == c {
            return Some(i);
        }
        i = i + 1;
    }
    None
}

/// Whether `c` occurs in `s`.
pub open spec fn spec_contains_char(s: Seq<char>, c: char) -> bool {
    spec_find(s, c) is Some
}

pub fn contains_char(v: &Vec<char>, c: char) -> (r: bool)
    ensures
        r == spec_contains_char(v@, c),
{
    find_char(v, c).is_some()
}

/// Split at every occurrence of `sep`; `n` separators yield `n + 1` parts.
pub open spec fn spec_split(s: Seq<char>, sep: char) -> Seq<Seq<char>>
    decreases s.len(),
{
    if s.len() == 0 {
        seq![Seq::<char>::empty()]
    } else {
        let rest = spec_split(s.skip(1), sep);
        if s[0] == sep {
            seq![Seq::<char>::empty()] + rest
        } else {
            seq![seq![s[0]] + rest[0]] + rest.skip(1)
        }
    }
}

proof fn lemma_split_len(s: Seq<char>, sep: char)
    ensures
        spec_split(s, sep).len() >= 1,
    decreases s.len(),
{
    if s.len() > 0 {
        lemma_split_len(s.skip(1), sep);
    }
}

/// Split `v` at every occurrence of `sep`.
pub fn split_char(v: &Vec<char>, sep: char) -> (r: Vec<Vec<char>>)
    ensures
        r.deep_view() == spec_split(v@, sep),
        r.len() >= 1,
{
    let mut parts: Vec<Vec<char>> = Vec::new();
    let empty: Vec<char> = Vec::new();
    parts.push(empty);
    proof {
        assert(parts.deep_view() =~~= spec_split(v@.skip(v@.len() as int), sep));
    }
    let mut i: usize = v.len();
    while i > 0
        invariant
            i <= v.len(),
            parts.deep_view() == spec_split(v@.skip(i as int), sep),
            parts.len() >= 1,
        decreases i,
    {
        let ghost rest = parts.deep_view();
        i = i - 1;
        let c = v[i];
        if c == sep {
            let empty2: Vec<char> = Vec::new();
            parts.insert(0, empty2);
            proof {
                assert(parts.deep_view() =~~= seq![Seq::<char>::empty()] + rest);
            }
        } else {
            let first: Vec<char> = parts.remove(0);
            let ghost prev = first@;
            let mut head: Vec<char> = Vec::new();
            head.push(c);
            let mut k: usize = 0;
            while k < first.len()
                invariant
                    k <= first@.len(),
                    head@ == seq![c] + first@.take(k as int),
                decreases first@.len() - k,
            {
                let ch = first[k];
                head.push(ch);
                k = k + 1;
                assert(head@ =~= seq![c] + first@.take(k as int));
            }
            assert(head@ =~= seq![c] + prev);
            parts.insert(0, head);
            proof {
                assert(prev == rest[0]);
                assert(parts.deep_view() =~~= seq![seq![c] + rest[0]] + rest.skip(1));
            }
        }
        proof {
            assert(v@.skip(i as int).skip(1) =~= v@.skip(i as int + 1));
            assert(v@.skip(i as int)[0] == v@[i as int]);
        }
    }
    proof {
        assert(v@.skip(0) =~= v@);
    }
    parts
}

/// Numeric value of a decimal digit sequence.
pub open spec fn spec_digits_val(s: Seq<char>) -> nat
    decreases s.len(),
{
    if s.len() == 0 {
        0
    } else {
        spec_digits_val(s.take(s.len() - 1)) * 10 + spec_digit_val(s.last())
    }
}

pub open spec fn spec_is_digit(c: char) -> bool {
    '0' <= c && c <= '9'
}

pub open spec fn spec_digit_val(c: char) -> nat {
    if spec_is_digit(c) {
        (c as nat - '0' as nat) as nat
    } else {
        0
    }
}

/// Whether every character is a decimal digit.
pub open spec fn spec_all_digits(s: Seq<char>) -> bool {
    forall|i: int| 0 <= i < s.len() ==> spec_is_digit(#[trigger] s[i])
}

/// A decimal port number as `u16::from_str` reads it: an optional leading
/// `+`, then one or more digits, value at most 65535.
pub open spec fn spec_parse_u16(s: Seq<char>) -> Option<u16> {
    let body = if s.len() > 0 && s[0] == '+' {
        s.skip(1)
    } else {
        s
    };
    if body.len() > 0 && spec_all_digits(body) && spec_digits_val(body) <= 65535 {
        Some(spec_digits_val(body) as u16)
    } else {
        None
    }
}

proof fn lemma_digits_val_grows(s: Seq<char>, i: int)
    requires
        0 <= i <= s.len(),
    ensures
        spec_digits_val(s.take(i)) <= spec_digits_val(s),
    decreases s.len() - i,
{
    if i < s.len() {
        lemma_digits_val_grows(s, i + 1);
        assert(s.take(i + 1).take(i) =~= s.take(i));
        assert(spec_digits_val(s.take(i + 1)) == spec_digits_val(s.take(i)) * 10
            + spec_digit_val(s.take(i + 1).last()));
    } else {
        assert(s.take(i) =~= s);
    }
}

/// Parse a decimal `u16` from characters, as `str::parse::<u16>` does for
/// inputs without a minus sign.
pub fn parse_u16_chars(v: &Vec<char>) -> (r: Option<u16>)
    ensures
        r == spec_parse_u16(v@),
{
    let start: usize = if v.len() > 0 && v[0] == '+' {
        1
    } else {
        0
    };
    let ghost body = if v@.len() > 0 && v@[0] == '+' {
        v@.skip(1)
    } else {
        v@
    };
    proof {
        assert(v@.skip(0) =~= v@);
        assert(body == v@.skip(start as int));
    }
    if v.len() == start {
        assert(body.len() == 0);
        return None;
    }
    let mut val: u32 = 0;
    let mut i: usize = start;
    while i < v.len()
        invariant
            start <= i <= v.len(),
            body == v@.skip(start as int),
            body == (if v@.len() > 0 && v@[0] == '+' {
                v@.skip(1)
            } else {
                v@
            }),
            val == spec_digits_val(body.take(i - start as int)),
            val <= 65535,
            forall|j: int| 0 <= j < i - start ==> spec_is_digit(body[j]),
        decreases v.len() - i,
    {
        let c = v[i];
        if !('0' <= c && c <= '9') {
            proof {
                assert(!spec_is_digit(body[i - start as int]));
                assert(!spec_all_digits(body));
            }
            return None;
        }
        let d: u32 = (c as u32) - ('0' as u32);
        assert(d == spec_digit_val(c));
        let next: u32 = val * 10 + d;
        i = i + 1;
        assert(body.take(i - start as int).take(i - 1 - start as int) =~= body.take(
            i - 1 - start as int,
        ));
        assert(body.take(i - start as int).last() == c);
        if next > 65535 {
            proof {
                lemma_digits_val_grows(body, i - start as int);
            }
            return None;
        }
        val = next;
    }
    assert(body.take(v@.len() - start as int) =~= body);
    Some(val as u16)
}

/// The decimal representation of `n`, most significant digit first.
pub open spec fn spec_decimal(n: nat) -> Seq<char>
    decreases n,
{
    if n < 10 {
        seq![spec_digit_char(n % 10)]
    } else {
        spec_decimal(n / 10) + seq![spec_digit_char(n % 10)]
    }
}

pub open spec fn spec_digit_char(d: nat) -> char {
    (0x30 + (d % 10)) as u8 as char
}

fn push_decimal(s: &mut String, n: u64)
    ensures
        final(s)@ == old(s)@ + spec_decimal(n as nat),
    decreases n,
{
    if n >= 10 {
        push_decimal(s, n / 10);
    }
    let d: u8 = 0x30 + (n % 10) as u8;
    push_char(s, d as char);
    assert(d as char == spec_digit_char(n as nat % 10));
    assert(final(s)@ =~= old(s)@ + spec_decimal(n as nat));
}

/// Format `n` in decimal.
pub fn decimal_string(n: u64) -> (r: String)
    ensures
        r@ == spec_decimal(n as nat),
{
    let mut out = String::new();
    push_decimal(&mut out, n);
    assert(out@ =~= spec_decimal(n as nat));
    out
}

/// Whether `needle` occurs as a contiguous run inside `hay`.
pub open spec fn spec_contains_seq(hay: Seq<char>, needle: Seq<char>) -> bool {
    exists|i: int|
        0 <= i <= hay.len() - needle.len() && #[trigger] hay.subrange(i, i + needle.len())
            == needle
}

fn eq_from(hay: &Vec<char>, needle: &Vec<char>, at: usize) -> (r: bool)
    requires
        at + needle@.len() <= hay@.len(),
    ensures
        r == (hay@.subrange(at as int, at + needle@.len()) == needle@),
{
    let hay_len: usize = hay.len();
    let mut k: usize = 0;
    while k < needle.len()
        invariant
            k <= needle@.len(),
            at + needle@.len() <= hay@.len(),
            hay@.len() == hay_len,
            forall|j: int| 0 <= j < k ==> hay@[at + j] == needle@[j],
        decreases needle@.len() - k,
    {
        if hay[at + k] != needle[k] {
            assert(hay@.subrange(at as int, at + needle@.len())[k as int] != needle@[k as int]);
            return false;
        }
        k = k + 1;
    }
    assert(hay@.subrange(at as int, at + needle@.len()) =~= needle@);
    true
}

/// Substring search.
pub fn contains_seq(hay: &Vec<char>, needle: &Vec<char>) -> (r: bool)
    ensures
        r == spec_contains_seq(hay@, needle@),
{
    let hay_len: usize = hay.len();
    if needle.len() > hay_len {
        assert(!spec_contains_seq(hay@, needle@));
        return false;
    }
    if needle.len() == 0 {
        proof {
            assert(hay@.subrange(0, 0 + needle@.len() as int) =~= needle@);
        }
        return true;
    }
    let limit: usize = hay_len - needle.len();
    let mut i: usize = 0;
    while i <= limit
        invariant
            1 <= needle@.len() <= hay@.len(),
            hay@.len() == hay_len,
            limit == hay@.len() - needle@.len(),
            i <= limit + 1,
            forall|j: int|
                0 <= j < i ==> #[trigger] hay@.subrange(j, j + needle@.len()) != needle@,
        decreases limit + 1 - i,
    {
        if eq_from(hay, needle, i) {
            return true;
        }
        i = i + 1;
    }
    false
}

/// Whether `p` is a prefix of `s`.
pub open spec fn spec_starts_with(s: Seq<char>, p: Seq<char>) -> bool {
    s.len() >= p.len() && s.take(p.len() as int) == p
}

pub fn starts_with_chars(v: &Vec<char>, p: &Vec<char>) -> (r: bool)
    ensures
        r == spec_starts_with(v@, p@),
{
    if p.len() > v.len() {
        return false;
    }
    eq_from(v, p, 0)
}

/// Copy a character vector.
pub fn clone_chars(v: &Vec<char>) -> (r: Vec<char>)
    ensures
        r@ == v@,
{
    let mut out: Vec<char> = Vec::new();
    let mut i: usize = 0;
    while i < v.len()
        invariant
            i <= v.len(),
            out@ == v@.take(i as int),
        decreases v.len() - i,
    {
        out.push(v[i]);
        i = i + 1;
        assert(out@ =~= v@.take(i as int));
    }
    assert(out@ =~= v@);
    out
}

/// The characters from position `n` on.
pub fn skip_chars(v: &Vec<char>, n: usize) -> (r: Vec<char>)
    requires
        n <= v@.len(),
    ensures
        r@ == v@.skip(n as int),
{
    let mut out: Vec<char> = Vec::new();
    let mut i: usize = n;
    while i < v.len()
        invariant
            n <= i <= v.len(),
            out@ == v@.subrange(n as int, i as int),
        decreases v.len() - i,
    {
        out.push(v[i]);
        i = i + 1;
        assert(out@ =~= v@.subrange(n as int, i as int));
    }
    assert(out@ =~= v@.skip(n as int));
    out
}


/// Whether `p` is a suffix of `s`.
pub open spec fn spec_ends_with(s: Seq<char>, p: Seq<char>) -> bool {
    s.len() >= p.len() && s.skip(s.len() - p.len()) == p
}

pub fn ends_with_chars(v: &Vec<char>, p: &Vec<char>) -> (r: bool)
    ensures
        r == spec_ends_with(v@, p@),
{
    if p.len() > v.len() {
        return false;
    }
    let at: usize = v.len() - p.len();
    let r = eq_from(v, p, at);
    proof {
        assert(v@.subrange(at as int, at + p@.len()) =~= v@.skip(at as int));
    }
    r
}

} // verus!
