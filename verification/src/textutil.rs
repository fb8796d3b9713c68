//! Verified text helpers shared by the variable-interpolation context and the
//! keyword-fallback response parser: conversion between strings and character
//! vectors, substring search (exact and ASCII-case-insensitive), first-line
//! extraction, and decimal rendering of integers.

use vstd::prelude::*;

verus! {

/// Relies on str::chars / Iterator::collect: the characters of the string, in
/// order, as a vector.
#[verifier::external_body]
pub fn str_chars(s: &str) -> (r: Vec<char>)
    ensures
        r@ == s@,
{
    s.chars().collect()
}

/// Relies on String::from_iter over chars: builds the string whose characters
/// are exactly the vector's.
#[verifier::external_body]
pub fn chars_to_string(v: &Vec<char>) -> (r: String)
    ensures
        r@ == v@,
{
    v.iter().collect()
}

/// Relies on str's PartialEq: equality of the two character sequences.
#[verifier::external_body]
pub fn str_eq(a: &str, b: &str) -> (r: bool)
    ensures
        r == (a@ == b@),
{
    a == b
}

/// Two characters are equal up to ASCII case.
pub open spec fn char_eq_ci(a: char, b: char) -> bool {
    ||| a == b
    ||| ('a' <= a && a <= 'z' && a as int - 32 == b as int)
    ||| ('a' <= b && b <= 'z' && b as int - 32 == a as int)
}

/// The needle matches the haystack at offset `i`, character by character,
/// ignoring ASCII case.
pub open spec fn matches_ci_at(h: Seq<char>, n: Seq<char>, i: int) -> bool {
    &&& 0 <= i
    &&& i + n.len() <= h.len()
    &&& forall|j: int| 0 <= j < n.len() ==> char_eq_ci(h[i + j], n[j])
}

/// The haystack contains the needle, ignoring ASCII case.
pub open spec fn contains_ci(h: Seq<char>, n: Seq<char>) -> bool {
    exists|i: int| matches_ci_at(h, n, i)
}

/// The needle matches the haystack at offset `i` exactly.
pub open spec fn matches_at(h: Seq<char>, n: Seq<char>, i: int) -> bool {
    &&& 0 <= i
    &&& i + n.len() <= h.len()
    &&& forall|j: int| 0 <= j < n.len() ==> h[i + j] == n[j]
}

/// The index of the first exact match of the needle in the haystack, if any.
pub open spec fn found_at(h: Seq<char>, n: Seq<char>, i: int) -> bool {
    matches_at(h, n, i) && forall|k: int| 0 <= k < i ==> !matches_at(h, n, k)
}

fn char_ci_eq(a: char, b: char) -> (r: bool)
    ensures
        r == char_eq_ci(a, b),
{
    let au = a as u32;
    let bu = b as u32;
    if a == b {
        true
    } else if a >= 'a' && a <= 'z' && au - 32 == bu {
        true
    } else if b >= 'a' && b <= 'z' && bu - 32 == au {
        true
    } else {
        false
    }
}

/// Case-insensitive (ASCII) substring test.
pub fn find_ci(h: &Vec<char>, n: &Vec<char>) -> (r: bool)
    ensures
        r == contains_ci(h@, n@),
{
    if n.len() > h.len() {
        assert(forall|i: int| !matches_ci_at(h@, n@, i));
        return false;
    }
    let mut i: usize = 0;
    while i <= h.len() - n.len()
        invariant
            n.len() <= h.len(),
            i <= h.len() - n.len() + 1,
            forall|k: int| 0 <= k < i ==> !matches_ci_at(h@, n@, k),
        decreases h.len() - n.len() - i + 1,
    {
        let mut j: usize = 0;
        let mut ok = true;
        while j < n.len()
            invariant
                ok ==> forall|q: int| 0 <= q < j ==> char_eq_ci(h@[i + q], n@[q]),
                !ok ==> !matches_ci_at(h@, n@, i as int),
                n.len() <= h.len(),
                i <= h.len() - n.len(),
                j <= n.len(),
            decreases n.len() - j,
        {
            if ok && !char_ci_eq(h[i + j], n[j]) {
                assert(!matches_ci_at(h@, n@, i as int));
                ok = false;
            }
            j += 1;
        }
        if ok {
            assert(matches_ci_at(h@, n@, i as int));
            return true;
        }
        i += 1;
    }
    assert forall|k: int| !matches_ci_at(h@, n@, k) by {
        if 0 <= k && k < i {
        }
    }
    false
}

/// First index of an exact match of the needle, scanning left to right.
pub fn find_first(h: &Vec<char>, n: &Vec<char>) -> (r: Option<usize>)
    ensures
        match r {
            Some(i) => found_at(h@, n@, i as int),
            None => forall|k: int| !matches_at(h@, n@, k),
        },
{
    if n.len() > h.len() {
        assert(forall|i: int| !matches_at(h@, n@, i));
        return None;
    }
    let mut i: usize = 0;
    while i <= h.len() - n.len()
        invariant
            n.len() <= h.len(),
            i <= h.len() - n.len() + 1,
            forall|k: int| 0 <= k < i ==> !matches_at(h@, n@, k),
        decreases h.len() - n.len() - i + 1,
    {
        let mut j: usize = 0;
        let mut ok = true;
        while j < n.len()
            invariant
                ok ==> forall|q: int| 0 <= q < j ==> h@[i + q] == n@[q],
                !ok ==> !matches_at(h@, n@, i as int),
                n.len() <= h.len(),
                i <= h.len() - n.len(),
                j <= n.len(),
            decreases n.len() - j,
        {
            if ok && h[i + j] != n[j] {
                assert(!matches_at(h@, n@, i as int));
                ok = false;
            }
            j += 1;
        }
        if ok {
            assert(matches_at(h@, n@, i as int));
            return Some(i);
        }
        i += 1;
    }
    assert forall|k: int| !matches_at(h@, n@, k) by {
        if 0 <= k && k < i {
        }
    }
    None
}

/// The index of the first occurrence of `c`, or the length when absent.
pub open spec fn first_index_from(s: Seq<char>, c: char, from: int) -> int
    decreases s.len() - from,
{
    if from < 0 || from >= s.len() {
        s.len() as int
    } else if s[from] == c {
        from
    } else {
        first_index_from(s, c, from + 1)
    }
}

/// The first line of a text, as the `lines` iterator of std delimits it: the
/// prefix up to the first newline, with one trailing carriage return removed.
pub open spec fn first_line(s: Seq<char>) -> Seq<char> {
    let cut = s.take(first_index_from(s, '\n', 0));
    if cut.len() > 0 && cut.last() == '\r' {
        cut.drop_last()
    } else {
        cut
    }
}

/// Extract the first line of the characters from `from` on.
pub fn take_line(v: &Vec<char>, from: usize) -> (r: Vec<char>)
    requires
        from <= v@.len(),
    ensures
        r@ == first_line(v@.skip(from as int)),
{
    let ghost s = v@.skip(from as int);
    proof {
        lemma_first_index_bounds(s, '\n', 0);
    }
    let mut i: usize = from;
    while i < v.len() && v[i] != '\n'
        invariant
            from <= i <= v@.len(),
            s == v@.skip(from as int),
            forall|k: int| from <= k < i ==> v@[k] != '\n',
            first_index_from(s, '\n', 0) >= i - from,
        decreases v@.len() - i,
    {
        proof {
            lemma_first_index_step(s, '\n', i - from);
        }
        i += 1;
    }
    proof {
        if i < v@.len() {
            lemma_first_index_hit(s, '\n', i - from);
        } else {
            lemma_first_index_miss(s, '\n');
        }
    }
    let end = if i > from && v[i - 1] == '\r' {
        i - 1
    } else {
        i
    };
    let mut out: Vec<char> = Vec::new();
    let mut k: usize = from;
    while k < end
        invariant
            from <= k <= end <= v@.len(),
            out@ == v@.subrange(from as int, k as int),
        decreases end - k,
    {
        out.push(v[k]);
        k += 1;
    }
    proof {
        assert(out@ =~= first_line(s));
    }
    out
}

proof fn lemma_first_index_step(s: Seq<char>, c: char, i: int)
    requires
        0 <= i < s.len(),
        s[i] != c,
        first_index_from(s, c, 0) >= i,
    ensures
        first_index_from(s, c, 0) >= i + 1,
    decreases i,
{
    lemma_first_index_unfold(s, c, 0, i);
}

proof fn lemma_first_index_unfold(s: Seq<char>, c: char, from: int, i: int)
    requires
        0 <= from <= i < s.len(),
        s[i] != c,
        first_index_from(s, c, from) >= i,
    ensures
        first_index_from(s, c, from) >= i + 1,
    decreases i - from,
{
    if from < i {
        lemma_first_index_unfold(s, c, from + 1, i);
    } else {
        lemma_first_index_bounds(s, c, from + 1);
    }
}

proof fn lemma_first_index_bounds(s: Seq<char>, c: char, from: int)
    requires
        0 <= from <= s.len(),
    ensures
        from <= first_index_from(s, c, from) <= s.len(),
    decreases s.len() - from,
{
    if from < s.len() && s[from] != c {
        lemma_first_index_bounds(s, c, from + 1);
    }
}

proof fn lemma_first_index_hit(s: Seq<char>, c: char, i: int)
    requires
        0 <= i < s.len(),
        s[i] == c,
        first_index_from(s, c, 0) >= i,
    ensures
        first_index_from(s, c, 0) == i,
    decreases i,
{
    lemma_first_index_hit_from(s, c, 0, i);
}

proof fn lemma_first_index_hit_from(s: Seq<char>, c: char, from: int, i: int)
    requires
        0 <= from <= i < s.len(),
        s[i] == c,
        first_index_from(s, c, from) >= i,
    ensures
        first_index_from(s, c, from) == i,
    decreases i - from,
{
    if from < i {
        lemma_first_index_hit_from(s, c, from + 1, i);
    }
}

proof fn lemma_first_index_miss(s: Seq<char>, c: char)
    requires
        forall|k: int| 0 <= k < s.len() ==> s[k] != c,
    ensures
        first_index_from(s, c, 0) == s.len(),
{
    lemma_first_index_miss_from(s, c, 0);
}

proof fn lemma_first_index_miss_from(s: Seq<char>, c: char, from: int)
    requires
        0 <= from,
        forall|k: int| from <= k < s.len() ==> s[k] != c,
    ensures
        first_index_from(s, c, from) == s.len(),
    decreases s.len() - from,
{
    if from < s.len() {
        lemma_first_index_miss_from(s, c, from + 1);
    }
}

/// A character of the Unicode White_Space set, as std's `trim` removes.
pub open spec fn is_white(c: char) -> bool {
    ||| c == '\t' || c == '\n' || c == '\u{B}' || c == '\u{C}' || c == '\r' || c == ' '
    ||| c == '\u{85}' || c == '\u{A0}' || c == '\u{1680}'
    ||| ('\u{2000}' <= c && c <= '\u{200A}')
    ||| c == '\u{2028}' || c == '\u{2029}' || c == '\u{202F}' || c == '\u{205F}'
    ||| c == '\u{3000}'
}

/// Whether `trim` removes this character.
pub fn is_white_char(c: char) -> (r: bool)
    ensures
        r == is_white(c),
{
    c == '\t' || c == '\n' || c == '\u{B}' || c == '\u{C}' || c == '\r' || c == ' '
        || c == '\u{85}' || c == '\u{A0}' || c == '\u{1680}'
        || (c >= '\u{2000}' && c <= '\u{200A}')
        || c == '\u{2028}' || c == '\u{2029}' || c == '\u{202F}' || c == '\u{205F}'
        || c == '\u{3000}'
}

/// The first index in `[from, to)` holding a non-whitespace character, or `to`.
pub open spec fn white_start(s: Seq<char>, from: int, to: int) -> int
    decreases to - from,
{
    if from < to && 0 <= from < s.len() && is_white(s[from]) {
        white_start(s, from + 1, to)
    } else {
        from
    }
}

/// The end (exclusive) of the last non-whitespace character in `[from, to)`,
/// or `from` when all of it is whitespace.
pub open spec fn white_end(s: Seq<char>, from: int, to: int) -> int
    decreases to - from,
{
    if to > from && 0 < to <= s.len() && is_white(s[to - 1]) {
        white_end(s, from, to - 1)
    } else {
        to
    }
}

/// A window `[a, b)` of `v` with surrounding whitespace removed, as `trim`
/// delimits it.
pub open spec fn trimmed(s: Seq<char>, from: int, to: int) -> Seq<char> {
    let a = white_start(s, from, to);
    let b = white_end(s, a, to);
    s.subrange(a, b)
}

/// Copy the window `[from, to)` of `v` with surrounding whitespace removed.
pub fn trim_window(v: &Vec<char>, from: usize, to: usize) -> (r: Vec<char>)
    requires
        from <= to <= v@.len(),
    ensures
        r@ == trimmed(v@, from as int, to as int),
{
    let mut a: usize = from;
    while a < to && is_white_char(v[a])
        invariant
            from <= a <= to <= v@.len(),
            white_start(v@, from as int, to as int) == white_start(v@, a as int, to as int),
        decreases to - a,
    {
        a += 1;
    }
    let mut b: usize = to;
    while b > a && is_white_char(v[b - 1])
        invariant
            a <= b <= to <= v@.len(),
            white_end(v@, a as int, to as int) == white_end(v@, a as int, b as int),
        decreases b,
    {
        b -= 1;
    }
    let mut out: Vec<char> = Vec::new();
    let mut k: usize = a;
    while k < b
        invariant
            a <= k <= b <= v@.len(),
            out@ == v@.subrange(a as int, k as int),
        decreases b - k,
    {
        out.push(v[k]);
        k += 1;
    }
    proof {
        assert(out@ =~= trimmed(v@, from as int, to as int));
    }
    out
}

/// The decimal digits of `n`, most significant first.
pub open spec fn dec_digits(n: nat) -> Seq<char>
    decreases n,
{
    if n < 10 {
        seq![digit_char(n as int)]
    } else {
        dec_digits(n / 10) + seq![digit_char((n % 10) as int)]
    }
}

/// The character for one decimal digit.
pub open spec fn digit_char(d: int) -> char {
    if d == 0 {
        '0'
    } else if d == 1 {
        '1'
    } else if d == 2 {
        '2'
    } else if d == 3 {
        '3'
    } else if d == 4 {
        '4'
    } else if d == 5 {
        '5'
    } else if d == 6 {
        '6'
    } else if d == 7 {
        '7'
    } else if d == 8 {
        '8'
    } else {
        '9'
    }
}

fn digit_to_char(d: u64) -> (r: char)
    requires
        d < 10,
    ensures
        r == digit_char(d as int),
{
    match d {
        0 => '0',
        1 => '1',
        2 => '2',
        3 => '3',
        4 => '4',
        5 => '5',
        6 => '6',
        7 => '7',
        8 => '8',
        _ => '9',
    }
}

/// Append the decimal rendering of `n` to `out`.
pub fn push_decimal(n: u64, out: &mut Vec<char>)
    ensures
        final(out)@ == old(out)@ + dec_digits(n as nat),
    decreases n,
{
    if n < 10 {
        out.push(digit_to_char(n));
    } else {
        push_decimal(n / 10, out);
        out.push(digit_to_char(n % 10));
    }
}

/// The decimal rendering of `n` as a string.
pub fn decimal_string(n: u64) -> (r: String)
    ensures
        r@ == dec_digits(n as nat),
{
    let mut v: Vec<char> = Vec::new();
    push_decimal(n, &mut v);
    chars_to_string(&v)
}

} // verus!
