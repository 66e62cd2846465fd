//! Text as sequences of characters: conversion from strings, comparison,
//! white space, trimming and words.

use vstd::prelude::*;
use vstd::utf8::encode_utf8;
use crate::seqs::{
    before, find_byte, first_where, lemma_first_where, lemma_first_where_unique, same_bytes, views,
};

verus! {

/// The characters of `s`, in order.
pub fn to_chars(s: &str) -> (chars: Vec<char>)
    ensures
        chars@ == s@,
{
    let mut chars: Vec<char> = Vec::new();
    for c in it: s.chars()
        invariant
            chars@ == it.seq().take(it.index() as int),
            it.seq() == s@,
    {
        chars.push(c);
    }
    chars
}

/// Whether two strings hold the same characters.
pub fn same_text(a: &str, b: &str) -> (same: bool)
    ensures
        same == (a@ == b@),
{
    let same = same_bytes(a.as_bytes(), b.as_bytes());
    proof {
        vstd::utf8::encode_utf8_decode_utf8(a@);
        vstd::utf8::encode_utf8_decode_utf8(b@);
    }
    same
}

/// The byte that ends a line.
pub const NEWLINE: u8 = 10;

/// The byte of the colon.
pub const COLON: u8 = 58;

/// The byte of the semicolon.
pub const SEMICOLON: u8 = 59;

/// The byte of the equals sign.
pub const EQUALS: u8 = 61;

/// Whether `bytes` spell `word`: whether they are the bytes that write it in
/// UTF-8.
pub fn spells(bytes: &[u8], word: &str) -> (same: bool)
    ensures
        same == (bytes@ == encode_utf8(word@)),
{
    same_bytes(bytes, word.as_bytes())
}

/// Whether what stands before the first `sep` of `line` spells `key`. A line
/// without `sep` is keyed by what it spells as a whole.
pub open spec fn keyed(line: Seq<u8>, sep: u8, key: Seq<char>) -> bool {
    before(line, sep) == encode_utf8(key)
}

/// The index of the first of `lines` that is keyed by `key`, or their number
/// when none is.
pub open spec fn keyed_row(lines: Seq<Seq<u8>>, sep: u8, key: Seq<char>) -> int {
    first_where(lines, |line: Seq<u8>| keyed(line, sep, key))
}

/// Finds the first of `lines` that is keyed by `key`.
pub fn find_keyed_row(lines: &Vec<&[u8]>, sep: u8, key: &str) -> (row: usize)
    ensures
        row == keyed_row(views(lines@), sep, key@),
        row <= lines.len(),
        row < lines.len() ==> keyed(lines@[row as int]@, sep, key@),
{
    let mut row: usize = 0;
    while row < lines.len()
        invariant
            row <= lines.len(),
            forall|j: int| 0 <= j < row ==> !keyed(#[trigger] views(lines@)[j], sep, key@),
        decreases lines.len() - row,
    {
        let line = lines[row];
        assert(views(lines@)[row as int] == line@);
        let cut = find_byte(line, sep);
        if spells(vstd::slice::slice_subrange(line, 0, cut), key) {
            proof {
                lemma_first_where_unique(
                    views(lines@),
                    |line: Seq<u8>| keyed(line, sep, key@),
                    row as int,
                );
            }
            return row;
        }
        row += 1;
    }
    proof {
        lemma_first_where_unique(
            views(lines@),
            |line: Seq<u8>| keyed(line, sep, key@),
            row as int,
        );
    }
    row
}

/// The texts `parts` in a row, with `sep` between each two.
pub open spec fn joined(parts: Seq<Seq<char>>, sep: Seq<char>) -> Seq<char>
    decreases parts.len(),
{
    if parts.len() == 0 {
        Seq::empty()
    } else if parts.len() == 1 {
        parts[0]
    } else {
        joined(parts.drop_last(), sep) + sep + parts.last()
    }
}

/// Writes the strings `parts` in a row, with `sep` between each two.
pub fn join_all(parts: &[String], sep: &str) -> (s: String)
    ensures
        s@ == joined(texts(parts@), sep@),
{
    let mut s = String::new();
    let mut i: usize = 0;
    while i < parts.len()
        invariant
            i <= parts.len(),
            s@ == joined(texts(parts@).take(i as int), sep@),
        decreases parts.len() - i,
    {
        proof {
            let upto = texts(parts@).take(i + 1);
            assert(upto.drop_last() == texts(parts@).take(i as int));
            assert(upto.last() == parts@[i as int]@);
        }
        if i > 0 {
            s.append(sep);
        }
        s.append(parts[i].as_str());
        proof {
            if i == 0 {
                assert(s@ == parts@[0]@);
            }
        }
        i += 1;
    }
    proof {
        assert(texts(parts@).take(i as int) == texts(parts@));
    }
    s
}

/// The text of an optional string.
pub open spec fn string_view(s: Option<String>) -> Option<Seq<char>> {
    match s {
        Some(s) => Some(s@),
        None => None,
    }
}

/// The text of an optional string slice.
pub open spec fn text_view(s: Option<&str>) -> Option<Seq<char>> {
    match s {
        Some(s) => Some(s@),
        None => None,
    }
}

/// The texts that the strings of `v` hold.
pub open spec fn texts(v: Seq<String>) -> Seq<Seq<char>> {
    v.map_values(|s: String| s@)
}

/// `a` followed by `b`.
pub fn join2(a: &str, b: &str) -> (s: String)
    ensures
        s@ == a@ + b@,
{
    let mut s = String::from_str(a);
    s.append(b);
    s
}

/// `a`, `b` and `c` in a row.
pub fn join3(a: &str, b: &str, c: &str) -> (s: String)
    ensures
        s@ == a@ + b@ + c@,
{
    let mut s = String::from_str(a);
    s.append(b);
    s.append(c);
    s
}

/// `a`, `b`, `c`, `d` and `e` in a row.
pub fn join5(a: &str, b: &str, c: &str, d: &str, e: &str) -> (s: String)
    ensures
        s@ == a@ + b@ + c@ + d@ + e@,
{
    let mut s = String::from_str(a);
    s.append(b);
    s.append(c);
    s.append(d);
    s.append(e);
    s
}

/// Whether `c` is white space: a character with the Unicode property
/// `White_Space`.
pub open spec fn is_whitespace(c: char) -> bool {
    let u = c as u32;
    ||| 0x09 <= u <= 0x0D
    ||| u == 0x20
    ||| u == 0x85
    ||| u == 0xA0
    ||| u == 0x1680
    ||| 0x2000 <= u <= 0x200A
    ||| u == 0x2028
    ||| u == 0x2029
    ||| u == 0x202F
    ||| u == 0x205F
    ||| u == 0x3000
}

/// Tells whether `c` is white space.
pub fn whitespace(c: char) -> (white: bool)
    ensures
        white == is_whitespace(c),
{
    let u: u32 = c as u32;
    (0x09 <= u && u <= 0x0D) || u == 0x20 || u == 0x85 || u == 0xA0 || u == 0x1680 || (0x2000 <= u
        && u <= 0x200A) || u == 0x2028 || u == 0x2029 || u == 0x202F || u == 0x205F || u == 0x3000
}

/// The number of white-space characters at the start of `s`.
pub open spec fn leading_whitespace(s: Seq<char>) -> int {
    first_where(s, |c: char| !is_whitespace(c))
}

/// `s` without the white space at its start.
pub open spec fn trim_start(s: Seq<char>) -> Seq<char> {
    s.skip(leading_whitespace(s))
}

/// The length of `s` without the white space at its end.
pub open spec fn trimmed_len(s: Seq<char>) -> int
    decreases s.len(),
{
    if s.len() > 0 && is_whitespace(s.last()) {
        trimmed_len(s.drop_last())
    } else {
        s.len() as int
    }
}

/// `s` without the white space at its end.
pub open spec fn trim_end(s: Seq<char>) -> Seq<char> {
    s.take(trimmed_len(s))
}

/// `trimmed_len` cuts off white space only, and all of it.
pub proof fn lemma_trimmed_len(s: Seq<char>)
    ensures
        0 <= trimmed_len(s) <= s.len(),
        forall|j: int| trimmed_len(s) <= j < s.len() ==> is_whitespace(s[j]),
        trimmed_len(s) > 0 ==> !is_whitespace(s[trimmed_len(s) - 1]),
    decreases s.len(),
{
    if s.len() > 0 && is_whitespace(s.last()) {
        let front = s.drop_last();
        lemma_trimmed_len(front);
        assert forall|j: int| trimmed_len(s) <= j < s.len() implies is_whitespace(s[j]) by {
            if j < front.len() {
                assert(s[j] == front[j]);
            }
        }
    }
}

/// A length after which all is white space, and which is zero or follows a
/// character that is not, is `trimmed_len`.
pub proof fn lemma_trimmed_len_unique(s: Seq<char>, n: int)
    requires
        0 <= n <= s.len(),
        forall|j: int| n <= j < s.len() ==> is_whitespace(s[j]),
        n > 0 ==> !is_whitespace(s[n - 1]),
    ensures
        trimmed_len(s) == n,
    decreases s.len(),
{
    if s.len() > 0 && is_whitespace(s.last()) {
        lemma_trimmed_len_unique(s.drop_last(), n);
    }
}

/// Counts the white-space characters at the start of `s`.
pub fn skip_whitespace(s: &[char]) -> (n: usize)
    ensures
        n == leading_whitespace(s@),
        n <= s.len(),
{
    let mut n: usize = 0;
    while n < s.len() && whitespace(s[n])
        invariant
            n <= s.len(),
            forall|j: int| 0 <= j < n ==> is_whitespace(s@[j]),
        decreases s.len() - n,
    {
        n += 1;
    }
    proof {
        lemma_first_where_unique(s@, |c: char| !is_whitespace(c), n as int);
    }
    n
}

/// Measures `s` without the white space at its end.
pub fn trimmed_length(s: &[char]) -> (n: usize)
    ensures
        n == trimmed_len(s@),
        n <= s.len(),
{
    let mut n: usize = s.len();
    while n > 0 && whitespace(s[n - 1])
        invariant
            n <= s.len(),
            forall|j: int| n <= j < s.len() ==> is_whitespace(s@[j]),
        decreases n,
    {
        n -= 1;
    }
    proof {
        lemma_trimmed_len_unique(s@, n as int);
    }
    n
}

/// Cuts the white space off the start of `s`.
pub fn trim_start_of<'a>(s: &'a [char]) -> (rest: &'a [char])
    ensures
        rest@ == trim_start(s@),
{
    let from = skip_whitespace(s);
    vstd::slice::slice_subrange(s, from, s.len())
}

/// Cuts the white space off the end of `s`.
pub fn trim_end_of<'a>(s: &'a [char]) -> (rest: &'a [char])
    ensures
        rest@ == trim_end(s@),
{
    let to = trimmed_length(s);
    vstd::slice::slice_subrange(s, 0, to)
}

/// `s` without the white space at its start and at its end.
pub open spec fn trim(s: Seq<char>) -> Seq<char> {
    trim_end(trim_start(s))
}

/// Cuts the white space off both ends of `s`.
pub fn trim_of<'a>(s: &'a [char]) -> (rest: &'a [char])
    ensures
        rest@ == trim(s@),
{
    trim_end_of(trim_start_of(s))
}

/// The length of the first word of `s`: the characters before the first
/// white space.
pub open spec fn word_len(s: Seq<char>) -> int {
    first_where(s, |c: char| is_whitespace(c))
}

/// The words of `s`: its maximal runs of characters that are not white space.
pub open spec fn words(s: Seq<char>) -> Seq<Seq<char>>
    decreases s.len(),
{
    if s.len() == 0 {
        Seq::empty()
    } else if is_whitespace(s[0]) {
        words(s.drop_first())
    } else {
        proof {
            lemma_first_where(s, |c: char| is_whitespace(c));
        }
        seq![s.take(word_len(s))] + words(s.skip(word_len(s)))
    }
}

/// Measures the first word of `s`.
pub fn word_length(s: &[char]) -> (n: usize)
    ensures
        n == word_len(s@),
        n <= s.len(),
{
    let mut n: usize = 0;
    while n < s.len() && !whitespace(s[n])
        invariant
            n <= s.len(),
            forall|j: int| 0 <= j < n ==> !is_whitespace(s@[j]),
        decreases s.len() - n,
    {
        n += 1;
    }
    proof {
        lemma_first_where_unique(s@, |c: char| is_whitespace(c), n as int);
    }
    n
}

/// Splits `s` into its words.
pub fn split_words<'a>(s: &'a [char]) -> (pieces: Vec<&'a [char]>)
    ensures
        views(pieces@) == words(s@),
{
    let mut pieces: Vec<&'a [char]> = Vec::new();
    let mut start: usize = 0;
    proof {
        assert(s@.skip(0) == s@);
        assert(views(pieces@) + words(s@) == words(s@));
    }
    while start < s.len()
        invariant
            start <= s.len(),
            views(pieces@) + words(s@.skip(start as int)) == words(s@),
        decreases s.len() - start,
    {
        let ghost rest = s@.skip(start as int);
        if whitespace(s[start]) {
            proof {
                assert(rest.drop_first() == s@.skip(start + 1));
            }
            start += 1;
        } else {
            let tail = &s[start..s.len()];
            let n = word_length(tail);
            let word = &tail[0..n];
            let ghost done = pieces@;
            pieces.push(word);
            proof {
                assert(tail@ == rest);
                lemma_first_where(rest, |c: char| is_whitespace(c));
                assert(views(pieces@) == views(done) + seq![word@]);
                assert(rest.skip(n as int) == s@.skip(start + n));
                assert(views(done) + (seq![word@] + words(rest.skip(n as int)))
                    == (views(done) + seq![word@]) + words(rest.skip(n as int)));
            }
            start = start + n;
        }
    }
    proof {
        assert(words(s@.skip(start as int)) == Seq::<Seq<char>>::empty());
        assert(views(pieces@) + Seq::<Seq<char>>::empty() == views(
            pieces@,
        ));
    }
    pieces
}

} // verus!
