//! Searching and splitting sequences: the vocabulary in which the parsers of
//! this crate are specified, and the executable routines that compute it on
//! byte and character slices.

use vstd::prelude::*;

verus! {

/// The index of the first occurrence of `x` in `s`, or `s.len()` when `x`
/// does not occur.
pub open spec fn position<T>(s: Seq<T>, x: T) -> int
    decreases s.len(),
{
    if s.len() == 0 || s[0] == x {
        0
    } else {
        1 + position(s.drop_first(), x)
    }
}

/// `position` is the least index that holds `x`, and is the length of the
/// sequence when no index does.
pub proof fn lemma_position<T>(s: Seq<T>, x: T)
    ensures
        0 <= position(s, x) <= s.len(),
        forall|j: int| 0 <= j < position(s, x) ==> s[j] != x,
        position(s, x) < s.len() ==> s[position(s, x)] == x,
    decreases s.len(),
{
    if s.len() == 0 || s[0] == x {
    } else {
        let rest = s.drop_first();
        lemma_position(rest, x);
        assert forall|j: int| 0 <= j < position(s, x) implies s[j] != x by {
            if j > 0 {
                assert(s[j] == rest[j - 1]);
            }
        }
    }
}

/// An index that holds `x`, or the length, below which `x` does not occur is
/// the `position` of `x`.
pub proof fn lemma_position_unique<T>(s: Seq<T>, x: T, i: int)
    requires
        0 <= i <= s.len(),
        forall|j: int| 0 <= j < i ==> s[j] != x,
        i < s.len() ==> s[i] == x,
    ensures
        position(s, x) == i,
{
    lemma_position(s, x);
    let p = position(s, x);
    if p < i {
        assert(s[p] != x);
    } else if i < p {
        assert(s[i] != x);
    }
}

/// Whether `x` occurs in `s`.
pub open spec fn occurs<T>(s: Seq<T>, x: T) -> bool {
    position(s, x) < s.len()
}

/// What stands before the first `x` in `s`: all of `s` when `x` does not occur.
pub open spec fn before<T>(s: Seq<T>, x: T) -> Seq<T> {
    s.take(position(s, x))
}

/// What stands after the first `x` in `s`: nothing when `x` does not occur.
pub open spec fn after<T>(s: Seq<T>, x: T) -> Seq<T> {
    if occurs(s, x) {
        s.skip(position(s, x) + 1)
    } else {
        Seq::empty()
    }
}

/// The pieces of `s` between occurrences of `sep`. There is always at least
/// one piece, and a separator at the very end is followed by an empty piece.
pub open spec fn split<T>(s: Seq<T>, sep: T) -> Seq<Seq<T>>
    decreases s.len(),
{
    if occurs(s, sep) {
        proof {
            lemma_position(s, sep);
        }
        seq![before(s, sep)] + split(after(s, sep), sep)
    } else {
        seq![s]
    }
}

/// Splitting gives at least one piece.
pub proof fn lemma_split_nonempty<T>(s: Seq<T>, sep: T)
    ensures
        split(s, sep).len() >= 1,
{
}

/// Whether `needle` occurs in `hay` at index `at`.
pub open spec fn occurs_at<T>(hay: Seq<T>, needle: Seq<T>, at: int) -> bool {
    &&& 0 <= at
    &&& at + needle.len() <= hay.len()
    &&& hay.subrange(at, at + needle.len()) == needle
}

/// Whether `needle` occurs somewhere in `hay` as a contiguous run.
pub open spec fn contains_run<T>(hay: Seq<T>, needle: Seq<T>) -> bool {
    exists|at: int| occurs_at(hay, needle, at)
}

/// The index of the first element of `s` that satisfies `pred`, or `s.len()`
/// when none does.
pub open spec fn first_where<T>(s: Seq<T>, pred: spec_fn(T) -> bool) -> int
    decreases s.len(),
{
    if s.len() == 0 || pred(s[0]) {
        0
    } else {
        1 + first_where(s.drop_first(), pred)
    }
}

/// `first_where` is the least index whose element satisfies the predicate.
pub proof fn lemma_first_where<T>(s: Seq<T>, pred: spec_fn(T) -> bool)
    ensures
        0 <= first_where(s, pred) <= s.len(),
        forall|j: int| 0 <= j < first_where(s, pred) ==> !pred(s[j]),
        first_where(s, pred) < s.len() ==> pred(s[first_where(s, pred)]),
    decreases s.len(),
{
    if s.len() == 0 || pred(s[0]) {
    } else {
        let rest = s.drop_first();
        lemma_first_where(rest, pred);
        assert forall|j: int| 0 <= j < first_where(s, pred) implies !pred(s[j]) by {
            if j > 0 {
                assert(s[j] == rest[j - 1]);
            }
        }
    }
}

/// An index below which no element satisfies the predicate, and which is the
/// length or holds an element that does, is `first_where`.
pub proof fn lemma_first_where_unique<T>(s: Seq<T>, pred: spec_fn(T) -> bool, i: int)
    requires
        0 <= i <= s.len(),
        forall|j: int| 0 <= j < i ==> !pred(s[j]),
        i < s.len() ==> pred(s[i]),
    ensures
        first_where(s, pred) == i,
{
    lemma_first_where(s, pred);
    let p = first_where(s, pred);
    if p < i {
        assert(!pred(s[p]));
    } else if i < p {
        assert(!pred(s[i]));
    }
}

/// Finds the first `x` in `s`.
pub fn find_byte(s: &[u8], x: u8) -> (i: usize)
    ensures
        i == position(s@, x),
        i <= s.len(),
{
    let mut i: usize = 0;
    while i < s.len() && s[i] != x
        invariant
            i <= s.len(),
            forall|j: int| 0 <= j < i ==> s@[j] != x,
        decreases s.len() - i,
    {
        i += 1;
    }
    proof {
        lemma_position_unique(s@, x, i as int);
    }
    i
}

/// Finds the first `x` in `s`.
pub fn find_char(s: &[char], x: char) -> (i: usize)
    ensures
        i == position(s@, x),
        i <= s.len(),
{
    let mut i: usize = 0;
    while i < s.len() && s[i] != x
        invariant
            i <= s.len(),
            forall|j: int| 0 <= j < i ==> s@[j] != x,
        decreases s.len() - i,
    {
        i += 1;
    }
    proof {
        lemma_position_unique(s@, x, i as int);
    }
    i
}

/// The sequences that the slices of `pieces` hold.
pub open spec fn views<T>(pieces: Seq<&[T]>) -> Seq<Seq<T>> {
    pieces.map_values(|piece: &[T]| piece@)
}

/// Splits `s` at every `sep`.
pub fn split_bytes<'a>(s: &'a [u8], sep: u8) -> (pieces: Vec<&'a [u8]>)
    ensures
        views(pieces@) == split(s@, sep),
{
    let mut pieces: Vec<&'a [u8]> = Vec::new();
    let mut start: usize = 0;
    proof {
        assert(s@.skip(0) == s@);
        assert(views(pieces@) + split(s@, sep) == split(s@, sep));
    }
    loop
        invariant_except_break
            start <= s.len(),
            views(pieces@) + split(s@.skip(start as int), sep) == split(s@, sep),
        ensures
            views(pieces@) == split(s@, sep),
        decreases s.len() - start,
    {
        let rest = &s[start..s.len()];
        let ghost done = pieces@;
        proof {
            assert(rest@ == s@.skip(start as int));
            lemma_position(rest@, sep);
        }
        let i = find_byte(rest, sep);
        if i == rest.len() {
            pieces.push(rest);
            proof {
                assert(views(pieces@) == views(done) + seq![rest@]);
            }
            break ;
        }
        let piece = &rest[0..i];
        pieces.push(piece);
        proof {
            assert(piece@ == before(rest@, sep));
            assert(views(pieces@) == views(done) + seq![piece@]);
            assert(s@.skip(start + i + 1) == after(rest@, sep));
            assert(views(done) + (seq![piece@] + split(after(rest@, sep), sep)) == (views(done)
                + seq![piece@]) + split(after(rest@, sep), sep));
        }
        start = start + i + 1;
    }
    pieces
}

/// Splits `s` at every `sep`.
pub fn split_chars<'a>(s: &'a [char], sep: char) -> (pieces: Vec<&'a [char]>)
    ensures
        views(pieces@) == split(s@, sep),
{
    let mut pieces: Vec<&'a [char]> = Vec::new();
    let mut start: usize = 0;
    proof {
        assert(s@.skip(0) == s@);
        assert(views(pieces@) + split(s@, sep) == split(s@, sep));
    }
    loop
        invariant_except_break
            start <= s.len(),
            views(pieces@) + split(s@.skip(start as int), sep) == split(s@, sep),
        ensures
            views(pieces@) == split(s@, sep),
        decreases s.len() - start,
    {
        let rest = &s[start..s.len()];
        let ghost done = pieces@;
        proof {
            assert(rest@ == s@.skip(start as int));
            lemma_position(rest@, sep);
        }
        let i = find_char(rest, sep);
        if i == rest.len() {
            pieces.push(rest);
            proof {
                assert(views(pieces@) == views(done) + seq![rest@]);
            }
            break ;
        }
        let piece = &rest[0..i];
        pieces.push(piece);
        proof {
            assert(piece@ == before(rest@, sep));
            assert(views(pieces@) == views(done) + seq![piece@]);
            assert(s@.skip(start + i + 1) == after(rest@, sep));
            assert(views(done) + (seq![piece@] + split(after(rest@, sep), sep)) == (views(done)
                + seq![piece@]) + split(after(rest@, sep), sep));
        }
        start = start + i + 1;
    }
    pieces
}

/// Whether two byte slices hold the same bytes.
pub fn same_bytes(a: &[u8], b: &[u8]) -> (same: bool)
    ensures
        same == (a@ == b@),
{
    if a.len() != b.len() {
        return false;
    }
    let mut i: usize = 0;
    while i < a.len()
        invariant
            i <= a.len(),
            a.len() == b.len(),
            a@.take(i as int) == b@.take(i as int),
        decreases a.len() - i,
    {
        if a[i] != b[i] {
            return false;
        }
        proof {
            assert(a@.take(i + 1) == a@.take(i as int).push(a@[i as int]));
            assert(b@.take(i + 1) == b@.take(i as int).push(b@[i as int]));
        }
        i += 1;
    }
    proof {
        assert(a@ == a@.take(i as int));
        assert(b@ == b@.take(i as int));
    }
    true
}

/// Whether two character slices hold the same characters.
pub fn same_chars(a: &[char], b: &[char]) -> (same: bool)
    ensures
        same == (a@ == b@),
{
    if a.len() != b.len() {
        return false;
    }
    let mut i: usize = 0;
    while i < a.len()
        invariant
            i <= a.len(),
            a.len() == b.len(),
            a@.take(i as int) == b@.take(i as int),
        decreases a.len() - i,
    {
        if a[i] != b[i] {
            return false;
        }
        proof {
            assert(a@.take(i + 1) == a@.take(i as int).push(a@[i as int]));
            assert(b@.take(i + 1) == b@.take(i as int).push(b@[i as int]));
        }
        i += 1;
    }
    proof {
        assert(a@ == a@.take(i as int));
        assert(b@ == b@.take(i as int));
    }
    true
}

/// Whether `s` starts with `prefix`.
pub fn chars_start_with(s: &[char], prefix: &[char]) -> (starts: bool)
    ensures
        starts == prefix@.is_prefix_of(s@),
{
    let n = prefix.len();
    n <= s.len() && same_chars(vstd::slice::slice_subrange(s, 0, n), prefix)
}

/// Whether `needle` occurs in `hay` as a contiguous run of bytes.
pub fn contains_bytes(hay: &[u8], needle: &[u8]) -> (found: bool)
    ensures
        found == contains_run(hay@, needle@),
{
    if needle.len() > hay.len() {
        return false;
    }
    let last: usize = hay.len() - needle.len();
    let mut at: usize = 0;
    loop
        invariant
            at <= last,
            last == hay.len() - needle.len(),
            forall|k: int| 0 <= k < at ==> !occurs_at(hay@, needle@, k),
        decreases last - at,
    {
        if same_bytes(&hay[at..at + needle.len()], needle) {
            proof {
                assert(occurs_at(hay@, needle@, at as int));
            }
            return true;
        }
        if at == last {
            return false;
        }
        at += 1;
    }
}

/// Whether `needle` occurs in `hay` as a contiguous run of characters.
pub fn contains_chars(hay: &[char], needle: &[char]) -> (found: bool)
    ensures
        found == contains_run(hay@, needle@),
{
    if needle.len() > hay.len() {
        return false;
    }
    let last: usize = hay.len() - needle.len();
    let mut at: usize = 0;
    loop
        invariant
            at <= last,
            last == hay.len() - needle.len(),
            forall|k: int| 0 <= k < at ==> !occurs_at(hay@, needle@, k),
        decreases last - at,
    {
        if same_chars(&hay[at..at + needle.len()], needle) {
            proof {
                assert(occurs_at(hay@, needle@, at as int));
            }
            return true;
        }
        if at == last {
            return false;
        }
        at += 1;
    }
}

} // verus!
