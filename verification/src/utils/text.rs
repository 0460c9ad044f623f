//! Character-level helpers shared by the parsers of this crate.

use vstd::prelude::*;

verus! {

/// The position of the first `c` in `s`, or the length of `s` if there is
/// none.
pub open spec fn first_index(s: Seq<char>, c: char) -> int
    decreases s.len(),
{
    if s.len() == 0 || s[0] == c {
        0
    } else {
        1 + first_index(s.skip(1), c)
    }
}

/// The position of the last `c` in `s`, or -1 if there is none.
pub open spec fn last_index(s: Seq<char>, c: char) -> int
    decreases s.len(),
{
    if s.len() == 0 {
        -1
    } else if s.last() == c {
        s.len() - 1
    } else {
        last_index(s.drop_last(), c)
    }
}

/// The pieces of `s` between occurrences of `c`, in order. A string without
/// `c` is its own single piece; two adjacent separators, or one at either
/// end, give an empty piece.
pub open spec fn split(s: Seq<char>, c: char) -> Seq<Seq<char>>
    decreases s.len(),
{
    let at = last_index(s, c);
    if 0 <= at < s.len() {
        split(s.take(at), c).push(s.skip(at + 1))
    } else {
        seq![s]
    }
}

/// What `first_index` finds: nothing before it is `c`, and it is `c` unless
/// it is the end.
pub proof fn lemma_first_index(s: Seq<char>, c: char)
    ensures
        0 <= first_index(s, c) <= s.len(),
        forall|j: int| 0 <= j < first_index(s, c) ==> s[j] != c,
        first_index(s, c) < s.len() ==> s[first_index(s, c)] == c,
    decreases s.len(),
{
    if s.len() != 0 && s[0] != c {
        let rest = s.skip(1);
        lemma_first_index(rest, c);
        assert forall|j: int| 0 <= j < first_index(s, c) implies s[j] != c by {
            if j > 0 {
                assert(rest[j - 1] == s[j]);
            }
        }
    }
}

/// A position with nothing equal to `c` before it, and `c` at it unless it
/// is the end, is the one that `first_index` gives.
pub proof fn lemma_first_index_is(s: Seq<char>, c: char, i: int)
    requires
        0 <= i <= s.len(),
        forall|j: int| 0 <= j < i ==> s[j] != c,
        i < s.len() ==> s[i] == c,
    ensures
        first_index(s, c) == i,
{
    lemma_first_index(s, c);
}

/// What `last_index` finds: nothing after it is `c`, and it is `c` unless it
/// is -1.
pub proof fn lemma_last_index(s: Seq<char>, c: char)
    ensures
        -1 <= last_index(s, c) < s.len(),
        forall|j: int| last_index(s, c) < j < s.len() ==> s[j] != c,
        0 <= last_index(s, c) ==> s[last_index(s, c)] == c,
    decreases s.len(),
{
    if s.len() != 0 && s.last() != c {
        let head = s.drop_last();
        lemma_last_index(head, c);
        assert forall|j: int| last_index(s, c) < j < s.len() implies s[j] != c by {
            if j < head.len() {
                assert(head[j] == s[j]);
            }
        }
    }
}

/// A position with nothing equal to `c` after it, and `c` at it unless it is
/// -1, is the one that `last_index` gives.
pub proof fn lemma_last_index_is(s: Seq<char>, c: char, i: int)
    requires
        -1 <= i < s.len(),
        forall|j: int| i < j < s.len() ==> s[j] != c,
        0 <= i ==> s[i] == c,
    ensures
        last_index(s, c) == i,
{
    lemma_last_index(s, c);
}

/// The pieces put together again, with `c` between one and the next.
pub open spec fn join(pieces: Seq<Seq<char>>, c: char) -> Seq<char>
    decreases pieces.len(),
{
    if pieces.len() == 0 {
        Seq::empty()
    } else if pieces.len() == 1 {
        pieces[0]
    } else {
        join(pieces.drop_last(), c) + seq![c] + pieces.last()
    }
}

/// What `split` gives: at least one piece, no piece that holds the
/// separator, and pieces that join back to the text that was split.
pub proof fn lemma_split(s: Seq<char>, c: char)
    ensures
        split(s, c).len() >= 1,
        forall|k: int| 0 <= k < split(s, c).len() ==> !(#[trigger] split(s, c)[k]).contains(c),
        join(split(s, c), c) == s,
    decreases s.len(),
{
    let at = last_index(s, c);
    lemma_last_index(s, c);
    if 0 <= at < s.len() {
        let head = s.take(at);
        let tail = s.skip(at + 1);
        let pieces = split(head, c);
        lemma_split(head, c);
        assert(split(s, c) == pieces.push(tail));
        assert(!tail.contains(c)) by {
            if tail.contains(c) {
                let j = choose|j: int| 0 <= j < tail.len() && tail[j] == c;
                assert(s[at + 1 + j] == c);
            }
        }
        assert(pieces.push(tail).drop_last() =~= pieces);
        assert(join(pieces.push(tail), c) == join(pieces, c) + seq![c] + tail);
        assert(head + seq![c] + tail =~= s);
    } else {
        assert(split(s, c) == seq![s]);
        assert(!s.contains(c)) by {
            if s.contains(c) {
                let j = choose|j: int| 0 <= j < s.len() && s[j] == c;
                assert(s[j] == c);
            }
        }
    }
}

/// The pieces that end before position `start`, where `start` is 0 or
/// follows a separator.
pub open spec fn pieces_before(s: Seq<char>, c: char, start: int) -> Seq<Seq<char>> {
    if start <= 0 {
        Seq::empty()
    } else {
        split(s.take(start - 1), c)
    }
}

/// Splitting up to the end of a piece gives the pieces before it and then
/// that piece.
pub proof fn lemma_split_next(s: Seq<char>, c: char, start: int, end: int)
    requires
        0 <= start <= end <= s.len(),
        start > 0 ==> s[start - 1] == c,
        forall|j: int| start <= j < end ==> s[j] != c,
    ensures
        split(s.take(end), c) == pieces_before(s, c, start).push(s.subrange(start, end)),
{
    let t = s.take(end);
    lemma_last_index_is(t, c, start - 1);
    if start > 0 {
        assert(t.take(start - 1) =~= s.take(start - 1));
        assert(t.skip(start) =~= s.subrange(start, end));
    } else {
        assert(t =~= s.subrange(start, end));
        assert(seq![t] =~= Seq::<Seq<char>>::empty().push(t));
    }
}

/// The characters of a string, in order.
pub fn chars_of(s: &str) -> (v: Vec<char>)
    ensures
        v@ == s@,
{
    let mut v: Vec<char> = Vec::new();
    for c in it: s.chars()
        invariant
            it.seq() == s@,
            v@ == it.seq().take(it.index() as int),
    {
        v.push(c);
        assert(it.seq().take(it.index() + 1) =~= it.seq().take(it.index() as int).push(c));
    }
    assert(v@ =~= s@);
    v
}

/// The first position in `from..to` that holds `c`, or `to` if none does.
pub fn find_char(chars: &Vec<char>, from: usize, to: usize, c: char) -> (at: usize)
    requires
        from <= to <= chars@.len(),
    ensures
        from <= at <= to,
        forall|j: int| from <= j < at ==> chars@[j] != c,
        at < to ==> chars@[at as int] == c,
        at - from == first_index(chars@.subrange(from as int, to as int), c),
{
    let mut at = from;
    while at < to && chars[at] != c
        invariant
            from <= at <= to <= chars@.len(),
            forall|j: int| from <= j < at ==> chars@[j] != c,
        decreases to - at,
    {
        at = at + 1;
    }
    proof {
        lemma_first_index_is(chars@.subrange(from as int, to as int), c, at - from);
    }
    at
}

/// The text of `s` between two character positions.
pub fn slice_of(s: &str, from: usize, to: usize) -> (r: String)
    requires
        from <= to <= s@.len(),
    ensures
        r@ == s@.subrange(from as int, to as int),
{
    String::from_str(s.substring_char(from, to))
}

/// Two texts joined.
pub fn joined(a: &str, b: &str) -> (r: String)
    ensures
        r@ == a@ + b@,
{
    let mut r = String::from_str(a);
    r.append(b);
    r
}


/// Whether two texts are the same.
pub fn same_text(a: &str, b: &str) -> (r: bool)
    ensures
        r == (a@ == b@),
{
    let x = chars_of(a);
    let y = chars_of(b);
    if x.len() != y.len() {
        return false;
    }
    let mut i: usize = 0;
    while i < x.len()
        invariant
            x@ == a@,
            y@ == b@,
            x@.len() == y@.len(),
            i <= x@.len(),
            forall|j: int| 0 <= j < i ==> x@[j] == y@[j],
        decreases x@.len() - i,
    {
        if x[i] != y[i] {
            return false;
        }
        i = i + 1;
    }
    assert(x@ =~= y@);
    true
}

/// Three texts joined.
pub fn joined3(a: &str, b: &str, c: &str) -> (r: String)
    ensures
        r@ == a@ + b@ + c@,
{
    let mut r = String::from_str(a);
    r.append(b);
    r.append(c);
    r
}


/// The text of each string of a list.
pub open spec fn texts(v: Seq<String>) -> Seq<Seq<char>> {
    Seq::new(v.len(), |i: int| v[i]@)
}

/// The pieces of `s` between occurrences of `c`.
pub fn split_text(s: &str, c: char) -> (pieces: Vec<String>)
    ensures
        texts(pieces@) == split(s@, c),
{
    let chars = chars_of(s);
    let n = chars.len();
    let mut pieces: Vec<String> = Vec::new();
    let mut start: usize = 0;
    let mut done = false;
    assert(texts(pieces@) =~= pieces_before(chars@, c, 0));
    while !done
        invariant
            chars@ == s@,
            n == chars@.len(),
            start <= n,
            !done && start > 0 ==> chars@[start - 1] == c,
            !done ==> texts(pieces@) == pieces_before(chars@, c, start as int),
            done ==> texts(pieces@) == split(chars@, c),
        decreases n - start + (if done { 0int } else { 1int }),
    {
        let end = find_char(&chars, start, n, c);
        let piece = slice_of(s, start, end);
        let ghost before = pieces@;
        proof {
            lemma_split_next(chars@, c, start as int, end as int);
        }
        pieces.push(piece);
        assert(texts(pieces@) =~= texts(before).push(piece@));
        if end == n {
            assert(chars@.take(n as int) =~= chars@);
            done = true;
        } else {
            start = end + 1;
        }
    }
    pieces
}

} // verus!
