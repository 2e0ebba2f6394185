//! Character-level helpers: every text in this crate is reasoned about as its
//! sequence of characters, never as bytes.

use vstd::prelude::*;

verus! {

/// The characters of an optional text.
pub open spec fn opt_text(text: Option<String>) -> Option<Seq<char>> {
    match text {
        Some(s) => Some(s@),
        None => None,
    }
}

/// A copy of an optional text.
pub fn copy_opt_text(text: &Option<String>) -> (r: Option<String>)
    ensures
        opt_text(r) == opt_text(*text),
{
    match text {
        Some(s) => Some(s.clone()),
        None => None,
    }
}

/// The characters of each text of a list.
pub open spec fn texts_of(list: Seq<String>) -> Seq<Seq<char>> {
    Seq::new(list.len(), |i: int| list[i]@)
}

/// The characters of each text of a list in which a text may be absent.
pub open spec fn opt_texts_of(list: Seq<Option<String>>) -> Seq<Option<Seq<char>>> {
    Seq::new(list.len(), |i: int| opt_text(list[i]))
}

/// The value of the captures of a match, or of their absence.
pub open spec fn found_view(found: Option<Vec<Option<String>>>) -> Option<Seq<Option<Seq<char>>>> {
    match found {
        Some(list) => Some(opt_texts_of(list@)),
        None => None,
    }
}

/// `part` stands in `whole`, starting at offset `at`.
pub open spec fn occurs_at(whole: Seq<char>, at: int, part: Seq<char>) -> bool {
    &&& 0 <= at
    &&& at + part.len() <= whole.len()
    &&& whole.subrange(at, at + part.len()) == part
}

/// The characters of `s`, in order.
pub fn chars_of(s: &str) -> (v: Vec<char>)
    ensures
        v@ == s@,
{
    let mut v: Vec<char> = Vec::new();
    for c in it: s.chars()
        invariant
            it.seq() == s@,
            v@ == s@.take(it.index()),
    {
        v.push(c);
    }
    assert(s@.take(s@.len() as int) == s@);
    v
}

/// Tells whether `part` stands in `whole` at offset `at`.
pub fn found_at(whole: &Vec<char>, at: usize, part: &Vec<char>) -> (r: bool)
    ensures
        r == occurs_at(whole@, at as int, part@),
{
    let n: usize = whole.len();
    let m: usize = part.len();
    if at > n || n - at < m {
        return false;
    }
    let mut i: usize = 0;
    while i < m
        invariant
            i <= m,
            m == part.len(),
            n == whole.len(),
            at + m <= n,
            whole@.subrange(at as int, at + i) == part@.take(i as int),
        decreases m - i,
    {
        if whole[at + i] != part[i] {
            assert(whole@.subrange(at as int, at + m)[i as int] != part@[i as int]);
            return false;
        }
        assert(whole@.subrange(at as int, at + i + 1) == whole@.subrange(at as int, at + i).push(
            whole@[at + i],
        ));
        assert(part@.take(i + 1) == part@.take(i as int).push(part@[i as int]));
        i += 1;
    }
    assert(part@.take(m as int) == part@);
    true
}

/// Tells whether `c` is among the characters of `text` from `from` up to,
/// not including, `to`.
pub fn holds_char(text: &Vec<char>, from: usize, to: usize, c: char) -> (r: bool)
    requires
        from <= to <= text.len(),
    ensures
        r == text@.subrange(from as int, to as int).contains(c),
{
    let mut i: usize = from;
    while i < to
        invariant
            from <= i <= to,
            to <= text.len(),
            forall|k: int| from <= k < i ==> text@[k] != c,
        decreases to - i,
    {
        if text[i] == c {
            assert(text@.subrange(from as int, to as int)[i - from] == c);
            return true;
        }
        i += 1;
    }
    assert forall|k: int| 0 <= k < to - from implies text@.subrange(from as int, to as int)[k]
        != c by {
        assert(text@.subrange(from as int, to as int)[k] == text@[from + k]);
    }
    false
}

} // verus!
