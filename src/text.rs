//! Character-level helpers on strings.

use vstd::prelude::*;

verus! {

/// Relies on `String::push`: appends one character at the end.
#[verifier::external_body]
pub(crate) fn push_char(s: &mut String, c: char)
    ensures
        final(s)@ == old(s)@.push(c),
{
    s.push(c)
}

/// The characters of `s`, in order.
pub fn chars_of(s: &str) -> (r: Vec<char>)
    ensures
        r@ == s@,
{
    let mut r: Vec<char> = Vec::new();
    for c in it: s.chars()
        invariant
            r@ == it.seq().take(it.index() as int),
    {
        r.push(c);
    }
    r
}

/// Whether `pre` is a prefix of `cs`.
pub fn starts_with(cs: &Vec<char>, pre: &Vec<char>) -> (r: bool)
    ensures
        r == (pre@.len() <= cs@.len() && cs@.take(pre@.len() as int) == pre@),
{
    if pre.len() > cs.len() {
        return false;
    }
    let mut i: usize = 0;
    while i < pre.len()
        invariant
            i <= pre.len() <= cs.len(),
            cs@.take(i as int) == pre@.take(i as int),
        decreases pre.len() - i,
    {
        if cs[i] != pre[i] {
            assert(cs@.take(pre@.len() as int)[i as int] != pre@[i as int]);
            return false;
        }
        i = i + 1;
        assert(cs@.take(i as int) =~= pre@.take(i as int));
    }
    assert(pre@.take(i as int) =~= pre@);
    true
}

/// Whether `a` and `b` hold the same characters.
pub fn same_chars(a: &Vec<char>, b: &Vec<char>) -> (r: bool)
    ensures
        r == (a@ == b@),
{
    if a.len() != b.len() {
        return false;
    }
    let r = starts_with(a, b);
    assert(a@.take(b@.len() as int) =~= a@);
    r
}

/// Whether no character of `cs` from index `from` on equals `c`.
pub fn lacks_from(cs: &Vec<char>, from: usize, c: char) -> (r: bool)
    requires
        from <= cs.len(),
    ensures
        r == (forall|i: int| from <= i < cs@.len() ==> cs@[i] != c),
{
    let mut i: usize = from;
    while i < cs.len()
        invariant
            from <= i <= cs.len(),
            forall|j: int| from <= j < i ==> cs@[j] != c,
        decreases cs.len() - i,
    {
        if cs[i] == c {
            return false;
        }
        i = i + 1;
    }
    true
}

/// The string made of the characters of `cs` from index `from` on.
pub fn string_from(cs: &Vec<char>, from: usize) -> (r: String)
    requires
        from <= cs.len(),
    ensures
        r@ == cs@.skip(from as int),
{
    let mut r = String::new();
    let mut i: usize = from;
    while i < cs.len()
        invariant
            from <= i <= cs.len(),
            r@ == cs@.subrange(from as int, i as int),
        decreases cs.len() - i,
    {
        push_char(&mut r, cs[i]);
        i = i + 1;
        assert(r@ =~= cs@.subrange(from as int, i as int));
    }
    assert(r@ =~= cs@.skip(from as int));
    r
}

} // verus!
