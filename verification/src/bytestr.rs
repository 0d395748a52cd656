//! Byte-string helpers: the wire format is consumed as raw bytes, so
//! equality, prefix tests, substring search and ASCII trimming are all
//! stated over `Seq<u8>`.

use vstd::prelude::*;

verus! {

/// `sub` occurs in `s` starting at index `i`.
pub open spec fn matches_at(s: Seq<u8>, sub: Seq<u8>, i: int) -> bool {
    &&& 0 <= i
    &&& i + sub.len() <= s.len()
    &&& s.subrange(i, i + sub.len()) == sub
}

/// `sub` occurs somewhere in `s`.
pub open spec fn contains_seq(s: Seq<u8>, sub: Seq<u8>) -> bool {
    exists|i: int| matches_at(s, sub, i)
}

/// An ASCII whitespace byte: space, tab, line feed, vertical tab,
/// form feed or carriage return.
pub open spec fn is_ws(b: u8) -> bool {
    b == 32 || (9 <= b && b <= 13)
}

/// `s` with leading whitespace bytes removed.
pub open spec fn trim_front(s: Seq<u8>) -> Seq<u8>
    decreases s.len(),
{
    if s.len() > 0 && is_ws(s[0]) {
        trim_front(s.drop_first())
    } else {
        s
    }
}

/// `s` with trailing whitespace bytes removed.
pub open spec fn trim_back(s: Seq<u8>) -> Seq<u8>
    decreases s.len(),
{
    if s.len() > 0 && is_ws(s[s.len() - 1]) {
        trim_back(s.drop_last())
    } else {
        s
    }
}

/// `s` with whitespace removed from both ends.
pub open spec fn trim_seq(s: Seq<u8>) -> Seq<u8> {
    trim_back(trim_front(s))
}

/// Copies a byte buffer.
pub fn copy_bytes(v: &Vec<u8>) -> (r: Vec<u8>)
    ensures
        r@ == v@,
{
    let mut r: Vec<u8> = Vec::new();
    r.extend_from_slice(v.as_slice());
    proof {
        assert(r@ =~= v@);
    }
    r
}

pub fn bytes_eq(a: &[u8], b: &[u8]) -> (r: bool)
    ensures
        r == (a@ == b@),
{
    if a.len() != b.len() {
        assert(a@ != b@) by {
            assert(a@.len() != b@.len());
        }
        return false;
    }
    let mut i: usize = 0;
    while i < a.len()
        invariant
            i <= a.len(),
            a@.len() == b@.len(),
            forall|j: int| 0 <= j < i ==> a@[j] == b@[j],
        decreases a.len() - i,
    {
        if a[i] != b[i] {
            return false;
        }
        i += 1;
    }
    assert(a@ =~= b@);
    true
}

pub fn starts_with_bytes(s: &[u8], prefix: &[u8]) -> (r: bool)
    ensures
        r == (prefix@.len() <= s@.len() && s@.subrange(0, prefix@.len() as int) == prefix@),
{
    if prefix.len() > s.len() {
        return false;
    }
    let head: &[u8] = &s[0..prefix.len()];
    bytes_eq(head, prefix)
}

/// Copies `s[from..to]` out into a fresh vector.
pub fn subvec(s: &[u8], from: usize, to: usize) -> (r: Vec<u8>)
    requires
        from <= to <= s@.len(),
    ensures
        r@ == s@.subrange(from as int, to as int),
{
    let mut r: Vec<u8> = Vec::new();
    let mut i: usize = from;
    while i < to
        invariant
            from <= i <= to <= s@.len(),
            r@ == s@.subrange(from as int, i as int),
        decreases to - i,
    {
        r.push(s[i]);
        assert(r@ =~= s@.subrange(from as int, i + 1 as int));
        i += 1;
    }
    r
}

fn match_at(s: &[u8], sub: &[u8], i: usize) -> (r: bool)
    requires
        i + sub@.len() <= s@.len(),
    ensures
        r == matches_at(s@, sub@, i as int),
{
    let n: usize = s.len();
    assert(i + sub@.len() <= n);
    let part: &[u8] = &s[i..i + sub.len()];
    bytes_eq(part, sub)
}

pub fn contains_bytes(s: &[u8], sub: &[u8]) -> (r: bool)
    ensures
        r == contains_seq(s@, sub@),
{
    if sub.len() > s.len() {
        assert(!contains_seq(s@, sub@)) by {
            assert(forall|i: int| !matches_at(s@, sub@, i));
        }
        return false;
    }
    let mut i: usize = 0;
    let n: usize = s.len();
    let last: usize = n - sub.len();
    while i <= last
        invariant
            i <= last + 1,
            n == s@.len(),
            last + sub@.len() == s@.len(),
            forall|j: int| 0 <= j < i ==> !matches_at(s@, sub@, j),
        decreases last + 1 - i,
    {
        if match_at(s, sub, i) {
            return true;
        }
        assert(sub@.len() > 0) by {
            if sub@.len() == 0 {
                assert(s@.subrange(i as int, i as int) =~= sub@);
                assert(matches_at(s@, sub@, i as int));
            }
        }
        i += 1;
    }
    assert(forall|j: int| !matches_at(s@, sub@, j));
    false
}

/// Index of the first byte of `s` that is not whitespace, scanning from
/// the front; `s.len()` when all of `s` is whitespace.
fn first_non_ws(s: &[u8]) -> (r: usize)
    ensures
        r <= s@.len(),
        trim_front(s@) == s@.subrange(r as int, s@.len() as int),
{
    let mut i: usize = 0;
    assert(s@.subrange(0, s@.len() as int) =~= s@);
    while i < s.len() && is_ws_byte(s[i])
        invariant
            i <= s@.len(),
            trim_front(s@) == trim_front(s@.subrange(i as int, s@.len() as int)),
        decreases s.len() - i,
    {
        assert(s@.subrange(i as int, s@.len() as int).drop_first() =~= s@.subrange(
            i + 1 as int,
            s@.len() as int,
        ));
        i += 1;
    }
    assert(trim_front(s@.subrange(i as int, s@.len() as int)) == s@.subrange(
        i as int,
        s@.len() as int,
    ));
    i
}

fn is_ws_byte(b: u8) -> (r: bool)
    ensures
        r == is_ws(b),
{
    b == 32 || (9 <= b && b <= 13)
}

/// One past the index of the last non-whitespace byte of `s` at or after
/// `from`; `from` when everything from `from` on is whitespace.
fn last_non_ws(s: &[u8], from: usize) -> (r: usize)
    requires
        from <= s@.len(),
    ensures
        from <= r <= s@.len(),
        trim_back(s@.subrange(from as int, s@.len() as int)) == s@.subrange(from as int, r as int),
{
    let mut j: usize = s.len();
    while j > from && is_ws_byte(s[j - 1])
        invariant
            from <= j <= s@.len(),
            trim_back(s@.subrange(from as int, s@.len() as int)) == trim_back(
                s@.subrange(from as int, j as int),
            ),
        decreases j,
    {
        assert(s@.subrange(from as int, j as int).drop_last() =~= s@.subrange(
            from as int,
            j - 1 as int,
        ));
        j -= 1;
    }
    assert(trim_back(s@.subrange(from as int, j as int)) == s@.subrange(from as int, j as int));
    j
}

/// `s` trimmed of ASCII whitespace at both ends, as a borrowed slice.
pub fn trim_bytes<'a>(s: &'a [u8]) -> (r: &'a [u8])
    ensures
        r@ == trim_seq(s@),
{
    let a: usize = first_non_ws(s);
    let b: usize = last_non_ws(s, a);
    &s[a..b]
}

} // verus!
