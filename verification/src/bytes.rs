//! Small verified helpers for byte strings: copying a range out of a path
//! and assembling diagnostic lines from pieces.

use vstd::prelude::*;
use vstd::string::StringSliceAdditionalSpecFns;

verus! {

/// A fresh copy of `src[start..end]`.
pub fn bytes_range(src: &Vec<u8>, start: usize, end: usize) -> (r: Vec<u8>)
    requires
        start <= end <= src@.len(),
    ensures
        r@ == src@.subrange(start as int, end as int),
{
    let mut out: Vec<u8> = Vec::new();
    let mut i: usize = start;
    while i < end
        invariant
            start <= i <= end <= src@.len(),
            out@ == src@.subrange(start as int, i as int),
        decreases end - i,
    {
        out.push(src[i]);
        proof {
            assert(out@ =~= src@.subrange(start as int, i + 1));
        }
        i += 1;
    }
    out
}

/// The byte sequences behind a sequence of byte vectors.
pub open spec fn views_of(s: Seq<Vec<u8>>) -> Seq<Seq<u8>> {
    Seq::new(s.len(), |i: int| s[i]@)
}

/// Appending a byte vector appends its byte sequence to the views.
pub proof fn lemma_views_push(s: Seq<Vec<u8>>, v: Vec<u8>)
    ensures
        views_of(s.push(v)) == views_of(s).push(v@),
{
    assert forall|k: int| 0 <= k < views_of(s.push(v)).len() implies views_of(s.push(v))[k]
        == views_of(s).push(v@)[k] by {
        assert(views_of(s.push(v))[k] == s.push(v)[k]@);
        if k < s.len() {
            assert(s.push(v)[k] == s[k]);
            assert(views_of(s)[k] == s[k]@);
        } else {
            assert(s.push(v)[k] == v);
        }
    }
    assert(views_of(s.push(v)) =~= views_of(s).push(v@));
}

/// Whether two byte strings hold the same bytes.
pub fn bytes_eq(a: &[u8], b: &[u8]) -> (r: bool)
    ensures
        r == (a@ == b@),
{
    if a.len() != b.len() {
        assert(a@.len() != b@.len());
        return false;
    }
    let mut i: usize = 0;
    while i < a.len()
        invariant
            i <= a@.len(),
            a@.len() == b@.len(),
            forall|j: int| 0 <= j < i ==> a@[j] == b@[j],
        decreases a@.len() - i,
    {
        if a[i] != b[i] {
            return false;
        }
        i += 1;
    }
    proof {
        assert(a@ =~= b@);
    }
    true
}

/// The concatenation `a + b + c + d`, with the text pieces taken as their
/// byte encoding. Used to assemble one diagnostic line.
pub fn concat4(a: &str, b: &[u8], c: &str, d: &[u8]) -> (r: Vec<u8>)
    ensures
        r@ == a.spec_bytes() + b@ + c.spec_bytes() + d@,
{
    let mut out: Vec<u8> = Vec::new();
    out.extend_from_slice(a.as_bytes());
    out.extend_from_slice(b);
    out.extend_from_slice(c.as_bytes());
    out.extend_from_slice(d);
    proof {
        assert(out@ =~= a.spec_bytes() + b@ + c.spec_bytes() + d@);
    }
    out
}

} // verus!
