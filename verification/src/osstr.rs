//! Helper methods for byte strings such as operating-system path names,
//! which are opaque byte sequences rather than guaranteed-valid text.
//!
//! This would be named OsStrExt if that name were not so easy to mistake
//! for similarly named helpers elsewhere.

use vstd::prelude::*;

verus! {

/// Suffix and prefix tests over a value that is viewed as a byte sequence.
pub trait OsStrHelperExt: View<V = Seq<u8>> {
    /// True exactly when the value ends with the given byte suffix.
    fn ends_with(&self, suffix: &[u8]) -> (r: bool)
        ensures
            r == (suffix@.len() <= self@.len() && self@.subrange(
                self@.len() - suffix@.len(),
                self@.len() as int,
            ) == suffix@),
    ;

    /// True exactly when the value starts with the given byte prefix.
    fn starts_with(&self, prefix: &[u8]) -> (r: bool)
        ensures
            r == (prefix@.len() <= self@.len() && self@.subrange(0, prefix@.len() as int)
                == prefix@),
    ;
}

impl OsStrHelperExt for Vec<u8> {
    fn ends_with(&self, suffix: &[u8]) -> (r: bool) {
        let n = self.len();
        let m = suffix.len();
        if m > n {
            return false;
        }
        let mut i: usize = 0;
        while i < m
            invariant
                i <= m,
                m <= n,
                n == self@.len(),
                m == suffix@.len(),
                forall|j: int| 0 <= j < i ==> self@[n - m + j] == suffix@[j],
            decreases m - i,
        {
            if self[n - m + i] != suffix[i] {
                assert(self@.subrange(n - m, n as int)[i as int] != suffix@[i as int]);
                return false;
            }
            i += 1;
        }
        assert(self@.subrange(n - m, n as int) =~= suffix@);
        true
    }

    fn starts_with(&self, prefix: &[u8]) -> (r: bool) {
        let n = self.len();
        let m = prefix.len();
        if m > n {
            return false;
        }
        let mut i: usize = 0;
        while i < m
            invariant
                i <= m,
                m <= n,
                n == self@.len(),
                m == prefix@.len(),
                forall|j: int| 0 <= j < i ==> self@[j] == prefix@[j],
            decreases m - i,
        {
            if self[i] != prefix[i] {
                assert(self@.subrange(0, m as int)[i as int] != prefix@[i as int]);
                return false;
            }
            i += 1;
        }
        assert(self@.subrange(0, m as int) =~= prefix@);
        true
    }
}

} // verus!
