//! Fixed-width content fingerprints.

use vstd::prelude::*;

verus! {

/// Width of a fingerprint in bytes.
pub const FINGERPRINT_LEN: usize = 20;

/// A fixed-width hash that identifies what was asked for.
#[derive(Clone, Copy, Debug, PartialEq, Eq)]
pub struct Fingerprint {
    pub bytes: [u8; 20],
}

impl View for Fingerprint {
    type V = Seq<u8>;

    open spec fn view(&self) -> Seq<u8> {
        self.bytes@
    }
}

impl Fingerprint {
    /// The fingerprint made of `bytes`.
    pub fn new(bytes: [u8; 20]) -> (f: Fingerprint)
        ensures
            f.bytes == bytes,
            f@ == bytes@,
            f@.len() == FINGERPRINT_LEN,
    {
        Fingerprint { bytes }
    }

    /// Whether two fingerprints hold the same bytes.
    pub fn same(&self, other: &Fingerprint) -> (b: bool)
        ensures
            b == (self@ == other@),
            b == (*self == *other),
    {
        let mut i: usize = 0;
        while i < 20
            invariant
                i <= 20,
                forall|j: int| 0 <= j < i ==> self.bytes@[j] == other.bytes@[j],
            decreases 20 - i,
        {
            if self.bytes[i] != other.bytes[i] {
                return false;
            }
            i += 1;
        }
        assert(self.bytes == other.bytes);
        true
    }
}

} // verus!
