use vstd::prelude::*;
use vstd::slice::slice_to_vec;

verus! {

/// The length in bytes of a state-commitment digest.
pub const DIGEST_LEN: usize = 32;

/// A fixed-size 32-byte opaque value representing a cryptographic state
/// commitment. Immutable once produced; the all-zero digest is used to pad
/// state slots for environments never previously referenced.
#[derive(Debug)]
pub struct Digest32 {
    pub bytes: Vec<u8>,
}

/// The all-zero digest, as a sequence of bytes.
pub open spec fn zero_digest() -> Seq<u8> {
    Seq::new(DIGEST_LEN as nat, |i: int| 0u8)
}

impl View for Digest32 {
    type V = Seq<u8>;

    open spec fn view(&self) -> Seq<u8> {
        self.bytes@
    }
}

impl Digest32 {
    /// A digest is well formed when it holds exactly 32 bytes.
    pub open spec fn wf(&self) -> bool {
        self@.len() == DIGEST_LEN
    }

    /// The all-zero digest ("zero hash").
    pub fn zero() -> (r: Digest32)
        ensures
            r.wf(),
            r@ == zero_digest(),
    {
        let mut bytes: Vec<u8> = Vec::new();
        let mut i: usize = 0;
        while i < DIGEST_LEN
            invariant
                i <= DIGEST_LEN,
                bytes@.len() == i,
                forall|j: int| 0 <= j < i ==> bytes@[j] == 0u8,
            decreases DIGEST_LEN - i,
        {
            bytes.push(0u8);
            i += 1;
        }
        proof {
            assert(bytes@ =~= zero_digest());
        }
        Digest32 { bytes }
    }
}

impl Clone for Digest32 {
    fn clone(&self) -> (r: Self)
        ensures
            r@ == self@,
    {
        Digest32 { bytes: slice_to_vec(self.bytes.as_slice()) }
    }
}

} // verus!
