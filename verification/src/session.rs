use vstd::prelude::*;
use crate::digest::{zero_digest, Digest32};
use crate::types::{Deposit, ShardBlockBody};

verus! {

/// The per-invocation mutable context of one execution: the pre-state digest
/// (input, immutable), the block-data buffer (input, immutable), the
/// post-state digest (output, initialized to the zero digest) and the
/// accumulated deposit list (output, append-only). Created fresh per
/// execution and discarded after result extraction.
#[derive(Debug)]
pub struct ExecutionSession {
    pub pre_state: Digest32,
    pub block_data: ShardBlockBody,
    pub post_state: Digest32,
    pub deposits: Vec<Deposit>,
}

impl ExecutionSession {
    /// Both digests are well formed, and the block data's length is
    /// representable as the guest-visible 32-bit integer.
    pub open spec fn wf(&self) -> bool {
        &&& self.pre_state.wf()
        &&& self.post_state.wf()
        &&& self.block_data@.len() <= i32::MAX
    }

    /// A fresh session for one execution: the given read-only inputs, the
    /// zero digest as the initial post state, and no deposits.
    pub fn new(pre_state: Digest32, block_data: ShardBlockBody) -> (r: ExecutionSession)
        requires
            pre_state.wf(),
            block_data@.len() <= i32::MAX,
        ensures
            r.wf(),
            r.pre_state@ == pre_state@,
            r.block_data@ == block_data@,
            r.post_state@ == zero_digest(),
            r.deposits@ == Seq::<Deposit>::empty(),
    {
        let session = ExecutionSession {
            pre_state,
            block_data,
            post_state: Digest32::zero(),
            deposits: Vec::new(),
        };
        proof {
            assert(session.deposits@ =~= Seq::<Deposit>::empty());
        }
        session
    }

    /// Extract the outputs once the entry point has returned without
    /// trapping: the (possibly still-zero, if the module never saved a post
    /// state) post-state digest and the accumulated deposits.
    pub fn result(self) -> (r: (Digest32, Vec<Deposit>))
        ensures
            r.0@ == self.post_state@,
            r.1@ == self.deposits@,
    {
        (self.post_state, self.deposits)
    }
}

} // verus!
