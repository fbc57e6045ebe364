use vstd::prelude::*;
use vstd::slice::{slice_subrange, slice_to_vec};
use crate::digest::Digest32;
use crate::errors::ExecutionError;

verus! {

/// A value-transfer record requested by guest code during execution;
/// currently a marker with no payload (reserved for future fields).
#[derive(Clone, Copy, Debug, PartialEq, Eq, Structural)]
pub struct Deposit {}

/// Raw bytecode for one execution environment; immutable once registered.
#[derive(Debug)]
pub struct ExecutionScript {
    pub code: Vec<u8>,
}

/// The set of available execution environments, indexed by environment
/// identifier.
#[derive(Debug)]
pub struct BeaconState {
    pub execution_scripts: Vec<ExecutionScript>,
}

/// Placeholder metadata identifying a block's position (parent linkage);
/// currently empty but reserved for future fields.
#[derive(Clone, Copy, Debug, PartialEq, Eq, Structural)]
pub struct ShardBlockHeader {}

/// An ordered, immutable sequence of bytes supplied as input data to one
/// execution.
#[derive(Debug)]
pub struct ShardBlockBody {
    pub data: Vec<u8>,
}

impl View for ShardBlockBody {
    type V = Seq<u8>;

    open spec fn view(&self) -> Seq<u8> {
        self.data@
    }
}

impl ShardBlockBody {
    /// Bounds-checked read of `length` bytes of block data starting at
    /// `offset`: the byte range taken is `[offset, offset + length)`, and it
    /// is `offset + length` that is held against the block-data size. Fails
    /// with `MemoryAccessViolation` exactly when that range exceeds the data.
    pub fn read_range(&self, offset: u32, length: u32) -> (r: Result<Vec<u8>, ExecutionError>)
        ensures
            r is Ok <==> offset + length <= self@.len(),
            r is Ok ==> r->Ok_0@ == self@.subrange(offset as int, offset + length),
            r is Err ==> r == Err::<Vec<u8>, ExecutionError>(ExecutionError::MemoryAccessViolation),
    {
        if (offset as u64) + (length as u64) > (self.data.len() as u64) {
            return Err(ExecutionError::MemoryAccessViolation);
        }
        let base = offset as usize;
        let chunk = slice_subrange(self.data.as_slice(), base, base + length as usize);
        Ok(slice_to_vec(chunk))
    }
}

/// A block addressed to one shard: its header, the environment identifier
/// selecting which execution script to run, and its input data.
#[derive(Debug)]
pub struct ShardBlock {
    pub env: u64,
    pub data: ShardBlockBody,
}

/// Per-shard mutable state: one post-state digest per environment ever
/// touched, the current slot number, and the parent block header.
#[derive(Debug)]
pub struct ShardState {
    pub exec_env_states: Vec<Digest32>,
    pub slot: u64,
    pub parent_block: ShardBlockHeader,
}

impl ShardState {
    /// Every recorded environment state is a well-formed 32-byte digest.
    pub open spec fn wf(&self) -> bool {
        forall|i: int|
            0 <= i < self.exec_env_states@.len() ==> (#[trigger] self.exec_env_states@[i]).wf()
    }
}

} // verus!
