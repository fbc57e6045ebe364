use vstd::prelude::*;
use crate::digest::{Digest32, DIGEST_LEN};
use crate::errors::ExecutionError;
use crate::memory::{write_seq, GuestMemory};
use crate::session::ExecutionSession;
use crate::types::Deposit;

verus! {

/// One operation of the fixed host interface, exactly as guest code invokes
/// it: a closed enumeration of the five host services, each carrying the
/// guest's untrusted integer arguments. Because the enumeration is closed,
/// there is no unknown host-call index at call time; an import the host does
/// not recognize is rejected at link time instead.
#[derive(Clone, Copy, Debug, PartialEq, Eq, Structural)]
pub enum HostCall {
    /// Copy the session's pre-state digest (32 bytes) into guest memory at
    /// `dest_ptr`.
    LoadPreState { dest_ptr: u32 },
    /// Return the byte length of the session's block data.
    BlockDataSize,
    /// Copy `length` bytes of block data, starting at `src_offset`, into
    /// guest memory at `dest_ptr`.
    BlockDataCopy { dest_ptr: u32, src_offset: u32, length: u32 },
    /// Read 32 bytes from guest memory at `src_ptr` and store them as the
    /// session's post-state digest; the last call wins.
    SavePostState { src_ptr: u32 },
    /// Decode a deposit record from guest memory at `src_ptr` and append it
    /// to the session's deposit list. The record currently has no payload, so
    /// decoding cannot fail once `src_ptr` is in range.
    PushNewDeposit { src_ptr: u32 },
}

/// Whether every guest-supplied offset/length pair of `call` lies within
/// guest memory of size `mem_len` and block data of size `data_len`. The byte
/// range read from block data is `[src_offset, src_offset + length)`, so it
/// is `src_offset + length` that is held against the block-data size.
pub open spec fn call_in_bounds(call: HostCall, mem_len: int, data_len: int) -> bool {
    match call {
        HostCall::LoadPreState { dest_ptr } => dest_ptr + DIGEST_LEN <= mem_len,
        HostCall::BlockDataSize => true,
        HostCall::BlockDataCopy { dest_ptr, src_offset, length } => {
            &&& dest_ptr + length <= mem_len
            &&& src_offset + length <= data_len
        },
        HostCall::SavePostState { src_ptr } => src_ptr + DIGEST_LEN <= mem_len,
        HostCall::PushNewDeposit { src_ptr } => src_ptr <= mem_len,
    }
}

/// Guest memory after an in-bounds `call`, given the memory `mem`, the
/// session's pre-state digest `pre` and block data `data` before the call.
pub open spec fn mem_after_call(call: HostCall, mem: Seq<u8>, pre: Seq<u8>, data: Seq<u8>) -> Seq<
    u8,
> {
    match call {
        HostCall::LoadPreState { dest_ptr } => write_seq(mem, dest_ptr as int, pre),
        HostCall::BlockDataCopy { dest_ptr, src_offset, length } => write_seq(
            mem,
            dest_ptr as int,
            data.subrange(src_offset as int, src_offset + length),
        ),
        _ => mem,
    }
}

/// The session's post-state digest after an in-bounds `call`, given the
/// memory `mem` and the prior post state `post` before the call.
pub open spec fn post_state_after_call(call: HostCall, mem: Seq<u8>, post: Seq<u8>) -> Seq<u8> {
    match call {
        HostCall::SavePostState { src_ptr } => mem.subrange(src_ptr as int, src_ptr + DIGEST_LEN),
        _ => post,
    }
}

/// The session's deposit list after an in-bounds `call`.
pub open spec fn deposits_after_call(call: HostCall, deposits: Seq<Deposit>) -> Seq<Deposit> {
    match call {
        HostCall::PushNewDeposit { .. } => deposits.push(Deposit {}),
        _ => deposits,
    }
}

/// The value an in-bounds `call` returns to the guest: only the block-data
/// size query returns one.
pub open spec fn return_value_of_call(call: HostCall, data_len: int) -> Option<i32> {
    match call {
        HostCall::BlockDataSize => Some(data_len as i32),
        _ => None,
    }
}

/// Determinism law: the outcome of a host call — whether it is accepted, and
/// what it does to guest memory, the post state and the deposit list — is a
/// function of the call's arguments, the session's inputs and the guest
/// memory alone; there is no hidden state, clock or randomness. Two calls
/// made from identical values behave identically, which is the host's share
/// of making a whole run reproducible from (pre-state, block data, code).
pub proof fn lemma_host_call_deterministic(
    call: HostCall,
    mem1: Seq<u8>,
    mem2: Seq<u8>,
    pre1: Seq<u8>,
    pre2: Seq<u8>,
    data1: Seq<u8>,
    data2: Seq<u8>,
    post1: Seq<u8>,
    post2: Seq<u8>,
)
    requires
        mem1 == mem2,
        pre1 == pre2,
        data1 == data2,
        post1 == post2,
    ensures
        call_in_bounds(call, mem1.len() as int, data1.len() as int) == call_in_bounds(
            call,
            mem2.len() as int,
            data2.len() as int,
        ),
        mem_after_call(call, mem1, pre1, data1) == mem_after_call(call, mem2, pre2, data2),
        post_state_after_call(call, mem1, post1) == post_state_after_call(call, mem2, post2),
        return_value_of_call(call, data1.len() as int) == return_value_of_call(
            call,
            data2.len() as int,
        ),
{
}

/// Round-trip law: an identity module that loads the session's pre-state
/// digest into guest memory and immediately saves the post state from the
/// same offset commits exactly the pre-state digest, whatever the memory,
/// the block data and the prior post state held.
pub proof fn lemma_pre_post_round_trip(
    mem: Seq<u8>,
    pre: Seq<u8>,
    data: Seq<u8>,
    post: Seq<u8>,
    ptr: u32,
)
    requires
        ptr + DIGEST_LEN <= mem.len(),
        pre.len() == DIGEST_LEN,
    ensures
        call_in_bounds(HostCall::LoadPreState { dest_ptr: ptr }, mem.len() as int, data.len() as int),
        call_in_bounds(HostCall::SavePostState { src_ptr: ptr }, mem.len() as int, data.len() as int),
        mem_after_call(HostCall::LoadPreState { dest_ptr: ptr }, mem, pre, data).len() == mem.len(),
        post_state_after_call(
            HostCall::SavePostState { src_ptr: ptr },
            mem_after_call(HostCall::LoadPreState { dest_ptr: ptr }, mem, pre, data),
            post,
        ) == pre,
{
    let loaded = mem_after_call(HostCall::LoadPreState { dest_ptr: ptr }, mem, pre, data);
    assert(loaded.subrange(ptr as int, ptr + DIGEST_LEN) =~= pre);
}

/// Perform one host-interface operation against the session and the guest
/// memory. Arguments arrive exactly as the guest passed them and are
/// re-validated here: the call succeeds if and only if every guest-supplied
/// offset/length pair is in bounds, and a rejected call changes nothing, not
/// even partially. The session's inputs (pre state and block data) are never
/// written.
pub fn apply_host_call(
    session: &mut ExecutionSession,
    memory: &mut GuestMemory,
    call: HostCall,
) -> (r: Result<Option<i32>, ExecutionError>)
    requires
        old(session).wf(),
    ensures
        final(session).wf(),
        final(session).pre_state@ == old(session).pre_state@,
        final(session).block_data@ == old(session).block_data@,
        final(memory)@.len() == old(memory)@.len(),
        r is Ok <==> call_in_bounds(
            call,
            old(memory)@.len() as int,
            old(session).block_data@.len() as int,
        ),
        r is Ok ==> {
            &&& final(memory)@ == mem_after_call(
                call,
                old(memory)@,
                old(session).pre_state@,
                old(session).block_data@,
            )
            &&& final(session).post_state@ == post_state_after_call(
                call,
                old(memory)@,
                old(session).post_state@,
            )
            &&& final(session).deposits@ == deposits_after_call(call, old(session).deposits@)
            &&& r == Ok::<Option<i32>, ExecutionError>(
                return_value_of_call(call, old(session).block_data@.len() as int),
            )
        },
        r is Err ==> {
            &&& r == Err::<Option<i32>, ExecutionError>(ExecutionError::MemoryAccessViolation)
            &&& *final(session) == *old(session)
            &&& *final(memory) == *old(memory)
        },
{
    match call {
        HostCall::LoadPreState { dest_ptr } => {
            match memory.write_bytes(dest_ptr, &session.pre_state.bytes) {
                Ok(()) => Ok(None),
                Err(e) => Err(e),
            }
        },
        HostCall::BlockDataSize => {
            let n = session.block_data.data.len();
            Ok(Some(n as i32))
        },
        HostCall::BlockDataCopy { dest_ptr, src_offset, length } => {
            match session.block_data.read_range(src_offset, length) {
                Ok(chunk) => match memory.write_bytes(dest_ptr, &chunk) {
                    Ok(()) => Ok(None),
                    Err(e) => Err(e),
                },
                Err(e) => Err(e),
            }
        },
        HostCall::SavePostState { src_ptr } => {
            match memory.read_bytes(src_ptr, DIGEST_LEN as u32) {
                Ok(bytes) => {
                    session.post_state = Digest32 { bytes };
                    Ok(None)
                },
                Err(e) => Err(e),
            }
        },
        HostCall::PushNewDeposit { src_ptr } => {
            if (src_ptr as u64) <= (memory.size() as u64) {
                session.deposits.push(Deposit {});
                Ok(None)
            } else {
                Err(ExecutionError::MemoryAccessViolation)
            }
        },
    }
}

} // verus!
