use vstd::prelude::*;
use vstd::pervasive::VecAdditionalExecFns;
use vstd::slice::slice_to_vec;
use crate::digest::{zero_digest, Digest32};
use crate::errors::ExecutionError;
use crate::types::{BeaconState, ShardBlock, ShardState};

verus! {

/// Everything one block's execution needs from the shard and beacon state:
/// the environment index the block selected, the bytecode registered for that
/// environment, and the environment's prior state digest.
#[derive(Debug)]
pub struct TransitionPlan {
    pub env: usize,
    pub code: Vec<u8>,
    pub pre_state: Digest32,
}

/// The authoritative pre-state for environment `env`: its recorded digest,
/// or the zero digest for an environment never previously touched.
pub open spec fn pre_state_of(states: Seq<Digest32>, env: int) -> Seq<u8> {
    if 0 <= env < states.len() {
        states[env]@
    } else {
        zero_digest()
    }
}

/// Select the environment an incoming block addresses and gather what its
/// execution needs, mutating nothing: with no block the transition is a
/// no-op (an empty slot), and a block addressing an environment beyond the
/// registered execution scripts fails with `UnknownEnvironmentError`. In
/// both of those cases, and on success, the shard state is left bit-for-bit
/// identical; it changes only when a later commit records an execution's
/// post state.
pub fn plan_transition(
    state: &mut ShardState,
    beacon_state: &BeaconState,
    block: &Option<ShardBlock>,
) -> (r: Result<Option<TransitionPlan>, ExecutionError>)
    requires
        old(state).wf(),
    ensures
        *final(state) == *old(state),
        block is None ==> r == Ok::<Option<TransitionPlan>, ExecutionError>(None),
        block is Some && block->0.env >= beacon_state.execution_scripts@.len() ==> r == Err::<
            Option<TransitionPlan>,
            ExecutionError,
        >(ExecutionError::UnknownEnvironmentError),
        block is Some && block->0.env < beacon_state.execution_scripts@.len() ==> {
            &&& r is Ok
            &&& r->Ok_0 is Some
            &&& r->Ok_0->0.env == block->0.env
            &&& r->Ok_0->0.code@ == beacon_state.execution_scripts@[block->0.env as int].code@
            &&& r->Ok_0->0.pre_state@ == pre_state_of(
                old(state).exec_env_states@,
                block->0.env as int,
            )
            &&& r->Ok_0->0.pre_state.wf()
        },
{
    match block {
        None => Ok(None),
        Some(b) => {
            if b.env >= beacon_state.execution_scripts.len() as u64 {
                Err(ExecutionError::UnknownEnvironmentError)
            } else {
                let env = b.env as usize;
                let script = &beacon_state.execution_scripts[env];
                let code = slice_to_vec(script.code.as_slice());
                let pre_state = if env < state.exec_env_states.len() {
                    state.exec_env_states[env].clone()
                } else {
                    Digest32::zero()
                };
                Ok(Some(TransitionPlan { env, code, pre_state }))
            }
        },
    }
}

/// Fold a successful execution's post state back into the shard state:
/// extend the recorded environment states up to and including index `env`,
/// filling every newly created slot with the zero digest (holes are
/// explicitly zero-initialized, never left undefined), then record `env`'s
/// post state. Every other recorded state, the slot number and the parent
/// block header are untouched.
pub fn commit_transition(state: &mut ShardState, env: usize, post_state: &Digest32)
    requires
        old(state).wf(),
        post_state.wf(),
        env < usize::MAX,
    ensures
        final(state).wf(),
        final(state).slot == old(state).slot,
        final(state).parent_block == old(state).parent_block,
        final(state).exec_env_states@.len() == (if old(state).exec_env_states@.len() >= env + 1 {
            old(state).exec_env_states@.len() as int
        } else {
            env + 1
        }),
        final(state).exec_env_states@[env as int]@ == post_state@,
        forall|i: int|
            0 <= i < final(state).exec_env_states@.len() && i != env
                ==> (#[trigger] final(state).exec_env_states@[i])@ == (if i < old(
                state,
            ).exec_env_states@.len() {
                old(state).exec_env_states@[i]@
            } else {
                zero_digest()
            }),
{
    while state.exec_env_states.len() <= env
        invariant
            env < usize::MAX,
            state.slot == old(state).slot,
            state.parent_block == old(state).parent_block,
            state.wf(),
            old(state).exec_env_states@.len() <= state.exec_env_states@.len(),
            if old(state).exec_env_states@.len() >= env + 1 {
                state.exec_env_states@.len() == old(state).exec_env_states@.len()
            } else {
                state.exec_env_states@.len() <= env + 1
            },
            forall|i: int|
                0 <= i < old(state).exec_env_states@.len()
                    ==> #[trigger] state.exec_env_states@[i] == old(state).exec_env_states@[i],
            forall|i: int|
                old(state).exec_env_states@.len() <= i < state.exec_env_states@.len()
                    ==> (#[trigger] state.exec_env_states@[i])@ == zero_digest(),
        decreases env + 1 - state.exec_env_states@.len(),
    {
        state.exec_env_states.push(Digest32::zero());
    }
    state.exec_env_states.set(env, post_state.clone());
}

} // verus!
