use vstd::prelude::*;
use vstd::string::StrSliceExecFns;
use crate::errors::ExecutionError;

verus! {

/// One function of the fixed host interface, as a link-time identity: the
/// target an import of a module resolves to.
#[derive(Clone, Copy, Debug, PartialEq, Eq, Structural)]
pub enum HostFunc {
    LoadPreState,
    BlockDataSize,
    BlockDataCopy,
    SavePostState,
    PushNewDeposit,
}

/// A guest-level value type, as a module's import signatures declare them.
/// The host interface itself is integer-only: every operation takes and
/// returns 32-bit integers alone.
#[derive(Clone, Copy, Debug, PartialEq, Eq, Structural)]
pub enum GuestValType {
    I32,
    I64,
    F32,
    F64,
    V128,
    FuncRef,
    ExternRef,
}

/// The parameter and result types an import declares.
#[derive(Debug)]
pub struct FuncSignature {
    pub params: Vec<GuestValType>,
    pub result: Option<GuestValType>,
}

/// The import name under which each host function is offered.
pub open spec fn host_func_name(f: HostFunc) -> Seq<char> {
    match f {
        HostFunc::LoadPreState => "eth2_loadPreState"@,
        HostFunc::BlockDataSize => "eth2_blockDataSize"@,
        HostFunc::BlockDataCopy => "eth2_blockDataCopy"@,
        HostFunc::SavePostState => "eth2_savePostState"@,
        HostFunc::PushNewDeposit => "eth2_pushNewDeposit"@,
    }
}

/// The host function a given import name resolves to, if any.
pub open spec fn lookup_host_func(name: Seq<char>) -> Option<HostFunc> {
    if name == host_func_name(HostFunc::LoadPreState) {
        Some(HostFunc::LoadPreState)
    } else if name == host_func_name(HostFunc::BlockDataSize) {
        Some(HostFunc::BlockDataSize)
    } else if name == host_func_name(HostFunc::BlockDataCopy) {
        Some(HostFunc::BlockDataCopy)
    } else if name == host_func_name(HostFunc::SavePostState) {
        Some(HostFunc::SavePostState)
    } else if name == host_func_name(HostFunc::PushNewDeposit) {
        Some(HostFunc::PushNewDeposit)
    } else {
        None
    }
}

/// The parameter types each host function expects.
pub open spec fn expected_params(f: HostFunc) -> Seq<GuestValType> {
    match f {
        HostFunc::LoadPreState => seq![GuestValType::I32],
        HostFunc::BlockDataSize => Seq::<GuestValType>::empty(),
        HostFunc::BlockDataCopy => seq![GuestValType::I32, GuestValType::I32, GuestValType::I32],
        HostFunc::SavePostState => seq![GuestValType::I32],
        HostFunc::PushNewDeposit => seq![GuestValType::I32],
    }
}

/// The result type each host function expects: only the block-data size
/// query returns a value.
pub open spec fn expected_result(f: HostFunc) -> Option<GuestValType> {
    match f {
        HostFunc::BlockDataSize => Some(GuestValType::I32),
        _ => None,
    }
}

/// Whether a declared signature matches what the host function expects.
pub open spec fn signature_matches(sig: FuncSignature, f: HostFunc) -> bool {
    sig.params@ == expected_params(f) && sig.result == expected_result(f)
}

/// Character-for-character string equality.
fn str_eq(a: &str, b: &str) -> (r: bool)
    ensures
        r == (a@ == b@),
{
    let a_len = a.unicode_len();
    let b_len = b.unicode_len();
    if a_len != b_len {
        return false;
    }
    let mut i: usize = 0;
    while i < a_len
        invariant
            a_len == a@.len(),
            b_len == b@.len(),
            a_len == b_len,
            i <= a_len,
            forall|j: int| 0 <= j < i ==> a@[j] == b@[j],
        decreases a_len - i,
    {
        if a.get_char(i) != b.get_char(i) {
            return false;
        }
        i += 1;
    }
    proof {
        assert(a@ =~= b@);
    }
    true
}

/// Whether every declared parameter is a 32-bit integer.
fn params_all_i32(params: &Vec<GuestValType>) -> (r: bool)
    ensures
        r == (forall|i: int| 0 <= i < params@.len() ==> params@[i] == GuestValType::I32),
{
    let mut i: usize = 0;
    while i < params.len()
        invariant
            i <= params@.len(),
            forall|j: int| 0 <= j < i ==> params@[j] == GuestValType::I32,
        decreases params@.len() - i,
    {
        let p = params[i];
        if !(p == GuestValType::I32) {
            return false;
        }
        i += 1;
    }
    true
}

/// Whether a declared signature matches the expected signature of host
/// function `f`.
pub fn check_signature(sig: &FuncSignature, f: HostFunc) -> (r: bool)
    ensures
        r == signature_matches(*sig, f),
{
    let arity: usize = match f {
        HostFunc::LoadPreState => 1,
        HostFunc::BlockDataSize => 0,
        HostFunc::BlockDataCopy => 3,
        HostFunc::SavePostState => 1,
        HostFunc::PushNewDeposit => 1,
    };
    proof {
        assert(expected_params(f).len() == arity);
        assert(forall|i: int|
            0 <= i < expected_params(f).len() ==> expected_params(f)[i] == GuestValType::I32);
    }
    if sig.params.len() != arity {
        return false;
    }
    if !params_all_i32(&sig.params) {
        proof {
            let i = choose|i: int|
                0 <= i < sig.params@.len() && sig.params@[i] != GuestValType::I32;
            assert(sig.params@ != expected_params(f)) by {
                assert(expected_params(f)[i] == GuestValType::I32);
            }
        }
        return false;
    }
    proof {
        assert(sig.params@ =~= expected_params(f));
    }
    let result_ok: bool = match sig.result {
        None => match f {
            HostFunc::BlockDataSize => false,
            _ => true,
        },
        Some(t) => match f {
            HostFunc::BlockDataSize => t == GuestValType::I32,
            _ => false,
        },
    };
    result_ok
}

/// Resolve one import a module declares against the host's function table,
/// offered under the single well-known module name `env`:
/// an unknown name fails with `UnresolvedImportError`; a known name whose
/// declared signature differs from the host operation's expected signature
/// fails with `SignatureMismatchError`; otherwise the import resolves to the
/// corresponding host function.
pub fn resolve_host_import(field_name: &str, signature: &FuncSignature) -> (r: Result<
    HostFunc,
    ExecutionError,
>)
    ensures
        match lookup_host_func(field_name@) {
            Some(f) => r == if signature_matches(*signature, f) {
                Ok::<HostFunc, ExecutionError>(f)
            } else {
                Err::<HostFunc, ExecutionError>(ExecutionError::SignatureMismatchError)
            },
            None => r == Err::<HostFunc, ExecutionError>(ExecutionError::UnresolvedImportError),
        },
{
    let func: Option<HostFunc> = if str_eq(field_name, "eth2_loadPreState") {
        Some(HostFunc::LoadPreState)
    } else if str_eq(field_name, "eth2_blockDataSize") {
        Some(HostFunc::BlockDataSize)
    } else if str_eq(field_name, "eth2_blockDataCopy") {
        Some(HostFunc::BlockDataCopy)
    } else if str_eq(field_name, "eth2_savePostState") {
        Some(HostFunc::SavePostState)
    } else if str_eq(field_name, "eth2_pushNewDeposit") {
        Some(HostFunc::PushNewDeposit)
    } else {
        None
    };
    match func {
        Some(f) => {
            if check_signature(signature, f) {
                Ok(f)
            } else {
                Err(ExecutionError::SignatureMismatchError)
            }
        },
        None => Err(ExecutionError::UnresolvedImportError),
    }
}

} // verus!
