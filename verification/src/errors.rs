use vstd::prelude::*;

verus! {

/// The failure taxonomy of one state-transition attempt. Every error is a
/// recoverable, reportable outcome: none crashes the host, and a failed
/// transition leaves the shard state exactly as it was.
#[derive(Clone, Copy, Debug, PartialEq, Eq, Structural)]
pub enum ExecutionError {
    /// The bytecode is malformed or violates the guest format's validation rules.
    ModuleDecodeError,
    /// The module declares an import the host does not recognize.
    UnresolvedImportError,
    /// An import's declared signature does not match the host operation's.
    SignatureMismatchError,
    /// The module declares an automatically-run start routine.
    UnsupportedStartFunctionError,
    /// The instantiated module does not export a memory region named `memory`.
    MissingMemoryExportError,
    /// The module does not export an entry point named `main`.
    MissingEntryPointError,
    /// The module requests more memory than the configured maximum.
    ResourceLimitExceeded,
    /// A guest-supplied offset/length pair falls outside guest memory or the
    /// block-data buffer.
    MemoryAccessViolation,
    /// Guest code reached a host-call index the host does not define.
    HostInterfaceViolation,
    /// A deposit payload could not be interpreted as a deposit record.
    DecodeError,
    /// Guest execution halted abnormally (illegal instruction, unreachable,
    /// out-of-bounds access inside the guest's own memory operations).
    GuestTrap,
    /// The block references an environment identifier beyond the set of
    /// registered execution scripts.
    UnknownEnvironmentError,
}

} // verus!
