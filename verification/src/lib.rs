//! A deterministic execution host: it runs untrusted, sandboxed bytecode
//! modules against a fixed host interface, feeding each module a pre-state
//! digest and a block of input data, and capturing a post-state digest and a
//! list of emitted deposits.
//!
//! The verified core covers the guest memory manager (bounds-checked access to
//! the module's linear memory), the host interface (the five operations guest
//! code may call), import resolution for the host function table, the
//! per-execution session, and the shard state transition that selects an
//! execution environment, supplies its prior state and commits its result.
//! The bytecode interpreter itself is an outside capability: the unverified
//! binary drives it and calls back into the verified host operations.

pub mod digest;
pub mod errors;
pub mod host;
pub mod memory;
pub mod resolver;
pub mod session;
pub mod transition;
pub mod types;
