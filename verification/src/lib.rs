//! A session registry and response-stream multiplexer over one shared
//! chain-synchronization engine.
//!
//! Named sessions are created against the engine, may name another
//! session as their parent (resolved once, at creation), carry their own
//! request traffic, and multiplex their asynchronous response stream to
//! at most one listener, which stops receiving once the session is
//! stopped.
//!
//! The registry state machine lives in [`registry`] and is verified
//! against a map model; [`manager`] combines the registry with the engine
//! behind the trusted boundary in [`engine`]; [`laws`] states and proves
//! the registry's governing properties; [`logging`] fixes the severity
//! coding of the structured log stream.

use vstd::prelude::*;

pub mod engine;
pub mod laws;
pub mod logging;
pub mod manager;
pub mod registry;

verus! {

/// The allocation contract of the C wire layer: a wire value that can be
/// made in its empty form before the caller fills it. The hosting
/// application implements it for its wire types, whose empty form is a
/// null pointer.
pub trait NewWithNullPtr: Sized {
    fn new_with_null_ptr() -> Self;
}

/// Error kinds surfaced by session-lifecycle and messaging operations.
#[derive(Clone, Copy, Debug, PartialEq, Eq, Structural)]
pub enum SessionError {
    /// A session with the given name is already active.
    AlreadyActive,
    /// No active session carries the given name.
    UnknownSession,
    /// The engine refused a create or enqueue request.
    EngineRejected,
}

} // verus!
