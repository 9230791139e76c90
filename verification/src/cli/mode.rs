//! Handler execution modes: thread-safe handlers (the default) or local,
//! single-threaded ones that may hold mutable state.

use vstd::prelude::*;

verus! {

/// Thread-safe handler mode (the default): handlers are `Fn + Send + Sync`.
#[derive(Debug, Default, Clone, Copy)]
pub struct ThreadSafe;

/// Local handler mode: handlers may be `FnMut` and need not be `Send + Sync`.
#[derive(Debug, Default, Clone, Copy)]
pub struct Local;

/// The modes this crate defines; no other type can be one.
pub trait Sealed {}

impl Sealed for ThreadSafe {}

impl Sealed for Local {}

/// A handler execution mode.
pub trait HandlerMode: Sealed + Default + Clone {
    /// Whether handlers in this mode must be `Send + Sync`.
    const REQUIRES_SEND_SYNC: bool;
}

impl HandlerMode for ThreadSafe {
    const REQUIRES_SEND_SYNC: bool = true;
}

impl HandlerMode for Local {
    const REQUIRES_SEND_SYNC: bool = false;
}

} // verus!
