//! The error taxonomy of the engine core.
//!
//! Every failure in this crate is a value of [`EngineError`]; nothing in the
//! core panics or aborts. The core never catches or retries: each error
//! short-circuits `build_engine` or `Engine::start` and is returned to the
//! caller unchanged.

use vstd::prelude::*;

verus! {

/// An error raised while building or running the engine.
///
/// Concrete adapters construct these values too: an adapter that fails to set
/// up its backend reports `Initialization`, and one whose code path is
/// intentionally unfinished reports `Unimplemented`. The core treats both
/// exactly alike: the error is propagated to the caller, never special-cased.
#[derive(Debug, PartialEq, Eq)]
pub enum EngineError {
    /// The graphics adapter rejected the platform adapter at composition
    /// time; carries both adapters' names.
    Incompatible { graphics_name: String, platform_name: String },
    /// An adapter's one-time setup failed; wraps the backend's own report.
    Initialization { message: String },
    /// An operation was asked of an adapter that does not support it, or was
    /// invoked before the state it needs existed; carries the adapter's name.
    MissingCapability { adapter_name: String },
    /// A backend code path that is intentionally left unfinished was reached.
    Unimplemented { feature: String },
}

} // verus!
