//! The capability interface of a platform backend.
//!
//! A platform adapter owns window and event-loop creation. It declares
//! whether it can produce a native window handle, performs its one-time
//! setup in `initialize`, and then runs the blocking event loop until
//! shutdown is signaled. Headless and test adapters need not reimplement
//! event-loop plumbing: the provided `run_event_loop` polls the shutdown
//! flag on a fixed short interval.

use crate::engine_window_wrapper::EngineWindowWrapper;
use crate::error::EngineError;
use crate::event_loop::polling_event_loop;
use crate::shutdown_signal::ShutdownSignal;
use vstd::prelude::*;

verus! {

/// A backend that owns windowing, input and the event loop.
///
/// The three specification functions are the abstract state the contracts
/// speak of: the adapter's stable name, whether its one-time setup has
/// completed, and whether it can produce a native window handle. The name
/// and the declared capability never change over the adapter's lifetime;
/// the compatibility check made once at composition time therefore stays
/// meaningful.
pub trait PlatformAdapter: Sized {
    /// The adapter's name, as a mathematical value. Unspecified until an
    /// implementation says what it is.
    open spec fn name_spec(&self) -> Seq<char> {
        arbitrary()
    }

    /// Whether the adapter's one-time setup has completed. Unspecified
    /// until an implementation says what it is.
    open spec fn initialized_spec(&self) -> bool {
        arbitrary()
    }

    /// Whether the adapter can produce a native window handle. Unspecified
    /// until an implementation says what it is.
    open spec fn creates_window_handle_spec(&self) -> bool {
        arbitrary()
    }

    /// A stable human-readable identifier, used in reports and error
    /// values. Every call on the same instance returns the same string.
    fn adapter_name(&self) -> (r: String)
        ensures
            r@ == self.name_spec(),
    ;

    /// Performs all one-time setup, such as creating a window and an
    /// event-loop handle. It is called exactly once per engine lifecycle;
    /// it reports success exactly when the adapter ends up initialized, and
    /// it never changes the adapter's name or its declared capability.
    fn initialize(&mut self) -> (r: Result<(), EngineError>)
        requires
            !old(self).initialized_spec(),
        ensures
            final(self).name_spec() == old(self).name_spec(),
            final(self).creates_window_handle_spec() == old(self).creates_window_handle_spec(),
            r is Ok <==> final(self).initialized_spec(),
    ;

    /// Blocks the calling thread, processing platform events, until either
    /// the adapter observes a shutdown request, or the platform signals its
    /// own close intent — in which case the adapter itself stores the
    /// request before returning, so that threads sharing the signal observe
    /// termination. Returns cleanly on a clean exit.
    ///
    /// The provided implementation is [`polling_event_loop`]: it watches
    /// the flag every few milliseconds and always exits cleanly.
    fn run_event_loop(&mut self, shutdown_requested: ShutdownSignal) -> (r: Result<
        (),
        EngineError,
    >)
        requires
            old(self).initialized_spec(),
        ensures
            final(self).name_spec() == old(self).name_spec(),
            final(self).creates_window_handle_spec() == old(self).creates_window_handle_spec(),
            final(self).initialized_spec(),
        default_ensures
            r is Ok,
    {
        polling_event_loop(&shutdown_requested)
    }

    /// Declares whether [`PlatformAdapter::get_window_handle`] is
    /// meaningful for this adapter.
    fn creates_window_handle(&self) -> (r: bool)
        ensures
            r == self.creates_window_handle_spec(),
    ;

    /// Supplies the native handle for a graphics adapter to bind against.
    /// An adapter that declares no window capability always fails here, and
    /// an adapter asked before its setup produced a window fails too rather
    /// than handing back a default.
    ///
    /// The provided implementation reports the missing capability, naming
    /// the adapter.
    fn get_window_handle(&self) -> (r: Result<EngineWindowWrapper, EngineError>)
        ensures
            !self.creates_window_handle_spec() ==> r is Err,
        default_ensures
            r is Err,
            (r matches Result::Err(e) ==> e matches EngineError::MissingCapability {
                adapter_name,
            } && adapter_name@ == self.name_spec()),
    {
        Err(EngineError::MissingCapability { adapter_name: self.adapter_name() })
    }
}

/// A minimal conforming platform adapter: no window, no native event pump.
///
/// It exists as the simplest example of conformance and as a test double.
/// Its `fail_initialize` knob makes `initialize` report a setup failure, so
/// that callers' failure paths can be exercised.
#[derive(Debug)]
pub struct DummyPlatformAdapter {
    /// Whether `initialize` has completed.
    pub initialized: bool,
    /// When set, `initialize` fails instead of completing.
    pub fail_initialize: bool,
}

impl Default for DummyPlatformAdapter {
    /// A fresh adapter: not initialized, and set up to succeed.
    fn default() -> (r: Self)
        ensures
            !r.initialized,
            !r.fail_initialize,
    {
        DummyPlatformAdapter { initialized: false, fail_initialize: false }
    }
}

impl PlatformAdapter for DummyPlatformAdapter {
    open spec fn name_spec(&self) -> Seq<char> {
        "DummyPlatformAdapter"@
    }

    open spec fn initialized_spec(&self) -> bool {
        self.initialized
    }

    open spec fn creates_window_handle_spec(&self) -> bool {
        false
    }

    fn adapter_name(&self) -> (r: String) {
        "DummyPlatformAdapter".to_owned()
    }

    fn initialize(&mut self) -> (r: Result<(), EngineError>) {
        if self.fail_initialize {
            Err(
                EngineError::Initialization {
                    message: "DummyPlatformAdapter was told to fail its setup".to_owned(),
                },
            )
        } else {
            self.initialized = true;
            Ok(())
        }
    }

    fn creates_window_handle(&self) -> (r: bool) {
        false
    }
}

} // verus!
