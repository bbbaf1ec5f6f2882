//! The capability interface of a graphics backend.
//!
//! A graphics adapter owns device and instance initialization against a
//! platform adapter, and declares, once at composition time, whether it can
//! operate atop a given platform adapter. The single gating rule of the
//! whole system lives here: a graphics backend that requires a native
//! window must reject any platform backend that cannot produce one.

use crate::error::EngineError;
use crate::platform_adapter::PlatformAdapter;
use vstd::prelude::*;

verus! {

/// A backend that owns rendering-device setup.
///
/// The compatibility judgment is a pure predicate over the platform
/// adapter's declared capability — chiefly whether it creates a window
/// handle — which is why [`GraphicsAdapter::compatible_spec`] takes that
/// capability as a plain boolean. The platform's capability never changes,
/// so the judgment made once when the engine is composed keeps holding.
pub trait GraphicsAdapter: Sized {
    /// The adapter's name, as a mathematical value. Unspecified until an
    /// implementation says what it is.
    open spec fn name_spec(&self) -> Seq<char> {
        arbitrary()
    }

    /// Whether the adapter's one-time setup has completed. Unspecified
    /// until an implementation says what it is.
    open spec fn initialized_spec(&self) -> bool {
        arbitrary()
    }

    /// Whether this adapter can operate atop a platform adapter with the
    /// given window-handle capability. Unspecified until an implementation
    /// says what it is.
    open spec fn compatible_spec(&self, platform_creates_window_handle: bool) -> bool {
        arbitrary()
    }

    /// A stable human-readable identifier, used in reports and error
    /// values. Every call on the same instance returns the same string.
    fn adapter_name(&self) -> (r: String)
        ensures
            r@ == self.name_spec(),
    ;

    /// The compatibility judgment over `platform`'s declared capabilities.
    fn is_compatible_with_platform_adapter<P: PlatformAdapter>(&self, platform: &P) -> (r: bool)
        ensures
            r == self.compatible_spec(platform.creates_window_handle_spec()),
    ;

    /// Performs device and instance setup. The platform adapter has
    /// completed its own setup by the time this runs, so the call may ask
    /// it for a window handle. A failure — including a backend code path
    /// intentionally left unfinished — is an ordinary error value, never a
    /// crash. Success is reported exactly when the adapter ends up
    /// initialized, and neither the name nor the compatibility judgment
    /// changes.
    fn initialize<P: PlatformAdapter>(&mut self, platform: &P) -> (r: Result<(), EngineError>)
        requires
            platform.initialized_spec(),
            !old(self).initialized_spec(),
        ensures
            final(self).name_spec() == old(self).name_spec(),
            final(self).compatible_spec(platform.creates_window_handle_spec())
                == old(self).compatible_spec(platform.creates_window_handle_spec()),
            r is Ok <==> final(self).initialized_spec(),
    ;
}

/// A minimal conforming graphics adapter: no device, no rendering.
///
/// It exists as the simplest example of conformance and as a test double.
/// Its `compatible` knob is its whole compatibility judgment, and its
/// `fail_initialize` knob makes `initialize` report a setup failure, so
/// that callers' failure paths can be exercised.
#[derive(Debug)]
pub struct DummyGraphicsAdapter {
    /// The answer this adapter gives to every compatibility question.
    pub compatible: bool,
    /// When set, `initialize` fails instead of completing.
    pub fail_initialize: bool,
    /// Whether `initialize` has completed.
    pub initialized: bool,
}

impl Default for DummyGraphicsAdapter {
    /// A fresh adapter: compatible with anything, not initialized, and set
    /// up to succeed.
    fn default() -> (r: Self)
        ensures
            r.compatible,
            !r.fail_initialize,
            !r.initialized,
    {
        DummyGraphicsAdapter { compatible: true, fail_initialize: false, initialized: false }
    }
}

impl GraphicsAdapter for DummyGraphicsAdapter {
    open spec fn name_spec(&self) -> Seq<char> {
        "DummyGraphicsAdapter"@
    }

    open spec fn initialized_spec(&self) -> bool {
        self.initialized
    }

    open spec fn compatible_spec(&self, platform_creates_window_handle: bool) -> bool {
        self.compatible
    }

    fn adapter_name(&self) -> (r: String) {
        "DummyGraphicsAdapter".to_owned()
    }

    fn is_compatible_with_platform_adapter<P: PlatformAdapter>(&self, platform: &P) -> (r:
        bool) {
        self.compatible
    }

    fn initialize<P: PlatformAdapter>(&mut self, platform: &P) -> (r: Result<(), EngineError>) {
        if self.fail_initialize {
            Err(
                EngineError::Initialization {
                    message: "DummyGraphicsAdapter was told to fail its setup".to_owned(),
                },
            )
        } else {
            self.initialized = true;
            Ok(())
        }
    }
}

} // verus!
