//! The engine: composition, validation and lifecycle of the two adapters.
//!
//! [`build_engine`] is the sole way to obtain an [`Engine`]. It evaluates
//! the graphics adapter's compatibility judgment over the platform
//! adapter's declared capability — the only structural validation in the
//! system — before any initialization side effect, and it performs none
//! itself: both adapters come out of a successful build exactly as they
//! went in. [`Engine::start`] then drives the lifecycle in its one lawful
//! order: platform setup, then graphics setup, then the blocking event
//! loop; the first failure short-circuits the sequence.

use crate::error::EngineError;
use crate::graphics_adapter::GraphicsAdapter;
use crate::platform_adapter::PlatformAdapter;
use crate::shutdown_signal::ShutdownSignal;
use vstd::prelude::*;

verus! {

/// The exclusive owner of one platform adapter, one graphics adapter and
/// the shutdown signal they coordinate over.
///
/// Once built, the two adapters are mutually compatible — [`Engine::wf`]
/// — and stay so: nothing the engine does changes an adapter's name or
/// declared capability.
pub struct Engine<P: PlatformAdapter, G: GraphicsAdapter> {
    platform: P,
    graphics: G,
    shutdown_requested: ShutdownSignal,
}

impl<P: PlatformAdapter, G: GraphicsAdapter> Engine<P, G> {
    /// The platform adapter the engine owns.
    pub closed spec fn platform_spec(&self) -> P {
        self.platform
    }

    /// The graphics adapter the engine owns.
    pub closed spec fn graphics_spec(&self) -> G {
        self.graphics
    }

    /// The engine's own shutdown signal.
    pub closed spec fn shutdown_signal_spec(&self) -> ShutdownSignal {
        self.shutdown_requested
    }

    /// The engine's structural invariant: the graphics adapter accepts the
    /// platform adapter's declared window capability.
    pub open spec fn wf(&self) -> bool {
        self.graphics_spec().compatible_spec(self.platform_spec().creates_window_handle_spec())
    }

    /// Returns another owning handle to the engine's shutdown signal — the
    /// very signal the event loop will poll, not a copy of its state — for
    /// handing to an external signal source such as a process-interrupt
    /// handler. A request written through the returned handle is a request
    /// written to the engine's own signal.
    pub fn create_shutdown_requested(&self) -> (r: ShutdownSignal)
        ensures
            r.shares_cell_with(&self.shutdown_signal_spec()),
    {
        self.shutdown_requested.handle()
    }

    /// Runs the lifecycle: platform setup, then graphics setup, then the
    /// blocking event loop, which holds the calling thread until shutdown
    /// is observed. A failure of either setup step is returned at once and
    /// the later steps never run — in particular, when the platform could
    /// not be set up, the graphics adapter is left exactly as it was.
    pub fn start(&mut self) -> (r: Result<(), EngineError>)
        requires
            !old(self).platform_spec().initialized_spec(),
            !old(self).graphics_spec().initialized_spec(),
        ensures
            final(self).platform_spec().name_spec() == old(self).platform_spec().name_spec(),
            final(self).graphics_spec().name_spec() == old(self).graphics_spec().name_spec(),
            final(self).platform_spec().creates_window_handle_spec()
                == old(self).platform_spec().creates_window_handle_spec(),
            final(self).shutdown_signal_spec() == old(self).shutdown_signal_spec(),
            old(self).wf() ==> final(self).wf(),
            r is Ok ==> final(self).platform_spec().initialized_spec()
                && final(self).graphics_spec().initialized_spec(),
            !final(self).platform_spec().initialized_spec() ==> r is Err
                && final(self).graphics_spec() == old(self).graphics_spec(),
    {
        match self.platform.initialize() {
            Ok(()) => {},
            Err(e) => {
                return Err(e);
            },
        }
        match self.graphics.initialize(&self.platform) {
            Ok(()) => {},
            Err(e) => {
                return Err(e);
            },
        }
        let shutdown_requested = self.create_shutdown_requested();
        self.platform.run_event_loop(shutdown_requested)
    }
}

/// Composes an engine from a platform adapter and a graphics adapter, both
/// taken over by the engine.
///
/// The build succeeds exactly when the graphics adapter declares itself
/// compatible with the platform adapter; an incompatible pair is rejected
/// with an error naming both adapters, and no engine exists. A successful
/// build holds both adapters unchanged — neither is initialized here; that
/// is observably deferred to [`Engine::start`] — together with a fresh
/// shutdown signal that starts unrequested.
pub fn build_engine<P: PlatformAdapter, G: GraphicsAdapter>(platform: P, graphics: G) -> (r:
    Result<Engine<P, G>, EngineError>)
    ensures
        r is Ok <==> graphics.compatible_spec(platform.creates_window_handle_spec()),
        (r matches Result::Ok(engine) ==> engine.platform_spec() == platform
            && engine.graphics_spec() == graphics && engine.wf()),
        (r matches Result::Err(e) ==> e matches EngineError::Incompatible {
            graphics_name,
            platform_name,
        } && graphics_name@ == graphics.name_spec() && platform_name@ == platform.name_spec()),
{
    if !graphics.is_compatible_with_platform_adapter(&platform) {
        return Err(
            EngineError::Incompatible {
                graphics_name: graphics.adapter_name(),
                platform_name: platform.adapter_name(),
            },
        );
    }
    Ok(Engine { platform, graphics, shutdown_requested: ShutdownSignal::new() })
}

} // verus!
