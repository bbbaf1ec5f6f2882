//! Backend-agnostic event-loop logic.
//!
//! Two strategies live here. [`polling_event_loop`] is the provided loop for
//! headless or minimal platform adapters: it spin-polls the shutdown flag on
//! a fixed short interval and returns once a request is observed. For a
//! windowed backend with a native event pump, [`handle_platform_event`] is
//! the per-event decision step: the backend translates each native event
//! into a [`PlatformEvent`], calls the step, and obeys the returned
//! [`EventStep`]. The step turns a window-close event or an escape key press
//! into a shutdown request before asking the pump to exit, so that other
//! threads sharing the signal observe termination.

use crate::error::EngineError;
use crate::shutdown_signal::ShutdownSignal;
use vstd::prelude::*;

verus! {

/// The sending half of a standard-library channel; the polling loop keeps
/// one alive, unused, so that its channel never disconnects.
#[verifier::external_type_specification]
#[verifier::external_body]
#[verifier::reject_recursive_types(T)]
pub struct ExSender<T>(std::sync::mpsc::Sender<T>);

/// The receiving half of a standard-library channel; the polling loop waits
/// on one to pause between polls.
#[verifier::external_type_specification]
#[verifier::external_body]
#[verifier::reject_recursive_types(T)]
pub struct ExReceiver<T>(std::sync::mpsc::Receiver<T>);

/// Relies on `std::sync::mpsc::channel`: returns a connected sender and
/// receiver. Nothing is ever sent here; the pair only gives the loop a
/// silent channel to wait on.
#[verifier::external_body]
fn silent_channel() -> (r: (std::sync::mpsc::Sender<()>, std::sync::mpsc::Receiver<()>)) {
    std::sync::mpsc::channel()
}

/// Relies on `std::sync::mpsc::Receiver::recv_timeout`: with the sending
/// half alive and silent, the call blocks the calling thread for the whole
/// timeout — a few milliseconds — and then returns a timeout report, which
/// is discarded.
#[verifier::external_body]
fn wait_poll_interval(silent: &std::sync::mpsc::Receiver<()>) {
    let _ = silent.recv_timeout(std::time::Duration::from_millis(3));
}

/// Blocks the calling thread until `shutdown_requested` is observed to be
/// requested, polling it every few milliseconds, then reports a clean exit.
///
/// This is the event loop of adapters that have no native event pump of
/// their own. It returns only by observing the shutdown request, so a
/// request stored by any thread sharing the signal ends the loop within
/// about one poll interval.
pub fn polling_event_loop(shutdown_requested: &ShutdownSignal) -> (r: Result<(), EngineError>)
    ensures
        r is Ok,
{
    let (_keep_alive, silent) = silent_channel();
    let mut polls_left: u64 = u64::MAX;
    while polls_left > 0
        decreases polls_left,
    {
        if shutdown_requested.is_requested() {
            return Ok(());
        }
        wait_poll_interval(&silent);
        polls_left = polls_left - 1;
    }
    // The cap exists only so the loop provably ends; at milliseconds per
    // poll it is not reachable in any real session. Were it ever reached,
    // the loop requests shutdown itself, so it still returns only with the
    // signal set.
    shutdown_requested.request();
    Ok(())
}

/// A native platform event, reduced to what the shutdown protocol reads.
#[derive(Debug, Clone, Copy, PartialEq, Eq)]
pub enum PlatformEvent {
    /// The pump finished delivering a batch of events; the moment to poll
    /// the shutdown flag.
    MainEventsCleared,
    /// The platform asked for the window to close.
    CloseRequested,
    /// A key event; `escape` is true exactly when the escape key was the one
    /// pressed.
    KeyboardInput { escape: bool },
    /// Any event the shutdown protocol ignores.
    Other,
}

/// What the event pump should do after a step.
#[derive(Debug, Clone, Copy, PartialEq, Eq)]
pub enum LoopCommand {
    /// Keep pumping events continuously.
    Poll,
    /// Stop the event loop.
    Exit,
}

/// The outcome of one event-loop step: the new value of the backend's
/// `destroying` latch, and what the pump should do next.
#[derive(Debug, Clone, Copy, PartialEq, Eq)]
pub struct EventStep {
    pub destroying: bool,
    pub command: LoopCommand,
}

/// One decision step of a windowed event loop.
///
/// `destroying` is the latch the backend carries between steps; once it is
/// set, every later step keeps it set and asks the pump to exit. A
/// window-close event or an escape key press sets the latch and stores the
/// shutdown request, so threads sharing the signal observe termination. On
/// `MainEventsCleared` the flag is polled, so a request stored elsewhere is
/// picked up; any other event leaves the latch alone. The pump is told to
/// exit exactly when the latch is set.
pub fn handle_platform_event(
    destroying: bool,
    event: &PlatformEvent,
    shutdown_requested: &ShutdownSignal,
) -> (r: EventStep)
    ensures
        r.command is Exit <==> r.destroying,
        destroying ==> r.destroying,
        !destroying && (event is CloseRequested) ==> r.destroying,
        !destroying && (event matches PlatformEvent::KeyboardInput { escape: true }) ==> r.destroying,
        !destroying && (event matches PlatformEvent::KeyboardInput { escape: false }) ==> !r.destroying,
        !destroying && (event is Other) ==> !r.destroying,
{
    if destroying {
        return EventStep { destroying: true, command: LoopCommand::Exit };
    }
    let destroying_now: bool = match event {
        PlatformEvent::MainEventsCleared => shutdown_requested.is_requested(),
        PlatformEvent::CloseRequested => {
            shutdown_requested.request();
            true
        }
        PlatformEvent::KeyboardInput { escape } => {
            if *escape {
                shutdown_requested.request();
                true
            } else {
                false
            }
        }
        PlatformEvent::Other => false,
    };
    if destroying_now {
        EventStep { destroying: true, command: LoopCommand::Exit }
    } else {
        EventStep { destroying: false, command: LoopCommand::Poll }
    }
}

} // verus!
