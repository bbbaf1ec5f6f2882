//! The cross-thread shutdown flag.
//!
//! A [`ShutdownSignal`] is a shared-ownership handle to a single boolean
//! cell. It starts out not requested; any holder of a handle may request
//! shutdown, and every handle that shares the cell observes the request. The
//! write uses a sequentially consistent store; the read is relaxed, so an
//! event loop that polls the flag may observe a request with a small delay,
//! bounded by its poll interval. That latency is the intended tradeoff: the
//! signal is one-shot and level-triggered, so a late poll still sees it.

use std::sync::Arc;
use std::sync::atomic::AtomicBool;
use std::sync::atomic::Ordering;
use vstd::prelude::*;

verus! {

/// Relies on `alloc::sync::Arc::clone`: the returned `Arc` refers to the very
/// cell that `cell` refers to, so at the specification level the two are the
/// same value.
#[verifier::external_body]
fn clone_cell(cell: &Arc<AtomicBool>) -> (r: Arc<AtomicBool>)
    ensures
        r == *cell,
{
    Arc::clone(cell)
}

/// A shared-ownership handle to one atomic boolean shutdown cell.
///
/// Handles made from one another by [`ShutdownSignal::handle`] share the
/// cell, which the specification states as equality of [`ShutdownSignal::cell_spec`];
/// a request written through any of them is observed by all of them. The
/// runtime value of the cell is deliberately not modeled: it is shared
/// mutable state that other threads may change between any two reads, so the
/// contracts promise nothing about what [`ShutdownSignal::is_requested`] returns.
pub struct ShutdownSignal {
    cell: Arc<AtomicBool>,
}

impl ShutdownSignal {
    /// The cell this handle refers to; two handles with equal cells share
    /// their state.
    pub closed spec fn cell_spec(&self) -> AtomicBool {
        *self.cell
    }

    /// True when the two handles write to and read from the same cell.
    pub open spec fn shares_cell_with(&self, other: &ShutdownSignal) -> bool {
        self.cell_spec() == other.cell_spec()
    }

    /// Makes a fresh signal whose cell holds `false`: shutdown not requested.
    pub fn new() -> (r: ShutdownSignal) {
        ShutdownSignal { cell: Arc::new(AtomicBool::new(false)) }
    }

    /// Makes another handle to the same cell, for handing to an external
    /// signal source such as an interrupt handler on its own thread.
    pub fn handle(&self) -> (r: ShutdownSignal)
        ensures
            r.shares_cell_with(self),
    {
        ShutdownSignal { cell: clone_cell(&self.cell) }
    }

    /// Requests shutdown: stores `true` with sequentially consistent
    /// ordering, so that every thread sharing the cell eventually observes
    /// the request. The cell never goes back to `false`.
    pub fn request(&self) {
        self.cell.store(true, Ordering::SeqCst);
    }

    /// Polls the cell with a relaxed load. Other threads may write the cell
    /// at any moment, so no contract pins the result; a caller decides from
    /// whatever value came back.
    pub fn is_requested(&self) -> bool {
        self.cell.load(Ordering::Relaxed)
    }
}

} // verus!
