//! An opaque, copyable carrier for a native window handle.
//!
//! A platform adapter makes an [`EngineWindowWrapper`] during its
//! initialization and hands it out through `get_window_handle`; a graphics
//! adapter reads the raw handle back out during its own initialization. The
//! wrapper owns nothing: it is purely typed data, so a graphics backend can
//! receive window-handle information without a compile-time dependency on
//! the concrete platform adapter's type.

use raw_window_handle::RawWindowHandle;
use vstd::prelude::*;

verus! {

/// The platform-specific window handle of the `raw-window-handle` crate, a
/// closed set of per-OS handle shapes. The engine core never looks inside
/// one; it only carries the value from the platform adapter to the graphics
/// adapter.
#[verifier::external_type_specification]
#[verifier::external_body]
pub struct ExRawWindowHandle(RawWindowHandle);

/// An immutable, copyable value wrapping one native window handle.
#[derive(Clone, Copy)]
pub struct EngineWindowWrapper {
    raw_wrapper: RawWindowHandle,
}

impl EngineWindowWrapper {
    /// The handle this wrapper carries.
    pub closed spec fn raw_spec(&self) -> RawWindowHandle {
        self.raw_wrapper
    }

    /// Wraps a raw handle.
    pub fn create(raw_wrapper: RawWindowHandle) -> (r: Self)
        ensures
            r.raw_spec() == raw_wrapper,
    {
        EngineWindowWrapper { raw_wrapper }
    }

    /// Hands the carried handle back, unchanged.
    pub fn raw_window_handle(&self) -> (r: &RawWindowHandle)
        ensures
            *r == self.raw_spec(),
    {
        &self.raw_wrapper
    }
}

} // verus!
