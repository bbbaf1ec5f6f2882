//! Bootstrap and lifecycle core of a minimal rendering-engine shell.
//!
//! The crate assembles a platform backend (windowing, input, event loop) and a
//! graphics backend (rendering device) behind two narrow capability traits,
//! validates that the two are compatible, and coordinates a cooperative
//! shutdown across the main thread and any signal-handling thread. Concrete
//! backends live outside this crate and implement [`platform_adapter::PlatformAdapter`]
//! and [`graphics_adapter::GraphicsAdapter`].

pub mod engine;
pub mod engine_window_wrapper;
pub mod event_loop;
pub mod error;
pub mod graphics_adapter;
pub mod platform_adapter;
pub mod shutdown_signal;
