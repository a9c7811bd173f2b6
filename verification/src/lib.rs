//! A GPU command coordination actor and its swapchain presentation pipeline.
//!
//! Many producers enqueue typed requests; a single actor dequeues them in
//! arrival order and turns each into a sequence of backend, compositor, and
//! reply effects, recorded here as plain values. The presentation table maps
//! compositor-facing external image ids to per-swapchain state, and an
//! external image provider copies presented bytes out for the compositor.
//! A small performance-counter helper measures one function's hardware
//! counters and wall time.

pub mod actions;
pub mod actor;
pub mod bench;
pub mod ids;
pub mod images;
pub mod laws;
pub mod present;
pub mod request;
