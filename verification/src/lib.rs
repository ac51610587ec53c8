//! A verified model of a minimal windowed-rendering lifecycle: a surface
//! manager that keeps a presentable surface's pixel size in step with its
//! window and clears each frame to a stored background color, and an event
//! dispatcher that forwards window and input events to that manager.
//!
//! The GPU and windowing calls themselves are effects performed by the host
//! program; this crate holds the decisions — size clamping, resize filtering,
//! the dirty flag, color selection, exit signalling — with their proofs.

pub mod color;
pub mod dispatcher;
pub mod manager;
