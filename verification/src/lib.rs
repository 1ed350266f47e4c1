//! A verified model of a minimal windowed renderer's core: the surface
//! lifecycle and the frame-submission protocol.
//!
//! The library owns the logic of the renderer — how a presentation surface's
//! configuration is built and kept in step with the window size, what exactly
//! one frame records and submits, and how host window signals drive the
//! application state machine — all stated in contracts and proved. The
//! unverifiable edges (window creation, GPU device negotiation, command
//! submission) live outside, in a thin driver that performs the actions this
//! library decides on.

pub mod format;
pub mod surface;
pub mod frame;
pub mod events;
