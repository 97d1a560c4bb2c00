//! Core of a minimal real-time rendering host.
//!
//! The host opens a window, binds it to a GPU presentation surface, and on
//! every redraw clears the frame to a color derived from the last pointer
//! position. This crate holds the part with real invariants: the surface
//! configuration, the pointer state, and the frame-presentation state machine
//! that recovers from transient acquisition failures. The window, the event
//! loop and the graphics driver are external collaborators: they deliver
//! events to this core and perform the driver calls the core asks for.

pub mod color;
pub mod config;
pub mod state;
