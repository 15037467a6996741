//! A window-layout daemon's core: a command dispatcher and window-state
//! machine, the message codec around it, and the event-loop decisions that
//! drive it. Clients send short commands over a local datagram channel; the
//! daemon tracks, per window, whether it is free-floating, pinned to half of
//! the screen, or maximized, and turns each command into a geometry action
//! for the windowing system to carry out.

pub mod commands;
pub mod data;
pub mod dispatch;
pub mod errors;
pub mod event;
pub mod geometry;
pub mod socket;
pub mod store;
