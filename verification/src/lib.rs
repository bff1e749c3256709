//! A red triangle on a blue background, redrawn sixty times a second until
//! the window is asked to close.
//!
//! The crate holds everything about that program that can be decided without
//! a window or a graphics driver: the geometry and the shader sources, the
//! commands that make up one frame, and the state machine that turns window
//! events into frames and wake-up times.

pub mod triangle;
pub mod frame;
pub mod frame_loop;
