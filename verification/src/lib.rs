//! A minimal windowed-application skeleton, stated and verified as a state
//! machine: surface-format negotiation, a surface configuration that tracks
//! the window size, and the event-loop decisions (exit, reconfigure, render,
//! redraw), each with a contract. The platform window and the GPU calls live
//! outside the library and act on the decisions it returns.

pub mod color;
pub mod control;
pub mod state;
pub mod surface;
