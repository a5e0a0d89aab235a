//! Input handling for a first-person / orbit camera controller.
//!
//! The library decides, from the key and button states that the host samples
//! each frame, what the frame's camera update does: the movement axis, whether
//! the velocity snaps to a target speed or decays, whether the pointer is
//! captured, and which input streams are read or discarded. The host performs
//! the numeric integration with those decisions.

pub mod input;
pub mod capture;
pub mod frame;
