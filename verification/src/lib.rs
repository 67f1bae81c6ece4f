//! A small model/update/view application core: a counter with increment and
//! decrement controls, a one-shot fetch of the caller's public IP address
//! whose outcome is recorded in the state, and a circle drawing plan that
//! follows the pointer.

pub mod circle;
pub mod numfmt;
pub mod state;
pub mod view;
