//! Core logic of a two-button, two-LED controller: a three-state machine
//! whose transitions are driven by button edges and a debounced release
//! poll, and whose states each drive a fixed output sequence on the LEDs.
//!
//! The machine itself holds only a state and a model of the two pin levels.
//! Every transition returns the exact sequence of pin writes and waits that
//! the device must perform; the hardware shell executes that sequence.

pub mod dispatch;
pub mod system;
