//! Coordination of the control column of a grid controller: a lock gesture,
//! a cooldown after notes are played, and a table of programs run when a
//! control pad is pressed. Every decision is a verified function that returns
//! the effects (pad colours, programs to run) for the caller to carry out.
pub mod lock;
pub mod pads;
pub mod dispatcher;
pub mod control;
pub mod ports;
