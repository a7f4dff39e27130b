//! Command layer of a debug-probe front end: numeral and image-format
//! resolution, memory dump rows, the fixed-cadence memory sampler, the
//! interactive shell's control state machine and the command dispatcher.

pub mod numeral;
pub mod shell;
pub mod image;
pub mod sampler;
pub mod dump;
pub mod command;
