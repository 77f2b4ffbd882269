//! Small conveniences: filling several variables from one value, loop guards that
//! decide between yielding a value and jumping, and the line handling behind an
//! interactive prompt.
pub mod chain_aid;
pub mod control_flow;
pub mod input;

pub use input::{get_input, update_input};
