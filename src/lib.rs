//! An interpreter core for a two-dimensional, stack-based language: a
//! toroidal grid of instruction bytes, an operand stack of `i32` values, a
//! directional program counter and a tick function that executes one cell.

pub mod memory;
pub mod stack;
pub mod program_counter;
pub mod console;
pub mod source;
pub mod befunge;
