//! A verified core for the classic "toy robot" exercise: a single robot on a
//! bounded grid, driven by textual commands (`PLACE`, `MOVE`, `LEFT`, `RIGHT`,
//! `REPORT`).  Commands that would take the robot off the grid, or that arrive
//! before the robot has been placed, are silently ignored; malformed lines are
//! rejected with a typed parse error.
//!
//! `input_utils` parses one line of text into a typed [`input_utils::Instruction`]
//! and turns an instruction into a movement delta; `robot` holds the state
//! machine that applies deltas under the grid-boundary rules.

pub mod input_utils;
pub mod robot;
