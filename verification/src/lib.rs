//! Action resolution for conditional "switch" actions of a keyboard remapper.
//!
//! A switch is an ordered table of cases. Each case carries a boolean
//! expression over the keys that are currently held, compiled into a flat
//! sequence of opcodes, together with an action and a marker that says
//! whether a match ends the switch or lets the following cases be tried.
//!
//! Limitations:
//! - Maximum opcode length: 4095
//! - Maximum boolean expression depth: 8

pub mod error;
pub mod evaluate;
pub mod key_event;
pub mod keys;
pub mod opcode;
pub mod scancode;
pub mod scope_stack;
pub mod switch;
