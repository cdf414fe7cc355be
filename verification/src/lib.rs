//! Byte-stream command interpreter for a peripheral bridge device.
//!
//! An upstream controller streams opcode and operand bytes over a single
//! byte-oriented channel; the interpreter parses the wire protocol, drives
//! four peripheral capabilities (a serial master, a two-wire bus, an
//! asynchronous serial port and a bank of general-purpose pins) and emits
//! response bytes.  The whole transition relation of the state machine is
//! captured by a specification-level `step` function, and `handle_byte` is
//! proved to follow it exactly.

pub mod commands;
pub mod state;
pub mod peripherals;
pub mod step;
pub mod machine;
pub mod mocks;
pub mod laws;
