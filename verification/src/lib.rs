//! Command dispatch and program execution for a networked LED controller.
//!
//! A controller receives framed commands over a byte stream, may load a guest
//! program that computes LED colours on a fixed tick, and turns each colour
//! update into either a write to an attached strip or a bus transaction to a
//! secondary controller.  This crate holds the decisions of that pipeline:
//! wire framing, command parsing, the dispatcher and execution-task state
//! machines, decoding of the guest's output descriptor, and the encoding of
//! updates for the two hardware sinks.  Sockets, the bytecode engine and the
//! peripherals are driven by the caller, which feeds their results back in.

pub mod bytes;
pub mod command;
pub mod dispatch;
pub mod error;
pub mod exec;
pub mod frame;
pub mod input;
pub mod led;
pub mod memory;
pub mod output;
pub mod sink;
pub mod task;

pub use led::{Color, LedRange, LedUpdate, LED_COUNT};
