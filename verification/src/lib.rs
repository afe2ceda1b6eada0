//! Master-side protocol core of an IO-Link port: the telegram framing and the
//! state machines that bring a port from power-up to a negotiated serial link.
//!
//! Every state machine here is a pure transition system. A driver performs
//! the timed waits, line control and byte exchange that a transition asks for
//! and reports what came of them.

pub mod common;
pub mod l6360;
pub mod master;
