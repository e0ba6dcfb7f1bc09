//! Request handling for an embedded HTTP server: the table of requests in flight, the
//! bodies that flow in and out, the raw network streams a connection can become, and
//! the one-element channel that hands values between two tasks.
//!
//! Everything here is a state machine over plain values. The runtime around it performs
//! the input and output, polls futures, and reports back what happened.

pub mod handoff;
pub mod http;
pub mod poll;
pub mod raw;
pub mod vfs;
