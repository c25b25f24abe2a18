//! An in-memory endpoint that collects the bytes written to it and, once
//! closed, makes the final byte sequence known to a consumer.
//!
//! * [`accumulator`] holds the buffer and its open/closed flag.
//! * [`model`] is the abstract state of an endpoint and the transitions that
//!   its operations are specified by.
//! * [`gateway`] is the endpoint itself, with its three ways of signalling
//!   completion.
//! * [`laws`] proves what holds of every endpoint.
//! * [`trusted`] declares the channel and wake-handle items that are used but
//!   not verified.

pub mod accumulator;
pub mod error;
pub mod gateway;
pub mod laws;
pub mod model;
pub mod trusted;

pub use accumulator::Accumulator;
pub use error::GatewayError;
pub use gateway::{Gateway, ReadOutcome};
pub use model::{GatewayView, Strategy};
