//! Command relay for a single GPIO output line driven over a publish/subscribe
//! channel.
//!
//! The crate holds the decisions of the controller: which pin and mode values
//! are accepted, how an inbound payload is decoded, when a command reaches the
//! pin, and how a subscription is retried. Every decision is a function from
//! plain values to plain values, so the worker that owns the hardware and the
//! network only has to carry out what it is handed.

pub mod device;
pub mod gpio;
pub mod json;
pub mod relay;
pub mod settings;
pub mod subscription;
pub mod text;
