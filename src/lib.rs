//! Common RPC definitions for transports that agree on protobuf-encoded messages.
//!
//! A typed service is described by descriptors, carried by handlers, and each call
//! runs through an explicit client-side and server-side state machine whose every
//! transition is specified and verified.
pub mod call;
pub mod codec;
pub mod descriptor;
pub mod error;
pub mod generator;
pub mod greeting;
