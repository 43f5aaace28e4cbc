//! A strongly typed, self-describing value tree for a message-bus style
//! wire protocol, together with the rules that derive a compact textual
//! "signature" describing a value's shape and element types.
//!
//! Producers build scalar leaves, then containers (inferring or supplying
//! signatures), and finally wrap them in [`types::Value`]; a downstream
//! marshaller walks the finished tree using the signature to drive
//! byte-level encoding.

pub mod model;
pub mod types;
pub mod convert;
pub mod equality;
pub mod cloning;
pub mod laws;
