//! An instrumented pipeline for outbound HTTP calls.

pub mod client;
pub mod consistency;
pub mod header;
pub mod keys;
pub mod labels;
pub mod laws;
pub mod layers;
pub mod message;
pub mod model;
pub mod redirect;
pub mod registration;
pub mod service;
pub mod shutdown;
pub mod span;
pub mod stack;
pub mod telemetry;
pub mod typed;
pub mod users;
pub mod value;
