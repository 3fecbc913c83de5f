//! Data model: servers, roles, members, channels, messages and the acting
//! identity. All of these are read-only inputs to a permission calculation.

pub mod channel;
pub mod message;
pub mod server;
pub mod simple;
