//! A plugin call boundary: a JSON request envelope is decoded, dispatched to
//! a fixed set of methods, and the outcome encoded as a JSON response.
pub mod json;
pub mod envelope;
pub mod dispatch;
