//! A typed client library for a mod-hosting platform's REST API.
//!
//! The library validates identifiers, composes request URLs and describes
//! each API call as a [`client::Request`]; sending it is left to the caller.

pub mod client;
pub mod error;
pub mod json;
pub mod text;
pub mod url;
pub mod validate;
