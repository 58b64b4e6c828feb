//! Client-side request builder for the Bellande motion-probability service.
//!
//! The probabilistic computation itself happens elsewhere, either behind a
//! remote HTTP endpoint or inside a local executable.  This crate holds the
//! verified part of the client: modelling the JSON values that travel in a
//! request, assembling the payload with its defaults and authorization data,
//! validating the shapes of the inputs, and interpreting what comes back.

pub mod error;
pub mod json;
pub mod local;
pub mod num;
pub mod parse;
pub mod payload;
pub mod remote;
pub mod render;

pub use error::{ClientErr, ClientError};
pub use json::{JsonVal, JsonValue};
