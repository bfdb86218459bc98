//! A small user-directory service core: routing, validation, storage
//! modelling, error classification and JSON response encoding, with the
//! behaviour of every piece stated and proved.
//!
//! Two deliberate choices where a design could go either way: an empty table
//! lists as `200` with the empty JSON array, never as an error; and creation
//! is gated by validation, so a name that trims to nothing is rejected with
//! `400` before any storage call.

pub mod errors;
pub mod http;
pub mod json;
pub mod numbers;
pub mod router;
pub mod service;
pub mod store;
pub mod text;
pub mod user;
pub mod validation;
