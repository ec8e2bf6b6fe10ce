//! Client-side logic for the AuroraWatch status feeds.
//!
//! The library decodes the two XML schemas the service publishes (the legacy
//! `aurorawatch` document and the current `current_status` document),
//! classifies transport failures, and renders the one-line status summary.
//! Network I/O itself is left to the surrounding application; the library
//! works on the response body it is handed.

pub mod error;
pub mod feeds;
pub mod model;
pub mod parse;
pub mod decode;
pub mod encode;
pub mod laws;
