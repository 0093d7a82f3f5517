//! Typed retrieval of the Grand Exchange price snapshot and item catalog.
//!
//! The library decodes the two JSON resources of the price API into typed
//! records, classifies HTTP outcomes into a small error taxonomy, and renders
//! the texts handed across the command boundary. The HTTP round trip itself is
//! left to the host application.
pub mod fetch;
pub mod ge_api;
pub mod json;
