//! A typed client library for the Zulip group-chat HTTP API.
//!
//! The verified core covers the wire data model: narrow filters and their
//! JSON encoding, the uniform response envelope with its two-phase decoding
//! rule, the typed payload decoders for each operation, and the event-queue
//! cursor protocol that guarantees forward-only progress across poll cycles.
//! Transport (HTTP) is left to the embedding application, which hands the
//! raw response text to the decoders in this crate.

pub mod json;
pub mod errors;
pub mod envelope;
pub mod message;
pub mod narrow;
pub mod ops;
pub mod queue;
pub mod request;
pub mod config;
