//! A small HTTP request router over a key-value store: it parses untrusted
//! JSON request bodies, validates required fields, dispatches on method and
//! path, translates store outcomes into a uniform JSON response envelope,
//! and decorates every response with a cross-origin header.

pub mod escape;
pub mod fields;
pub mod laws;
pub mod response;
pub mod router;
pub mod store;
