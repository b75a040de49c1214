//! Request introspection for an HTTP echo server: header normalisation,
//! bounded body reading, body classification and the assembly of the JSON
//! reply, each with a verified contract.
//!
//! Every request is handled independently; the only shared value is the
//! `AppConfig`, which is built once at startup and never mutated, so it may
//! be read from any number of handlers without synchronisation.
pub mod error;
pub mod strmap;
pub mod headers;
pub mod body;
pub mod classify;
pub mod time;
pub mod response;
