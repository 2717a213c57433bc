//! A bridge command between a user interface and a local backend service.
//!
//! The command issues one HTTP GET to the backend and relays the response
//! body back as text. The decisions of the command are a small transition
//! function over plain values; the host runs the network calls it asks for
//! and hands back what happened.
pub mod error;
pub mod exchange;
pub mod laws;
