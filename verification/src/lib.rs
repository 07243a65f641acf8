//! A small session/chat backend: token issuance with a time-bounded token
//! cache, per-token conversation transcripts, and a client for an external
//! text-completion service.
//!
//! The outbound HTTP call itself lives outside this library; the library
//! prepares the exact request body, decides every step, and interprets the
//! response.

pub mod auth;
pub mod completion;
pub mod context;
pub mod handlers;
pub mod text;
