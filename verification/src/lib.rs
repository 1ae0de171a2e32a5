//! A minimal HTTP request-routing layer: an ordered table of exact
//! `(path, method)` routes, builders that validate them, a
//! transport-independent request/response model, and first-match dispatch to
//! user-supplied handlers. Listening, HTTP framing and task scheduling are
//! left to a transport layer around this crate.

pub mod message;
pub mod router;
pub mod server;
