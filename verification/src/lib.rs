//! A typed client library for a streaming-promotion vendor's REST API.
//!
//! The library holds everything the client decides and computes: token
//! validity, the authentication handshake, request construction, response
//! classification, payload serialization and the pagination protocol. The
//! network transport itself stays outside; callers hand each prepared
//! request to their transport and feed the raw response back in.

pub mod action;
pub mod client;
pub mod model;
pub mod orders;
pub mod prices;
pub mod text;
pub mod traffic;
pub mod user;
