//! Request building and cursor-based pagination for user listings of a
//! social-graph web service.
//!
//! The transport (signing and sending requests) and the decoding of response
//! bodies are left to the caller: this library decides what to ask for and
//! how to walk a paginated listing, and proves that it does so correctly.
pub mod params;
pub mod request;
pub mod error;
pub mod cursor;
pub mod search;
pub mod user;
pub mod laws;
