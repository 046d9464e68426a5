//! A concurrent mutable ordered list of text items, together with the
//! mutation service that validates client requests against it and the
//! client-side view model that mirrors it.
//!
//! The store owns the authoritative sequence; every mutation is atomic and
//! returns the full post-mutation snapshot, which clients adopt wholesale.

pub mod client;
pub mod laws;
pub mod service;
pub mod store;
pub mod text;
