//! Core of an authenticated append-only feed: the bookkeeping of a secure
//! byte-addressable storage backend and the reconstruction of a feed's
//! root set, committed length and availability bitmap from persisted data.
//!
//! The crate performs no I/O. Every operation that touches storage is split
//! into a plan (what must be done with the storage object) and a completion
//! (what the outcome means), so that a driver can carry out the I/O.

pub mod error;
pub mod feed;
pub mod feed_builder;
pub mod flat;
pub mod keys;
pub mod object;
pub mod roots;
pub mod sse;
pub mod sse_builder;
pub mod tree;
