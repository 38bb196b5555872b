//! A demand-driven, memoizing query engine.
//!
//! Requests are typed keys (a kind discriminant and a path). Each key is
//! serialised to bytes and hashed to a 64-bit cache address; the store maps
//! addresses to a tagged variant over the known output kinds, so recovering a
//! value always checks its kind first.
pub mod marker;
pub mod key;
pub mod store;
pub mod engine;
pub mod laws;
