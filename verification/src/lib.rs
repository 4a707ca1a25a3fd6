//! A token-bucket rate limiter: the bucket arithmetic, the shape of one
//! exchange with the shared counter store, and the rendering of a decision
//! for the transport in front of it.
//!
//! Token counts are kept exactly, as whole numbers of bucket units, so that
//! every statement about refill and waiting time is a statement about
//! integers.

pub mod bucket;
pub mod laws;
pub mod limiter;
pub mod transport;
