//! Paged, cached and rate-limited retrieval of listings from a JSON link
//! aggregation service.
//!
//! The library holds the decisions: cache keys and request addresses, the
//! pagination driver, the outbound rate limiter and the memoizing response
//! wrapper. The program around it performs the network and disk work.
pub mod client;
pub mod models;
pub mod rate_limit;
pub mod lazy;
