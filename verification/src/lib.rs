//! Core of a greeting-image chat bot: a per-category image cache, a fetch
//! orchestrator that falls back across unreliable scrape providers, and a
//! refresh scheduler that keeps the cache fresh across day boundaries.

pub mod cache;
pub mod client;
pub mod response;
pub mod worker;
