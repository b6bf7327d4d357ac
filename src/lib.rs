//! Two-tier cache: a bounded in-memory LRU layer, the decision logic of a
//! durable TTL layer, a global invalidation epoch, and the policy that
//! composes them.

pub mod lru_store;
pub mod memory_cache;
pub mod numfmt;
pub mod clock;
pub mod invalidation;
pub mod disk_cache;
pub mod manager;
pub mod laws;
pub mod text;
pub mod error;
pub mod types;
pub mod gc;
pub mod config;
