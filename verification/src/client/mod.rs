//! Flow control between request construction and the transport.

pub mod embeddings_client;
pub mod rate_limiter;
pub mod rerank_client;
pub mod stream;
pub mod handoff;

pub use rate_limiter::RateLimiter;
pub use rate_limiter::ResourcePool;
