//! Client-side core of a gateway to the Voyage AI embedding and reranking
//! service: rate budgets, token estimates, request validation, response
//! handling and the ordering rules of streamed results.
//!
//! Everything here is synchronous and free of I/O. Time enters as a plain
//! millisecond reading of a monotonic clock, and HTTP responses enter as a
//! status code and a body, so that each rule can be stated and proved.

pub mod builder;
pub mod client;
pub mod config;
pub mod errors;
pub mod models;
pub mod text;
pub mod utils;

pub use builder::voyage::VoyageBuilder;
pub use client::rate_limiter::RateLimiter;
pub use client::rerank_client::RerankRequestBuilder;
pub use config::VoyageConfig;
pub use errors::VoyageError;
pub use models::embeddings::{EmbeddingModel, EmbeddingsInput, InputType};
pub use models::rerank::{RerankModel, RerankRequest, RerankResponse};
