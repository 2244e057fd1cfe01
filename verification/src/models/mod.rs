//! Plain records exchanged with the service and with callers.

pub mod ast;
pub mod code;
pub mod embeddings;
pub mod rerank;
