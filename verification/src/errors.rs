//! What a call through the gateway can fail with.

use crate::models::rerank::ValidationError;
use vstd::prelude::*;

verus! {

/// Message of the error that stands for an embedding task that ended
/// without handing over a result.
pub const EMBEDDING_CANCELED: &'static str = "Embedding task canceled";

/// The same for a batch of embeddings.
pub const BATCH_EMBEDDING_CANCELED: &'static str = "Batch embedding task canceled";

/// The same for the search of the most similar document.
pub const SIMILARITY_CANCELED: &'static str = "Similarity task canceled";

/// Message of the error returned when the service ranked no document.
pub const NO_MATCHING_DOCUMENTS: &'static str = "No matching documents found";

/// Message of the error returned when a client is built without a key.
pub const API_KEY_REQUIRED: &'static str = "API key is required";

/// Failure of one call. Nothing here is retried by the library.
#[derive(Clone, Debug)]
pub enum VoyageError {
    /// The service rejected the credential (status 401).
    Unauthorized,
    /// The service refused the request (status 403); holds the body.
    Forbidden(String),
    /// Any other status than success; holds the status and the body.
    ApiError(u16, String),
    /// The request never produced a response; holds the transport's words.
    RequestError(String),
    /// The body of a successful response did not have the expected shape.
    JsonError(String),
    /// Source text handed in for embedding could not be parsed.
    TokenizerError(String),
    /// A client was configured incompletely.
    BuilderError(String),
    /// A request was refused before anything was sent.
    ValidationError(ValidationError),
    /// Anything else, among them a background task that ended without a
    /// result and a ranking that came back empty.
    Other(String),
}

/// [`VoyageError`] with its texts as sequences of characters.
pub enum VoyageErrorView {
    Unauthorized,
    Forbidden(Seq<char>),
    ApiError(u16, Seq<char>),
    RequestError(Seq<char>),
    JsonError(Seq<char>),
    TokenizerError(Seq<char>),
    BuilderError(Seq<char>),
    ValidationError(ValidationError),
    Other(Seq<char>),
}

impl View for VoyageError {
    type V = VoyageErrorView;

    open spec fn view(&self) -> VoyageErrorView {
        match self {
            VoyageError::Unauthorized => VoyageErrorView::Unauthorized,
            VoyageError::Forbidden(body) => VoyageErrorView::Forbidden(body@),
            VoyageError::ApiError(status, body) => VoyageErrorView::ApiError(*status, body@),
            VoyageError::RequestError(detail) => VoyageErrorView::RequestError(detail@),
            VoyageError::JsonError(detail) => VoyageErrorView::JsonError(detail@),
            VoyageError::TokenizerError(detail) => VoyageErrorView::TokenizerError(detail@),
            VoyageError::BuilderError(detail) => VoyageErrorView::BuilderError(detail@),
            VoyageError::ValidationError(error) => VoyageErrorView::ValidationError(*error),
            VoyageError::Other(detail) => VoyageErrorView::Other(detail@),
        }
    }
}

impl VoyageError {
    /// The error is final for the credential in use: asking again with the
    /// same key cannot succeed.
    pub open spec fn terminal(self) -> bool {
        self is Unauthorized || self is Forbidden
    }

    pub fn is_terminal(&self) -> (terminal: bool)
        ensures
            terminal == self.terminal(),
    {
        match self {
            VoyageError::Unauthorized => true,
            VoyageError::Forbidden(_) => true,
            _ => false,
        }
    }
}

} // verus!
