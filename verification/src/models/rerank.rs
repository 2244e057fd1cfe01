//! Requests for a ranking of documents and what the service answers.

use crate::models::embeddings::Usage;
use vstd::prelude::*;

verus! {

/// The reranking models of the service.
#[derive(Debug, Clone, Copy, PartialEq, Eq, Structural)]
pub enum RerankModel {
    Rerank2,
    Rerank2Lite,
}

impl Default for RerankModel {
    fn default() -> (model: RerankModel)
        ensures
            model == RerankModel::Rerank2,
    {
        RerankModel::Rerank2
    }
}

impl RerankModel {
    pub open spec fn spec_name(self) -> Seq<char> {
        match self {
            RerankModel::Rerank2 => "rerank-2"@,
            RerankModel::Rerank2Lite => "rerank-2-lite"@,
        }
    }

    /// The name by which the service knows the model.
    pub fn name(&self) -> (name: &'static str)
        ensures
            name@ == self.spec_name(),
    {
        match self {
            RerankModel::Rerank2 => "rerank-2",
            RerankModel::Rerank2Lite => "rerank-2-lite",
        }
    }
}

/// Why a request for a ranking was not built.
#[derive(Debug, Clone, Copy, PartialEq, Eq, Structural)]
pub enum ValidationError {
    /// The query has no characters.
    EmptyQuery,
    /// There is no document to rank, or no query was given to a builder.
    EmptyDocuments,
}

/// A relevance score: an IEEE 754 double-precision number carried by its
/// bit pattern. The library hands scores on and never computes with them.
#[derive(Debug, Clone, Copy, PartialEq, Eq, Structural)]
pub struct Score {
    pub bits: u64,
}

impl Score {
    pub fn from_bits(bits: u64) -> (score: Score)
        ensures
            score.bits == bits,
    {
        Score { bits }
    }

    pub fn to_bits(&self) -> (bits: u64)
        ensures
            bits == self.bits,
    {
        self.bits
    }
}

/// A validated request: its query is not empty and it holds a document.
#[derive(Debug, Clone)]
pub struct RerankRequest {
    pub query: String,
    pub documents: Vec<String>,
    pub model: RerankModel,
    pub top_k: Option<usize>,
}

impl RerankRequest {
    /// The outcome of validating a query and a number of documents.
    pub open spec fn validation(query: Seq<char>, documents: nat) -> Result<(), ValidationError> {
        if query.len() == 0 {
            Err(ValidationError::EmptyQuery)
        } else if documents == 0 {
            Err(ValidationError::EmptyDocuments)
        } else {
            Ok(())
        }
    }

    /// Builds a request, or says what is missing: the query is looked at
    /// first, then the documents.
    pub fn new(
        query: String,
        documents: Vec<String>,
        model: RerankModel,
        top_k: Option<usize>,
    ) -> (result: Result<RerankRequest, ValidationError>)
        ensures
            match result {
                Ok(request) => {
                    &&& Self::validation(query@, documents@.len()) is Ok
                    &&& request.query == query
                    &&& request.documents == documents
                    &&& request.model == model
                    &&& request.top_k == top_k
                },
                Err(error) => Self::validation(query@, documents@.len()) == Err::<
                    (),
                    ValidationError,
                >(error),
            },
    {
        if query.as_str().is_empty() {
            Err(ValidationError::EmptyQuery)
        } else if documents.len() == 0 {
            Err(ValidationError::EmptyDocuments)
        } else {
            Ok(RerankRequest { query, documents, model, top_k })
        }
    }
}

/// One entry of a ranking: the position of a document in the request and
/// the score that the service gave it.
#[derive(Debug, Clone, Copy, PartialEq, Eq, Structural)]
pub struct RerankResult {
    pub index: usize,
    pub relevance_score: Score,
}

/// A ranking, best document first, and what it has cost.
#[derive(Debug, Clone)]
pub struct RerankResponse {
    pub data: Vec<RerankResult>,
    pub usage: Usage,
}

} // verus!
