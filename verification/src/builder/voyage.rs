//! Collects what a client needs before it can be made.

use crate::config::VoyageConfig;
use crate::errors::{VoyageError, VoyageErrorView, API_KEY_REQUIRED};
use crate::models::embeddings::EmbeddingModel;
use vstd::prelude::*;

verus! {

#[derive(Clone)]
pub struct VoyageBuilder {
    config: Option<VoyageConfig>,
}

impl VoyageBuilder {
    /// The key that the builder holds, if it was given one.
    pub closed spec fn api_key(&self) -> Option<Seq<char>> {
        match self.config {
            Some(config) => Some(config.spec_api_key()),
            None => None,
        }
    }

    /// The default embedding model of the client to be built.
    pub closed spec fn embedding_model(&self) -> EmbeddingModel {
        match self.config {
            Some(config) => config.spec_embedding_model(),
            None => EmbeddingModel::Voyage3Large,
        }
    }

    /// A builder that holds no key yet.
    pub fn new() -> (builder: VoyageBuilder)
        ensures
            builder.api_key() is None,
            builder.embedding_model() == EmbeddingModel::Voyage3Large,
    {
        VoyageBuilder { config: None }
    }

    /// Gives the builder the key of the client, in place of any earlier one.
    pub fn with_api_key(self, api_key: String) -> (builder: VoyageBuilder)
        ensures
            builder.api_key() == Some(api_key@),
            builder.embedding_model() == EmbeddingModel::Voyage3Large,
    {
        VoyageBuilder { config: Some(VoyageConfig::new(api_key)) }
    }

    /// The settings of the client, or an error where no key was given.
    pub fn build(self) -> (result: Result<VoyageConfig, VoyageError>)
        ensures
            match result {
                Ok(config) => {
                    &&& self.api_key() == Some(config.spec_api_key())
                    &&& config.spec_embedding_model() == self.embedding_model()
                },
                Err(error) => {
                    &&& self.api_key() is None
                    &&& error@ == VoyageErrorView::BuilderError(API_KEY_REQUIRED@)
                },
            },
    {
        match self.config {
            Some(config) => Ok(config),
            None => Err(VoyageError::BuilderError(API_KEY_REQUIRED.to_owned())),
        }
    }
}

impl Default for VoyageBuilder {
    fn default() -> (builder: VoyageBuilder)
        ensures
            builder.api_key() is None,
    {
        VoyageBuilder::new()
    }
}

} // verus!
