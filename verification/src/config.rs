//! Settings of a client.

use crate::models::embeddings::EmbeddingModel;
use vstd::prelude::*;

verus! {

/// The credential and the default embedding model of a client.
#[derive(Clone, Debug)]
pub struct VoyageConfig {
    api_key: String,
    embedding_model: EmbeddingModel,
}

impl VoyageConfig {
    pub closed spec fn spec_api_key(&self) -> Seq<char> {
        self.api_key@
    }

    pub closed spec fn spec_embedding_model(&self) -> EmbeddingModel {
        self.embedding_model
    }

    /// A configuration with the given key and the default model.
    pub fn new(api_key: String) -> (config: VoyageConfig)
        ensures
            config.spec_api_key() == api_key@,
            config.spec_embedding_model() == EmbeddingModel::Voyage3Large,
    {
        VoyageConfig { api_key, embedding_model: EmbeddingModel::Voyage3Large }
    }

    pub fn api_key(&self) -> (key: &str)
        ensures
            key@ == self.spec_api_key(),
    {
        self.api_key.as_str()
    }

    pub fn embedding_model(&self) -> (model: EmbeddingModel)
        ensures
            model == self.spec_embedding_model(),
    {
        self.embedding_model
    }

    /// The same configuration with another default model.
    pub fn with_embedding_model(self, model: EmbeddingModel) -> (config: VoyageConfig)
        ensures
            config.spec_api_key() == self.spec_api_key(),
            config.spec_embedding_model() == model,
    {
        VoyageConfig { api_key: self.api_key, embedding_model: model }
    }
}

} // verus!
