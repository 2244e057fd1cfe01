//! Requests for embeddings and what the service answers.
//!
//! Vector components are carried as the bit patterns of IEEE 754
//! single-precision numbers: the library moves vectors, it never computes
//! with them.

use crate::errors::VoyageError;
use vstd::prelude::*;

verus! {

#[derive(Debug, Clone, Copy, PartialEq, Eq, Structural)]
pub enum InputType {
    Query,
    Document,
    Code,
    Ast,
}

/// One text or a batch of texts to embed.
#[derive(Debug, Clone)]
pub enum EmbeddingsInput {
    Single(String),
    Multiple(Vec<String>),
}

/// The texts of a list of strings.
pub open spec fn texts_of(strings: Seq<String>) -> Seq<Seq<char>> {
    strings.map_values(|s: String| s@)
}

impl EmbeddingsInput {
    /// The texts of the input, in order; a single text is a batch of one.
    pub open spec fn texts(self) -> Seq<Seq<char>> {
        match self {
            EmbeddingsInput::Single(text) => seq![text@],
            EmbeddingsInput::Multiple(texts) => texts_of(texts@),
        }
    }
}

impl From<String> for EmbeddingsInput {
    fn from(s: String) -> (input: EmbeddingsInput)
        ensures
            input == EmbeddingsInput::Single(s),
    {
        EmbeddingsInput::Single(s)
    }
}

impl vstd::std_specs::convert::FromSpecImpl<String> for EmbeddingsInput {
    open spec fn obeys_from_spec() -> bool {
        true
    }

    open spec fn from_spec(s: String) -> EmbeddingsInput {
        EmbeddingsInput::Single(s)
    }
}

impl From<Vec<String>> for EmbeddingsInput {
    fn from(v: Vec<String>) -> (input: EmbeddingsInput)
        ensures
            input == EmbeddingsInput::Multiple(v),
    {
        EmbeddingsInput::Multiple(v)
    }
}

impl vstd::std_specs::convert::FromSpecImpl<Vec<String>> for EmbeddingsInput {
    open spec fn obeys_from_spec() -> bool {
        true
    }

    open spec fn from_spec(v: Vec<String>) -> EmbeddingsInput {
        EmbeddingsInput::Multiple(v)
    }
}

impl<'a> From<&'a str> for EmbeddingsInput {
    fn from(s: &'a str) -> (input: EmbeddingsInput)
        ensures
            input.texts() == seq![s@],
            input is Single,
    {
        EmbeddingsInput::Single(s.to_owned())
    }
}

impl<'a> vstd::std_specs::convert::FromSpecImpl<&'a str> for EmbeddingsInput {
    open spec fn obeys_from_spec() -> bool {
        false
    }

    open spec fn from_spec(s: &'a str) -> EmbeddingsInput {
        arbitrary()
    }
}

impl<'a> vstd::std_specs::convert::TryFromSpecImpl<&'a [String]> for EmbeddingsInput {
    open spec fn obeys_try_from_spec() -> bool {
        false
    }

    open spec fn try_from_spec(v: &'a [String]) -> Result<EmbeddingsInput, VoyageError> {
        arbitrary()
    }
}

impl<'a> vstd::std_specs::convert::TryFromSpecImpl<Vec<&'a str>> for EmbeddingsInput {
    open spec fn obeys_try_from_spec() -> bool {
        false
    }

    open spec fn try_from_spec(v: Vec<&'a str>) -> Result<EmbeddingsInput, VoyageError> {
        arbitrary()
    }
}

impl<'a> TryFrom<&'a [String]> for EmbeddingsInput {
    type Error = VoyageError;

    fn try_from(v: &'a [String]) -> (result: Result<EmbeddingsInput, VoyageError>)
        ensures
            result matches Ok(input) && input.texts() == texts_of(v@) && input is Multiple,
    {
        Ok(EmbeddingsInput::multiple(v))
    }
}

impl<'a> TryFrom<Vec<&'a str>> for EmbeddingsInput {
    type Error = VoyageError;

    fn try_from(v: Vec<&'a str>) -> (result: Result<EmbeddingsInput, VoyageError>)
        ensures
            result matches Ok(input) && input is Multiple && input.texts() == v@.map_values(
                |s: &str| s@,
            ),
    {
        let mut held: Vec<String> = Vec::new();
        let mut i: usize = 0;
        while i < v.len()
            invariant
                i <= v.len(),
                held@.len() == i,
                forall|k: int| 0 <= k < i ==> (#[trigger] held@[k])@ == v@[k]@,
            decreases v.len() - i,
        {
            held.push(v[i].to_owned());
            i += 1;
        }
        assert(texts_of(held@) =~= v@.map_values(|s: &str| s@));
        Ok(EmbeddingsInput::Multiple(held))
    }
}

impl EmbeddingsInput {
    /// The input that holds one text.
    pub fn single(text: &str) -> (input: EmbeddingsInput)
        ensures
            input.texts() == seq![text@],
            input is Single,
    {
        EmbeddingsInput::Single(text.to_owned())
    }

    /// The input that holds the texts of `texts`, in their order.
    pub fn multiple(texts: &[String]) -> (input: EmbeddingsInput)
        ensures
            input.texts() == texts_of(texts@),
            input is Multiple,
    {
        let mut held: Vec<String> = Vec::new();
        let mut i: usize = 0;
        while i < texts.len()
            invariant
                i <= texts.len(),
                held@.len() == i,
                forall|k: int| 0 <= k < i ==> (#[trigger] held@[k])@ == texts@[k]@,
            decreases texts.len() - i,
        {
            held.push(texts[i].clone());
            i += 1;
        }
        assert(texts_of(held@) =~= texts_of(texts@));
        EmbeddingsInput::Multiple(held)
    }
}

#[derive(Debug, Clone, Copy, PartialEq, Eq, Structural)]
pub enum EncodingFormat {
    Float,
    Base64,
}

/// The embedding models of the service.
#[derive(Debug, Clone, Copy, PartialEq, Eq, Structural)]
pub enum EmbeddingModel {
    Voyage3Large,
    VoyageCode3,
}

impl Default for EmbeddingModel {
    fn default() -> (model: EmbeddingModel)
        ensures
            model == EmbeddingModel::Voyage3Large,
    {
        EmbeddingModel::Voyage3Large
    }
}

impl EmbeddingModel {
    /// The largest number of tokens of one text that the model reads.
    pub fn max_context_length(&self) -> (tokens: usize)
        ensures
            tokens == 32000,
    {
        match self {
            EmbeddingModel::Voyage3Large | EmbeddingModel::VoyageCode3 => 32000,
        }
    }

    /// The largest number of tokens that one request may hold.
    pub fn max_tokens_per_request(&self) -> (tokens: usize)
        ensures
            tokens == 320_000,
    {
        match self {
            EmbeddingModel::Voyage3Large => 320_000,
            EmbeddingModel::VoyageCode3 => 320_000,
        }
    }

    pub open spec fn spec_embedding_dimension(self) -> nat {
        match self {
            EmbeddingModel::Voyage3Large => 2048,
            EmbeddingModel::VoyageCode3 => 1024,
        }
    }

    /// The number of components of the vectors that the model produces.
    pub fn embedding_dimension(&self) -> (dimension: usize)
        ensures
            dimension == self.spec_embedding_dimension(),
    {
        match self {
            EmbeddingModel::Voyage3Large => 2048,
            EmbeddingModel::VoyageCode3 => 1024,
        }
    }

    pub open spec fn spec_name(self) -> Seq<char> {
        match self {
            EmbeddingModel::Voyage3Large => "voyage-3-large"@,
            EmbeddingModel::VoyageCode3 => "voyage-code-3"@,
        }
    }

    /// The model that `name` names, the default model where it names
    /// none.
    pub open spec fn spec_from_name(name: Seq<char>) -> EmbeddingModel {
        if name == "voyage-code-3"@ {
            EmbeddingModel::VoyageCode3
        } else {
            EmbeddingModel::Voyage3Large
        }
    }

    /// Reads the name of a model as the service spells it. A name that the
    /// library does not know stands for the default model.
    pub fn from_name(name: &str) -> (model: EmbeddingModel)
        ensures
            model == Self::spec_from_name(name@),
    {
        if name.to_owned() == "voyage-code-3".to_owned() {
            EmbeddingModel::VoyageCode3
        } else {
            EmbeddingModel::Voyage3Large
        }
    }

    /// The name by which the service knows the model.
    pub fn name(&self) -> (name: &'static str)
        ensures
            name@ == self.spec_name(),
    {
        match self {
            EmbeddingModel::Voyage3Large => "voyage-3-large",
            EmbeddingModel::VoyageCode3 => "voyage-code-3",
        }
    }
}

#[derive(Debug, Clone)]
pub struct EmbeddingsRequest {
    pub input: EmbeddingsInput,
    pub model: EmbeddingModel,
    pub input_type: Option<InputType>,
    pub truncation: Option<bool>,
    pub encoding_format: Option<EncodingFormat>,
}

/// What a request has cost, as the service counts it.
#[derive(Debug, Clone, Copy, PartialEq, Eq, Structural)]
pub struct Usage {
    pub total_tokens: u32,
}

/// One vector of a response, with the position of its text in the request.
#[derive(Debug, Clone)]
pub struct EmbeddingData {
    pub object: String,
    pub embedding: Vec<u32>,
    pub index: usize,
}

#[derive(Debug, Clone)]
pub struct EmbeddingsResponse {
    pub object: String,
    pub data: Vec<EmbeddingData>,
    pub model: String,
    pub usage: Usage,
}

/// The two vectors of a piece of source code: one of its text and one of
/// its syntax tree.
#[derive(Debug, Clone)]
pub struct CodeEmbedding {
    pub text_embedding: Vec<u32>,
    pub ast_embedding: Vec<u32>,
}

} // verus!
