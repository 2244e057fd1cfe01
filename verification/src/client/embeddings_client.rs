//! Embeddings: building a request, estimating its cost, judging the
//! response and taking the vectors out of it.

use crate::client::rate_limiter::{admission_for, Admission, ResourcePool};
use crate::errors::{VoyageError, VoyageErrorView};
use crate::models::embeddings::{
    texts_of, EmbeddingData, EmbeddingModel, EmbeddingsInput, EmbeddingsRequest,
    EmbeddingsResponse, InputType,
};
use crate::models::ast::SerializableAst;
use crate::utils::{
    are_records_of, block_views, error_message, parse_rust_ast, rust_items, CodeBlock,
};
use crate::models::code::CodeBlockView;
use crate::text::capped;
use vstd::prelude::*;
use vstd::string::StringSliceAdditionalSpecFns;
use vstd::utf8::encode_utf8;

verus! {

/// Name of the kind of object that a vector of a response is.
pub const EMBEDDING_OBJECT: &'static str = "embedding";

/// The estimated tokens of one text: one for every four bytes of its
/// UTF-8 form, a last group of fewer bytes counting as one.
pub open spec fn text_tokens(text: Seq<char>) -> nat {
    ((encode_utf8(text).len() + 3) / 4) as nat
}

/// The estimated tokens of the first `n` of `texts`.
pub open spec fn batch_tokens(texts: Seq<Seq<char>>, n: int) -> nat
    decreases n,
{
    if n <= 0 {
        0
    } else {
        batch_tokens(texts, n - 1) + text_tokens(texts[n - 1])
    }
}

/// The estimated cost of embedding `input`: the tokens of its texts and
/// two more for each text, capped at the largest estimate.
pub open spec fn estimated_tokens(input: EmbeddingsInput) -> int {
    let texts = input.texts();
    capped((batch_tokens(texts, texts.len() as int) + 2 * texts.len()) as int)
}

fn estimate_text(text: &str) -> (tokens: u64)
    ensures
        tokens == capped(text_tokens(text@) as int),
{
    let bytes: usize = text.as_bytes().len();
    let groups: usize = bytes / 4 + if bytes % 4 == 0 { 0 } else { 1 };
    if groups > u32::MAX as usize {
        u32::MAX as u64
    } else {
        groups as u64
    }
}

/// Estimates what a request will cost before it is sent, from the size of
/// its texts alone.
pub fn estimate_tokens(request: &EmbeddingsRequest) -> (estimate: u32)
    ensures
        estimate == estimated_tokens(request.input),
{
    match &request.input {
        EmbeddingsInput::Single(text) => {
            let tokens = estimate_text(text.as_str());
            assert(batch_tokens(seq![text@], 1) == text_tokens(text@)) by {
                assert(batch_tokens(seq![text@], 0) == 0);
            }
            if tokens + 2 > u32::MAX as u64 {
                u32::MAX
            } else {
                (tokens + 2) as u32
            }
        },
        EmbeddingsInput::Multiple(texts) => {
            let ghost all = texts_of(texts@);
            let mut total: u64 = 0;
            let mut i: usize = 0;
            while i < texts.len()
                invariant
                    i <= texts.len(),
                    all == texts_of(texts@),
                    total == capped(batch_tokens(all, i as int) + 2 * i),
                decreases texts.len() - i,
            {
                let tokens = estimate_text(texts[i].as_str());
                total = total + tokens + 2;
                if total > u32::MAX as u64 {
                    total = u32::MAX as u64;
                }
                i += 1;
            }
            total as u32
        },
    }
}

/// The request that embeds `input` with `model` as a text of the kind
/// `input_type`, with nothing else set.
pub fn request_for(input: EmbeddingsInput, model: EmbeddingModel, input_type: Option<InputType>) -> (request:
    EmbeddingsRequest)
    ensures
        request.input == input,
        request.model == model,
        request.input_type == input_type,
        request.truncation is None,
        request.encoding_format is None,
{
    EmbeddingsRequest { input, model, input_type, truncation: None, encoding_format: None }
}

/// The request that embeds one text.
pub fn single_request(text: &str, model: EmbeddingModel) -> (request: EmbeddingsRequest)
    ensures
        request.input matches EmbeddingsInput::Single(held) && held@ == text@,
        request.model == model,
        request.input_type is None,
        request.truncation is None,
        request.encoding_format is None,
{
    request_for(EmbeddingsInput::Single(text.to_owned()), model, None)
}

/// The request that embeds a batch of texts, or nothing for an empty
/// batch: an empty batch has an empty result, and neither the rate limiter
/// nor the service is asked for it.
pub fn batch_request(texts: Vec<String>, model: EmbeddingModel) -> (request: Option<
    EmbeddingsRequest,
>)
    ensures
        texts@.len() == 0 <==> request is None,
        request matches Some(built) ==> {
            &&& built.input == EmbeddingsInput::Multiple(texts)
            &&& built.model == model
            &&& built.input_type is None
            &&& built.truncation is None
            &&& built.encoding_format is None
        },
{
    if texts.len() == 0 {
        None
    } else {
        Some(request_for(EmbeddingsInput::Multiple(texts), model, None))
    }
}

/// What is to be done for a batch of texts.
#[derive(Debug, Clone)]
pub enum BatchPlan {
    /// Nothing is to be sent: these are the vectors of the batch.
    Done(Vec<Vec<u32>>),
    /// This request is to be sent.
    Send(EmbeddingsRequest),
}

/// Plans the embedding of a batch. An empty batch is done at once, with
/// the empty list of vectors as its result, and neither the rate limiter
/// nor the service is asked for it. Any other batch is one request that
/// holds all its texts in their order.
pub fn plan_batch(texts: Vec<String>, model: EmbeddingModel) -> (plan: BatchPlan)
    ensures
        texts@.len() == 0 ==> (plan matches BatchPlan::Done(vectors) && vectors@.len() == 0),
        texts@.len() > 0 ==> (plan matches BatchPlan::Send(built) && built.input
            == EmbeddingsInput::Multiple(texts) && built.model == model && built.input_type is None
            && built.truncation is None && built.encoding_format is None),
{
    match batch_request(texts, model) {
        Some(request) => BatchPlan::Send(request),
        None => BatchPlan::Done(Vec::new()),
    }
}

/// The number of vectors that the channel of a stream of embeddings
/// holds: room for every vector of the batch, and for one where the batch
/// is empty, since a channel without room cannot be made.
pub fn embedding_stream_capacity(texts: usize) -> (capacity: usize)
    ensures
        capacity >= 1,
        texts > 0 ==> capacity == texts,
        texts == 0 ==> capacity == 1,
{
    if texts == 0 {
        1
    } else {
        texts
    }
}

/// First step of an embedding call: estimates the cost of `request` and
/// asks the embedding pool whether it may be sent now.
pub fn begin_embedding(pool: &mut ResourcePool, now: u64, request: &EmbeddingsRequest) -> (admission:
    Admission)
    ensures
        final(pool)@ == old(pool)@.rolled(now as nat),
        admission == admission_for(
            old(pool)@.wait(now as nat, estimated_tokens(request.input) as nat),
        ),
{
    let estimate = estimate_tokens(request);
    pool.admission(now, estimate)
}

/// What a response with the given status means, for a body already read:
/// the body of a success, or the error that the status stands for.
pub open spec fn judged(status: u16, body: Seq<char>) -> Result<Seq<char>, VoyageErrorView> {
    if status == 200 {
        Ok(body)
    } else if status == 401 {
        Err(VoyageErrorView::Unauthorized)
    } else if status == 403 {
        Err(VoyageErrorView::Forbidden(body))
    } else {
        Err(VoyageErrorView::ApiError(status, body))
    }
}

/// Judges the response to an embedding request by its status. Only status
/// 200 is a success; 401 says that the key was refused and 403 that the
/// request was; every other status is handed on with the body for the
/// caller to inspect.
pub fn judge_response(status: u16, body: String) -> (result: Result<String, VoyageError>)
    ensures
        match result {
            Ok(text) => judged(status, body@) == Ok::<Seq<char>, VoyageErrorView>(text@),
            Err(error) => judged(status, body@) == Err::<Seq<char>, VoyageErrorView>(error@),
        },
{
    if status == 200 {
        Ok(body)
    } else if status == 401 {
        Err(VoyageError::Unauthorized)
    } else if status == 403 {
        Err(VoyageError::Forbidden(body))
    } else {
        Err(VoyageError::ApiError(status, body))
    }
}

/// What an exchange with the service means: `outcome` is the status and
/// the body of the response, or the transport's words where no response
/// came.
pub open spec fn received(outcome: Result<(u16, String), String>) -> Result<
    Seq<char>,
    VoyageErrorView,
> {
    match outcome {
        Ok((status, body)) => judged(status, body@),
        Err(detail) => Err(VoyageErrorView::RequestError(detail@)),
    }
}

/// Judges what the transport brought back for an embedding request: a
/// request that got no response fails with the transport's words, and a
/// response is judged by its status.
pub fn judge_exchange(outcome: Result<(u16, String), String>) -> (result: Result<
    String,
    VoyageError,
>)
    ensures
        match result {
            Ok(text) => received(outcome) == Ok::<Seq<char>, VoyageErrorView>(text@),
            Err(error) => received(outcome) == Err::<Seq<char>, VoyageErrorView>(error@),
        },
{
    match outcome {
        Ok((status, body)) => judge_response(status, body),
        Err(detail) => Err(VoyageError::RequestError(detail)),
    }
}

/// `data` is the single entry that stands in for the vectors of a
/// response that came without any: one vector of one zero, at position 0.
pub open spec fn is_placeholder(data: Seq<EmbeddingData>) -> bool {
    &&& data.len() == 1
    &&& data[0].object@ == EMBEDDING_OBJECT@
    &&& data[0].embedding@ == seq![0u32]
    &&& data[0].index == 0
}

/// `filled` is `response` made fit for a caller that reads its first
/// vector: unchanged where it holds a vector, and with the placeholder
/// entry where it holds none.
pub open spec fn is_filled(filled: EmbeddingsResponse, response: EmbeddingsResponse) -> bool {
    &&& filled.object == response.object
    &&& filled.model == response.model
    &&& filled.usage == response.usage
    &&& if response.data@.len() == 0 {
        is_placeholder(filled.data@)
    } else {
        filled.data == response.data
    }
}

/// Gives a response without vectors the placeholder entry, and leaves
/// every other response as it is.
pub fn fill_response(response: EmbeddingsResponse) -> (filled: EmbeddingsResponse)
    ensures
        is_filled(filled, response),
        filled.data@.len() > 0,
{
    if response.data.len() == 0 {
        let mut embedding: Vec<u32> = Vec::new();
        embedding.push(0);
        let mut data: Vec<EmbeddingData> = Vec::new();
        data.push(EmbeddingData { object: EMBEDDING_OBJECT.to_owned(), embedding, index: 0 });
        EmbeddingsResponse {
            object: response.object,
            data,
            model: response.model,
            usage: response.usage,
        }
    } else {
        response
    }
}

/// Last step of an embedding call whose response had a body to read.
/// `parsed` is the response read from the body, or the reason why the body
/// could not be read as one. A response is filled, and charged to the
/// embedding pool with the cost that the service reports, once. A body
/// that could not be read charges nothing.
pub fn accept_embeddings_response(
    pool: &mut ResourcePool,
    now: u64,
    parsed: Result<EmbeddingsResponse, String>,
) -> (result: Result<EmbeddingsResponse, VoyageError>)
    ensures
        match parsed {
            Ok(response) => {
                &&& result matches Ok(filled) && is_filled(filled, response) && filled.data@.len()
                    > 0
                &&& final(pool)@ == old(pool)@.rolled(now as nat).charged(
                    response.usage.total_tokens as nat,
                )
            },
            Err(detail) => {
                &&& result matches Err(error) && error@ == VoyageErrorView::JsonError(detail@)
                &&& final(pool)@ == old(pool)@
            },
        },
{
    match parsed {
        Ok(response) => {
            let filled = fill_response(response);
            pool.update(now, filled.usage.total_tokens);
            Ok(filled)
        },
        Err(detail) => Err(VoyageError::JsonError(detail)),
    }
}

/// The vector of a response to a request for one text: the vector of its
/// first entry, or the placeholder's vector where it has no entry.
pub fn single_result(response: &EmbeddingsResponse) -> (embedding: Vec<u32>)
    ensures
        embedding@ == if response.data@.len() == 0 {
            seq![0u32]
        } else {
            response.data@[0].embedding@
        },
{
    if response.data.len() == 0 {
        let mut embedding: Vec<u32> = Vec::new();
        embedding.push(0);
        embedding
    } else {
        response.data[0].embedding.clone()
    }
}

/// The vectors of a response, in the order of its entries.
pub open spec fn vectors_of(data: Seq<EmbeddingData>) -> Seq<Seq<u32>> {
    data.map_values(|entry: EmbeddingData| entry.embedding@)
}

/// The vectors of `embeddings` as sequences.
pub open spec fn vector_views(embeddings: Seq<Vec<u32>>) -> Seq<Seq<u32>> {
    embeddings.map_values(|embedding: Vec<u32>| embedding@)
}

/// Takes the vectors out of a response to a request for a batch, one for
/// each entry and in the order of the entries, which is the order of the
/// texts in the request.
pub fn batch_result(response: EmbeddingsResponse) -> (embeddings: Vec<Vec<u32>>)
    ensures
        vector_views(embeddings@) == vectors_of(response.data@),
{
    let mut embeddings: Vec<Vec<u32>> = Vec::new();
    let mut i: usize = 0;
    while i < response.data.len()
        invariant
            i <= response.data.len(),
            embeddings@.len() == i,
            forall|k: int| 0 <= k < i ==> (#[trigger] embeddings@[k])@ == response.data@[k].embedding@,
        decreases response.data.len() - i,
    {
        embeddings.push(response.data[i].embedding.clone());
        i += 1;
    }
    assert(vector_views(embeddings@) =~= vectors_of(response.data@));
    embeddings
}

/// What embedding one text hands to its caller for the outcome of the
/// call: the first vector of a call that succeeded, and the error of a
/// call that failed, as it is.
pub fn embed(outcome: Result<EmbeddingsResponse, VoyageError>) -> (result: Result<
    Vec<u32>,
    VoyageError,
>)
    ensures
        match outcome {
            Ok(response) => result matches Ok(embedding) && embedding@ == if response.data@.len()
                == 0 {
                seq![0u32]
            } else {
                response.data@[0].embedding@
            },
            Err(error) => result == Err::<Vec<u32>, VoyageError>(error),
        },
{
    match outcome {
        Ok(response) => Ok(single_result(&response)),
        Err(error) => Err(error),
    }
}

/// What embedding a batch hands to its caller for the outcome of the call:
/// the vectors of a call that succeeded, in the order of the texts, and
/// the error of a call that failed, as it is.
pub fn embed_batch(outcome: Result<EmbeddingsResponse, VoyageError>) -> (result: Result<
    Vec<Vec<u32>>,
    VoyageError,
>)
    ensures
        match outcome {
            Ok(response) => result matches Ok(embeddings) && vector_views(embeddings@)
                == vectors_of(response.data@),
            Err(error) => result == Err::<Vec<Vec<u32>>, VoyageError>(error),
        },
{
    match outcome {
        Ok(response) => Ok(batch_result(response)),
        Err(error) => Err(error),
    }
}

/// The items that the stream of embeddings carries for the outcome of the
/// call: the vectors of a call that succeeded, in the order of the texts,
/// and nothing for a call that failed.
pub fn embed_stream(outcome: Result<EmbeddingsResponse, VoyageError>) -> (embeddings: Vec<
    Vec<u32>,
>)
    ensures
        match outcome {
            Ok(response) => vector_views(embeddings@) == vectors_of(response.data@),
            Err(_) => embeddings@.len() == 0,
        },
{
    match outcome {
        Ok(response) => batch_result(response),
        Err(_) => Vec::new(),
    }
}

/// The request that embeds source code as text.
pub fn code_request(code: &str, model: EmbeddingModel) -> (request: EmbeddingsRequest)
    ensures
        request.input matches EmbeddingsInput::Single(held) && held@ == code@,
        request.model == model,
        request.input_type == Some(InputType::Code),
        request.truncation is None,
        request.encoding_format is None,
{
    request_for(EmbeddingsInput::Single(code.to_owned()), model, Some(InputType::Code))
}

/// The request that embeds the serialised syntax tree of source code.
pub fn ast_request(ast: String, model: EmbeddingModel) -> (request: EmbeddingsRequest)
    ensures
        request.input == EmbeddingsInput::Single(ast),
        request.model == model,
        request.input_type == Some(InputType::Ast),
        request.truncation is None,
        request.encoding_format is None,
{
    request_for(EmbeddingsInput::Single(ast), model, Some(InputType::Ast))
}

/// Reads source code for its syntax tree. Code that the parser refuses
/// gives a tokenizer error that carries the parser's message.
pub fn parse_code(code: &str) -> (result: Result<SerializableAst, VoyageError>)
    ensures
        match result {
            Ok(ast) => rust_items(code@) matches Some(shapes) && are_records_of(
                ast.items@,
                shapes,
            ),
            Err(error) => rust_items(code@) is None && error is TokenizerError,
        },
{
    match parse_rust_ast(code) {
        Ok(ast) => Ok(ast),
        Err(error) => Err(VoyageError::TokenizerError(error_message(&error))),
    }
}

/// The contents of those of the first `n` blocks whose language is
/// `rust`, in the order of the blocks.
pub open spec fn rust_contents(blocks: Seq<CodeBlockView>, n: int) -> Seq<Seq<char>>
    decreases n,
{
    if n <= 0 {
        Seq::empty()
    } else if blocks[n - 1].language == Some("rust"@) {
        rust_contents(blocks, n - 1).push(blocks[n - 1].content)
    } else {
        rust_contents(blocks, n - 1)
    }
}

/// Picks the code to embed out of the blocks of a Markdown text: the
/// content of every block whose language is exactly `rust`.
pub fn rust_sources(blocks: &Vec<CodeBlock>) -> (sources: Vec<String>)
    ensures
        texts_of(sources@) == rust_contents(block_views(blocks@), blocks@.len() as int),
{
    let ghost views = block_views(blocks@);
    let mut sources: Vec<String> = Vec::new();
    let mut i: usize = 0;
    assert(texts_of(sources@) =~= Seq::empty());
    while i < blocks.len()
        invariant
            i <= blocks.len(),
            views == block_views(blocks@),
            texts_of(sources@) == rust_contents(views, i as int),
        decreases blocks.len() - i,
    {
        assert(views[i as int] == blocks@[i as int]@);
        let rust = match &blocks[i].language {
            Some(language) => *language == "rust".to_owned(),
            None => false,
        };
        if rust {
            let ghost before = texts_of(sources@);
            sources.push(blocks[i].content.clone());
            assert(texts_of(sources@) =~= before.push(blocks@[i as int].content@));
        }
        i += 1;
    }
    sources
}

} // verus!
