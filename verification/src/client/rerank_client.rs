//! Reranking: building a request, estimating its cost, judging the
//! response, and turning a ranking of positions back into the caller's own
//! documents.

use crate::client::rate_limiter::ResourcePool;
use crate::errors::{VoyageError, VoyageErrorView, NO_MATCHING_DOCUMENTS, SIMILARITY_CANCELED};
use crate::models::embeddings::texts_of;
use crate::client::rate_limiter::{admission_for, Admission};
use crate::models::rerank::{
    RerankModel, RerankRequest, RerankResponse, RerankResult, Score, ValidationError,
};
use crate::text::{capped, count_tokens, token_count};
use vstd::prelude::*;

verus! {

/// Number of ranked documents that may wait between the task that produces
/// a stream and the caller that reads it.
pub const STREAM_CAPACITY: usize = 16;

/// Collects the parts of a [`RerankRequest`] one by one.
#[derive(Debug, Clone)]
pub struct RerankRequestBuilder {
    query: Option<String>,
    documents: Vec<String>,
    model: RerankModel,
    top_k: Option<usize>,
}

/// What a [`RerankRequestBuilder`] holds.
pub struct RerankRequestBuilderView {
    pub query: Option<Seq<char>>,
    pub documents: Seq<Seq<char>>,
    pub model: RerankModel,
    pub top_k: Option<usize>,
}

impl View for RerankRequestBuilder {
    type V = RerankRequestBuilderView;

    closed spec fn view(&self) -> RerankRequestBuilderView {
        RerankRequestBuilderView {
            query: match self.query {
                Some(query) => Some(query@),
                None => None,
            },
            documents: texts_of(self.documents@),
            model: self.model,
            top_k: self.top_k,
        }
    }
}

impl RerankRequestBuilderView {
    /// What building the request will give: a builder without a query is
    /// refused as one without documents is.
    pub open spec fn outcome(self) -> Result<(), ValidationError> {
        match self.query {
            None => Err(ValidationError::EmptyDocuments),
            Some(query) => RerankRequest::validation(query, self.documents.len()),
        }
    }
}

impl RerankRequestBuilder {
    /// A builder with no query, no documents and the default model.
    pub fn new() -> (builder: RerankRequestBuilder)
        ensures
            builder@ == (RerankRequestBuilderView {
                query: None,
                documents: Seq::empty(),
                model: RerankModel::Rerank2,
                top_k: None,
            }),
    {
        let builder = RerankRequestBuilder {
            query: None,
            documents: Vec::new(),
            model: RerankModel::Rerank2,
            top_k: None,
        };
        assert(builder@.documents =~= Seq::empty());
        builder
    }

    /// Sets the query that the documents are compared with.
    pub fn query(self, query: String) -> (builder: RerankRequestBuilder)
        ensures
            builder@ == (RerankRequestBuilderView { query: Some(query@), ..self@ }),
    {
        RerankRequestBuilder {
            query: Some(query),
            documents: self.documents,
            model: self.model,
            top_k: self.top_k,
        }
    }

    /// Adds one document after those already held.
    pub fn add_document(self, document: String) -> (builder: RerankRequestBuilder)
        ensures
            builder@ == (RerankRequestBuilderView {
                documents: self@.documents.push(document@),
                ..self@
            }),
    {
        let mut documents = self.documents;
        documents.push(document);
        let builder = RerankRequestBuilder {
            query: self.query,
            documents,
            model: self.model,
            top_k: self.top_k,
        };
        assert(builder@.documents =~= self@.documents.push(document@));
        builder
    }

    /// Adds documents, in their order, after those already held.
    pub fn add_documents(self, documents: Vec<String>) -> (builder: RerankRequestBuilder)
        ensures
            builder@ == (RerankRequestBuilderView {
                documents: self@.documents + texts_of(documents@),
                ..self@
            }),
    {
        let mut held = self.documents;
        let mut added = documents;
        held.append(&mut added);
        let builder = RerankRequestBuilder {
            query: self.query,
            documents: held,
            model: self.model,
            top_k: self.top_k,
        };
        assert(builder@.documents =~= self@.documents + texts_of(documents@));
        builder
    }

    /// Sets the model that ranks.
    pub fn model(self, model: RerankModel) -> (builder: RerankRequestBuilder)
        ensures
            builder@ == (RerankRequestBuilderView { model, ..self@ }),
    {
        RerankRequestBuilder {
            query: self.query,
            documents: self.documents,
            model,
            top_k: self.top_k,
        }
    }

    /// Limits the number of entries that the service returns.
    pub fn top_k(self, top_k: usize) -> (builder: RerankRequestBuilder)
        ensures
            builder@ == (RerankRequestBuilderView { top_k: Some(top_k), ..self@ }),
    {
        RerankRequestBuilder {
            query: self.query,
            documents: self.documents,
            model: self.model,
            top_k: Some(top_k),
        }
    }

    /// Builds the request from what was collected, or says what is missing.
    pub fn build(self) -> (result: Result<RerankRequest, ValidationError>)
        ensures
            match result {
                Ok(request) => {
                    &&& self@.outcome() is Ok
                    &&& Some(request.query@) == self@.query
                    &&& texts_of(request.documents@) == self@.documents
                    &&& request.model == self@.model
                    &&& request.top_k == self@.top_k
                },
                Err(error) => self@.outcome() == Err::<(), ValidationError>(error),
            },
    {
        match self.query {
            None => Err(ValidationError::EmptyDocuments),
            Some(query) => RerankRequest::new(query, self.documents, self.model, self.top_k),
        }
    }
}

/// The number of tokens in the first `n` of `texts`.
pub open spec fn tokens_in(texts: Seq<Seq<char>>, n: int) -> nat
    decreases n,
{
    if n <= 0 {
        0
    } else {
        tokens_in(texts, n - 1) + token_count(texts[n - 1])
    }
}

/// The estimated cost of ranking `documents` against `query`: the tokens
/// of the query and of every document, counted as [`token_count`] counts
/// them, capped at the largest estimate.
pub open spec fn estimated_tokens(query: Seq<char>, documents: Seq<Seq<char>>) -> int {
    capped((token_count(query) + tokens_in(documents, documents.len() as int)) as int)
}

/// Estimates what a request will cost before it is sent. The estimate only
/// serves to ask the rate limiter; the service's own count replaces it
/// once the response is there.
pub fn estimate_tokens(request: &RerankRequest) -> (estimate: u32)
    ensures
        estimate == estimated_tokens(request.query@, texts_of(request.documents@)),
{
    let ghost texts = texts_of(request.documents@);
    let mut total: u32 = count_tokens(request.query.as_str());
    let mut i: usize = 0;
    while i < request.documents.len()
        invariant
            i <= request.documents.len(),
            texts == texts_of(request.documents@),
            total == capped((token_count(request.query@) + tokens_in(texts, i as int)) as int),
        decreases request.documents.len() - i,
    {
        let count = count_tokens(request.documents[i].as_str());
        total = total.saturating_add(count);
        i += 1;
    }
    total
}

/// Builds the request that ranks `documents` against `query` with the
/// default model and no limit on the number of entries.
pub fn create_request(query: &str, documents: Vec<String>) -> (result: Result<
    RerankRequest,
    ValidationError,
>)
    ensures
        match result {
            Ok(request) => {
                &&& RerankRequest::validation(query@, documents@.len()) is Ok
                &&& request.query@ == query@
                &&& request.documents == documents
                &&& request.model == RerankModel::Rerank2
                &&& request.top_k is None
            },
            Err(error) => RerankRequest::validation(query@, documents@.len()) == Err::<
                (),
                ValidationError,
            >(error),
        },
{
    RerankRequest::new(query.to_owned(), documents, RerankModel::Rerank2, None)
}

/// Builds the request of a gateway call, or the error with which the call
/// fails before anything is sent: the validation error, as it is.
pub fn prepare_request(query: &str, documents: Vec<String>) -> (result: Result<
    RerankRequest,
    VoyageError,
>)
    ensures
        match result {
            Ok(request) => {
                &&& RerankRequest::validation(query@, documents@.len()) is Ok
                &&& request.query@ == query@
                &&& request.documents == documents
                &&& request.model == RerankModel::Rerank2
                &&& request.top_k is None
            },
            Err(error) => error matches VoyageError::ValidationError(reason)
                && RerankRequest::validation(query@, documents@.len()) == Err::<
                (),
                ValidationError,
            >(reason),
        },
{
    match create_request(query, documents) {
        Ok(request) => Ok(request),
        Err(reason) => Err(VoyageError::ValidationError(reason)),
    }
}

/// What a response with the given status means, for a body already read:
/// the body of a success, or the error that the status stands for.
pub open spec fn judged(status: u16, body: Seq<char>) -> Result<Seq<char>, VoyageErrorView> {
    if status == 200 {
        Ok(body)
    } else if status == 401 {
        Err(VoyageErrorView::Unauthorized)
    } else if status == 403 {
        Err(VoyageErrorView::Forbidden(body))
    } else {
        Err(VoyageErrorView::ApiError(status, body))
    }
}

/// Judges the response to a reranking request by its status. Only status
/// 200 is a success; 401 says that the key was refused and 403 that the
/// request was; every other status is handed on with the body for the
/// caller to inspect.
pub fn judge_response(status: u16, body: String) -> (result: Result<String, VoyageError>)
    ensures
        match result {
            Ok(text) => judged(status, body@) == Ok::<Seq<char>, VoyageErrorView>(text@),
            Err(error) => judged(status, body@) == Err::<Seq<char>, VoyageErrorView>(error@),
        },
{
    if status == 200 {
        Ok(body)
    } else if status == 401 {
        Err(VoyageError::Unauthorized)
    } else if status == 403 {
        Err(VoyageError::Forbidden(body))
    } else {
        Err(VoyageError::ApiError(status, body))
    }
}

/// What an exchange with the service means: `outcome` is the status and
/// the body of the response, or the transport's words where no response
/// came.
pub open spec fn received(outcome: Result<(u16, String), String>) -> Result<
    Seq<char>,
    VoyageErrorView,
> {
    match outcome {
        Ok((status, body)) => judged(status, body@),
        Err(detail) => Err(VoyageErrorView::RequestError(detail@)),
    }
}

/// Judges what the transport brought back for a reranking request: a
/// request that got no response fails with the transport's words, and a
/// response is judged by its status.
pub fn judge_exchange(outcome: Result<(u16, String), String>) -> (result: Result<
    String,
    VoyageError,
>)
    ensures
        match result {
            Ok(text) => received(outcome) == Ok::<Seq<char>, VoyageErrorView>(text@),
            Err(error) => received(outcome) == Err::<Seq<char>, VoyageErrorView>(error@),
        },
{
    match outcome {
        Ok((status, body)) => judge_response(status, body),
        Err(detail) => Err(VoyageError::RequestError(detail)),
    }
}

/// First step of a reranking call: estimates the cost of `request` and
/// asks the reranking pool whether it may be sent now.
pub fn begin_rerank(pool: &mut ResourcePool, now: u64, request: &RerankRequest) -> (admission:
    Admission)
    ensures
        final(pool)@ == old(pool)@.rolled(now as nat),
        admission == admission_for(
            old(pool)@.wait(
                now as nat,
                estimated_tokens(request.query@, texts_of(request.documents@)) as nat,
            ),
        ),
{
    let estimate = estimate_tokens(request);
    pool.admission(now, estimate)
}

/// Last step of a reranking call whose response had a body to read.
/// `parsed` is the ranking read from the body, or the reason why the body
/// could not be read as one. A ranking is charged to the reranking pool
/// with the cost that the service reports, once, whatever becomes of its
/// entries afterwards. A body that could not be read charges nothing.
pub fn accept_rerank_response(
    pool: &mut ResourcePool,
    now: u64,
    parsed: Result<RerankResponse, String>,
) -> (result: Result<RerankResponse, VoyageError>)
    ensures
        match parsed {
            Ok(response) => {
                &&& result == Ok::<RerankResponse, VoyageError>(response)
                &&& final(pool)@ == old(pool)@.rolled(now as nat).charged(
                    response.usage.total_tokens as nat,
                )
            },
            Err(detail) => {
                &&& result matches Err(error) && error@ == VoyageErrorView::JsonError(detail@)
                &&& final(pool)@ == old(pool)@
            },
        },
{
    match parsed {
        Ok(response) => {
            pool.update(now, response.usage.total_tokens);
            Ok(response)
        },
        Err(detail) => Err(VoyageError::JsonError(detail)),
    }
}

/// A document with its place in a ranking.
#[derive(Debug, Clone)]
pub struct DocumentSimilarity {
    /// Position in the ranking, 0 for the most similar document.
    pub rank: usize,
    /// The score that the service gave the document.
    pub similarity: Score,
    /// The document as the caller supplied it.
    pub document: String,
}

impl DocumentSimilarity {
    /// The item stands at place `rank` of the ranking `results` of
    /// `documents`: it carries that rank, the score of the entry there, and
    /// the text of the document that the entry points at.
    pub open spec fn resolves(
        self,
        rank: int,
        documents: Seq<String>,
        results: Seq<RerankResult>,
    ) -> bool {
        &&& 0 <= rank < results.len()
        &&& results[rank].index < documents.len()
        &&& self.rank == rank
        &&& self.similarity == results[rank].relevance_score
        &&& self.document@ == documents[results[rank].index as int]@
    }
}

/// `items` is what a ranking `results` of `documents` resolves to. Entry
/// by entry, in the order of the ranking, each item carries the text of the
/// document that its entry points at. The items end where the ranking
/// ends, or before the first entry that points at no document.
pub open spec fn is_ranking_of(
    items: Seq<DocumentSimilarity>,
    documents: Seq<String>,
    results: Seq<RerankResult>,
) -> bool {
    &&& items.len() <= results.len()
    &&& forall|k: int| 0 <= k < items.len() ==> (#[trigger] items[k]).resolves(k, documents, results)
    &&& items.len() < results.len() ==> results[items.len() as int].index >= documents.len()
}

/// Resolves a ranking against the documents it was asked for. The service
/// names documents by their position in the request; each item gets the
/// text from `documents` at that position, never a copy that travelled
/// over the wire. Ranks count up from 0 in the order received. An entry
/// whose position lies outside `documents` ends the ranking there.
pub fn rank_documents(documents: &Vec<String>, results: &Vec<RerankResult>) -> (items: Vec<
    DocumentSimilarity,
>)
    ensures
        is_ranking_of(items@, documents@, results@),
{
    let mut items: Vec<DocumentSimilarity> = Vec::new();
    let mut rank: usize = 0;
    while rank < results.len()
        invariant
            rank <= results.len(),
            items@.len() == rank,
            forall|k: int|
                0 <= k < items@.len() ==> (#[trigger] items@[k]).resolves(k, documents@, results@),
        decreases results.len() - rank,
    {
        let result = results[rank];
        if result.index >= documents.len() {
            return items;
        }
        items.push(
            DocumentSimilarity {
                rank,
                similarity: result.relevance_score,
                document: documents[result.index].clone(),
            },
        );
        rank += 1;
    }
    items
}

/// What the search for the single most similar document gives a caller.
pub open spec fn best_match(documents: Seq<String>, results: Seq<RerankResult>) -> Result<
    (Score, Seq<char>),
    VoyageErrorView,
> {
    if results.len() == 0 {
        Err(VoyageErrorView::Other(NO_MATCHING_DOCUMENTS@))
    } else if results[0].index >= documents.len() {
        Err(VoyageErrorView::Other(SIMILARITY_CANCELED@))
    } else {
        Ok((results[0].relevance_score, documents[results[0].index as int]@))
    }
}

/// Picks the most similar document of a ranking: its first entry, with
/// rank 0. An empty ranking is an error of its own, so that a caller never
/// waits for a document that will not come. A first entry that points at
/// no document leaves the caller without a result, as a task that ended
/// early does.
pub fn most_similar(documents: &Vec<String>, results: &Vec<RerankResult>) -> (result: Result<
    DocumentSimilarity,
    VoyageError,
>)
    ensures
        match result {
            Ok(item) => {
                &&& best_match(documents@, results@) == Ok::<(Score, Seq<char>), VoyageErrorView>(
                    (item.similarity, item.document@),
                )
                &&& item.resolves(0, documents@, results@)
            },
            Err(error) => best_match(documents@, results@) == Err::<
                (Score, Seq<char>),
                VoyageErrorView,
            >(error@),
        },
{
    if results.len() == 0 {
        Err(VoyageError::Other(NO_MATCHING_DOCUMENTS.to_owned()))
    } else {
        let best = results[0];
        if best.index >= documents.len() {
            Err(VoyageError::Other(SIMILARITY_CANCELED.to_owned()))
        } else {
            Ok(
                DocumentSimilarity {
                    rank: 0,
                    similarity: best.relevance_score,
                    document: documents[best.index].clone(),
                },
            )
        }
    }
}

/// A ranking whose entries all point at documents is resolved in full:
/// there is one item for each entry.
pub proof fn lemma_ranking_is_complete(
    items: Seq<DocumentSimilarity>,
    documents: Seq<String>,
    results: Seq<RerankResult>,
)
    requires
        is_ranking_of(items, documents, results),
        forall|k: int| 0 <= k < results.len() ==> (#[trigger] results[k]).index < documents.len(),
    ensures
        items.len() == results.len(),
{
}

/// A ranking resolves in one way only: whatever resolves the same ranking
/// of the same documents has the same number of items, and place by place
/// the same rank, the same score and the same text.
pub proof fn lemma_ranking_is_unique(
    first: Seq<DocumentSimilarity>,
    second: Seq<DocumentSimilarity>,
    documents: Seq<String>,
    results: Seq<RerankResult>,
)
    requires
        is_ranking_of(first, documents, results),
        is_ranking_of(second, documents, results),
    ensures
        first.len() == second.len(),
        forall|k: int|
            0 <= k < first.len() ==> {
                &&& (#[trigger] first[k]).rank == second[k].rank
                &&& first[k].similarity == second[k].similarity
                &&& first[k].document@ == second[k].document@
            },
{
    if first.len() < second.len() {
        assert(second[first.len() as int].resolves(first.len() as int, documents, results));
    }
    if second.len() < first.len() {
        assert(first[second.len() as int].resolves(second.len() as int, documents, results));
    }
    assert forall|k: int| 0 <= k < first.len() implies {
        &&& (#[trigger] first[k]).rank == second[k].rank
        &&& first[k].similarity == second[k].similarity
        &&& first[k].document@ == second[k].document@
    } by {
        assert(first[k].resolves(k, documents, results));
        assert(second[k].resolves(k, documents, results));
    }
}

/// The items that the stream of similar documents carries for the outcome
/// of a reranking call: the resolved ranking of a call that succeeded, and
/// nothing for a call that failed. A failed call ends the stream at once;
/// its error is not among the items.
pub fn find_similar_documents(
    documents: &Vec<String>,
    outcome: &Result<RerankResponse, VoyageError>,
) -> (items: Vec<DocumentSimilarity>)
    ensures
        match outcome {
            Ok(response) => is_ranking_of(items@, documents@, response.data@),
            Err(_) => items@.len() == 0,
        },
{
    match outcome {
        Ok(response) => rank_documents(documents, &response.data),
        Err(_) => Vec::new(),
    }
}

/// What the search for the most similar document hands to its caller for
/// the outcome of a reranking call: the best match of a call that
/// succeeded, as [`most_similar`] picks it, and the error of a call that
/// failed, as it is.
pub fn most_similar_document(
    documents: &Vec<String>,
    outcome: Result<RerankResponse, VoyageError>,
) -> (result: Result<DocumentSimilarity, VoyageError>)
    ensures
        match outcome {
            Ok(response) => match result {
                Ok(item) => {
                    &&& best_match(documents@, response.data@) == Ok::<
                        (Score, Seq<char>),
                        VoyageErrorView,
                    >((item.similarity, item.document@))
                    &&& item.resolves(0, documents@, response.data@)
                },
                Err(error) => best_match(documents@, response.data@) == Err::<
                    (Score, Seq<char>),
                    VoyageErrorView,
                >(error@),
            },
            Err(error) => result == Err::<DocumentSimilarity, VoyageError>(error),
        },
{
    match outcome {
        Ok(response) => most_similar(documents, &response.data),
        Err(error) => Err(error),
    }
}

/// A reader that wants at most `top_k` items has enough after `count` of
/// them. Without a limit it never has.
pub fn limit_reached(count: usize, top_k: Option<usize>) -> (reached: bool)
    ensures
        reached == (top_k matches Some(limit) && count >= limit),
{
    match top_k {
        Some(limit) => count >= limit,
        None => false,
    }
}

} // verus!
