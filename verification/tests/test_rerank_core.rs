use voyageai::client::rate_limiter::{Admission, ResourcePool};
use voyageai::client::rerank_client::{
    accept_rerank_response, begin_rerank, create_request, estimate_tokens,
    find_similar_documents, judge_exchange, judge_response, limit_reached, most_similar,
    most_similar_document, prepare_request, rank_documents, RerankRequestBuilder,
    STREAM_CAPACITY,
};
use voyageai::errors::VoyageError;
use voyageai::models::embeddings::Usage;
use voyageai::models::rerank::{
    RerankModel, RerankRequest, RerankResponse, RerankResult, Score, ValidationError,
};
use voyageai::text::count_tokens;

fn documents() -> Vec<String> {
    vec!["A".to_string(), "B".to_string(), "C".to_string()]
}

fn entry(index: usize, score: f64) -> RerankResult {
    RerankResult { index, relevance_score: Score::from_bits(score.to_bits()) }
}

#[test]
fn correspondence_invariant() {
    let results = vec![entry(2, 0.9), entry(0, 0.5), entry(1, 0.2)];
    let items = rank_documents(&documents(), &results);
    assert_eq!(items.len(), 3);

    assert_eq!(items[0].rank, 0);
    assert_eq!(items[0].document, "C");
    assert_eq!(f64::from_bits(items[0].similarity.to_bits()), 0.9);

    assert_eq!(items[1].rank, 1);
    assert_eq!(items[1].document, "A");
    assert_eq!(f64::from_bits(items[1].similarity.to_bits()), 0.5);

    assert_eq!(items[2].rank, 2);
    assert_eq!(items[2].document, "B");
    assert_eq!(f64::from_bits(items[2].similarity.to_bits()), 0.2);
}

#[test]
fn ranking_may_drop_and_repeat_documents() {
    let results = vec![entry(1, 0.7), entry(1, 0.6)];
    let items = rank_documents(&documents(), &results);
    assert_eq!(items.len(), 2);
    assert_eq!(items[0].document, "B");
    assert_eq!(items[1].document, "B");
    assert_eq!(items[1].rank, 1);
}

#[test]
fn ranking_ends_before_an_entry_that_points_at_no_document() {
    let results = vec![entry(0, 0.7), entry(3, 0.6), entry(1, 0.5)];
    let items = rank_documents(&documents(), &results);
    assert_eq!(items.len(), 1);
    assert_eq!(items[0].document, "A");
    assert_eq!(rank_documents(&documents(), &Vec::new()).len(), 0);
}

#[test]
fn top_1_empty_result() {
    match most_similar(&documents(), &Vec::new()) {
        Err(VoyageError::Other(message)) => assert_eq!(message, "No matching documents found"),
        other => panic!("unexpected outcome: {:?}", other),
    }
}

#[test]
fn top_1_is_the_first_entry() {
    let results = vec![entry(2, 0.9), entry(0, 0.5)];
    let best = most_similar(&documents(), &results).unwrap();
    assert_eq!(best.rank, 0);
    assert_eq!(best.document, "C");
    assert_eq!(f64::from_bits(best.similarity.to_bits()), 0.9);
}

#[test]
fn top_1_that_points_at_no_document_is_a_canceled_task() {
    match most_similar(&documents(), &vec![entry(7, 0.9)]) {
        Err(VoyageError::Other(message)) => assert_eq!(message, "Similarity task canceled"),
        other => panic!("unexpected outcome: {:?}", other),
    }
}

#[test]
fn tokens_are_runs_of_alphanumeric_characters() {
    assert_eq!(count_tokens(""), 0);
    assert_eq!(count_tokens("   \t\n"), 0);
    assert_eq!(count_tokens("hello"), 1);
    assert_eq!(count_tokens("hello, world! foo_bar"), 4);
    assert_eq!(count_tokens("What is the capital of France?"), 6);
    assert_eq!(count_tokens("a1 b2-c3"), 3);
    assert_eq!(count_tokens("na\u{ef}ve caf\u{e9}"), 2);
    assert_eq!(count_tokens("\u{a0}x\u{2003}y"), 2);
}

#[test]
fn estimate_counts_query_and_documents() {
    let request = RerankRequest::new(
        "What is the capital of France?".to_string(),
        vec![
            "Paris is the capital of France.".to_string(),
            "London is the capital of the United Kingdom.".to_string(),
            "Berlin is the capital of Germany.".to_string(),
        ],
        RerankModel::Rerank2,
        None,
    )
    .unwrap();
    assert_eq!(estimate_tokens(&request), 6 + 6 + 8 + 6);
}

#[test]
fn builder_collects_a_request() {
    let request = RerankRequestBuilder::new()
        .query("q".to_string())
        .add_document("one".to_string())
        .add_documents(vec!["two".to_string(), "three".to_string()])
        .model(RerankModel::Rerank2Lite)
        .top_k(2)
        .build()
        .unwrap();
    assert_eq!(request.query, "q");
    assert_eq!(request.documents, vec!["one", "two", "three"]);
    assert_eq!(request.model, RerankModel::Rerank2Lite);
    assert_eq!(request.top_k, Some(2));
}

#[test]
fn builder_defaults() {
    let request = RerankRequestBuilder::new()
        .query("q".to_string())
        .add_document("one".to_string())
        .build()
        .unwrap();
    assert_eq!(request.model, RerankModel::Rerank2);
    assert_eq!(request.top_k, None);
    assert_eq!(RerankModel::default(), RerankModel::Rerank2);
    assert_eq!(RerankModel::Rerank2.name(), "rerank-2");
    assert_eq!(RerankModel::Rerank2Lite.name(), "rerank-2-lite");
}

#[test]
fn builder_without_query_or_documents_is_refused() {
    let no_query = RerankRequestBuilder::new().add_document("one".to_string()).build();
    assert_eq!(no_query.err(), Some(ValidationError::EmptyDocuments));

    let empty_query =
        RerankRequestBuilder::new().query(String::new()).add_document("one".to_string()).build();
    assert_eq!(empty_query.err(), Some(ValidationError::EmptyQuery));

    let no_documents = RerankRequestBuilder::new().query("q".to_string()).build();
    assert_eq!(no_documents.err(), Some(ValidationError::EmptyDocuments));
}

#[test]
fn empty_query_and_no_documents_are_invalid() {
    let result = RerankRequest::new("".to_string(), vec![], RerankModel::Rerank2, Some(2));
    assert!(result.is_err());
    assert_eq!(result.err(), Some(ValidationError::EmptyQuery));

    let result = RerankRequest::new("q".to_string(), vec![], RerankModel::Rerank2, None);
    assert_eq!(result.err(), Some(ValidationError::EmptyDocuments));
}

#[test]
fn created_request_uses_the_defaults() {
    let request = create_request("query", documents()).unwrap();
    assert_eq!(request.query, "query");
    assert_eq!(request.documents, documents());
    assert_eq!(request.model, RerankModel::Rerank2);
    assert_eq!(request.top_k, None);
    assert_eq!(create_request("", documents()).err(), Some(ValidationError::EmptyQuery));
    assert_eq!(create_request("query", vec![]).err(), Some(ValidationError::EmptyDocuments));
}

#[test]
fn rerank_response_is_judged_by_status() {
    assert_eq!(judge_response(200, "{}".to_string()).unwrap(), "{}");
    assert!(matches!(judge_response(401, "no".to_string()), Err(VoyageError::Unauthorized)));
    match judge_response(403, "quota exceeded".to_string()) {
        Err(VoyageError::Forbidden(body)) => assert_eq!(body, "quota exceeded"),
        other => panic!("unexpected outcome: {:?}", other),
    }
    match judge_exchange(Ok((403, "quota exceeded".to_string()))) {
        Err(error) => {
            assert!(error.is_terminal());
            assert!(matches!(error, VoyageError::Forbidden(ref body) if body == "quota exceeded"));
        }
        other => panic!("unexpected outcome: {:?}", other),
    }
    match judge_response(500, "down".to_string()) {
        Err(VoyageError::ApiError(status, body)) => {
            assert_eq!(status, 500);
            assert_eq!(body, "down");
        }
        other => panic!("unexpected outcome: {:?}", other),
    }
    match judge_exchange(Err("connection refused".to_string())) {
        Err(VoyageError::RequestError(detail)) => assert_eq!(detail, "connection refused"),
        other => panic!("unexpected outcome: {:?}", other),
    }
    assert_eq!(judge_exchange(Ok((200, "body".to_string()))).unwrap(), "body");
}

#[test]
fn rerank_call_checks_first_and_charges_once() {
    let mut pool = ResourcePool::new(10, 60_000, 0);
    let request = create_request("one two", vec!["three four five".to_string()]).unwrap();
    assert_eq!(begin_rerank(&mut pool, 0, &request), Admission::Proceed);

    let response = RerankResponse { data: vec![entry(0, 0.5)], usage: Usage { total_tokens: 7 } };
    let accepted = accept_rerank_response(&mut pool, 100, Ok(response)).unwrap();
    assert_eq!(accepted.data.len(), 1);
    assert_eq!(accepted.usage.total_tokens, 7);

    // 7 used and 5 estimated exceed the limit of 10.
    assert_eq!(pool.used(), 7);
    assert_eq!(begin_rerank(&mut pool, 1_000, &request), Admission::Sleep(59_000));
}

#[test]
fn unreadable_rerank_body_charges_nothing() {
    let mut pool = ResourcePool::new(10, 60_000, 0);
    match accept_rerank_response(&mut pool, 0, Err("missing field `data`".to_string())) {
        Err(VoyageError::JsonError(detail)) => assert_eq!(detail, "missing field `data`"),
        other => panic!("unexpected outcome: {:?}", other),
    }
    assert_eq!(pool.used(), 0);
    assert_eq!(pool.check(1, 10), 0);
}

#[test]
fn reader_with_a_limit_stops_there() {
    assert!(!limit_reached(0, None));
    assert!(!limit_reached(1000, None));
    assert!(!limit_reached(1, Some(2)));
    assert!(limit_reached(2, Some(2)));
    assert!(limit_reached(3, Some(2)));
    assert!(limit_reached(0, Some(0)));
    assert_eq!(STREAM_CAPACITY, 16);
}

#[test]
fn failed_call_ends_the_stream_without_items() {
    let failed = Err(VoyageError::ApiError(500, "down".to_string()));
    assert_eq!(find_similar_documents(&documents(), &failed).len(), 0);

    let ranked = Ok(RerankResponse {
        data: vec![entry(1, 0.8), entry(2, 0.1)],
        usage: Usage { total_tokens: 3 },
    });
    let items = find_similar_documents(&documents(), &ranked);
    assert_eq!(items.len(), 2);
    assert_eq!(items[0].document, "B");
    assert_eq!(items[1].document, "C");
    assert_eq!(items[1].rank, 1);
}

#[test]
fn failed_call_reaches_the_caller_of_top_1() {
    let failed = Err(VoyageError::Unauthorized);
    assert!(matches!(
        most_similar_document(&documents(), failed),
        Err(VoyageError::Unauthorized)
    ));

    let empty = Ok(RerankResponse { data: Vec::new(), usage: Usage { total_tokens: 0 } });
    match most_similar_document(&documents(), empty) {
        Err(VoyageError::Other(message)) => assert_eq!(message, "No matching documents found"),
        other => panic!("unexpected outcome: {:?}", other),
    }

    let ranked =
        Ok(RerankResponse { data: vec![entry(1, 0.8)], usage: Usage { total_tokens: 3 } });
    let best = most_similar_document(&documents(), ranked).unwrap();
    assert_eq!(best.rank, 0);
    assert_eq!(best.document, "B");
}

#[test]
fn invalid_gateway_call_fails_before_anything_is_sent() {
    match prepare_request("", documents()) {
        Err(VoyageError::ValidationError(reason)) => {
            assert_eq!(reason, ValidationError::EmptyQuery)
        }
        other => panic!("unexpected outcome: {:?}", other),
    }
    let refused = prepare_request("query", Vec::new());
    assert!(matches!(
        refused,
        Err(VoyageError::ValidationError(ValidationError::EmptyDocuments))
    ));

    // The error reaches the caller of top-1, and the stream just ends.
    let refused = prepare_request("query", Vec::new()).map(|_| RerankResponse {
        data: Vec::new(),
        usage: Usage { total_tokens: 0 },
    });
    assert_eq!(find_similar_documents(&Vec::new(), &refused).len(), 0);
    assert!(matches!(
        most_similar_document(&Vec::new(), refused),
        Err(VoyageError::ValidationError(ValidationError::EmptyDocuments))
    ));

    let request = prepare_request("query", documents()).unwrap();
    assert_eq!(request.query, "query");
    assert_eq!(request.documents, documents());
    assert_eq!(request.model, RerankModel::Rerank2);
    assert_eq!(request.top_k, None);
}

#[test]
fn estimate_of_punctuated_texts() {
    let request =
        create_request("hello, world", vec!["a-b c".to_string(), "!!!".to_string()]).unwrap();
    assert_eq!(estimate_tokens(&request), 5);
}

#[test]
fn ascii_tokens_are_runs_of_letters_and_digits() {
    for code in 0u8..128 {
        let c = code as char;
        let text = format!("x{}y", c);
        let expected = if c.is_ascii_alphanumeric() { 1 } else { 2 };
        assert_eq!(count_tokens(&text), expected, "character {:?}", c);
    }
}

#[test]
fn separators_agree_with_the_standard_library() {
    let mut c = '\0';
    loop {
        let text = format!("x{}y", c);
        let expected = if c.is_whitespace() || !c.is_alphanumeric() { 2 } else { 1 };
        assert_eq!(count_tokens(&text), expected, "character {:?}", c);
        if c >= '\u{3100}' {
            break;
        }
        c = char::from_u32(c as u32 + 1).unwrap_or('\u{e000}');
    }
}
