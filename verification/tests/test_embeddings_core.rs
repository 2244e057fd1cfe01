use voyageai::builder::voyage::VoyageBuilder;
use voyageai::client::embeddings_client::{
    accept_embeddings_response, ast_request, batch_request, batch_result, begin_embedding,
    code_request, embed, embed_batch, embed_stream, embedding_stream_capacity, estimate_tokens,
    fill_response, judge_exchange, judge_response, parse_code, plan_batch, rust_sources,
    single_request, single_result, BatchPlan,
};
use voyageai::client::rate_limiter::{Admission, ResourcePool};
use voyageai::config::VoyageConfig;
use voyageai::errors::VoyageError;
use voyageai::models::embeddings::{
    EmbeddingData, EmbeddingModel, EmbeddingsInput, EmbeddingsResponse, InputType, Usage,
};
use voyageai::utils::extract_code_blocks;

fn response(vectors: Vec<Vec<f32>>, total_tokens: u32) -> EmbeddingsResponse {
    EmbeddingsResponse {
        object: "list".to_string(),
        data: vectors
            .into_iter()
            .enumerate()
            .map(|(index, vector)| EmbeddingData {
                object: "embedding".to_string(),
                embedding: vector.into_iter().map(f32::to_bits).collect(),
                index,
            })
            .collect(),
        model: "voyage-3-large".to_string(),
        usage: Usage { total_tokens },
    }
}

fn floats(bits: &[u32]) -> Vec<f32> {
    bits.iter().map(|b| f32::from_bits(*b)).collect()
}

#[test]
fn empty_batch() {
    assert!(batch_request(Vec::new(), EmbeddingModel::Voyage3Large).is_none());
}

#[test]
fn batch_request_holds_the_texts_in_order() {
    let texts = vec!["one".to_string(), "two".to_string()];
    let request = batch_request(texts.clone(), EmbeddingModel::VoyageCode3).unwrap();
    match request.input {
        EmbeddingsInput::Multiple(held) => assert_eq!(held, texts),
        other => panic!("unexpected input: {:?}", other),
    }
    assert_eq!(request.model, EmbeddingModel::VoyageCode3);
    assert_eq!(request.input_type, None);
    assert_eq!(request.truncation, None);
    assert!(request.encoding_format.is_none());
}

#[test]
fn single_code_and_ast_requests() {
    let request = single_request("text", EmbeddingModel::Voyage3Large);
    assert!(matches!(request.input, EmbeddingsInput::Single(ref text) if text == "text"));
    assert_eq!(request.input_type, None);

    let request = code_request("fn a() {}", EmbeddingModel::VoyageCode3);
    assert!(matches!(request.input, EmbeddingsInput::Single(ref text) if text == "fn a() {}"));
    assert_eq!(request.input_type, Some(InputType::Code));
    assert_eq!(request.model, EmbeddingModel::VoyageCode3);

    let request = ast_request("{\"items\":[]}".to_string(), EmbeddingModel::VoyageCode3);
    assert!(matches!(request.input, EmbeddingsInput::Single(ref text) if text == "{\"items\":[]}"));
    assert_eq!(request.input_type, Some(InputType::Ast));
}

#[test]
fn estimate_is_a_quarter_of_the_bytes_and_two_per_text() {
    assert_eq!(estimate_tokens(&single_request("", EmbeddingModel::Voyage3Large)), 2);
    assert_eq!(estimate_tokens(&single_request("abcd", EmbeddingModel::Voyage3Large)), 3);
    assert_eq!(estimate_tokens(&single_request("abcde", EmbeddingModel::Voyage3Large)), 4);
    assert_eq!(estimate_tokens(&single_request("test input", EmbeddingModel::Voyage3Large)), 5);
    // Two bytes for each of the four characters.
    assert_eq!(estimate_tokens(&single_request("\u{e9}\u{e9}\u{e9}\u{e9}", EmbeddingModel::Voyage3Large)), 4);

    let batch = batch_request(
        vec!["abcd".to_string(), "abcde".to_string(), String::new()],
        EmbeddingModel::Voyage3Large,
    )
    .unwrap();
    assert_eq!(estimate_tokens(&batch), 1 + 2 + 0 + 2 * 3);
}

#[test]
fn embedding_response_is_judged_by_status() {
    assert_eq!(judge_response(200, "{}".to_string()).unwrap(), "{}");
    assert!(matches!(judge_response(401, "no".to_string()), Err(VoyageError::Unauthorized)));
    match judge_response(403, "denied".to_string()) {
        Err(VoyageError::Forbidden(body)) => assert_eq!(body, "denied"),
        other => panic!("unexpected outcome: {:?}", other),
    }
    match judge_response(429, "slow down".to_string()) {
        Err(VoyageError::ApiError(status, body)) => {
            assert_eq!(status, 429);
            assert_eq!(body, "slow down");
        }
        other => panic!("unexpected outcome: {:?}", other),
    }
    match judge_exchange(Err("timed out".to_string())) {
        Err(VoyageError::RequestError(detail)) => assert_eq!(detail, "timed out"),
        other => panic!("unexpected outcome: {:?}", other),
    }
    match judge_exchange(Ok((403, "denied".to_string()))) {
        Err(VoyageError::Forbidden(body)) => assert_eq!(body, "denied"),
        other => panic!("unexpected outcome: {:?}", other),
    }
}

#[test]
fn terminal_errors() {
    assert!(VoyageError::Unauthorized.is_terminal());
    assert!(VoyageError::Forbidden("x".to_string()).is_terminal());
    assert!(!VoyageError::ApiError(500, "x".to_string()).is_terminal());
    assert!(!VoyageError::Other("x".to_string()).is_terminal());
}

#[test]
fn response_without_vectors_gets_the_placeholder() {
    let filled = fill_response(response(Vec::new(), 3));
    assert_eq!(filled.data.len(), 1);
    assert_eq!(filled.data[0].object, "embedding");
    assert_eq!(floats(&filled.data[0].embedding), vec![0.0f32]);
    assert_eq!(filled.data[0].index, 0);
    assert_eq!(filled.object, "list");
    assert_eq!(filled.model, "voyage-3-large");
    assert_eq!(filled.usage.total_tokens, 3);

    let kept = fill_response(response(vec![vec![1.5, -2.0]], 3));
    assert_eq!(kept.data.len(), 1);
    assert_eq!(floats(&kept.data[0].embedding), vec![1.5f32, -2.0]);
}

#[test]
fn vectors_come_out_in_the_order_of_the_response() {
    let held = response(vec![vec![1.0], vec![2.0, 2.5], vec![3.0]], 9);
    assert_eq!(floats(&single_result(&held)), vec![1.0f32]);
    let vectors = batch_result(held);
    assert_eq!(vectors.len(), 3);
    assert_eq!(floats(&vectors[0]), vec![1.0f32]);
    assert_eq!(floats(&vectors[1]), vec![2.0f32, 2.5]);
    assert_eq!(floats(&vectors[2]), vec![3.0f32]);

    assert_eq!(floats(&single_result(&response(Vec::new(), 0))), vec![0.0f32]);
    assert_eq!(batch_result(response(Vec::new(), 0)).len(), 0);
}

#[test]
fn embedding_call_checks_first_and_charges_once() {
    let mut pool = ResourcePool::new(10, 60_000, 0);
    let request = single_request("test input", EmbeddingModel::Voyage3Large);
    assert_eq!(begin_embedding(&mut pool, 0, &request), Admission::Proceed);

    let accepted = accept_embeddings_response(&mut pool, 10, Ok(response(Vec::new(), 6)));
    assert_eq!(accepted.unwrap().data.len(), 1);
    assert_eq!(pool.used(), 6);

    // 6 used and 5 estimated exceed the limit of 10.
    assert_eq!(begin_embedding(&mut pool, 20_000, &request), Admission::Sleep(40_000));
    assert_eq!(begin_embedding(&mut pool, 60_000, &request), Admission::Proceed);
}

#[test]
fn unreadable_embedding_body_charges_nothing() {
    let mut pool = ResourcePool::new(10, 60_000, 0);
    match accept_embeddings_response(&mut pool, 0, Err("expected value".to_string())) {
        Err(VoyageError::JsonError(detail)) => assert_eq!(detail, "expected value"),
        other => panic!("unexpected outcome: {:?}", other),
    }
    assert_eq!(pool.used(), 0);
    assert_eq!(pool.check(1, 10), 0);
}

#[test]
fn code_that_does_not_parse_is_a_tokenizer_error() {
    assert_eq!(parse_code("fn a() {} struct B;").unwrap().items.len(), 2);
    match parse_code("fn {") {
        Err(VoyageError::TokenizerError(message)) => assert!(!message.is_empty()),
        other => panic!("unexpected outcome: {:?}", other),
    }
}

#[test]
fn only_blocks_named_rust_are_embedded() {
    let markdown = "```rust\nfn a() {}\n```\n```rs\nfn b() {}\n```\n```\nplain\n```\n```rust\nfn c() {}\n```\n";
    let sources = rust_sources(&extract_code_blocks(markdown));
    assert_eq!(sources, vec!["fn a() {}\n", "fn c() {}\n"]);
}

#[test]
fn model_facts() {
    assert_eq!(EmbeddingModel::default(), EmbeddingModel::Voyage3Large);
    assert_eq!(EmbeddingModel::Voyage3Large.max_context_length(), 32000);
    assert_eq!(EmbeddingModel::VoyageCode3.max_context_length(), 32000);
    assert_eq!(EmbeddingModel::Voyage3Large.max_tokens_per_request(), 320_000);
    assert_eq!(EmbeddingModel::VoyageCode3.max_tokens_per_request(), 320_000);
    assert_eq!(EmbeddingModel::Voyage3Large.embedding_dimension(), 2048);
    assert_eq!(EmbeddingModel::VoyageCode3.embedding_dimension(), 1024);
    assert_eq!(EmbeddingModel::Voyage3Large.name(), "voyage-3-large");
    assert_eq!(EmbeddingModel::VoyageCode3.name(), "voyage-code-3");
    assert_eq!(EmbeddingModel::from_name("voyage-code-3"), EmbeddingModel::VoyageCode3);
    assert_eq!(EmbeddingModel::from_name("voyage-3-large"), EmbeddingModel::Voyage3Large);
    assert_eq!(EmbeddingModel::from_name("something else"), EmbeddingModel::Voyage3Large);
}

#[test]
fn inputs_from_texts() {
    assert!(matches!(EmbeddingsInput::from("a".to_string()), EmbeddingsInput::Single(ref t) if t == "a"));
    assert!(matches!(EmbeddingsInput::single("a"), EmbeddingsInput::Single(ref t) if t == "a"));
    let texts = vec!["a".to_string(), "b".to_string()];
    assert!(matches!(EmbeddingsInput::from(texts.clone()), EmbeddingsInput::Multiple(ref t) if *t == texts));
    assert!(matches!(EmbeddingsInput::multiple(&texts), EmbeddingsInput::Multiple(ref t) if *t == texts));
}

#[test]
fn builder_needs_a_key() {
    match VoyageBuilder::new().build() {
        Err(VoyageError::BuilderError(message)) => assert_eq!(message, "API key is required"),
        other => panic!("unexpected outcome: {:?}", other.map(|c| c.api_key().to_string())),
    }
    match VoyageBuilder::default().build() {
        Err(VoyageError::BuilderError(message)) => assert_eq!(message, "API key is required"),
        other => panic!("unexpected outcome: {:?}", other.map(|c| c.api_key().to_string())),
    }
    let config = VoyageBuilder::new()
        .with_api_key("first".to_string())
        .with_api_key("second".to_string())
        .build()
        .unwrap();
    assert_eq!(config.api_key(), "second");
    assert_eq!(config.embedding_model(), EmbeddingModel::Voyage3Large);
}

#[test]
fn config_holds_key_and_model() {
    let config = VoyageConfig::new("key".to_string());
    assert_eq!(config.api_key(), "key");
    assert_eq!(config.embedding_model(), EmbeddingModel::Voyage3Large);
    let config = config.with_embedding_model(EmbeddingModel::VoyageCode3);
    assert_eq!(config.api_key(), "key");
    assert_eq!(config.embedding_model(), EmbeddingModel::VoyageCode3);
}

#[test]
fn outcome_of_a_call_reaches_the_caller() {
    assert_eq!(floats(&embed(Ok(response(vec![vec![1.0, 2.0], vec![3.0]], 1))).unwrap()), vec![1.0f32, 2.0]);
    assert!(matches!(embed(Err(VoyageError::Unauthorized)), Err(VoyageError::Unauthorized)));

    let vectors = embed_batch(Ok(response(vec![vec![1.0], vec![3.0]], 1))).unwrap();
    assert_eq!(vectors.len(), 2);
    assert_eq!(floats(&vectors[1]), vec![3.0f32]);
    match embed_batch(Err(VoyageError::Forbidden("no".to_string()))) {
        Err(VoyageError::Forbidden(body)) => assert_eq!(body, "no"),
        other => panic!("unexpected outcome: {:?}", other),
    }

    assert_eq!(embed_stream(Ok(response(vec![vec![1.0], vec![3.0]], 1))).len(), 2);
    assert_eq!(embed_stream(Err(VoyageError::Unauthorized)).len(), 0);
}

#[test]
fn inputs_from_borrowed_texts() {
    assert!(matches!(EmbeddingsInput::from("a"), EmbeddingsInput::Single(ref t) if t == "a"));
    let texts = vec!["a".to_string(), "b".to_string()];
    match EmbeddingsInput::try_from(texts.as_slice()) {
        Ok(EmbeddingsInput::Multiple(held)) => assert_eq!(held, texts),
        other => panic!("unexpected input: {:?}", other),
    }
    match EmbeddingsInput::try_from(vec!["a", "b"]) {
        Ok(EmbeddingsInput::Multiple(held)) => assert_eq!(held, texts),
        other => panic!("unexpected input: {:?}", other),
    }
}

#[test]
fn empty_batch_is_done_with_no_vectors() {
    match plan_batch(Vec::new(), EmbeddingModel::Voyage3Large) {
        BatchPlan::Done(vectors) => assert!(vectors.is_empty()),
        other => panic!("unexpected plan: {:?}", other),
    }
}

#[test]
fn batch_with_texts_is_one_request() {
    let texts = vec!["one".to_string(), "two".to_string()];
    match plan_batch(texts.clone(), EmbeddingModel::VoyageCode3) {
        BatchPlan::Send(request) => {
            assert!(matches!(request.input, EmbeddingsInput::Multiple(ref held) if *held == texts));
            assert_eq!(request.model, EmbeddingModel::VoyageCode3);
            assert_eq!(request.input_type, None);
            assert_eq!(request.truncation, None);
            assert!(request.encoding_format.is_none());
        }
        other => panic!("unexpected plan: {:?}", other),
    }
}

#[test]
fn stream_of_embeddings_always_has_room() {
    assert_eq!(embedding_stream_capacity(0), 1);
    assert_eq!(embedding_stream_capacity(1), 1);
    assert_eq!(embedding_stream_capacity(7), 7);
    assert_eq!(embedding_stream_capacity(usize::MAX), usize::MAX);
}
