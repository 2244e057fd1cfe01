use voyageai::client::handoff::{resolve, TaskKind};
use voyageai::client::rerank_client::rank_documents;
use voyageai::client::stream::Feed;
use voyageai::errors::VoyageError;
use voyageai::models::rerank::{RerankResult, Score};

#[test]
fn backpressure() {
    let documents: Vec<String> = (0..1000).map(|i| format!("document {}", i)).collect();
    let results: Vec<RerankResult> = (0..1000)
        .map(|i| RerankResult { index: 999 - i, relevance_score: Score::from_bits(i as u64) })
        .collect();
    let mut feed = Feed::new(rank_documents(&documents, &results));
    assert_eq!(feed.remaining(), 1000);

    // The consumer reads one item.
    let first = feed.next_item().unwrap();
    assert_eq!(first.rank, 0);
    assert_eq!(first.document, "document 999");
    feed.record(true);
    assert!(!feed.is_closed());
    assert_eq!(feed.remaining(), 999);

    // The second item finds the consumer gone.
    let second = feed.next_item().unwrap();
    assert_eq!(second.rank, 1);
    feed.record(false);
    assert!(feed.is_closed());
    assert_eq!(feed.remaining(), 0);
    assert!(feed.next_item().is_none());
    assert!(feed.next_item().is_none());
}

#[test]
fn feed_hands_out_in_order_and_ends() {
    let mut feed = Feed::new(vec![10u32, 20, 30]);
    let mut seen = Vec::new();
    while let Some(item) = feed.next_item() {
        feed.record(true);
        seen.push(item);
    }
    assert_eq!(seen, vec![10, 20, 30]);
    assert!(!feed.is_closed());
    assert!(feed.next_item().is_none());
}

#[test]
fn empty_feed_offers_nothing() {
    let mut feed: Feed<u32> = Feed::new(Vec::new());
    assert!(feed.next_item().is_none());
    assert_eq!(feed.remaining(), 0);
    feed.close();
    assert!(feed.is_closed());
}

#[test]
fn handoff_passes_the_result_on() {
    let sent: Option<Result<u32, VoyageError>> = Some(Ok(7));
    assert_eq!(resolve(TaskKind::Embedding, sent).unwrap(), 7);

    let failed: Option<Result<u32, VoyageError>> = Some(Err(VoyageError::Unauthorized));
    assert!(matches!(resolve(TaskKind::Embedding, failed), Err(VoyageError::Unauthorized)));
}

#[test]
fn handoff_without_a_result_is_a_canceled_task() {
    let cases = [
        (TaskKind::Embedding, "Embedding task canceled"),
        (TaskKind::BatchEmbedding, "Batch embedding task canceled"),
        (TaskKind::Similarity, "Similarity task canceled"),
    ];
    for (kind, expected) in cases {
        assert_eq!(kind.canceled_message(), expected);
        match resolve::<u32>(kind, None) {
            Err(VoyageError::Other(message)) => assert_eq!(message, expected),
            other => panic!("unexpected outcome: {:?}", other),
        }
    }
}
