//! The single-value handoff between a background task and its caller.
//!
//! A task is started at once and runs to its end whether or not anybody
//! still waits for it. The caller holds the receiving end only. When the
//! task ends without having sent a value, the caller is told so by an error
//! instead of being left waiting.

use crate::errors::{
    VoyageError, VoyageErrorView, BATCH_EMBEDDING_CANCELED, EMBEDDING_CANCELED,
    SIMILARITY_CANCELED,
};
use vstd::prelude::*;

verus! {

/// The kinds of task whose result is handed over.
#[derive(Debug, Clone, Copy, PartialEq, Eq, Structural)]
pub enum TaskKind {
    Embedding,
    BatchEmbedding,
    Similarity,
}

impl TaskKind {
    pub open spec fn spec_canceled_message(self) -> Seq<char> {
        match self {
            TaskKind::Embedding => EMBEDDING_CANCELED@,
            TaskKind::BatchEmbedding => BATCH_EMBEDDING_CANCELED@,
            TaskKind::Similarity => SIMILARITY_CANCELED@,
        }
    }

    /// The message of the error that a caller gets when a task of this
    /// kind ended without a result.
    pub fn canceled_message(&self) -> (message: &'static str)
        ensures
            message@ == self.spec_canceled_message(),
    {
        match self {
            TaskKind::Embedding => EMBEDDING_CANCELED,
            TaskKind::BatchEmbedding => BATCH_EMBEDDING_CANCELED,
            TaskKind::Similarity => SIMILARITY_CANCELED,
        }
    }
}

/// Turns what the receiving end of a handoff got into what the caller
/// gets. `received` is the task's own result where the task sent one, and
/// nothing where the task ended without sending. The task's result is
/// passed on as it is, success or failure; a missing result becomes the
/// error that says the task was canceled.
pub fn resolve<T>(kind: TaskKind, received: Option<Result<T, VoyageError>>) -> (outcome: Result<
    T,
    VoyageError,
>)
    ensures
        match received {
            Some(sent) => outcome == sent,
            None => outcome matches Err(error) && error@ == VoyageErrorView::Other(
                kind.spec_canceled_message(),
            ),
        },
{
    match received {
        Some(sent) => sent,
        None => Err(VoyageError::Other(kind.canceled_message().to_owned())),
    }
}

} // verus!
