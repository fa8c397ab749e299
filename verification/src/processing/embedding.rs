//! Embedding vectors and the decisions around a call of the embedding model.
//! The model itself is called by the caller of this module: a function here
//! says what to ask of the model, and another what to make of its answer.

use vstd::prelude::*;
use vstd::string::StringExecFns;
use crate::error::EmbeddingError;
use crate::text::texts;

verus! {

/// An embedding vector. Each component is held as the bits of a
/// single-precision number; the library carries the components and never
/// computes with them.
pub type Embedding = Vec<u32>;

/// A call of the embedding model: the texts to embed, in order, and the size
/// of the batches to embed them in (`None` for the model's own).
#[derive(Debug, Clone)]
pub struct ModelCall {
    pub texts: Vec<String>,
    pub batch_size: Option<usize>,
}

/// How a batch is embedded: without the model when there is nothing to
/// embed, else by one call for the whole batch.
#[derive(Debug, Clone)]
pub enum BatchPlan {
    Done(Vec<Embedding>),
    Call(ModelCall),
}

/// The message of a batch whose embeddings do not match its texts in number.
pub const COUNT_MISMATCH: &'static str =
    "Failed to embed chunks: the model returned a different number of embeddings";

/// The call that embeds one text: a batch of one.
pub fn embed(str: String) -> (call: ModelCall)
    ensures
        call.texts@ == seq![str],
        call.batch_size == Some(1usize),
{
    let mut list: Vec<String> = Vec::new();
    list.push(str);
    ModelCall { texts: list, batch_size: Some(1) }
}

/// What the embedding of one text is, given the model's answer: its first
/// vector. Fails when the model failed and when it returned no vector.
pub fn embed_result(outcome: Result<Vec<Embedding>, String>) -> (r: Result<
    Embedding,
    EmbeddingError,
>)
    ensures
        match outcome {
            Ok(embeddings) => if embeddings.len() > 0 {
                r is Ok && r->Ok_0@ == embeddings[0]@
            } else {
                r is Err && r->Err_0.message() == "Failed to parse generated embedding"@
            },
            Err(cause) => r is Err && r->Err_0.message() == "Failed to embed string: "@ + cause@,
        },
{
    match outcome {
        Ok(embeddings) => {
            if embeddings.len() > 0 {
                Ok(embeddings[0].clone())
            } else {
                Err(
                    EmbeddingError::Message(
                        String::from_str("Failed to parse generated embedding"),
                    ),
                )
            }
        },
        Err(cause) => Err(
            EmbeddingError::Message(
                String::from_str("Failed to embed string: ").concat(cause.as_str()),
            ),
        ),
    }
}

/// How to embed a batch of texts. An empty batch is done without a call of
/// the model; any other is one call for all its texts, in their order, in
/// batches of the model's own size.
pub fn embed_batch(chunks: &[String]) -> (plan: BatchPlan)
    ensures
        match plan {
            BatchPlan::Done(embeddings) => chunks@.len() == 0 && embeddings@.len() == 0,
            BatchPlan::Call(call) => chunks@.len() > 0 && texts(call.texts@) == texts(chunks@)
                && call.batch_size is None,
        },
{
    if chunks.len() == 0 {
        return BatchPlan::Done(Vec::new());
    }
    let mut list: Vec<String> = Vec::new();
    let mut i: usize = 0;
    while i < chunks.len()
        invariant
            i <= chunks.len(),
            list.len() == i,
            forall|j: int| 0 <= j < i ==> (#[trigger] list@[j])@ == chunks@[j]@,
        decreases chunks.len() - i,
    {
        list.push(chunks[i].clone());
        i += 1;
    }
    assert(texts(list@) =~= texts(chunks@));
    BatchPlan::Call(ModelCall { texts: list, batch_size: None })
}

/// What the embeddings of a batch of `chunk_count` texts are, given the
/// model's answer: the vectors it returned, one per text and in the texts'
/// order. Fails when the model failed and when it returned another number of
/// vectors than it was given texts.
pub fn embed_batch_result(chunk_count: usize, outcome: Result<Vec<Embedding>, String>) -> (r:
    Result<Vec<Embedding>, EmbeddingError>)
    ensures
        match outcome {
            Ok(embeddings) => if embeddings.len() == chunk_count {
                r == Ok::<Vec<Embedding>, EmbeddingError>(embeddings)
            } else {
                r is Err && r->Err_0.message() == COUNT_MISMATCH@
            },
            Err(cause) => r is Err && r->Err_0.message() == "Failed to embed chunks: "@ + cause@,
        },
        r is Ok ==> r->Ok_0.len() == chunk_count,
{
    match outcome {
        Ok(embeddings) => {
            if embeddings.len() == chunk_count {
                Ok(embeddings)
            } else {
                Err(EmbeddingError::Message(String::from_str(COUNT_MISMATCH)))
            }
        },
        Err(cause) => Err(
            EmbeddingError::Message(
                String::from_str("Failed to embed chunks: ").concat(cause.as_str()),
            ),
        ),
    }
}

/// The error of a model that could not be set up.
pub fn model_failure(cause: &str) -> (e: EmbeddingError)
    ensures
        e.message() == "Failed to initialize embedding model: "@ + cause@,
{
    EmbeddingError::Message(
        String::from_str("Failed to initialize embedding model: ").concat(cause),
    )
}

} // verus!
