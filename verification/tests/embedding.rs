use backend::processing::embedding::{
    embed, embed_batch, embed_batch_result, embed_result, model_failure, BatchPlan,
};

#[test]
fn one_text_is_a_batch_of_one() {
    let call = embed("what is it".to_string());
    assert_eq!(call.texts, vec!["what is it".to_string()]);
    assert_eq!(call.batch_size, Some(1));
}

#[test]
fn embedding_of_one_text_is_the_first_vector() {
    let r = embed_result(Ok(vec![vec![1, 2], vec![3, 4]])).unwrap();
    assert_eq!(r, vec![1, 2]);
}

#[test]
fn no_vector_for_one_text_is_an_error() {
    let e = embed_result(Ok(vec![])).unwrap_err();
    assert_eq!(e.to_string(), "Embedding error occurred: Failed to parse generated embedding");
}

#[test]
fn model_failure_on_one_text_is_an_error() {
    let e = embed_result(Err("out of memory".to_string())).unwrap_err();
    assert_eq!(
        e.to_string(),
        "Embedding error occurred: Failed to embed string: out of memory"
    );
}

#[test]
fn empty_batch_needs_no_model() {
    match embed_batch(&[]) {
        BatchPlan::Done(embeddings) => assert!(embeddings.is_empty()),
        BatchPlan::Call(call) => panic!("{:?}", call),
    }
}

#[test]
fn batch_is_embedded_by_one_call_in_order() {
    let chunks = vec!["a".to_string(), "b".to_string(), "c".to_string()];
    match embed_batch(&chunks) {
        BatchPlan::Done(_) => panic!("no call"),
        BatchPlan::Call(call) => {
            assert_eq!(call.texts, chunks);
            assert_eq!(call.batch_size, None);
        }
    }
}

#[test]
fn batch_result_has_one_vector_per_text() {
    let r = embed_batch_result(2, Ok(vec![vec![1], vec![2]])).unwrap();
    assert_eq!(r, vec![vec![1], vec![2]]);
    let r = embed_batch_result(0, Ok(vec![])).unwrap();
    assert!(r.is_empty());
}

#[test]
fn batch_result_of_another_size_is_an_error() {
    let e = embed_batch_result(3, Ok(vec![vec![1], vec![2]])).unwrap_err();
    assert_eq!(
        e.to_string(),
        "Embedding error occurred: Failed to embed chunks: the model returned a different number of embeddings"
    );
    assert!(embed_batch_result(1, Ok(vec![vec![1], vec![2]])).is_err());
}

#[test]
fn model_failure_on_a_batch_is_an_error() {
    let e = embed_batch_result(2, Err("boom".to_string())).unwrap_err();
    assert_eq!(e.to_string(), "Embedding error occurred: Failed to embed chunks: boom");
}

#[test]
fn model_that_cannot_be_set_up() {
    assert_eq!(
        model_failure("no such file").to_string(),
        "Embedding error occurred: Failed to initialize embedding model: no such file"
    );
}
