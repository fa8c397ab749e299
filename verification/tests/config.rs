use backend::config::Environment;
use backend::error::{
    ChunkError, DocumentError, EmbeddingError, InferenceError, VectorStorageError,
    VectorStoreError,
};
use backend::storage::model::{DBFilterOptions, DBMessageRole};

#[test]
fn environment_from_its_name_in_any_case() {
    assert_eq!(Environment::from_string("production"), Environment::Production);
    assert_eq!(Environment::from_string("PRODUCTION"), Environment::Production);
    assert_eq!(Environment::from_string("Production"), Environment::Production);
    assert_eq!(Environment::from_string("pRoDuCtIoN"), Environment::Production);
}

#[test]
fn every_other_name_is_development() {
    assert_eq!(Environment::from_string("development"), Environment::Development);
    assert_eq!(Environment::from_string(""), Environment::Development);
    assert_eq!(Environment::from_string("prod"), Environment::Development);
    assert_eq!(Environment::from_string(" production"), Environment::Development);
    assert_eq!(Environment::from_string("productions"), Environment::Development);
}

#[test]
fn lower_case_names_are_taken_as_they_are() {
    assert_eq!(Environment::from_lowercase("production"), Environment::Production);
    assert_eq!(Environment::from_lowercase("PRODUCTION"), Environment::Development);
    assert_eq!(Environment::from_lowercase("staging"), Environment::Development);
}

#[test]
fn environment_names() {
    assert_eq!(Environment::Development.to_string(), "development");
    assert_eq!(Environment::Production.to_string(), "production");
}

#[test]
fn errors_render_behind_their_prefix() {
    assert_eq!(ChunkError::Message("x".to_string()).to_string(), "ChunkError occurred: x");
    assert_eq!(DocumentError::Message("x".to_string()).to_string(), "DocumentError occurred: x");
    assert_eq!(
        EmbeddingError::Message("x".to_string()).to_string(),
        "Embedding error occurred: x"
    );
    assert_eq!(
        InferenceError::Message("x".to_string()).to_string(),
        "Inference error occurred: x"
    );
    assert_eq!(
        VectorStoreError::Message("x".to_string()).to_string(),
        "VectorStore error occurred: x"
    );
    assert_eq!(
        VectorStorageError::Message("".to_string()).to_string(),
        "VectorStore error occurred: "
    );
}

#[test]
fn role_names() {
    assert_eq!(DBMessageRole::User.to_string(), "user");
    assert_eq!(DBMessageRole::Assistant.to_string(), "assistant");
}

#[test]
fn filter_options_default_to_nothing() {
    let options = DBFilterOptions::default();
    assert_eq!(options.page, None);
    assert_eq!(options.limit, None);
}

#[test]
fn allowed_origins() {
    assert_eq!(Environment::Development.allowed_origin(), "http://localhost:3000");
    assert_eq!(Environment::Production.allowed_origin(), "https://echelongpt.com");
}
