//! The generation backend: models, prompts and requests.

pub mod inference;
pub mod model;
pub mod ollama;
pub mod prompt;
