//! Retrieval-augmented generation core: chunking, point identity, prompt
//! assembly and the decisions of the retrieval pipeline.

pub mod api;
pub mod chunk;
pub mod config;
pub mod embeddings;
pub mod error;
pub mod llm;
pub mod processing;
pub mod prompt;
pub mod storage;
pub mod text;
pub mod vectordb;
