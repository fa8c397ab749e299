//! Chunks of a document with their identity and embedding.

pub mod process;
pub mod text_chunk;
