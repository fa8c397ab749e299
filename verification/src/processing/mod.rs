//! The indexing path: documents, their embeddings and the points compiled
//! from them.

pub mod document;
pub mod embedding;
pub mod utils;
