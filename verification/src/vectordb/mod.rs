//! The vector store seen through optional parts: a point may lack any of
//! them until it is converted.

pub mod vector_store;
