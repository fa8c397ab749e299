//! Records shared with the storage collaborators.

pub mod model;
pub mod qdrant;
pub mod vector;
