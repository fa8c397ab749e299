//! Error values of the pipeline stages. Each carries a message and renders it
//! behind a fixed prefix that names the stage.

use vstd::prelude::*;
use vstd::string::StringExecFns;

verus! {

/// Failure of a chunking policy.
#[derive(Debug, Clone)]
pub enum ChunkError {
    Message(String),
}

impl ChunkError {
    /// The message carried by the error.
    pub open spec fn message(self) -> Seq<char> {
        match self {
            ChunkError::Message(m) => m@,
        }
    }

    /// The rendered form of the error: the stage's prefix, then the message.
    pub open spec fn rendered(self) -> Seq<char> {
        "ChunkError occurred: "@ + self.message()
    }

    /// Renders the error as text.
    pub fn to_string(&self) -> (s: String)
        ensures
            s@ == self.rendered(),
    {
        match self {
            ChunkError::Message(m) => String::from_str("ChunkError occurred: ").concat(m.as_str()),
        }
    }
}

/// Failure to load a document.
#[derive(Debug, Clone)]
pub enum DocumentError {
    Message(String),
}

impl DocumentError {
    /// The message carried by the error.
    pub open spec fn message(self) -> Seq<char> {
        match self {
            DocumentError::Message(m) => m@,
        }
    }

    /// The rendered form of the error: the stage's prefix, then the message.
    pub open spec fn rendered(self) -> Seq<char> {
        "DocumentError occurred: "@ + self.message()
    }

    /// Renders the error as text.
    pub fn to_string(&self) -> (s: String)
        ensures
            s@ == self.rendered(),
    {
        match self {
            DocumentError::Message(m) => String::from_str("DocumentError occurred: ").concat(m.as_str()),
        }
    }
}

/// Failure of the embedding stage.
#[derive(Debug, Clone)]
pub enum EmbeddingError {
    Message(String),
}

impl EmbeddingError {
    /// The message carried by the error.
    pub open spec fn message(self) -> Seq<char> {
        match self {
            EmbeddingError::Message(m) => m@,
        }
    }

    /// The rendered form of the error: the stage's prefix, then the message.
    pub open spec fn rendered(self) -> Seq<char> {
        "Embedding error occurred: "@ + self.message()
    }

    /// Renders the error as text.
    pub fn to_string(&self) -> (s: String)
        ensures
            s@ == self.rendered(),
    {
        match self {
            EmbeddingError::Message(m) => String::from_str("Embedding error occurred: ").concat(m.as_str()),
        }
    }
}

/// Failure of the generation stage.
#[derive(Debug, Clone)]
pub enum InferenceError {
    Message(String),
}

impl InferenceError {
    /// The message carried by the error.
    pub open spec fn message(self) -> Seq<char> {
        match self {
            InferenceError::Message(m) => m@,
        }
    }

    /// The rendered form of the error: the stage's prefix, then the message.
    pub open spec fn rendered(self) -> Seq<char> {
        "Inference error occurred: "@ + self.message()
    }

    /// Renders the error as text.
    pub fn to_string(&self) -> (s: String)
        ensures
            s@ == self.rendered(),
    {
        match self {
            InferenceError::Message(m) => String::from_str("Inference error occurred: ").concat(m.as_str()),
        }
    }
}

/// Failure of a vector store, or of a conversion to or from its records.
#[derive(Debug, Clone)]
pub enum VectorStoreError {
    Message(String),
}

impl VectorStoreError {
    /// The message carried by the error.
    pub open spec fn message(self) -> Seq<char> {
        match self {
            VectorStoreError::Message(m) => m@,
        }
    }

    /// The rendered form of the error: the stage's prefix, then the message.
    pub open spec fn rendered(self) -> Seq<char> {
        "VectorStore error occurred: "@ + self.message()
    }

    /// Renders the error as text.
    pub fn to_string(&self) -> (s: String)
        ensures
            s@ == self.rendered(),
    {
        match self {
            VectorStoreError::Message(m) => String::from_str("VectorStore error occurred: ").concat(m.as_str()),
        }
    }
}

/// Failure of a vector storage backend, or of a conversion to or from its
/// records.
#[derive(Debug, Clone)]
pub enum VectorStorageError {
    Message(String),
}

impl VectorStorageError {
    /// The message carried by the error.
    pub open spec fn message(self) -> Seq<char> {
        match self {
            VectorStorageError::Message(m) => m@,
        }
    }

    /// The rendered form of the error: the stage's prefix, then the message.
    pub open spec fn rendered(self) -> Seq<char> {
        "VectorStore error occurred: "@ + self.message()
    }

    /// Renders the error as text.
    pub fn to_string(&self) -> (s: String)
        ensures
            s@ == self.rendered(),
    {
        match self {
            VectorStorageError::Message(m) => String::from_str("VectorStore error occurred: ").concat(m.as_str()),
        }
    }
}

} // verus!
