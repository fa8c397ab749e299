//! A chunk with its embedding, ready to become a point of a vector store.

use vstd::prelude::*;
use vstd::std_specs::convert::FromSpecImpl;
use crate::embeddings::process::{chunk_name, generate_uuid, name_chunk, uuid_v5_dns};
use crate::processing::embedding::Embedding;
use crate::storage::qdrant::{
    id_text, payload_text, scored_point_fault, PointStruct, ScoredPoint, CONTENT_KEY, NAME_KEY,
};
use crate::vectordb::vector_store::{lemma_store_point_round_trip, opt_text, VectorStorePoint};

verus! {

#[derive(Debug, Clone)]
pub struct TextChunk {
    /// The text of the identifier derived from `name`.
    pub uuid: String,
    pub content: String,
    pub embedding: Embedding,
    pub name: String,
}

impl TextChunk {
    /// The chunk as a point that was not yet scored.
    pub open spec fn as_point(self) -> VectorStorePoint {
        VectorStorePoint {
            uuid: Some(self.uuid),
            content: Some(self.content),
            embedding: Some(self.embedding),
            name: Some(self.name),
            score: None,
        }
    }

    /// A chunk made of its four parts.
    pub fn from_parts(uuid: String, content: String, embedding: Embedding, name: String) -> (chunk:
        TextChunk)
        ensures
            chunk == (TextChunk { uuid, content, embedding, name }),
    {
        TextChunk { uuid, content, embedding, name }
    }

    /// Chunk `index` of the document `file_name`: it is named after the file
    /// and the index, and identified by the identifier of that name.
    pub fn new(file_name: &str, index: usize, content: String, embedding: Embedding) -> (chunk:
        TextChunk)
        ensures
            chunk.name@ == chunk_name(file_name@, index as nat),
            chunk.uuid@ == uuid_v5_dns(chunk.name@),
            chunk.content == content,
            chunk.embedding == embedding,
    {
        let name = name_chunk(file_name, index);
        let uuid = generate_uuid(name.as_str());
        TextChunk::from_parts(uuid, content, embedding, name)
    }
}

impl From<TextChunk> for VectorStorePoint {
    fn from(chunk: TextChunk) -> (point: VectorStorePoint) {
        VectorStorePoint {
            uuid: Some(chunk.uuid),
            content: Some(chunk.content),
            embedding: Some(chunk.embedding),
            name: Some(chunk.name),
            score: None,
        }
    }
}

impl FromSpecImpl<TextChunk> for VectorStorePoint {
    open spec fn obeys_from_spec() -> bool {
        true
    }

    open spec fn from_spec(chunk: TextChunk) -> VectorStorePoint {
        chunk.as_point()
    }
}

/// A chunk that is stored as a point and then returned under the identifier
/// and with the `content` and `name` it was stored with reads back without
/// fault, with the chunk's text, name and identifier.
pub proof fn lemma_text_chunk_round_trip(
    chunk: TextChunk,
    stored: PointStruct,
    returned: ScoredPoint,
    read: VectorStorePoint,
)
    requires
        chunk.as_point().is_stored_as(stored),
        id_text(returned.id) == id_text(stored.id),
        payload_text(returned.payload@, CONTENT_KEY@) == payload_text(
            stored.payload@,
            CONTENT_KEY@,
        ),
        payload_text(returned.payload@, NAME_KEY@) == payload_text(stored.payload@, NAME_KEY@),
        read.is_read_from(returned),
    ensures
        scored_point_fault(returned) is None,
        opt_text(read.content) == Some(chunk.content@),
        opt_text(read.name) == Some(chunk.name@),
        opt_text(read.uuid) == Some(chunk.uuid@),
{
    lemma_store_point_round_trip(chunk.as_point(), stored, returned, read);
}

} // verus!
