//! Compiling the chunks of a document and their embeddings into points.

use vstd::prelude::*;
use vstd::string::StringExecFns;
use crate::embeddings::process::{chunk_name, generate_uuid, name_chunk, uuid_v5_dns};
use crate::error::ChunkError;
use crate::processing::embedding::Embedding;
use crate::storage::vector::VectorDataPoint;
use crate::text::texts;

verus! {

impl VectorDataPoint {
    /// `self` is the point of chunk `index` of the document `file_name`: it
    /// is named after the file and the index, identified by the identifier of
    /// that name, and holds the chunk's text and embedding and no score.
    pub open spec fn is_point_of(
        self,
        file_name: Seq<char>,
        index: int,
        content: Seq<char>,
        embedding: Seq<u32>,
    ) -> bool {
        &&& self.name@ == chunk_name(file_name, index as nat)
        &&& self.uuid@ == uuid_v5_dns(self.name@)
        &&& self.content@ == content
        &&& self.embedding is Some
        &&& self.embedding->0@ == embedding
        &&& self.score is None
    }

    /// A point that was not yet scored.
    pub fn new(uuid: String, name: String, content: String, embedding: Embedding) -> (point:
        VectorDataPoint)
        ensures
            point == (VectorDataPoint {
                uuid,
                name,
                content,
                embedding: Some(embedding),
                score: None,
            }),
    {
        VectorDataPoint { uuid, name, content, embedding: Some(embedding), score: None }
    }
}

/// `points` are the points of the chunks of `file_name`, one per chunk and in
/// the chunks' order.
pub open spec fn are_points_of(
    points: Seq<VectorDataPoint>,
    file_name: Seq<char>,
    chunks: Seq<String>,
    embeddings: Seq<Embedding>,
) -> bool {
    &&& points.len() == chunks.len()
    &&& chunks.len() <= embeddings.len()
    &&& forall|i: int|
        0 <= i < points.len() ==> (#[trigger] points[i]).is_point_of(
            file_name,
            i,
            chunks[i]@,
            embeddings[i]@,
        )
}

/// Compiles the chunks of a document and their embeddings into points. Fails
/// exactly when there are fewer embeddings than chunks.
pub fn compile_vectors(file_name: String, chunks: Vec<String>, embeddings: Vec<Embedding>) -> (r:
    Result<Vec<VectorDataPoint>, ChunkError>)
    ensures
        match r {
            Ok(points) => are_points_of(points@, file_name@, chunks@, embeddings@),
            Err(e) => embeddings.len() < chunks.len() && e.message() == "yikes"@,
        },
{
    let mut vector_data_points: Vec<VectorDataPoint> = Vec::new();
    let mut idx: usize = 0;
    while idx < chunks.len()
        invariant
            idx <= chunks.len(),
            idx <= embeddings.len(),
            vector_data_points.len() == idx,
            forall|i: int|
                0 <= i < idx ==> (#[trigger] vector_data_points@[i]).is_point_of(
                    file_name@,
                    i,
                    chunks@[i]@,
                    embeddings@[i]@,
                ),
        decreases chunks.len() - idx,
    {
        if idx >= embeddings.len() {
            return Err(ChunkError::Message(String::from_str("yikes")));
        }
        let name = name_chunk(file_name.as_str(), idx);
        let embedding = embeddings[idx].clone();
        let uuid = generate_uuid(name.as_str());
        let point = VectorDataPoint::new(uuid, name, chunks[idx].clone(), embedding);
        vector_data_points.push(point);
        idx += 1;
    }
    Ok(vector_data_points)
}

/// Indexing a document again gives the same points again: where two runs
/// start from the same file name and from chunks with the same texts, their
/// points agree in identifier, name and text, whatever the embeddings are.
pub proof fn lemma_compiled_ids_repeat(
    file_name: Seq<char>,
    first_chunks: Seq<String>,
    first_embeddings: Seq<Embedding>,
    first: Seq<VectorDataPoint>,
    second_chunks: Seq<String>,
    second_embeddings: Seq<Embedding>,
    second: Seq<VectorDataPoint>,
)
    requires
        texts(first_chunks) == texts(second_chunks),
        are_points_of(first, file_name, first_chunks, first_embeddings),
        are_points_of(second, file_name, second_chunks, second_embeddings),
    ensures
        first.len() == second.len(),
        forall|i: int|
            0 <= i < first.len() ==> (#[trigger] first[i]).uuid@ == second[i].uuid@ && first[i].name@
                == second[i].name@ && first[i].content@ == second[i].content@,
{
    assert(texts(first_chunks).len() == first_chunks.len());
    assert(texts(second_chunks).len() == second_chunks.len());
    assert forall|i: int| 0 <= i < first.len() implies (#[trigger] first[i]).uuid@
        == second[i].uuid@ && first[i].name@ == second[i].name@ && first[i].content@
        == second[i].content@ by {
        assert(second[i].is_point_of(file_name, i, second_chunks[i]@, second_embeddings[i]@));
        assert(texts(first_chunks)[i] == first_chunks[i]@);
        assert(texts(second_chunks)[i] == second_chunks[i]@);
    }
}

} // verus!
