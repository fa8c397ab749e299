//! Points whose parts are optional, and their conversions to and from the
//! records of a vector store.

use vstd::prelude::*;
use vstd::string::StringExecFns;
use crate::error::VectorStoreError;
use crate::processing::embedding::Embedding;
use crate::storage::qdrant::{
    chunk_payload, first_fault, id_text, is_chunk_payload, lemma_chunk_payload_reads,
    lemma_first_fault_skip, payload_text, read_scored_point, scored_point_fault, PointId,
    PointIdOptions, PointStruct, ScoredPoint, CONTENT_KEY, NAME_KEY,
};

verus! {

/// The kinds of vector store.
#[derive(Debug, Clone, Copy, PartialEq, Eq, Structural)]
pub enum VectorStoreType {
    Qdrant,
}

/// What a store reports of an operation. The time it took, in seconds, is
/// held as the bits of a double-precision number.
#[derive(Debug, Clone, Copy, PartialEq, Eq, Structural)]
pub struct VectorStoreResponse {
    pub time: u64,
}

#[derive(Debug, Clone)]
pub struct VectorStorePoint {
    pub uuid: Option<String>,
    /// Stored under the payload key `content`.
    pub content: Option<String>,
    pub embedding: Option<Embedding>,
    /// Stored under the payload key `name`.
    pub name: Option<String>,
    /// The similarity to the query, as the bits of a single-precision number.
    pub score: Option<u32>,
}

/// The points that a query returned, best first, and the time it took.
#[derive(Debug, Clone)]
pub struct VectorStoreQueryResponse {
    pub time: u64,
    pub points: Vec<VectorStorePoint>,
}

/// The text of an optional string.
pub open spec fn opt_text(text: Option<String>) -> Option<Seq<char>> {
    match text {
        Some(t) => Some(t@),
        None => None,
    }
}

impl VectorStorePoint {
    /// `point` is this point as a query returns it: the same identifier,
    /// text, name and score, and no vector.
    pub open spec fn is_read_from(self, point: ScoredPoint) -> bool {
        &&& self.uuid is Some
        &&& self.content is Some
        &&& self.name is Some
        &&& id_text(point.id) == opt_text(self.uuid)
        &&& payload_text(point.payload@, CONTENT_KEY@) == opt_text(self.content)
        &&& payload_text(point.payload@, NAME_KEY@) == opt_text(self.name)
        &&& self.score == Some(point.score)
        &&& self.embedding is None
    }

    /// Why the point cannot be stored, if it cannot: the first of its
    /// identifier, vector, name and text that is missing.
    pub open spec fn store_fault(self) -> Option<Seq<char>> {
        if self.uuid is None {
            Some("PointStruct Conversion Error: ID is none."@)
        } else if self.embedding is None {
            Some("PointStruct Conversion Error: Vectors are none."@)
        } else if self.name is None {
            Some("PointStruct Conversion Error: Name is none."@)
        } else if self.content is None {
            Some("PointStruct Conversion Error: Content is none."@)
        } else {
            None
        }
    }

    /// `stored` is this point as an upsert takes it: the identifier as a
    /// UUID, the vector, and a payload of exactly the text and the name.
    pub open spec fn is_stored_as(self, stored: PointStruct) -> bool {
        &&& self.uuid is Some
        &&& self.content is Some
        &&& self.name is Some
        &&& id_text(stored.id) == opt_text(self.uuid)
        &&& stored.vectors == self.embedding
        &&& stored.vectors is Some
        &&& is_chunk_payload(stored.payload@, self.content->0@, self.name->0@)
        &&& stored.is_well_formed()
    }

    /// Reads a point that a query returned. Fails, with the fault as the
    /// message, exactly when `scored_point_fault` names one.
    pub fn from_scored_point(scored_point: ScoredPoint) -> (r: Result<Self, VectorStoreError>)
        ensures
            match r {
                Ok(point) => scored_point_fault(scored_point) is None && point.is_read_from(
                    scored_point,
                ),
                Err(e) => scored_point_fault(scored_point) == Some(e.message()),
            },
    {
        match read_scored_point(&scored_point) {
            Ok(read) => Ok(
                VectorStorePoint {
                    uuid: Some(read.uuid),
                    content: Some(read.content),
                    name: Some(read.name),
                    score: Some(read.score),
                    embedding: None,
                },
            ),
            Err(fault) => Err(VectorStoreError::Message(fault)),
        }
    }

    /// Converts the point to the record that an upsert takes. Fails, with the
    /// fault as the message, exactly when `store_fault` names one.
    pub fn to_point_struct(self) -> (r: Result<PointStruct, VectorStoreError>)
        ensures
            match r {
                Ok(stored) => self.store_fault() is None && self.is_stored_as(stored),
                Err(e) => self.store_fault() == Some(e.message()),
            },
    {
        let id = match self.uuid {
            Some(val) => val,
            None => {
                return Err(
                    VectorStoreError::Message(
                        String::from_str("PointStruct Conversion Error: ID is none."),
                    ),
                );
            },
        };
        let vectors = match self.embedding {
            Some(val) => val,
            None => {
                return Err(
                    VectorStoreError::Message(
                        String::from_str("PointStruct Conversion Error: Vectors are none."),
                    ),
                );
            },
        };
        let name = match self.name {
            Some(val) => val,
            None => {
                return Err(
                    VectorStoreError::Message(
                        String::from_str("PointStruct Conversion Error: Name is none."),
                    ),
                );
            },
        };
        let content = match self.content {
            Some(val) => val,
            None => {
                return Err(
                    VectorStoreError::Message(
                        String::from_str("PointStruct Conversion Error: Content is none."),
                    ),
                );
            },
        };
        let payload = chunk_payload(content, name);
        Ok(
            PointStruct {
                id: Some(PointId { point_id_options: Some(PointIdOptions::Uuid(id)) }),
                payload,
                vectors: Some(vectors),
            },
        )
    }
}

/// `read` are the points of `returned`, one for one and in the same order.
pub open spec fn are_read_from(read: Seq<VectorStorePoint>, returned: Seq<ScoredPoint>) -> bool {
    &&& read.len() == returned.len()
    &&& forall|i: int| 0 <= i < read.len() ==> (#[trigger] read[i]).is_read_from(returned[i])
}

/// `stored` are the points of `points` as an upsert takes them, one for one
/// and in the same order.
pub open spec fn are_stored_as(points: Seq<VectorStorePoint>, stored: Seq<PointStruct>) -> bool {
    &&& stored.len() == points.len()
    &&& forall|i: int| 0 <= i < points.len() ==> (#[trigger] points[i]).is_stored_as(stored[i])
}

/// The fault of the first point that cannot be stored.
pub open spec fn first_store_fault(points: Seq<VectorStorePoint>) -> Option<Seq<char>>
    decreases points.len(),
{
    if points.len() == 0 {
        None
    } else if points[0].store_fault() is Some {
        points[0].store_fault()
    } else {
        first_store_fault(points.drop_first())
    }
}

/// A first fault behind points without fault is the first fault of all.
proof fn lemma_first_store_fault_skip(points: Seq<VectorStorePoint>, n: int)
    requires
        0 <= n <= points.len(),
        forall|i: int| 0 <= i < n ==> (#[trigger] points[i]).store_fault() is None,
    ensures
        first_store_fault(points) == first_store_fault(points.skip(n)),
    decreases n,
{
    if n > 0 {
        let rest = points.drop_first();
        assert forall|i: int| 0 <= i < n - 1 implies (#[trigger] rest[i]).store_fault()
            is None by {
            assert(rest[i] == points[i + 1]);
        }
        lemma_first_store_fault_skip(rest, n - 1);
        assert(rest.skip(n - 1) =~= points.skip(n));
    } else {
        assert(points.skip(0) =~= points);
    }
}

/// Reads the answer to a query: every returned point, in the order in which
/// the store ranked them. One point that cannot be read fails the whole
/// answer, with the fault of the first such point as the message.
pub fn read_points(result: Vec<ScoredPoint>, time: u64) -> (r: Result<
    VectorStoreQueryResponse,
    VectorStoreError,
>)
    ensures
        match r {
            Ok(response) => first_fault(result@) is None && response.time == time
                && are_read_from(response.points@, result@),
            Err(e) => first_fault(result@) == Some(e.message()),
        },
{
    let mut points: Vec<VectorStorePoint> = Vec::new();
    let mut i: usize = 0;
    while i < result.len()
        invariant
            i <= result.len(),
            points.len() == i,
            forall|j: int| 0 <= j < i ==> scored_point_fault(#[trigger] result@[j]) is None,
            forall|j: int| 0 <= j < i ==> (#[trigger] points@[j]).is_read_from(result@[j]),
        decreases result.len() - i,
    {
        proof {
            lemma_first_fault_skip(result@, i as int);
            assert(result@.skip(i as int)[0] == result@[i as int]);
        }
        match read_scored_point(&result[i]) {
            Ok(read) => {
                points.push(
                    VectorStorePoint {
                        uuid: Some(read.uuid),
                        content: Some(read.content),
                        name: Some(read.name),
                        score: Some(read.score),
                        embedding: None,
                    },
                );
            },
            Err(fault) => {
                return Err(VectorStoreError::Message(fault));
            },
        }
        i += 1;
    }
    proof {
        lemma_first_fault_skip(result@, result.len() as int);
    }
    Ok(VectorStoreQueryResponse { time, points })
}

/// Converts points to the records that an upsert takes. One point that
/// cannot be stored fails the whole conversion, with the fault of the first
/// such point as the message.
pub fn store_points(points: Vec<VectorStorePoint>) -> (r: Result<Vec<PointStruct>, VectorStoreError>)
    ensures
        match r {
            Ok(stored) => first_store_fault(points@) is None && are_stored_as(points@, stored@),
            Err(e) => first_store_fault(points@) == Some(e.message()),
        },
{
    let mut stored: Vec<PointStruct> = Vec::new();
    for point in it: points.into_iter()
        invariant
            stored.len() == it.index(),
            it.seq() == points@,
            forall|j: int| 0 <= j < it.index() ==> (#[trigger] points@[j]).store_fault() is None,
            forall|j: int| 0 <= j < it.index() ==> (#[trigger] points@[j]).is_stored_as(stored@[j]),
    {
        proof {
            lemma_first_store_fault_skip(points@, it.index() as int);
            assert(points@.skip(it.index() as int)[0] == points@[it.index() as int]);
        }
        match point.to_point_struct() {
            Ok(converted) => {
                stored.push(converted);
            },
            Err(e) => {
                return Err(e);
            },
        }
    }
    proof {
        lemma_first_store_fault_skip(points@, points.len() as int);
    }
    Ok(stored)
}

/// A point that is stored and then returned under the identifier and with
/// the `content` and `name` it was stored with reads back without fault, with
/// the text, name and identifier it was stored with.
pub proof fn lemma_store_point_round_trip(
    given: VectorStorePoint,
    stored: PointStruct,
    returned: ScoredPoint,
    read: VectorStorePoint,
)
    requires
        given.is_stored_as(stored),
        id_text(returned.id) == id_text(stored.id),
        payload_text(returned.payload@, CONTENT_KEY@) == payload_text(
            stored.payload@,
            CONTENT_KEY@,
        ),
        payload_text(returned.payload@, NAME_KEY@) == payload_text(stored.payload@, NAME_KEY@),
        read.is_read_from(returned),
    ensures
        scored_point_fault(returned) is None,
        opt_text(read.content) == opt_text(given.content),
        opt_text(read.name) == opt_text(given.name),
        opt_text(read.uuid) == opt_text(given.uuid),
{
    lemma_chunk_payload_reads(stored.payload@, given.content->0@, given.name->0@);
}

} // verus!
