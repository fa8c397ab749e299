//! The records that a vector store takes and returns, and the conversions
//! between them and the library's points.

use vstd::prelude::*;
use vstd::string::StringExecFns;
use crate::error::VectorStorageError;
use crate::processing::embedding::Embedding;
use crate::storage::vector::{VectorDataPoint, VectorStorageQueryResponse, VectorStorageResponse};

verus! {

/// The identifier of a point: a number or the text of a UUID.
#[derive(Debug, Clone)]
pub enum PointIdOptions {
    Num(u64),
    Uuid(String),
}

#[derive(Debug, Clone)]
pub struct PointId {
    pub point_id_options: Option<PointIdOptions>,
}

/// What a payload value holds. Numbers with a fraction are held as the bits
/// of a double-precision number; what a structure or a list holds is not
/// kept.
#[derive(Debug, Clone)]
pub enum Kind {
    NullValue,
    DoubleValue(u64),
    IntegerValue(i64),
    StringValue(String),
    BoolValue(bool),
    StructValue,
    ListValue,
}

#[derive(Debug, Clone)]
pub struct Value {
    pub kind: Option<Kind>,
}

/// One entry of a payload. A store keeps a payload as a map from keys to
/// values; a payload here is the list of that map's entries, in any order.
/// No key occurs twice in the payload of a point that a store returned, nor
/// in one that the library hands to a store (`has_distinct_keys`).
#[derive(Debug, Clone)]
pub struct PayloadEntry {
    pub key: String,
    pub value: Value,
}

/// A point as a query returns it. The score is held as the bits of a
/// single-precision number.
#[derive(Debug, Clone)]
pub struct ScoredPoint {
    pub id: Option<PointId>,
    pub payload: Vec<PayloadEntry>,
    pub score: u32,
}

impl ScoredPoint {
    /// The payload lists the entries of a map: no key occurs twice. Every
    /// point that a store returned is well formed.
    pub open spec fn is_well_formed(self) -> bool {
        has_distinct_keys(self.payload@)
    }
}

/// A point as an upsert takes it.
#[derive(Debug, Clone)]
pub struct PointStruct {
    pub id: Option<PointId>,
    pub payload: Vec<PayloadEntry>,
    pub vectors: Option<Embedding>,
}

impl PointStruct {
    /// The payload lists the entries of a map: no key occurs twice. Every
    /// point that the library makes for a store is well formed.
    pub open spec fn is_well_formed(self) -> bool {
        has_distinct_keys(self.payload@)
    }
}

/// No key occurs twice in the payload.
pub open spec fn has_distinct_keys(payload: Seq<PayloadEntry>) -> bool {
    forall|i: int, j: int|
        0 <= i < j < payload.len() ==> (#[trigger] payload[i]).key@ != (#[trigger] payload[j]).key@
}

/// The payload key under which a chunk's text is stored.
pub const CONTENT_KEY: &'static str = "content";

/// The payload key under which a chunk's name is stored.
pub const NAME_KEY: &'static str = "name";

/// The text of an identifier that is a UUID.
pub open spec fn id_text(id: Option<PointId>) -> Option<Seq<char>> {
    match id {
        Some(PointId { point_id_options: Some(PointIdOptions::Uuid(text)) }) => Some(text@),
        _ => None,
    }
}

/// The text of a value that is a string.
pub open spec fn value_text(value: Value) -> Option<Seq<char>> {
    match value.kind {
        Some(Kind::StringValue(text)) => Some(text@),
        _ => None,
    }
}

/// The value of the first entry under `key`. In a payload with distinct keys
/// that is the only entry under the key, wherever it stands
/// (`lemma_lookup_ignores_order`).
pub open spec fn payload_get(payload: Seq<PayloadEntry>, key: Seq<char>) -> Option<Value>
    decreases payload.len(),
{
    if payload.len() == 0 {
        None
    } else if payload[0].key@ == key {
        Some(payload[0].value)
    } else {
        payload_get(payload.drop_first(), key)
    }
}

/// The text stored under `key`, where the payload has a string there.
pub open spec fn payload_text(payload: Seq<PayloadEntry>, key: Seq<char>) -> Option<Seq<char>> {
    match payload_get(payload, key) {
        Some(value) => value_text(value),
        None => None,
    }
}

/// Why a returned point cannot be read, if it cannot: the first of a missing
/// identifier, an identifier that is no UUID, a `content` that is missing or
/// no string, and a `name` that is missing or no string.
pub open spec fn scored_point_fault(point: ScoredPoint) -> Option<Seq<char>> {
    if point.id is None {
        Some("ScoredPoint Conversion Error: PointID is None."@)
    } else if id_text(point.id) is None {
        Some("ScoredPoint Conversion Error: Point ID is not a UUID."@)
    } else if payload_text(point.payload@, CONTENT_KEY@) is None {
        Some("ScoredPoint Conversion Error: Missing or invalid 'content' field"@)
    } else if payload_text(point.payload@, NAME_KEY@) is None {
        Some("ScoredPoint Conversion Error: Missing or invalid 'name' field"@)
    } else {
        None
    }
}

/// A payload holds exactly a chunk's text and name, in this order.
pub open spec fn is_chunk_payload(
    payload: Seq<PayloadEntry>,
    content: Seq<char>,
    name: Seq<char>,
) -> bool {
    &&& payload.len() == 2
    &&& payload[0].key@ == CONTENT_KEY@
    &&& value_text(payload[0].value) == Some(content)
    &&& payload[1].key@ == NAME_KEY@
    &&& value_text(payload[1].value) == Some(name)
}

/// Looks up the first entry under `key` and returns its text, if it is a
/// string.
pub fn payload_string(payload: &Vec<PayloadEntry>, key: &str) -> (r: Option<String>)
    ensures
        match r {
            Some(text) => payload_text(payload@, key@) == Some(text@),
            None => payload_text(payload@, key@) is None,
        },
{
    let wanted = String::from_str(key);
    let mut i: usize = 0;
    assert(payload@.skip(0) =~= payload@);
    while i < payload.len()
        invariant
            i <= payload.len(),
            wanted@ == key@,
            payload_get(payload@, key@) == payload_get(payload@.skip(i as int), key@),
        decreases payload.len() - i,
    {
        let ghost rest = payload@.skip(i as int);
        assert(rest[0] == payload@[i as int]);
        assert(rest.drop_first() =~= payload@.skip(i + 1));
        if payload[i].key == wanted {
            return match &payload[i].value.kind {
                Some(Kind::StringValue(text)) => Some(text.clone()),
                _ => None,
            };
        }
        i += 1;
    }
    None
}

/// Decides whether no key occurs twice in the payload.
pub fn keys_are_distinct(payload: &Vec<PayloadEntry>) -> (r: bool)
    ensures
        r == has_distinct_keys(payload@),
{
    let mut j: usize = 0;
    while j < payload.len()
        invariant
            j <= payload.len(),
            forall|a: int, b: int|
                0 <= a < b < j ==> (#[trigger] payload@[a]).key@ != (#[trigger] payload@[b]).key@,
        decreases payload.len() - j,
    {
        let mut i: usize = 0;
        while i < j
            invariant
                i <= j < payload.len(),
                forall|a: int| 0 <= a < i ==> (#[trigger] payload@[a]).key@ != payload@[j as int].key@,
            decreases j - i,
        {
            if payload[i].key == payload[j].key {
                return false;
            }
            i += 1;
        }
        j += 1;
    }
    true
}

/// What a lookup finds: the first entry under the key, or that no entry
/// stands under it.
pub proof fn lemma_payload_get_finds(payload: Seq<PayloadEntry>, key: Seq<char>)
    ensures
        match payload_get(payload, key) {
            Some(value) => exists|i: int|
                0 <= i < payload.len() && (#[trigger] payload[i]).key@ == key && payload[i].value
                    == value,
            None => forall|i: int| 0 <= i < payload.len() ==> (#[trigger] payload[i]).key@ != key,
        },
    decreases payload.len(),
{
    if payload.len() > 0 {
        if payload[0].key@ == key {
            assert(payload[0].key@ == key && payload[0].value == payload[0].value);
        } else {
            let rest = payload.drop_first();
            lemma_payload_get_finds(rest, key);
            match payload_get(rest, key) {
                Some(value) => {
                    let i = choose|i: int|
                        0 <= i < rest.len() && (#[trigger] rest[i]).key@ == key && rest[i].value
                            == value;
                    assert(rest[i] == payload[i + 1]);
                    assert(payload[i + 1].key@ == key && payload[i + 1].value == value);
                },
                None => {
                    assert forall|i: int| 0 <= i < payload.len() implies (#[trigger] payload[i]).key@
                        != key by {
                        if i > 0 {
                            assert(rest[i - 1] == payload[i]);
                        }
                    }
                },
            }
        }
    }
}

/// In a payload with distinct keys, a lookup under the key of an entry finds
/// that entry, wherever it stands.
pub proof fn lemma_distinct_keys_lookup(payload: Seq<PayloadEntry>, i: int)
    requires
        has_distinct_keys(payload),
        0 <= i < payload.len(),
    ensures
        payload_get(payload, payload[i].key@) == Some(payload[i].value),
{
    let key = payload[i].key@;
    lemma_payload_get_finds(payload, key);
    match payload_get(payload, key) {
        Some(value) => {
            let j = choose|j: int|
                0 <= j < payload.len() && (#[trigger] payload[j]).key@ == key && payload[j].value
                    == value;
            if j < i {
                assert(payload[j].key@ != payload[i].key@);
            } else if i < j {
                assert(payload[i].key@ != payload[j].key@);
            }
        },
        None => {
            assert(payload[i].key@ != key);
        },
    }
}

/// A payload with distinct keys stands for a map: two such payloads that
/// hold the same entries, in whatever order, give the same value under
/// every key.
pub proof fn lemma_lookup_ignores_order(
    first: Seq<PayloadEntry>,
    second: Seq<PayloadEntry>,
    key: Seq<char>,
)
    requires
        has_distinct_keys(first),
        has_distinct_keys(second),
        forall|i: int| 0 <= i < first.len() ==> second.contains(#[trigger] first[i]),
        forall|i: int| 0 <= i < second.len() ==> first.contains(#[trigger] second[i]),
    ensures
        payload_get(first, key) == payload_get(second, key),
{
    lemma_payload_get_finds(first, key);
    lemma_payload_get_finds(second, key);
    match payload_get(first, key) {
        Some(value) => {
            let i = choose|i: int|
                0 <= i < first.len() && (#[trigger] first[i]).key@ == key && first[i].value
                    == value;
            assert(second.contains(first[i]));
            let j = choose|j: int| 0 <= j < second.len() && second[j] == first[i];
            lemma_distinct_keys_lookup(second, j);
        },
        None => {
            match payload_get(second, key) {
                Some(value) => {
                    let j = choose|j: int|
                        0 <= j < second.len() && (#[trigger] second[j]).key@ == key
                            && second[j].value == value;
                    assert(first.contains(second[j]));
                    let i = choose|i: int| 0 <= i < first.len() && first[i] == second[j];
                    assert(first[i].key@ == key);
                },
                None => {},
            }
        },
    }
}

/// The payload of a chunk: its text under `content`, its name under `name`.
pub fn chunk_payload(content: String, name: String) -> (payload: Vec<PayloadEntry>)
    ensures
        is_chunk_payload(payload@, content@, name@),
        has_distinct_keys(payload@),
{
    let mut payload: Vec<PayloadEntry> = Vec::new();
    payload.push(
        PayloadEntry {
            key: String::from_str(CONTENT_KEY),
            value: Value { kind: Some(Kind::StringValue(content)) },
        },
    );
    payload.push(
        PayloadEntry {
            key: String::from_str(NAME_KEY),
            value: Value { kind: Some(Kind::StringValue(name)) },
        },
    );
    proof {
        lemma_chunk_payload_reads(payload@, content@, name@);
    }
    payload
}

/// A returned point that reads without fault: its identifier, the texts
/// under `content` and `name`, and its score.
pub struct ReadPoint {
    pub uuid: String,
    pub content: String,
    pub name: String,
    pub score: u32,
}

/// `read` is what `point` holds.
pub open spec fn reads_as(point: ScoredPoint, read: ReadPoint) -> bool {
    &&& id_text(point.id) == Some(read.uuid@)
    &&& payload_text(point.payload@, CONTENT_KEY@) == Some(read.content@)
    &&& payload_text(point.payload@, NAME_KEY@) == Some(read.name@)
    &&& read.score == point.score
}

/// Reads a returned point, or says why it cannot be read.
pub fn read_scored_point(point: &ScoredPoint) -> (r: Result<ReadPoint, String>)
    ensures
        match r {
            Ok(read) => scored_point_fault(*point) is None && reads_as(*point, read),
            Err(fault) => scored_point_fault(*point) == Some(fault@),
        },
{
    let uuid = match &point.id {
        Some(PointId { point_id_options: Some(PointIdOptions::Uuid(text)) }) => text.clone(),
        Some(_) => {
            return Err(String::from_str("ScoredPoint Conversion Error: Point ID is not a UUID."));
        },
        None => {
            return Err(String::from_str("ScoredPoint Conversion Error: PointID is None."));
        },
    };
    let content = match payload_string(&point.payload, CONTENT_KEY) {
        Some(text) => text,
        None => {
            return Err(
                String::from_str(
                    "ScoredPoint Conversion Error: Missing or invalid 'content' field",
                ),
            );
        },
    };
    let name = match payload_string(&point.payload, NAME_KEY) {
        Some(text) => text,
        None => {
            return Err(
                String::from_str("ScoredPoint Conversion Error: Missing or invalid 'name' field"),
            );
        },
    };
    Ok(ReadPoint { uuid, content, name, score: point.score })
}

impl VectorDataPoint {
    /// `point` is this point as a query returns it: the same identifier,
    /// text, name and score, and no vector.
    pub open spec fn is_read_from(self, point: ScoredPoint) -> bool {
        &&& id_text(point.id) == Some(self.uuid@)
        &&& payload_text(point.payload@, CONTENT_KEY@) == Some(self.content@)
        &&& payload_text(point.payload@, NAME_KEY@) == Some(self.name@)
        &&& self.score == Some(point.score)
        &&& self.embedding is None
    }

    /// `stored` is this point as an upsert takes it: the identifier as a
    /// UUID, the vector, and a payload of exactly the text and the name.
    pub open spec fn is_stored_as(self, stored: PointStruct) -> bool {
        &&& id_text(stored.id) == Some(self.uuid@)
        &&& stored.vectors == self.embedding
        &&& stored.vectors is Some
        &&& is_chunk_payload(stored.payload@, self.content@, self.name@)
        &&& stored.is_well_formed()
    }

    /// Reads a point that a query returned. Fails, with the fault as the
    /// message, exactly when `scored_point_fault` names one.
    pub fn from_scored_point(scored_point: ScoredPoint) -> (r: Result<Self, VectorStorageError>)
        ensures
            match r {
                Ok(point) => scored_point_fault(scored_point) is None && point.is_read_from(
                    scored_point,
                ),
                Err(e) => scored_point_fault(scored_point) == Some(e.message()),
            },
    {
        match read_scored_point(&scored_point) {
            Ok(read) => Ok(
                VectorDataPoint {
                    uuid: read.uuid,
                    content: read.content,
                    name: read.name,
                    score: Some(read.score),
                    embedding: None,
                },
            ),
            Err(fault) => Err(VectorStorageError::Message(fault)),
        }
    }

    /// Converts the point to the record that an upsert takes. Fails exactly
    /// when the point has no vector.
    pub fn into_point_struct(self) -> (r: Result<PointStruct, VectorStorageError>)
        ensures
            match r {
                Ok(stored) => self.is_stored_as(stored),
                Err(e) => self.embedding is None && e.message()
                    == "PointStruct Conversion Error: Vectors/Embeddings are none."@,
            },
    {
        let vectors = match self.embedding {
            Some(vectors) => vectors,
            None => {
                return Err(
                    VectorStorageError::Message(
                        String::from_str(
                            "PointStruct Conversion Error: Vectors/Embeddings are none.",
                        ),
                    ),
                );
            },
        };
        let payload = chunk_payload(self.content, self.name);
        Ok(
            PointStruct {
                id: Some(PointId { point_id_options: Some(PointIdOptions::Uuid(self.uuid)) }),
                payload,
                vectors: Some(vectors),
            },
        )
    }
}

/// How the similarity of two vectors is measured.
#[derive(Debug, Clone, Copy, PartialEq, Eq, Structural)]
pub enum Distance {
    Cosine,
    Euclid,
    Dot,
    Manhattan,
}

/// A request to create a collection.
#[derive(Debug, Clone)]
pub struct CreateCollection {
    pub collection_name: String,
    /// The number of components of the collection's vectors.
    pub vector_size: u64,
    pub distance: Distance,
    /// Whether the vectors are stored in scalar quantization.
    pub scalar_quantization: bool,
}

/// A request for the points nearest to a vector.
#[derive(Debug, Clone)]
pub struct QueryPoints {
    pub collection_name: String,
    pub query: Embedding,
    pub with_payload: bool,
    pub with_vectors: bool,
}

/// A request to insert points, or to overwrite those whose identifiers are
/// in the collection already.
#[derive(Debug, Clone)]
pub struct UpsertPoints {
    pub collection_name: String,
    pub points: Vec<PointStruct>,
    /// Whether the answer waits until the points are stored.
    pub wait: bool,
}

/// What the backend is asked to do.
#[derive(Debug, Clone, Copy, PartialEq, Eq, Structural)]
pub enum Operation {
    Connect,
    ResolveDimension,
    CreateCollection,
    Query,
    Upsert,
}

impl Operation {
    /// What the error of a failed operation begins with.
    pub open spec fn failure_prefix(self) -> Seq<char> {
        match self {
            Operation::Connect => "Could not create instance of Qdrant client: "@,
            Operation::ResolveDimension =>
                "Could not determine dimension of Embedding Model output: "@,
            Operation::CreateCollection => "Unable to create Qdrant collection: "@,
            Operation::Query => "Qdrant query failed: "@,
            Operation::Upsert => "Qdrant upsert vectors failed: "@,
        }
    }

    /// The error of this operation failing for `cause`.
    pub fn failure(&self, cause: &str) -> (e: VectorStorageError)
        ensures
            e.message() == self.failure_prefix() + cause@,
    {
        let prefix = match self {
            Operation::Connect => "Could not create instance of Qdrant client: ",
            Operation::ResolveDimension =>
                "Could not determine dimension of Embedding Model output: ",
            Operation::CreateCollection => "Unable to create Qdrant collection: ",
            Operation::Query => "Qdrant query failed: ",
            Operation::Upsert => "Qdrant upsert vectors failed: ",
        };
        VectorStorageError::Message(String::from_str(prefix).concat(cause))
    }
}

/// The request that creates a collection for vectors of the given dimension:
/// similarity is measured by cosine distance, and the vectors are stored in
/// scalar quantization. Fails when the dimension could not be resolved.
pub fn create_collection_request(collection_name: &str, dimension: Result<u64, String>) -> (r:
    Result<CreateCollection, VectorStorageError>)
    ensures
        match dimension {
            Ok(size) => r is Ok && r->Ok_0.collection_name@ == collection_name@
                && r->Ok_0.vector_size == size && r->Ok_0.distance == Distance::Cosine
                && r->Ok_0.scalar_quantization,
            Err(cause) => r is Err && r->Err_0.message()
                == Operation::ResolveDimension.failure_prefix() + cause@,
        },
{
    match dimension {
        Ok(size) => Ok(
            CreateCollection {
                collection_name: String::from_str(collection_name),
                vector_size: size,
                distance: Distance::Cosine,
                scalar_quantization: true,
            },
        ),
        Err(cause) => Err(Operation::ResolveDimension.failure(cause.as_str())),
    }
}

/// The request for the points nearest to `vector`, with their payloads and
/// vectors.
pub fn query_request(collection_name: &str, vector: Embedding) -> (r: QueryPoints)
    ensures
        r.collection_name@ == collection_name@,
        r.query == vector,
        r.with_payload,
        r.with_vectors,
{
    QueryPoints {
        collection_name: String::from_str(collection_name),
        query: vector,
        with_payload: true,
        with_vectors: true,
    }
}

/// The fault of the first point that has one.
pub open spec fn first_fault(points: Seq<ScoredPoint>) -> Option<Seq<char>>
    decreases points.len(),
{
    if points.len() == 0 {
        None
    } else if scored_point_fault(points[0]) is Some {
        scored_point_fault(points[0])
    } else {
        first_fault(points.drop_first())
    }
}

/// `read` are the points of `returned`, one for one and in the same order.
pub open spec fn are_read_from(read: Seq<VectorDataPoint>, returned: Seq<ScoredPoint>) -> bool {
    &&& read.len() == returned.len()
    &&& forall|i: int| 0 <= i < read.len() ==> (#[trigger] read[i]).is_read_from(returned[i])
}

/// A first fault behind points without fault is the first fault of all.
pub proof fn lemma_first_fault_skip(points: Seq<ScoredPoint>, n: int)
    requires
        0 <= n <= points.len(),
        forall|i: int| 0 <= i < n ==> scored_point_fault(#[trigger] points[i]) is None,
    ensures
        first_fault(points) == first_fault(points.skip(n)),
    decreases n,
{
    if n > 0 {
        let rest = points.drop_first();
        assert forall|i: int| 0 <= i < n - 1 implies scored_point_fault(#[trigger] rest[i])
            is None by {
            assert(rest[i] == points[i + 1]);
        }
        lemma_first_fault_skip(rest, n - 1);
        assert(rest.skip(n - 1) =~= points.skip(n));
    } else {
        assert(points.skip(0) =~= points);
    }
}

/// Reads the answer to a query: every returned point, in the order in which
/// the backend ranked them. One point that cannot be read fails the whole
/// answer, with the fault of the first such point as the message.
pub fn query_response(result: Vec<ScoredPoint>, time: u64) -> (r: Result<
    VectorStorageQueryResponse,
    VectorStorageError,
>)
    ensures
        match r {
            Ok(response) => first_fault(result@) is None && response.time == time
                && are_read_from(response.points@, result@),
            Err(e) => first_fault(result@) == Some(e.message()),
        },
{
    let mut points: Vec<VectorDataPoint> = Vec::new();
    let mut i: usize = 0;
    while i < result.len()
        invariant
            i <= result.len(),
            points.len() == i,
            forall|j: int| 0 <= j < i ==> scored_point_fault(#[trigger] result@[j]) is None,
            forall|j: int| 0 <= j < i ==> (#[trigger] points@[j]).is_read_from(result@[j]),
        decreases result.len() - i,
    {
        proof {
            lemma_first_fault_skip(result@, i as int);
            assert(result@.skip(i as int)[0] == result@[i as int]);
        }
        match read_scored_point(&result[i]) {
            Ok(read) => {
                points.push(
                    VectorDataPoint {
                        uuid: read.uuid,
                        content: read.content,
                        name: read.name,
                        score: Some(read.score),
                        embedding: None,
                    },
                );
            },
            Err(fault) => {
                return Err(VectorStorageError::Message(fault));
            },
        }
        i += 1;
    }
    proof {
        lemma_first_fault_skip(result@, result.len() as int);
    }
    Ok(VectorStorageQueryResponse { time, points })
}

/// `stored` are the points of `points` as an upsert takes them, one for one
/// and in the same order.
pub open spec fn are_stored_as(points: Seq<VectorDataPoint>, stored: Seq<PointStruct>) -> bool {
    &&& stored.len() == points.len()
    &&& forall|i: int| 0 <= i < points.len() ==> (#[trigger] points[i]).is_stored_as(stored[i])
}

/// The request that stores `points` and waits until they are stored. Fails
/// exactly when a point has no vector.
pub fn upsert_request(collection_name: &str, points: Vec<VectorDataPoint>) -> (r: Result<
    UpsertPoints,
    VectorStorageError,
>)
    ensures
        match r {
            Ok(request) => request.collection_name@ == collection_name@ && request.wait
                && are_stored_as(points@, request.points@),
            Err(e) => (exists|i: int| 0 <= i < points.len() && points[i].embedding is None)
                && e.message() == "PointStruct Conversion Error: Vectors/Embeddings are none."@,
        },
{
    let mut stored: Vec<PointStruct> = Vec::new();
    for point in it: points.into_iter()
        invariant
            stored.len() == it.index(),
            it.seq() == points@,
            forall|j: int| 0 <= j < it.index() ==> (#[trigger] points@[j]).is_stored_as(stored@[j]),
    {
        match point.into_point_struct() {
            Ok(converted) => {
                stored.push(converted);
            },
            Err(e) => {
                return Err(e);
            },
        }
    }
    Ok(UpsertPoints { collection_name: String::from_str(collection_name), points: stored, wait: true })
}

/// What is reported of an operation that the backend performed in `time`.
pub fn operation_response(time: u64) -> (r: VectorStorageResponse)
    ensures
        r.time == time,
{
    VectorStorageResponse { time }
}

/// A payload of exactly a chunk's text and name gives both back by key, and
/// its two keys differ.
pub proof fn lemma_chunk_payload_reads(
    payload: Seq<PayloadEntry>,
    content: Seq<char>,
    name: Seq<char>,
)
    requires
        is_chunk_payload(payload, content, name),
    ensures
        payload_text(payload, CONTENT_KEY@) == Some(content),
        payload_text(payload, NAME_KEY@) == Some(name),
        has_distinct_keys(payload),
{
    reveal_strlit("content");
    reveal_strlit("name");
    assert(CONTENT_KEY@ != NAME_KEY@) by {
        assert(CONTENT_KEY@.len() == 7);
        assert(NAME_KEY@.len() == 4);
    }
    let rest = payload.drop_first();
    assert(rest[0] == payload[1]);
    assert(payload_get(rest, NAME_KEY@) == Some(payload[1].value));
}

/// A point that is stored and then returned under the identifier and with
/// the `content` and `name` it was stored with reads back without fault, with
/// the text, name and identifier it was stored with.
pub proof fn lemma_point_round_trip(
    given: VectorDataPoint,
    stored: PointStruct,
    returned: ScoredPoint,
    read: VectorDataPoint,
)
    requires
        given.is_stored_as(stored),
        id_text(returned.id) == id_text(stored.id),
        payload_text(returned.payload@, CONTENT_KEY@) == payload_text(
            stored.payload@,
            CONTENT_KEY@,
        ),
        payload_text(returned.payload@, NAME_KEY@) == payload_text(stored.payload@, NAME_KEY@),
        read.is_read_from(returned),
    ensures
        scored_point_fault(returned) is None,
        read.content@ == given.content@,
        read.name@ == given.name@,
        read.uuid@ == given.uuid@,
{
    lemma_chunk_payload_reads(stored.payload@, given.content@, given.name@);
}

/// The same holds whatever the order in which the store lists the payload:
/// a point that is stored and then returned well formed, under the identifier
/// and with the entries it was stored with, reads back without fault, with
/// the text, name and identifier it was stored with.
pub proof fn lemma_point_round_trip_in_any_order(
    given: VectorDataPoint,
    stored: PointStruct,
    returned: ScoredPoint,
    read: VectorDataPoint,
)
    requires
        given.is_stored_as(stored),
        returned.is_well_formed(),
        id_text(returned.id) == id_text(stored.id),
        forall|i: int|
            0 <= i < stored.payload@.len() ==> returned.payload@.contains(
                #[trigger] stored.payload@[i],
            ),
        forall|i: int|
            0 <= i < returned.payload@.len() ==> stored.payload@.contains(
                #[trigger] returned.payload@[i],
            ),
        read.is_read_from(returned),
    ensures
        scored_point_fault(returned) is None,
        read.content@ == given.content@,
        read.name@ == given.name@,
        read.uuid@ == given.uuid@,
{
    lemma_lookup_ignores_order(returned.payload@, stored.payload@, CONTENT_KEY@);
    lemma_lookup_ignores_order(returned.payload@, stored.payload@, NAME_KEY@);
    lemma_point_round_trip(given, stored, returned, read);
}

} // verus!
