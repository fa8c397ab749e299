use backend::storage::qdrant::{
    chunk_payload, create_collection_request, keys_are_distinct, operation_response,
    payload_string,
    query_request, query_response, read_scored_point, upsert_request, Distance, Kind, Operation,
    PayloadEntry, PointId, PointIdOptions, PointStruct, ScoredPoint, Value,
};
use backend::storage::vector::VectorDataPoint;
use backend::vectordb::vector_store::{read_points, store_points, VectorStorePoint};

fn text(value: &str) -> Value {
    Value { kind: Some(Kind::StringValue(value.to_string())) }
}

fn entry(key: &str, value: Value) -> PayloadEntry {
    PayloadEntry { key: key.to_string(), value }
}

fn uuid_id(value: &str) -> Option<PointId> {
    Some(PointId { point_id_options: Some(PointIdOptions::Uuid(value.to_string())) })
}

fn returned() -> ScoredPoint {
    ScoredPoint {
        id: uuid_id("aad03681-8b63-5304-89e0-8ca8f49461b5"),
        payload: vec![
            entry("name", text("doc.md_1")),
            entry("extra", Value { kind: Some(Kind::IntegerValue(3)) }),
            entry("content", text("# B\nbar")),
        ],
        score: 0.75f32.to_bits(),
    }
}

#[test]
fn returned_point_is_read() {
    let point = VectorDataPoint::from_scored_point(returned()).unwrap();
    assert_eq!(point.uuid, "aad03681-8b63-5304-89e0-8ca8f49461b5");
    assert_eq!(point.content, "# B\nbar");
    assert_eq!(point.name, "doc.md_1");
    assert_eq!(point.score.map(f32::from_bits), Some(0.75));
    assert_eq!(point.embedding, None);

    let point = VectorStorePoint::from_scored_point(returned()).unwrap();
    assert_eq!(point.uuid.as_deref(), Some("aad03681-8b63-5304-89e0-8ca8f49461b5"));
    assert_eq!(point.content.as_deref(), Some("# B\nbar"));
    assert_eq!(point.name.as_deref(), Some("doc.md_1"));
    assert_eq!(point.score.map(f32::from_bits), Some(0.75));
    assert_eq!(point.embedding, None);

    let read = read_scored_point(&returned()).unwrap();
    assert_eq!(read.uuid, "aad03681-8b63-5304-89e0-8ca8f49461b5");
    assert_eq!(read.score, 0.75f32.to_bits());
}

fn fault_of(point: ScoredPoint) -> String {
    let a = VectorDataPoint::from_scored_point(point.clone()).unwrap_err().to_string();
    let b = VectorStorePoint::from_scored_point(point.clone()).unwrap_err().to_string();
    assert_eq!(a, b);
    let c = read_scored_point(&point).err().unwrap();
    assert_eq!(a, format!("VectorStore error occurred: {}", c));
    c
}

#[test]
fn point_without_identifier_is_refused() {
    let mut point = returned();
    point.id = None;
    assert_eq!(fault_of(point), "ScoredPoint Conversion Error: PointID is None.");
}

#[test]
fn point_whose_identifier_is_no_uuid_is_refused() {
    let mut point = returned();
    point.id = Some(PointId { point_id_options: Some(PointIdOptions::Num(7)) });
    assert_eq!(fault_of(point), "ScoredPoint Conversion Error: Point ID is not a UUID.");
    let mut point = returned();
    point.id = Some(PointId { point_id_options: None });
    assert_eq!(fault_of(point), "ScoredPoint Conversion Error: Point ID is not a UUID.");
}

#[test]
fn point_without_content_is_refused() {
    let mut point = returned();
    point.payload.remove(2);
    assert_eq!(
        fault_of(point),
        "ScoredPoint Conversion Error: Missing or invalid 'content' field"
    );
    let mut point = returned();
    point.payload[2].value = Value { kind: Some(Kind::IntegerValue(1)) };
    assert_eq!(
        fault_of(point),
        "ScoredPoint Conversion Error: Missing or invalid 'content' field"
    );
    let mut point = returned();
    point.payload[2].value = Value { kind: None };
    assert_eq!(
        fault_of(point),
        "ScoredPoint Conversion Error: Missing or invalid 'content' field"
    );
}

#[test]
fn point_without_name_is_refused() {
    let mut point = returned();
    point.payload.remove(0);
    assert_eq!(fault_of(point), "ScoredPoint Conversion Error: Missing or invalid 'name' field");
    let mut point = returned();
    point.payload[0].value = Value { kind: Some(Kind::BoolValue(true)) };
    assert_eq!(fault_of(point), "ScoredPoint Conversion Error: Missing or invalid 'name' field");
}

#[test]
fn faults_are_reported_in_order() {
    let point = ScoredPoint { id: None, payload: vec![], score: 0 };
    assert_eq!(fault_of(point), "ScoredPoint Conversion Error: PointID is None.");
    let point = ScoredPoint { id: uuid_id("x"), payload: vec![], score: 0 };
    assert_eq!(
        fault_of(point),
        "ScoredPoint Conversion Error: Missing or invalid 'content' field"
    );
}

#[test]
fn payload_lookup_takes_the_first_entry_of_a_key() {
    let payload = vec![
        entry("a", text("1")),
        entry("b", Value { kind: Some(Kind::NullValue) }),
        entry("a", text("2")),
        entry("b", text("3")),
    ];
    assert_eq!(payload_string(&payload, "a").as_deref(), Some("1"));
    assert_eq!(payload_string(&payload, "b"), None);
    assert_eq!(payload_string(&payload, "c"), None);
    assert_eq!(payload_string(&vec![], "a"), None);
}

fn stored_parts(stored: &PointStruct) -> (String, Vec<(String, String)>, Vec<u32>) {
    let id = match &stored.id {
        Some(PointId { point_id_options: Some(PointIdOptions::Uuid(id)) }) => id.clone(),
        other => panic!("not a uuid: {:?}", other),
    };
    let payload = stored
        .payload
        .iter()
        .map(|e| match &e.value.kind {
            Some(Kind::StringValue(s)) => (e.key.clone(), s.clone()),
            other => panic!("not a string: {:?}", other),
        })
        .collect();
    (id, payload, stored.vectors.clone().unwrap())
}

#[test]
fn point_is_stored_with_exactly_content_and_name() {
    let point = VectorDataPoint {
        uuid: "id-1".to_string(),
        name: "doc.md_0".to_string(),
        content: "# A\nfoo\n".to_string(),
        embedding: Some(vec![1, 2, 3]),
        score: Some(5),
    };
    let stored = point.into_point_struct().unwrap();
    let (id, payload, vector) = stored_parts(&stored);
    assert_eq!(id, "id-1");
    assert_eq!(
        payload,
        vec![
            ("content".to_string(), "# A\nfoo\n".to_string()),
            ("name".to_string(), "doc.md_0".to_string())
        ]
    );
    assert_eq!(vector, vec![1, 2, 3]);
}

#[test]
fn point_without_vector_is_not_stored() {
    let point = VectorDataPoint {
        uuid: "id-1".to_string(),
        name: "n".to_string(),
        content: "c".to_string(),
        embedding: None,
        score: None,
    };
    assert_eq!(
        point.into_point_struct().unwrap_err().to_string(),
        "VectorStore error occurred: PointStruct Conversion Error: Vectors/Embeddings are none."
    );
}

fn whole() -> VectorStorePoint {
    VectorStorePoint {
        uuid: Some("id-2".to_string()),
        content: Some("text".to_string()),
        embedding: Some(vec![4, 5]),
        name: Some("doc.md_3".to_string()),
        score: None,
    }
}

#[test]
fn whole_point_is_stored() {
    let stored = whole().to_point_struct().unwrap();
    let (id, payload, vector) = stored_parts(&stored);
    assert_eq!(id, "id-2");
    assert_eq!(
        payload,
        vec![
            ("content".to_string(), "text".to_string()),
            ("name".to_string(), "doc.md_3".to_string())
        ]
    );
    assert_eq!(vector, vec![4, 5]);
}

fn store_fault(point: VectorStorePoint) -> String {
    point.to_point_struct().unwrap_err().to_string()
}

#[test]
fn missing_parts_are_reported_in_order() {
    let mut p = whole();
    p.uuid = None;
    p.embedding = None;
    p.name = None;
    p.content = None;
    assert_eq!(
        store_fault(p),
        "VectorStore error occurred: PointStruct Conversion Error: ID is none."
    );
    let mut p = whole();
    p.embedding = None;
    p.name = None;
    p.content = None;
    assert_eq!(
        store_fault(p),
        "VectorStore error occurred: PointStruct Conversion Error: Vectors are none."
    );
    let mut p = whole();
    p.name = None;
    p.content = None;
    assert_eq!(
        store_fault(p),
        "VectorStore error occurred: PointStruct Conversion Error: Name is none."
    );
    let mut p = whole();
    p.content = None;
    assert_eq!(
        store_fault(p),
        "VectorStore error occurred: PointStruct Conversion Error: Content is none."
    );
}

#[test]
fn chunk_payload_has_two_entries() {
    let payload = chunk_payload("text".to_string(), "name_0".to_string());
    assert_eq!(payload.len(), 2);
    assert_eq!(payload[0].key, "content");
    assert_eq!(payload[1].key, "name");
    assert_eq!(payload_string(&payload, "content").as_deref(), Some("text"));
    assert_eq!(payload_string(&payload, "name").as_deref(), Some("name_0"));
}

#[test]
fn stored_point_reads_back_with_its_content_and_name() {
    let given = VectorDataPoint::new(
        "aad03681-8b63-5304-89e0-8ca8f49461b5".to_string(),
        "doc.md_1".to_string(),
        "# B\nbar".to_string(),
        vec![1, 2],
    );
    let stored = given.clone().into_point_struct().unwrap();
    let mut payload = stored.payload.clone();
    payload.reverse();
    let found = ScoredPoint { id: stored.id.clone(), payload, score: 1.0f32.to_bits() };
    let read = VectorDataPoint::from_scored_point(found).unwrap();
    assert_eq!(read.content, given.content);
    assert_eq!(read.name, given.name);
    assert_eq!(read.uuid, given.uuid);
    assert_eq!(read.score.map(f32::from_bits), Some(1.0));
}

#[test]
fn collection_is_created_for_cosine_distance_with_scalar_quantization() {
    let request = create_collection_request("courses", Ok(384)).unwrap();
    assert_eq!(request.collection_name, "courses");
    assert_eq!(request.vector_size, 384);
    assert_eq!(request.distance, Distance::Cosine);
    assert!(request.scalar_quantization);
}

#[test]
fn collection_is_not_created_without_a_dimension() {
    let e = create_collection_request("courses", Err("unknown model".to_string())).unwrap_err();
    assert_eq!(
        e.to_string(),
        "VectorStore error occurred: Could not determine dimension of Embedding Model output: unknown model"
    );
}

#[test]
fn query_asks_for_payloads_and_vectors() {
    let request = query_request("courses", vec![1, 2, 3]);
    assert_eq!(request.collection_name, "courses");
    assert_eq!(request.query, vec![1, 2, 3]);
    assert!(request.with_payload);
    assert!(request.with_vectors);
}

#[test]
fn query_answer_is_read_in_ranked_order() {
    let mut second = returned();
    second.payload[0].value = text("doc.md_2");
    second.score = 0.5f32.to_bits();
    let response = query_response(vec![returned(), second], 0.25f64.to_bits()).unwrap();
    assert_eq!(f64::from_bits(response.time), 0.25);
    assert_eq!(response.points.len(), 2);
    assert_eq!(response.points[0].name, "doc.md_1");
    assert_eq!(response.points[0].score.map(f32::from_bits), Some(0.75));
    assert_eq!(response.points[1].name, "doc.md_2");
    assert_eq!(response.points[1].score.map(f32::from_bits), Some(0.5));
    assert!(query_response(vec![], 0).unwrap().points.is_empty());

    let response = read_points(vec![returned()], 7).unwrap();
    assert_eq!(response.time, 7);
    assert_eq!(response.points[0].name.as_deref(), Some("doc.md_1"));
}

#[test]
fn one_unreadable_point_fails_the_answer_with_the_first_fault() {
    let mut no_name = returned();
    no_name.payload.remove(0);
    let mut no_id = returned();
    no_id.id = None;
    let e = query_response(vec![returned(), no_name.clone(), no_id.clone()], 0).unwrap_err();
    assert_eq!(
        e.to_string(),
        "VectorStore error occurred: ScoredPoint Conversion Error: Missing or invalid 'name' field"
    );
    let e = read_points(vec![no_id, no_name], 0).unwrap_err();
    assert_eq!(
        e.to_string(),
        "VectorStore error occurred: ScoredPoint Conversion Error: PointID is None."
    );
}

#[test]
fn upsert_stores_every_point_and_waits() {
    let points = vec![
        VectorDataPoint::new("a".to_string(), "n_0".to_string(), "x".to_string(), vec![1]),
        VectorDataPoint::new("b".to_string(), "n_1".to_string(), "y".to_string(), vec![2]),
    ];
    let request = upsert_request("courses", points).unwrap();
    assert_eq!(request.collection_name, "courses");
    assert!(request.wait);
    assert_eq!(request.points.len(), 2);
    assert_eq!(stored_parts(&request.points[0]).0, "a");
    assert_eq!(stored_parts(&request.points[1]).0, "b");
    assert_eq!(stored_parts(&request.points[1]).2, vec![2]);
    assert!(upsert_request("courses", vec![]).unwrap().points.is_empty());
}

#[test]
fn upsert_refuses_a_point_without_vector() {
    let mut bare = VectorDataPoint::new("b".to_string(), "n".to_string(), "y".to_string(), vec![]);
    bare.embedding = None;
    let points = vec![
        VectorDataPoint::new("a".to_string(), "n".to_string(), "x".to_string(), vec![1]),
        bare,
    ];
    let e = upsert_request("courses", points).unwrap_err();
    assert_eq!(
        e.to_string(),
        "VectorStore error occurred: PointStruct Conversion Error: Vectors/Embeddings are none."
    );
}

#[test]
fn points_are_stored_together_or_not_at_all() {
    let stored = store_points(vec![whole(), whole()]).unwrap();
    assert_eq!(stored.len(), 2);
    assert_eq!(stored_parts(&stored[1]).0, "id-2");
    let mut no_name = whole();
    no_name.name = None;
    let mut no_id = whole();
    no_id.uuid = None;
    let e = store_points(vec![whole(), no_name, no_id]).unwrap_err();
    assert_eq!(
        e.to_string(),
        "VectorStore error occurred: PointStruct Conversion Error: Name is none."
    );
    assert!(store_points(vec![]).unwrap().is_empty());
}

#[test]
fn failures_of_the_backend_name_the_operation() {
    assert_eq!(
        Operation::Connect.failure("bad uri").to_string(),
        "VectorStore error occurred: Could not create instance of Qdrant client: bad uri"
    );
    assert_eq!(
        Operation::ResolveDimension.failure("x").to_string(),
        "VectorStore error occurred: Could not determine dimension of Embedding Model output: x"
    );
    assert_eq!(
        Operation::CreateCollection.failure("exists").to_string(),
        "VectorStore error occurred: Unable to create Qdrant collection: exists"
    );
    assert_eq!(
        Operation::Query.failure("down").to_string(),
        "VectorStore error occurred: Qdrant query failed: down"
    );
    assert_eq!(
        Operation::Upsert.failure("down").to_string(),
        "VectorStore error occurred: Qdrant upsert vectors failed: down"
    );
    assert_eq!(operation_response(9).time, 9);
}

#[test]
fn payload_keys_are_checked_for_repeats() {
    assert!(keys_are_distinct(&vec![]));
    assert!(keys_are_distinct(&vec![entry("a", text("1"))]));
    assert!(keys_are_distinct(&returned().payload));
    assert!(keys_are_distinct(&chunk_payload("c".to_string(), "n".to_string())));
    assert!(!keys_are_distinct(&vec![entry("a", text("1")), entry("a", text("1"))]));
    assert!(!keys_are_distinct(&vec![
        entry("a", text("1")),
        entry("b", text("2")),
        entry("c", text("3")),
        entry("b", text("4")),
    ]));
}

#[test]
fn lookup_in_a_payload_with_distinct_keys_ignores_the_order() {
    let mut payload = returned().payload;
    assert!(keys_are_distinct(&payload));
    let content = payload_string(&payload, "content");
    let name = payload_string(&payload, "name");
    let extra = payload_string(&payload, "extra");
    for _ in 0..3 {
        payload.rotate_left(1);
        assert_eq!(payload_string(&payload, "content"), content);
        assert_eq!(payload_string(&payload, "name"), name);
        assert_eq!(payload_string(&payload, "extra"), extra);
    }
    payload.reverse();
    assert_eq!(payload_string(&payload, "content").as_deref(), Some("# B\nbar"));
    assert_eq!(payload_string(&payload, "name").as_deref(), Some("doc.md_1"));
}

#[test]
fn stored_points_have_distinct_payload_keys() {
    let stored = VectorDataPoint::new(
        "id".to_string(),
        "content".to_string(),
        "name".to_string(),
        vec![1],
    )
    .into_point_struct()
    .unwrap();
    assert!(keys_are_distinct(&stored.payload));
    assert!(keys_are_distinct(&whole().to_point_struct().unwrap().payload));
}
