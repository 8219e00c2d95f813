use collection_lookup::error::LookupError;
use collection_lookup::id::{PointIdType, PseudoId};
use collection_lookup::lookup::{acquire, after_retrieval, join_records};
use collection_lookup::record::{LookupResult, Record};

fn record(id: PointIdType, payload: &str) -> Record<String, Vec<f32>> {
    Record { id, payload: Some(payload.to_string()), vector: None }
}

#[test]
fn a_new_mapping_holds_nothing() {
    let mapping: LookupResult<String, Vec<f32>> = LookupResult::new();
    assert_eq!(mapping.len(), 0);
    assert!(mapping.is_empty());
    assert!(!mapping.contains_key(&PseudoId::NumberU64(0)));
    assert_eq!(mapping.get(&PseudoId::NumberU64(0)), None);
    assert!(mapping.into_entries().is_empty());
}

#[test]
fn the_last_record_under_a_key_counts() {
    let mut mapping = LookupResult::new();
    mapping.insert(PseudoId::NumberU64(1), record(PointIdType::NumId(1), "first"));
    mapping.insert(PseudoId::from("a"), record(PointIdType::NumId(2), "second"));
    mapping.insert(PseudoId::NumberU64(1), record(PointIdType::NumId(1), "third"));
    assert_eq!(mapping.len(), 2);
    assert!(!mapping.is_empty());
    assert_eq!(
        mapping.get(&PseudoId::NumberU64(1)),
        Some(&record(PointIdType::NumId(1), "third"))
    );
    assert_eq!(mapping.get(&PseudoId::from("a")), Some(&record(PointIdType::NumId(2), "second")));
    assert_eq!(mapping.get(&PseudoId::NumberI64(1)), None);
    let mut entries = mapping.into_entries();
    entries.sort_by_key(|(_, record)| record.id == PointIdType::NumId(2));
    assert_eq!(
        entries,
        vec![
            (PseudoId::NumberU64(1), record(PointIdType::NumId(1), "third")),
            (PseudoId::from("a"), record(PointIdType::NumId(2), "second")),
        ]
    );
}

#[test]
fn records_are_filed_under_their_own_identifiers() {
    let uuid = 0x550e_8400_e29b_41d4_a716_4466_5544_0000u128;
    let joined = join_records(vec![
        record(PointIdType::NumId(4), "four"),
        record(PointIdType::Uuid(uuid), "uuid"),
        record(PointIdType::NumId(4), "four again"),
    ]);
    assert_eq!(joined.len(), 2);
    assert_eq!(
        joined.get(&PseudoId::NumberU64(4)),
        Some(&record(PointIdType::NumId(4), "four again"))
    );
    assert_eq!(
        joined.get(&PseudoId::from("550e8400-e29b-41d4-a716-446655440000")),
        Some(&record(PointIdType::Uuid(uuid), "uuid"))
    );
    assert_eq!(joined.get(&PseudoId::from("550E8400-E29B-41D4-A716-446655440000")), None);
    assert_eq!(joined.get(&PseudoId::NumberI64(4)), None);
}

#[test]
fn every_key_converts_to_the_identifier_of_its_record() {
    let records: Vec<Record<String, Vec<f32>>> = (0..20u64)
        .map(|i| {
            if i % 2 == 0 {
                record(PointIdType::NumId(i), "n")
            } else {
                record(PointIdType::Uuid(u128::from(i) << 70), "u")
            }
        })
        .collect();
    let entries = join_records(records).into_entries();
    assert_eq!(entries.len(), 20);
    for (key, record) in entries {
        assert_eq!(PointIdType::try_from(key), Ok(record.id));
    }
}

#[test]
fn joining_nothing_gives_an_empty_mapping() {
    let joined: LookupResult<String, Vec<f32>> = join_records(vec![]);
    assert!(joined.is_empty());
}

#[test]
fn the_outcome_of_the_retrieval_ends_the_lookup() {
    let done: Result<LookupResult<String, Vec<f32>>, LookupError<u8>> =
        after_retrieval(Ok(vec![record(PointIdType::NumId(1), "one")]));
    assert_eq!(done.unwrap().len(), 1);
    let failed: Result<LookupResult<String, Vec<f32>>, LookupError<u8>> = after_retrieval(Err(9));
    assert_eq!(failed.unwrap_err(), LookupError::RetrievalFailed(9));
}

#[test]
fn a_collection_is_acquired_or_not_found() {
    let found: Result<u8, LookupError<String>> = acquire("test", Some(3));
    assert_eq!(found, Ok(3));
    let missing: Result<u8, LookupError<String>> = acquire("my collection", None);
    assert_eq!(missing, Err(LookupError::NotFound { what: "Collection my collection".to_string() }));
    let empty_name: Result<u8, LookupError<String>> = acquire("", None);
    assert_eq!(
        empty_name.unwrap_err().not_found_message(),
        Some("Collection  not found".to_string())
    );
}

#[test]
fn not_found_names_what_was_looked_for() {
    let error: LookupError<String> = LookupError::collection_not_found("test");
    assert_eq!(error, LookupError::NotFound { what: "Collection test".to_string() });
    assert_eq!(error.not_found_message(), Some("Collection test not found".to_string()));
    let other: LookupError<String> = LookupError::NotFound { what: "Shard 3".to_string() };
    assert_eq!(other.not_found_message(), Some("Shard 3 not found".to_string()));
}
