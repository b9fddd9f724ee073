use std::sync::Arc;

use confluent_schema_registry::{
    fetched_id, parse_post_response, subject_query, Error, Format, Schema, SchemaCache,
    SchemaQueryType, SchemaRegistryData, SchemaRegistryError, SchemaRegistryResponse,
};

const RECORD: &str = r#"{"type": "record", "name": "test", "fields": [
    {"name": "a", "type": "long", "default": 42},
    {"name": "b", "type": "string"}
]}"#;

const OTHER_RECORD: &str = r#"{"type": "record", "name": "other", "fields": [
    {"name": "c", "type": "int"}
]}"#;

fn data(subject: Option<&str>, id: Option<u32>, version: Option<u32>, text: &str) -> SchemaRegistryData {
    SchemaRegistryData {
        subject: subject.map(|s| s.to_string()),
        id,
        version,
        schema: text.to_string(),
    }
}

#[test]
fn empty_cache_misses() {
    let cache = SchemaCache::new();
    assert!(cache.lookup(&SchemaQueryType::Id(1)).is_none());
    assert!(cache.lookup(&SchemaQueryType::Latest("s")).is_none());
    assert!(cache.lookup(&SchemaQueryType::Version("s", 1)).is_none());
    assert!(cache.check_cache_for_schema(None, None, None).is_none());
}

#[test]
fn resolved_id_is_found_again() {
    let mut cache = SchemaCache::new();
    let query = SchemaQueryType::Id(21);
    assert!(cache.lookup(&query).is_none());
    let stored = cache.store_fetched(&query, None, RECORD, Format::Avro).unwrap();
    assert_eq!(stored.id, 21);
    let again = cache.lookup(&query).expect("a second lookup hits the cache");
    assert_eq!(again.id, 21);
    assert!(Arc::ptr_eq(&again.schema, &stored.schema));
    assert!(matches!(*again.schema, Schema::Avro(_)));
}

#[test]
fn query_by_id_keeps_asked_id() {
    let mut cache = SchemaCache::new();
    let stored = cache.store_fetched(&SchemaQueryType::Id(3), Some(99), RECORD, Format::Avro).unwrap();
    assert_eq!(stored.id, 3);
    assert!(cache.lookup(&SchemaQueryType::Id(99)).is_none());
}

#[test]
fn pinned_version_is_kept_apart_from_latest() {
    let mut cache = SchemaCache::new();
    let pinned = SchemaQueryType::Version("orders-value", 1);
    cache.store_fetched(&pinned, Some(10), RECORD, Format::Avro).unwrap();
    assert_eq!(cache.lookup(&pinned).unwrap().id, 10);
    let latest = SchemaQueryType::Latest("orders-value");
    assert!(cache.lookup(&latest).is_none());
    let l = cache.store_fetched(&latest, Some(11), OTHER_RECORD, Format::Avro).unwrap();
    assert_eq!(l.id, 11);
    assert_eq!(cache.lookup(&latest).unwrap().id, 11);
    assert_eq!(cache.lookup(&pinned).unwrap().id, 10);
}

#[test]
fn second_store_for_an_id_keeps_the_first_schema() {
    let mut cache = SchemaCache::new();
    let query = SchemaQueryType::Latest("s");
    let first = cache.store_fetched(&query, Some(5), RECORD, Format::Avro).unwrap();
    let second = cache.store_fetched(&query, Some(5), RECORD, Format::Avro).unwrap();
    assert_eq!(first.id, second.id);
    assert!(Arc::ptr_eq(&first.schema, &second.schema));
    let found = cache.lookup(&SchemaQueryType::Id(5)).unwrap();
    assert!(Arc::ptr_eq(&found.schema, &first.schema));
}

#[test]
fn missing_id_is_refused_and_nothing_stored() {
    let mut cache = SchemaCache::new();
    let query = SchemaQueryType::Latest("s");
    let r = cache.store_fetched(&query, None, RECORD, Format::Avro);
    assert!(matches!(r, Err(Error::IDNotReturned)));
    assert!(cache.lookup(&query).is_none());
    let pinned = SchemaQueryType::Version("s", 2);
    assert!(matches!(cache.store_fetched(&pinned, None, RECORD, Format::Avro), Err(Error::IDNotReturned)));
}

#[test]
fn unparsable_text_is_refused_and_nothing_stored() {
    let mut cache = SchemaCache::new();
    let query = SchemaQueryType::Id(8);
    let r = cache.store_fetched(&query, None, "{not a schema", Format::Avro);
    assert!(matches!(r, Err(Error::Avro(_))));
    assert!(cache.lookup(&query).is_none());
}

#[test]
fn unsupported_format_is_refused() {
    let mut cache = SchemaCache::new();
    let query = SchemaQueryType::Id(8);
    let r = cache.store_fetched(&query, None, RECORD, Format::Protobuf);
    assert!(matches!(r, Err(Error::UnsupportedFormat(Format::Protobuf))));
    assert!(cache.lookup(&query).is_none());
    assert!(matches!(Format::Json.parse_schema(RECORD), Err(Error::UnsupportedFormat(Format::Json))));
}

#[test]
fn check_cache_prefers_id() {
    let mut cache = SchemaCache::new();
    cache.store_fetched(&SchemaQueryType::Latest("s"), Some(4), RECORD, Format::Avro).unwrap();
    let (id, _) = cache.check_cache_for_schema(Some("s"), None, None).unwrap();
    assert_eq!(id, 4);
    assert!(cache.check_cache_for_schema(Some("s"), None, Some(6)).is_none());
    assert!(cache.check_cache_for_schema(Some("s"), Some(1), None).is_none());
}

#[test]
fn registered_data_fills_the_tables() {
    let mut cache = SchemaCache::new();
    let d = data(Some("orders-value"), Some(7), Some(3), RECORD);
    cache.record_registry_data(&d, Format::Avro, None).unwrap();
    assert_eq!(cache.lookup(&SchemaQueryType::Latest("orders-value")).unwrap().id, 7);
    assert_eq!(cache.lookup(&SchemaQueryType::Version("orders-value", 3)).unwrap().id, 7);
    assert_eq!(cache.lookup(&SchemaQueryType::Id(7)).unwrap().id, 7);
}

#[test]
fn registered_data_for_a_pinned_version_leaves_latest() {
    let mut cache = SchemaCache::new();
    let d = data(Some("s"), Some(7), Some(3), RECORD);
    cache.record_registry_data(&d, Format::Avro, Some(3)).unwrap();
    assert!(cache.lookup(&SchemaQueryType::Latest("s")).is_none());
    assert_eq!(cache.lookup(&SchemaQueryType::Version("s", 3)).unwrap().id, 7);
}

#[test]
fn registered_data_without_id_stores_nothing() {
    let mut cache = SchemaCache::new();
    let d = data(Some("s"), None, Some(1), RECORD);
    cache.record_registry_data(&d, Format::Avro, None).unwrap();
    assert!(cache.lookup(&SchemaQueryType::Latest("s")).is_none());
    let bad = data(Some("s"), Some(1), None, "nope");
    assert!(matches!(cache.record_registry_data(&bad, Format::Avro, None), Err(Error::Avro(_))));
    assert!(cache.lookup(&SchemaQueryType::Id(1)).is_none());
}

#[test]
fn post_response_gives_data_or_error() {
    let ok = SchemaRegistryResponse { data: Some(data(None, Some(1), None, "x")), error: None };
    assert_eq!(parse_post_response(ok).unwrap().id, Some(1));

    let err = SchemaRegistryResponse {
        data: None,
        error: Some(SchemaRegistryError { error_code: 40401, message: Some("Subject not found".to_string()) }),
    };
    match parse_post_response(err) {
        Err(Error::SchemaRegistryError { error_code, message }) => {
            assert_eq!(error_code, 40401);
            assert_eq!(message, "Subject not found");
        }
        other => panic!("unexpected {:?}", other),
    }

    let bare = SchemaRegistryResponse {
        data: None,
        error: Some(SchemaRegistryError { error_code: 500, message: None }),
    };
    match parse_post_response(bare) {
        Err(Error::SchemaRegistryError { message, .. }) => {
            assert_eq!(message, "Unexpected error from the schema registry");
        }
        other => panic!("unexpected {:?}", other),
    }

    let empty = SchemaRegistryResponse { data: None, error: None };
    assert!(matches!(parse_post_response(empty), Err(Error::UnexpectedError)));
}

#[test]
fn fetched_id_checks_the_answer() {
    assert_eq!(fetched_id(&SchemaQueryType::Id(9), None).unwrap(), 9);
    assert_eq!(fetched_id(&SchemaQueryType::Latest("s"), Some(4)).unwrap(), 4);
    assert!(matches!(fetched_id(&SchemaQueryType::Version("s", 1), None), Err(Error::IDNotReturned)));
}

#[test]
fn subject_query_picks_key() {
    assert!(matches!(subject_query("s", Some(2)), SchemaQueryType::Version("s", 2)));
    assert!(matches!(subject_query("s", None), SchemaQueryType::Latest("s")));
}

#[test]
fn many_stores_for_an_id_all_hand_out_the_first_schema() {
    let mut cache = SchemaCache::new();
    let query = SchemaQueryType::Version("orders-value", 2);
    let first = cache.store_fetched(&query, Some(12), RECORD, Format::Avro).unwrap();
    for _ in 0..7 {
        let later = cache.store_fetched(&query, Some(12), RECORD, Format::Avro).unwrap();
        assert_eq!(later.id, 12);
        assert!(Arc::ptr_eq(&later.schema, &first.schema));
    }
    let found = cache.lookup(&query).unwrap();
    assert_eq!(found.id, 12);
    assert!(Arc::ptr_eq(&found.schema, &first.schema));
    assert!(cache.lookup(&SchemaQueryType::Latest("orders-value")).is_none());
}
