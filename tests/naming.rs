use confluent_schema_registry::{Format, SchemaDetails, SubjectNamingStrategy};

fn details(strategy: SubjectNamingStrategy) -> SchemaDetails {
    SchemaDetails {
        version: None,
        subject_naming_strategy: strategy,
        schema_references: Vec::new(),
        format: Format::Avro,
    }
}

#[test]
fn subject_name_strategy_key() {
    let d = details(SubjectNamingStrategy::SubjectNameStrategy {
        subject: "order".to_string(),
        is_key: true,
    });
    assert_eq!(d.generate_subject_name(), "order-key");
}

#[test]
fn subject_name_strategy_value() {
    let d = details(SubjectNamingStrategy::SubjectNameStrategy {
        subject: "order".to_string(),
        is_key: false,
    });
    assert_eq!(d.generate_subject_name(), "order-value");
}

#[test]
fn topic_name_strategy_value() {
    let d = details(SubjectNamingStrategy::TopicNameStrategy {
        topic_name: "orders".to_string(),
        is_key: false,
    });
    assert_eq!(d.generate_subject_name(), "orders-value");
}

#[test]
fn topic_name_strategy_key() {
    let d = details(SubjectNamingStrategy::TopicNameStrategy {
        topic_name: "orders".to_string(),
        is_key: true,
    });
    assert_eq!(d.generate_subject_name(), "orders-key");
}

#[test]
fn record_name_strategy() {
    let d = details(SubjectNamingStrategy::RecordNameStrategy {
        message_type_name: "Metadata".to_string(),
    });
    assert_eq!(d.generate_subject_name(), "Metadata");
}

#[test]
fn topic_record_name_strategy() {
    let d = details(SubjectNamingStrategy::TopicRecordNameStrategy {
        topic_name: "orders".to_string(),
        message_type_name: "Metadata".to_string(),
    });
    assert_eq!(d.generate_subject_name(), "orders-Metadata");
}

#[test]
fn custom_strategy() {
    let d = details(SubjectNamingStrategy::Custom("x".to_string()));
    assert_eq!(d.generate_subject_name(), "x");
}

#[test]
fn custom_strategy_passes_text_through() {
    let d = details(SubjectNamingStrategy::Custom("a b/c-".to_string()));
    assert_eq!(d.generate_subject_name(), "a b/c-");
}

#[test]
fn same_inputs_same_subject() {
    let d = details(SubjectNamingStrategy::TopicNameStrategy {
        topic_name: "t".to_string(),
        is_key: true,
    });
    assert_eq!(d.generate_subject_name(), d.generate_subject_name());
}

#[test]
fn defaults() {
    assert_eq!(Format::default(), Format::Avro);
    let d = SchemaDetails::default();
    assert_eq!(d.version, None);
    assert_eq!(d.format, Format::Avro);
    assert!(d.schema_references.is_empty());
    assert_eq!(d.generate_subject_name(), "-value");
}

#[test]
fn format_names() {
    assert_eq!(Format::Avro.name(), "Avro");
    assert_eq!(Format::Protobuf.name(), "Protobuf");
    assert_eq!(Format::Json.name(), "Json");
}
