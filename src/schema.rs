use std::sync::Arc;

use avro_rs::Schema as AvroSchema;
use vstd::prelude::*;

use crate::avro_bridge::{avro_schema_parses, parse_avro_schema};
use crate::error::{Error, Result};

verus! {

/// The serialization formats a schema can be written in.
#[derive(Debug, Clone, Copy, PartialEq, Eq, Structural)]
pub enum Format {
    Avro,
    Protobuf,
    Json,
}

impl Default for Format {
    fn default() -> (r: Self)
        ensures
            r == Format::Avro,
    {
        Format::Avro
    }
}

/// How the registry subject of a schema is derived from the topic and type names.
#[derive(Debug, Clone, PartialEq, Eq)]
pub enum SubjectNamingStrategy {
    /// An explicit subject, suffixed with `-key` or `-value`.
    SubjectNameStrategy { subject: String, is_key: bool },
    /// The fully qualified name of the record type, used as it stands.
    RecordNameStrategy { message_type_name: String },
    /// The topic name, suffixed with `-key` or `-value`.
    TopicNameStrategy { topic_name: String, is_key: bool },
    /// The topic name and the record type name, joined by `-`.
    TopicRecordNameStrategy { topic_name: String, message_type_name: String },
    /// The exact subject to use.
    Custom(String),
}

/// What identifies a schema in the registry, and how it is encoded.
#[derive(Debug)]
pub struct SchemaDetails {
    /// The version to retrieve; `None` asks for the latest one.
    pub version: Option<u32>,
    pub subject_naming_strategy: SubjectNamingStrategy,
    /// Schemas this one refers to. They are carried along but not resolved.
    pub schema_references: Vec<SchemaDetails>,
    pub format: Format,
}

/// The suffix that separates the key schema of a subject from its value schema.
pub open spec fn key_suffix(is_key: bool) -> Seq<char> {
    if is_key {
        seq!['k', 'e', 'y']
    } else {
        seq!['v', 'a', 'l', 'u', 'e']
    }
}

/// The registry subject that a naming strategy stands for.
pub open spec fn subject_name(s: SubjectNamingStrategy) -> Seq<char> {
    match s {
        SubjectNamingStrategy::SubjectNameStrategy { subject, is_key } => subject@ + seq!['-']
            + key_suffix(is_key),
        SubjectNamingStrategy::RecordNameStrategy { message_type_name } => message_type_name@,
        SubjectNamingStrategy::TopicNameStrategy { topic_name, is_key } => topic_name@ + seq!['-']
            + key_suffix(is_key),
        SubjectNamingStrategy::TopicRecordNameStrategy { topic_name, message_type_name } =>
            topic_name@ + seq!['-'] + message_type_name@,
        SubjectNamingStrategy::Custom(s) => s@,
    }
}

fn joined(first: &String, second: &str) -> (r: String)
    ensures
        r@ == first@ + seq!['-'] + second@,
{
    let mut r = first.clone();
    proof {
        reveal_strlit("-");
    }
    r.append("-");
    r.append(second);
    r
}

fn key_suffix_str(is_key: bool) -> (r: &'static str)
    ensures
        r@ == key_suffix(is_key),
{
    proof {
        reveal_strlit("key");
        reveal_strlit("value");
    }
    if is_key {
        "key"
    } else {
        "value"
    }
}

impl Default for SchemaDetails {
    /// The latest Avro schema of the `-value` subject of an empty topic name; the naming
    /// strategy is meant to be overwritten.
    fn default() -> (r: Self)
        ensures
            r.version is None,
            r.subject_naming_strategy matches SubjectNamingStrategy::TopicNameStrategy {
                topic_name,
                is_key,
            } && topic_name@.len() == 0 && !is_key,
            r.schema_references@.len() == 0,
            r.format == Format::Avro,
    {
        SchemaDetails {
            version: None,
            subject_naming_strategy: SubjectNamingStrategy::TopicNameStrategy {
                topic_name: String::new(),
                is_key: false,
            },
            schema_references: Vec::new(),
            format: Format::Avro,
        }
    }
}

impl SchemaDetails {
    /// The registry subject under which this schema is stored.
    pub fn generate_subject_name(&self) -> (r: String)
        ensures
            r@ == subject_name(self.subject_naming_strategy),
    {
        match &self.subject_naming_strategy {
            SubjectNamingStrategy::SubjectNameStrategy { subject, is_key } => {
                joined(subject, key_suffix_str(*is_key))
            },
            SubjectNamingStrategy::TopicNameStrategy { topic_name, is_key } => {
                joined(topic_name, key_suffix_str(*is_key))
            },
            SubjectNamingStrategy::RecordNameStrategy { message_type_name } => {
                message_type_name.clone()
            },
            SubjectNamingStrategy::TopicRecordNameStrategy { topic_name, message_type_name } => {
                joined(topic_name, message_type_name.as_str())
            },
            SubjectNamingStrategy::Custom(s) => s.clone(),
        }
    }
}

/// The name under which a format is reported in errors.
pub open spec fn format_name(f: Format) -> Seq<char> {
    match f {
        Format::Avro => seq!['A', 'v', 'r', 'o'],
        Format::Protobuf => seq!['P', 'r', 'o', 't', 'o', 'b', 'u', 'f'],
        Format::Json => seq!['J', 's', 'o', 'n'],
    }
}

impl Format {
    /// Parses a schema text written in this format.
    pub fn parse_schema(&self, schema: &str) -> (r: Result<Schema>)
        ensures
            *self == Format::Avro ==> (r is Ok <==> avro_schema_parses(schema@)),
            *self == Format::Avro ==> match r {
                Ok(s) => s.format() == Format::Avro,
                Err(e) => e is Avro,
            },
            *self != Format::Avro ==> (r matches Err(Error::UnsupportedFormat(f)) && f == *self),
    {
        match self {
            Format::Avro => Schema::new_avro_schema(schema),
            _ => Err(Error::UnsupportedFormat(*self)),
        }
    }

    /// The name under which this format is reported in errors.
    pub fn name(&self) -> (r: &'static str)
        ensures
            r@ == format_name(*self),
    {
        proof {
            reveal_strlit("Avro");
            reveal_strlit("Protobuf");
            reveal_strlit("Json");
        }
        match self {
            Format::Avro => "Avro",
            Format::Protobuf => "Protobuf",
            Format::Json => "Json",
        }
    }
}

/// A parsed schema, tagged by its format. It is never changed once built.
#[derive(Debug)]
pub enum Schema {
    Protobuf(i32),
    Avro(Arc<AvroSchema>),
}

impl Schema {
    /// The format this schema is written in.
    pub open spec fn format(&self) -> Format {
        match self {
            Schema::Protobuf(_) => Format::Protobuf,
            Schema::Avro(_) => Format::Avro,
        }
    }

    /// The parsed Avro schema, for a schema in that format.
    pub open spec fn avro_schema(&self) -> AvroSchema
        recommends
            self is Avro,
    {
        match self {
            Schema::Avro(s) => **s,
            Schema::Protobuf(_) => arbitrary(),
        }
    }

    /// Parses an Avro schema text.
    pub fn new_avro_schema(schema: &str) -> (r: Result<Self>)
        ensures
            r is Ok <==> avro_schema_parses(schema@),
            match r {
                Ok(s) => s is Avro,
                Err(e) => e is Avro,
            },
    {
        match parse_avro_schema(schema) {
            Ok(sch) => Ok(Schema::Avro(Arc::new(sch))),
            Err(e) => Err(Error::Avro(e)),
        }
    }

    /// The name of this schema's format.
    pub fn schema_type(&self) -> (r: &'static str)
        ensures
            r@ == format_name(self.format()),
    {
        match self {
            Schema::Protobuf(_) => Format::Protobuf.name(),
            Schema::Avro(_) => Format::Avro.name(),
        }
    }
}

/// A parsed schema together with the registry id it was resolved under.
#[derive(Debug, Clone)]
pub struct SchemaRef {
    pub schema: Arc<Schema>,
    pub id: u32,
}

} // verus!
