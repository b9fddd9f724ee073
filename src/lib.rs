//! Client-side support for the Confluent schema-registry wire format: subject naming,
//! the five-byte envelope around encoded payloads, a grow-only schema cache and the
//! decisions that fill it from registry responses.
mod avro_bridge;
mod cache;
mod codec;
mod error;
mod registry;
mod schema;
mod tables;
mod wire;

pub use avro_rs as avro;
pub use avro_bridge::{avro_decodable, avro_decoding, avro_encodable, avro_encoding};
pub use cache::{
    answered_id, lemma_concurrent_resolution, lemma_concurrent_resolutions, recorded_all, lemma_pinned_apart_from_latest,
    lemma_recorded_consistent, lemma_resolved_id_is_cached, CacheView, SchemaCache,
    SchemaQueryType, Selector, subject_query,
};
pub use codec::{
    deserialize_avro, deserialize_cached, deserialize_uncached, populate, serializer_for, Decoding,
    Serializer,
};
pub use error::{Error, Result};
pub use registry::{
    fetched_id, parse_post_response, SchemaRegistryData, SchemaRegistryError, SchemaRegistryResponse,
};
pub use schema::{Format, Schema, SchemaDetails, SchemaRef, SubjectNamingStrategy};
pub use wire::{
    add_magic_byte_and_schema_id, lemma_envelope_round_trip, split_envelope, HEADER_LEN,
};
