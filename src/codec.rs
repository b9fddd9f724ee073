//! Encoding values into framed payloads and decoding framed payloads back, with the
//! schema resolved through the cache or pinned once for a single-schema consumer.
use avro_rs::types::Value as AvroValue;
use vstd::prelude::*;

use crate::avro_bridge::{
    avro_decodable, avro_decoding, avro_encodable, avro_encoding, decode_datum, encode_datum,
};
use crate::cache::CacheView;
use crate::cache::{SchemaCache, SchemaQueryType};
use crate::error::{Error, Result};
use crate::schema::{format_name, Format, Schema, SchemaRef};
use crate::wire::{add_magic_byte_and_schema_id, framed, split_envelope, unframed};

verus! {

/// Encodes values against one schema resolved beforehand.
#[derive(Debug, Clone)]
pub enum Serializer {
    Avro { schema: SchemaRef },
}

/// The error for a schema of format `found` where one of format `wanted` was needed.
pub open spec fn is_type_mismatch(e: Error, wanted: Format, found: Format) -> bool {
    e matches Error::IncorrectSchemaType(w, f) && w@ == format_name(wanted) && f@ == format_name(
        found,
    )
}

fn type_mismatch(wanted: Format, found: &Schema) -> (e: Error)
    ensures
        is_type_mismatch(e, wanted, found.format()),
{
    Error::IncorrectSchemaType(
        String::from_str(wanted.name()),
        String::from_str(found.schema_type()),
    )
}

impl Serializer {
    /// The schema this serializer encodes with.
    pub open spec fn schema_ref(&self) -> SchemaRef {
        match self {
            Serializer::Avro { schema } => *schema,
        }
    }

    /// Encodes a value and frames it with the schema's id. A schema that is not Avro is
    /// refused, never used with the Avro encoder.
    pub fn serialize(&self, value: AvroValue) -> (r: Result<Vec<u8>>)
        requires
            self.schema_ref().schema.format() == Format::Avro ==> avro_encodable(
                self.schema_ref().schema.avro_schema(),
                value,
            ),
        ensures
            self.schema_ref().schema.format() != Format::Avro ==> (r matches Err(e)
                && is_type_mismatch(e, Format::Avro, self.schema_ref().schema.format())),
            self.schema_ref().schema.format() == Format::Avro ==> match r {
                Ok(bytes) => {
                    &&& bytes@.len() >= 5
                    &&& bytes@ == framed(
                        self.schema_ref().id,
                        bytes@.subrange(5, bytes@.len() as int),
                    )
                    &&& avro_encoding(
                        self.schema_ref().schema.avro_schema(),
                        value,
                        Some(bytes@.subrange(5, bytes@.len() as int)),
                    )
                },
                Err(e) => e is Avro && avro_encoding(
                    self.schema_ref().schema.avro_schema(),
                    value,
                    None,
                ),
            },
    {
        match self {
            Serializer::Avro { schema } => {
                let id = schema.id;
                match &*schema.schema {
                    Schema::Avro(s) => {
                        let mut payload = match encode_datum(s, value) {
                            Ok(p) => p,
                            Err(e) => return Err(Error::Avro(e)),
                        };
                        let ghost encoded = payload@;
                        let bytes = add_magic_byte_and_schema_id(&mut payload, id);
                        assert(bytes@.subrange(5, bytes@.len() as int) =~= encoded);
                        Ok(bytes)
                    },
                    other => Err(type_mismatch(Format::Avro, other)),
                }
            },
        }
    }
}

/// The serializer for values of `format` with a schema resolved for it.
pub fn serializer_for(format: Format, schema: SchemaRef) -> (r: Result<Serializer>)
    ensures
        format == Format::Avro ==> r == Ok::<Serializer, Error>(Serializer::Avro { schema }),
        format != Format::Avro ==> (r matches Err(Error::UnsupportedFormat(f)) && f == format),
{
    match format {
        Format::Avro => Ok(Serializer::Avro { schema }),
        _ => Err(Error::UnsupportedFormat(format)),
    }
}

/// Decodes an Avro payload with a resolved schema, which must be an Avro one.
pub fn deserialize_avro(schema_ref: &SchemaRef, payload: &[u8]) -> (r: Result<AvroValue>)
    requires
        schema_ref.schema.format() == Format::Avro ==> avro_decodable(
            schema_ref.schema.avro_schema(),
            payload@,
        ),
    ensures
        schema_ref.schema.format() != Format::Avro ==> (r matches Err(e) && is_type_mismatch(
            e,
            Format::Avro,
            schema_ref.schema.format(),
        )),
        schema_ref.schema.format() == Format::Avro ==> match r {
            Ok(v) => avro_decoding(schema_ref.schema.avro_schema(), payload@, Some(v)),
            Err(e) => e is Avro && avro_decoding(schema_ref.schema.avro_schema(), payload@, None),
        },
{
    match &*schema_ref.schema {
        Schema::Avro(s) => match decode_datum(s, payload) {
            Ok(v) => Ok(v),
            Err(e) => Err(Error::Avro(e)),
        },
        other => Err(type_mismatch(Format::Avro, other)),
    }
}

/// What decoding one message came to: the value, or the id of a schema that has to be
/// fetched from the registry first.
#[derive(Debug)]
pub enum Decoding {
    Done(AvroValue),
    Fetch(u32),
}

/// The outcome of decoding `payload`, written with schema `id`, in `format` with
/// `schema`, the schema at hand for it, if any.
pub open spec fn decoding_ok(
    r: Result<Decoding>,
    format: Format,
    id: u32,
    payload: Seq<u8>,
    schema: Option<SchemaRef>,
) -> bool {
    if format != Format::Avro {
        r matches Err(Error::UnsupportedFormat(f)) && f == format
    } else {
        match schema {
            None => r matches Ok(Decoding::Fetch(i)) && i == id,
            Some(sr) => if sr.schema.format() != Format::Avro {
                r matches Err(e) && is_type_mismatch(e, Format::Avro, sr.schema.format())
            } else {
                match r {
                    Ok(Decoding::Done(v)) => avro_decoding(sr.schema.avro_schema(), payload, Some(v)),
                    Err(Error::Avro(_)) => avro_decoding(sr.schema.avro_schema(), payload, None),
                    _ => false,
                }
            },
        }
    }
}

/// Decoding `payload` in `format` with `schema` at hand does not make the decoder panic.
pub open spec fn payload_decodable(format: Format, payload: Seq<u8>, schema: Option<SchemaRef>) -> bool {
    format == Format::Avro ==> match schema {
        Some(sr) => sr.schema.format() == Format::Avro ==> avro_decodable(
            sr.schema.avro_schema(),
            payload,
        ),
        None => true,
    }
}

/// The outcome of decoding `data`: the envelope's errors first, then `decoding_ok` for
/// the payload after the envelope, with `schema_for` giving the schema at hand for the
/// envelope's id.
pub open spec fn message_decoding_ok(
    r: Result<Decoding>,
    data: Seq<u8>,
    format: Format,
    schema_for: spec_fn(u32) -> Option<SchemaRef>,
) -> bool {
    match unframed(data) {
        Err(Error::NoDataFound) => r matches Err(Error::NoDataFound),
        Err(_) => r matches Err(Error::NoMagicByte),
        Ok((id, payload)) => decoding_ok(r, format, id, payload, schema_for(id)),
    }
}

/// Decoding the payload of `data` with the schema `schema_for` gives for its id does not
/// make the decoder panic.
pub open spec fn message_decodable(
    data: Seq<u8>,
    format: Format,
    schema_for: spec_fn(u32) -> Option<SchemaRef>,
) -> bool {
    match unframed(data) {
        Ok((id, payload)) => payload_decodable(format, payload, schema_for(id)),
        Err(_) => true,
    }
}

/// The schema the cache holds for an id, as a decoder receives it.
pub open spec fn held_schema(v: CacheView) -> spec_fn(u32) -> Option<SchemaRef> {
    |id: u32|
        if v.by_id.contains_key(id) {
            Some(SchemaRef { schema: v.by_id[id], id })
        } else {
            None
        }
}

fn decode_payload(schema: Option<SchemaRef>, id: u32, payload: &[u8], format: Format) -> (r: Result<
    Decoding,
>)
    requires
        payload_decodable(format, payload@, schema),
    ensures
        decoding_ok(r, format, id, payload@, schema),
{
    if format != Format::Avro {
        return Err(Error::UnsupportedFormat(format));
    }
    match schema {
        None => Ok(Decoding::Fetch(id)),
        Some(sr) => match deserialize_avro(&sr, payload) {
            Ok(v) => Ok(Decoding::Done(v)),
            Err(e) => Err(e),
        },
    }
}

/// Decodes a message with the schema its envelope names, taken from the cache; when the
/// cache does not hold it, asks for it to be fetched.
pub fn deserialize_uncached(cache: &SchemaCache, data: &[u8], format: Format) -> (r: Result<
    Decoding,
>)
    requires
        cache.wf(),
        message_decodable(data@, format, held_schema(cache@)),
    ensures
        message_decoding_ok(r, data@, format, held_schema(cache@)),
{
    let (id, payload) = match split_envelope(data) {
        Ok(p) => p,
        Err(e) => return Err(e),
    };
    let schema = cache.lookup(&SchemaQueryType::Id(id));
    decode_payload(schema, id, payload.as_slice(), format)
}

/// Decodes a message for a consumer that sees a single schema: the schema pinned in
/// `pinned` is used whatever id the envelope names; with none pinned yet, asks for the
/// envelope's schema to be fetched.
pub fn deserialize_cached(pinned: &Option<SchemaRef>, data: &[u8], format: Format) -> (r: Result<
    Decoding,
>)
    requires
        message_decodable(data@, format, |id: u32| *pinned),
    ensures
        message_decoding_ok(r, data@, format, |id: u32| *pinned),
{
    let (id, payload) = match split_envelope(data) {
        Ok(p) => p,
        Err(e) => return Err(e),
    };
    let schema = match pinned {
        Some(sr) => Some(SchemaRef { schema: sr.schema.clone(), id: sr.id }),
        None => None,
    };
    decode_payload(schema, id, payload.as_slice(), format)
}

/// Pins a resolved schema for a single-schema consumer. The first schema pinned stays:
/// a later one, from a caller that raced to fetch it, is dropped.
pub fn populate(pinned: &mut Option<SchemaRef>, fetched: SchemaRef)
    ensures
        (*old(pinned)) is Some ==> *final(pinned) == *old(pinned),
        (*old(pinned)) is None ==> *final(pinned) == Some(fetched),
{
    if pinned.is_none() {
        *pinned = Some(fetched);
    }
}

} // verus!
