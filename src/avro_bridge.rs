//! The Avro library's types and the calls made into it.
use avro_rs::types::Value as AvroValue;
use avro_rs::Error as AvroError;
use avro_rs::Schema as AvroSchema;
use vstd::prelude::*;

verus! {

#[verifier::external_type_specification]
#[verifier::external_body]
pub struct ExAvroSchema(AvroSchema);

#[verifier::external_type_specification]
#[verifier::external_body]
pub struct ExAvroError(AvroError);

#[verifier::external_type_specification]
#[verifier::external_body]
pub struct ExAvroValue(AvroValue);

/// Whether the Avro library accepts a text as a schema.
pub uninterp spec fn avro_schema_parses(text: Seq<char>) -> bool;

/// Relies on avro_rs::Schema::parse_str: a fresh parser reads the text, so whether it
/// succeeds depends on the text alone.
#[verifier::external_body]
pub(crate) fn parse_avro_schema(text: &str) -> (r: core::result::Result<
    AvroSchema,
    AvroError,
>)
    ensures
        r is Ok <==> avro_schema_parses(text@),
{
    AvroSchema::parse_str(text)
}

/// What avro_rs::to_avro_datum can hand back for a value under a schema: `Some` of the
/// encoded bytes, or `None` for an error. The bytes of a map follow the map's iteration
/// order, so this relates inputs to outcomes rather than naming one result.
pub uninterp spec fn avro_encoding(
    schema: AvroSchema,
    value: AvroValue,
    outcome: Option<Seq<u8>>,
) -> bool;

/// The encoder returns on these inputs, rather than panicking.
pub open spec fn avro_encodable(schema: AvroSchema, value: AvroValue) -> bool {
    exists|o: Option<Seq<u8>>| #[trigger] avro_encoding(schema, value, o)
}

/// What avro_rs::from_avro_datum can hand back for a payload under a schema: `Some` of
/// the value read, or `None` for an error. A decoded map is a hash map, so this relates
/// inputs to outcomes rather than naming one result.
pub uninterp spec fn avro_decoding(
    schema: AvroSchema,
    payload: Seq<u8>,
    outcome: Option<AvroValue>,
) -> bool;

/// The decoder returns on these inputs, rather than panicking.
pub open spec fn avro_decodable(schema: AvroSchema, payload: Seq<u8>) -> bool {
    exists|o: Option<AvroValue>| #[trigger] avro_decoding(schema, payload, o)
}

/// Relies on avro_rs::to_avro_datum: validates the value against the schema (an error
/// if it does not fit), then writes its binary encoding, without any header. The encoder
/// panics on some values that validate (a decimal wider than its fixed size), which the
/// `requires` leaves out.
#[verifier::external_body]
pub(crate) fn encode_datum(schema: &AvroSchema, value: AvroValue) -> (r: core::result::Result<
    Vec<u8>,
    AvroError,
>)
    requires
        avro_encodable(*schema, value),
    ensures
        avro_encoding(
            *schema,
            value,
            match r {
                Ok(p) => Some(p@),
                Err(_) => None,
            },
        ),
{
    avro_rs::to_avro_datum(schema, value)
}

/// Relies on avro_rs::from_avro_datum: reads one value written under the schema from the
/// start of the payload, with no reader schema to resolve against. The decoder panics on
/// some payloads (an enum index equal to the number of symbols), which the `requires`
/// leaves out.
#[verifier::external_body]
pub(crate) fn decode_datum(schema: &AvroSchema, payload: &[u8]) -> (r: core::result::Result<
    AvroValue,
    AvroError,
>)
    requires
        avro_decodable(*schema, payload@),
    ensures
        avro_decoding(
            *schema,
            payload@,
            match r {
                Ok(v) => Some(v),
                Err(_) => None,
            },
        ),
{
    let mut reader = std::io::Cursor::new(payload);
    avro_rs::from_avro_datum(schema, &mut reader, None)
}

} // verus!
