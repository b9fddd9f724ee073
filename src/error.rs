use vstd::prelude::*;

use crate::schema::Format;

verus! {

/// Every way an operation of this library can fail.
#[derive(Debug)]
pub enum Error {
    /// The Avro library refused a schema text, a value or a payload.
    Avro(avro_rs::Error),
    /// The transport to the registry failed; the text describes how.
    Http(String),
    /// The registry answered without the schema id the request needed.
    IDNotReturned,
    /// A schema of the first format was needed, one of the second was found.
    IncorrectSchemaType(String, String),
    /// The input is shorter than the five-byte envelope.
    NoDataFound,
    /// The first byte of the envelope is not zero.
    NoMagicByte,
    /// The format library produced no value.
    DeserializationFailed,
    /// Neither a subject nor an id was given to look a schema up.
    InvalidInput,
    /// The registry answered with an error of its own.
    SchemaRegistryError { error_code: u32, message: String },
    /// The registry answered with neither data nor an error.
    UnexpectedError,
    /// The format has no codec in this library.
    UnsupportedFormat(Format),
}

pub type Result<T> = core::result::Result<T, Error>;

} // verus!
