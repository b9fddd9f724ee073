//! What the registry answers, and the checks made on an answer before it is used.
use vstd::prelude::*;

use crate::cache::{answered_id, SchemaQueryType};
use crate::error::{Error, Result};

verus! {

/// A schema as the registry describes it.
#[derive(Debug)]
pub struct SchemaRegistryData {
    pub subject: Option<String>,
    pub id: Option<u32>,
    pub version: Option<u32>,
    pub schema: String,
}

impl SchemaRegistryData {
    pub open spec fn subject_view(&self) -> Option<Seq<char>> {
        match self.subject {
            Some(s) => Some(s@),
            None => None,
        }
    }
}

/// An error as the registry reports it.
#[derive(Debug)]
pub struct SchemaRegistryError {
    pub error_code: u32,
    pub message: Option<String>,
}

/// A registry answer: the data asked for, or an error.
#[derive(Debug)]
pub struct SchemaRegistryResponse {
    pub data: Option<SchemaRegistryData>,
    pub error: Option<SchemaRegistryError>,
}

/// The message reported for a registry error that came without one.
pub open spec fn default_error_message() -> Seq<char> {
    "Unexpected error from the schema registry"@
}

/// The data of an answer, else the registry's error, else `UnexpectedError`.
pub fn parse_post_response(response: SchemaRegistryResponse) -> (r: Result<SchemaRegistryData>)
    ensures
        match response.data {
            Some(d) => r == Ok::<SchemaRegistryData, Error>(d),
            None => match response.error {
                Some(e) => r matches Err(Error::SchemaRegistryError { error_code, message })
                    && error_code == e.error_code && match e.message {
                    Some(m) => message@ == m@,
                    None => message@ == default_error_message(),
                },
                None => r matches Err(Error::UnexpectedError),
            },
        },
{
    if let Some(data) = response.data {
        return Ok(data);
    }
    if let Some(error) = response.error {
        let message = match error.message {
            Some(m) => m,
            None => String::from_str("Unexpected error from the schema registry"),
        };
        return Err(Error::SchemaRegistryError { error_code: error.error_code, message });
    }
    Err(Error::UnexpectedError)
}

/// The id a registry answer to `query` stands for: the id asked for when the query is by
/// id, else the one the registry returned; `IDNotReturned` when it returned none.
pub fn fetched_id(query: &SchemaQueryType, returned: Option<u32>) -> (r: Result<u32>)
    ensures
        match answered_id(query.selector(), returned) {
            Some(i) => r == Ok::<u32, Error>(i),
            None => r matches Err(Error::IDNotReturned),
        },
{
    match query {
        SchemaQueryType::Id(id) => Ok(*id),
        _ => match returned {
            Some(id) => Ok(id),
            None => Err(Error::IDNotReturned),
        },
    }
}

} // verus!
