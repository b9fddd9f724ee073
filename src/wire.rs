//! The envelope that precedes every encoded payload: a zero byte, then the schema id
//! as four big-endian bytes.
use vstd::prelude::*;

use crate::error::{Error, Result};

verus! {

/// The length of the envelope in front of a payload.
pub const HEADER_LEN: usize = 5;

/// The four big-endian bytes of an id.
pub open spec fn be_bytes(id: u32) -> Seq<u8> {
    seq![
        ((id >> 24) & 0xff) as u8,
        ((id >> 16) & 0xff) as u8,
        ((id >> 8) & 0xff) as u8,
        (id & 0xff) as u8,
    ]
}

/// The id that four big-endian bytes stand for.
pub open spec fn be_u32(b: Seq<u8>) -> u32
    recommends
        b.len() == 4,
{
    (b[0] as u32) << 24 | (b[1] as u32) << 16 | (b[2] as u32) << 8 | (b[3] as u32)
}

/// A payload framed with the id of the schema it was written with.
pub open spec fn framed(id: u32, payload: Seq<u8>) -> Seq<u8> {
    seq![0u8] + be_bytes(id) + payload
}

/// What reading an envelope gives: the schema id and the payload after it, or why
/// there is none.
pub open spec fn unframed(data: Seq<u8>) -> core::result::Result<(u32, Seq<u8>), Error> {
    if data.len() < 5 {
        Err(Error::NoDataFound)
    } else if data[0] != 0 {
        Err(Error::NoMagicByte)
    } else {
        Ok((be_u32(data.subrange(1, 5)), data.subrange(5, data.len() as int)))
    }
}

proof fn lemma_be_round_trip(id: u32)
    ensures
        be_u32(be_bytes(id)) == id,
{
    let b = be_bytes(id);
    assert(b[0] == ((id >> 24) & 0xff) as u8);
    assert(((((id >> 24) & 0xff) as u8) as u32) << 24 | ((((id >> 16) & 0xff) as u8) as u32) << 16
        | ((((id >> 8) & 0xff) as u8) as u32) << 8 | (((id & 0xff) as u8) as u32) == id)
        by (bit_vector);
}

/// Reading back a framed payload gives the id and the payload that were framed.
pub proof fn lemma_envelope_round_trip(id: u32, payload: Seq<u8>)
    ensures
        unframed(framed(id, payload)) == Ok::<(u32, Seq<u8>), Error>((id, payload)),
{
    let f = framed(id, payload);
    lemma_be_round_trip(id);
    assert(f.subrange(1, 5) =~= be_bytes(id));
    assert(f.subrange(5, f.len() as int) =~= payload);
}

/// Frames a payload with the envelope for `id`; the payload is moved out of `payload`.
pub fn add_magic_byte_and_schema_id(payload: &mut Vec<u8>, id: u32) -> (r: Vec<u8>)
    ensures
        r@ == framed(id, old(payload)@),
        final(payload)@.len() == 0,
{
    let mut bytes: Vec<u8> = Vec::with_capacity(payload.len().saturating_add(HEADER_LEN));
    bytes.push(0);
    bytes.push(((id >> 24) & 0xff) as u8);
    bytes.push(((id >> 16) & 0xff) as u8);
    bytes.push(((id >> 8) & 0xff) as u8);
    bytes.push((id & 0xff) as u8);
    bytes.append(payload);
    assert(bytes@ =~= framed(id, old(payload)@));
    bytes
}

/// Reads the envelope at the start of `data`: the schema id, and a copy of the payload
/// that follows it.
pub fn split_envelope(data: &[u8]) -> (r: Result<(u32, Vec<u8>)>)
    ensures
        match (r, unframed(data@)) {
            (Ok((id, payload)), Ok((sid, spayload))) => id == sid && payload@ == spayload,
            (Err(Error::NoDataFound), Err(Error::NoDataFound)) => true,
            (Err(Error::NoMagicByte), Err(Error::NoMagicByte)) => true,
            _ => false,
        },
{
    if data.len() < HEADER_LEN {
        return Err(Error::NoDataFound);
    }
    if data[0] != 0 {
        return Err(Error::NoMagicByte);
    }
    let id: u32 = (data[1] as u32) << 24 | (data[2] as u32) << 16 | (data[3] as u32) << 8
        | (data[4] as u32);
    let mut payload: Vec<u8> = Vec::with_capacity(data.len() - HEADER_LEN);
    let mut i: usize = HEADER_LEN;
    while i < data.len()
        invariant
            HEADER_LEN <= i <= data@.len(),
            payload@ =~= data@.subrange(5, i as int),
        decreases data@.len() - i,
    {
        payload.push(data[i]);
        i = i + 1;
    }
    assert(data@.subrange(1, 5)[0] == data@[1]);
    Ok((id, payload))
}

} // verus!
