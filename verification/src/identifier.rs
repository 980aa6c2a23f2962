//! Decoding record identifiers straight from storage representations.
//!
//! The networked backend reports a declared wire type and hands the raw
//! big-endian value over; the embedded file-based backend hands over a
//! dynamically typed value. Identifier decoding auto-detects the
//! representation per backend: the networked path dispatches on the wire
//! type, the file-based path attempts a UUID reading of a 16-byte text
//! value first and falls back to an opaque string.

use vstd::prelude::*;

use crate::row::WireType;
use crate::value::GraphqlId;
use vstd::utf8::{decode_utf8, valid_utf8};

verus! {

/// Big-endian value of two bytes.
pub open spec fn be16(s: Seq<u8>) -> int
    recommends
        s.len() == 2,
{
    s[0] * 0x100 + s[1]
}

/// Big-endian value of four bytes.
pub open spec fn be32(s: Seq<u8>) -> int
    recommends
        s.len() == 4,
{
    s[0] * 0x1000000 + s[1] * 0x10000 + s[2] * 0x100 + s[3]
}

/// Big-endian value of eight bytes.
pub open spec fn be64(s: Seq<u8>) -> int
    recommends
        s.len() == 8,
{
    s[0] * 0x100000000000000 + s[1] * 0x1000000000000 + s[2] * 0x10000000000 + s[3] * 0x100000000
        + s[4] * 0x1000000 + s[5] * 0x10000 + s[6] * 0x100 + s[7]
}

/// Big-endian value of sixteen bytes.
pub open spec fn be128(s: Seq<u8>) -> int
    recommends
        s.len() == 16,
{
    be64(s.subrange(0, 8)) * 0x10000000000000000 + be64(s.subrange(8, 16))
}

fn read_be16(raw: &Vec<u8>) -> (r: u16)
    requires
        raw@.len() == 2,
    ensures
        r == be16(raw@),
{
    (raw[0] as u16) * 0x100 + (raw[1] as u16)
}

fn read_be32(raw: &Vec<u8>) -> (r: u32)
    requires
        raw@.len() == 4,
    ensures
        r == be32(raw@),
{
    (raw[0] as u32) * 0x1000000 + (raw[1] as u32) * 0x10000 + (raw[2] as u32) * 0x100 + (
    raw[3] as u32)
}

fn read_be64(raw: &Vec<u8>) -> (r: u64)
    requires
        raw@.len() == 8,
    ensures
        r == be64(raw@),
{
    (raw[0] as u64) * 0x100000000000000 + (raw[1] as u64) * 0x1000000000000 + (raw[2] as u64)
        * 0x10000000000 + (raw[3] as u64) * 0x100000000 + (raw[4] as u64) * 0x1000000 + (
    raw[5] as u64) * 0x10000 + (raw[6] as u64) * 0x100 + (raw[7] as u64)
}

fn read_be128(raw: &Vec<u8>) -> (r: u128)
    requires
        raw@.len() == 16,
    ensures
        r == be128(raw@),
{
    let hi: u64 = (raw[0] as u64) * 0x100000000000000 + (raw[1] as u64) * 0x1000000000000 + (
    raw[2] as u64) * 0x10000000000 + (raw[3] as u64) * 0x100000000 + (raw[4] as u64) * 0x1000000 + (
    raw[5] as u64) * 0x10000 + (raw[6] as u64) * 0x100 + (raw[7] as u64);
    let lo: u64 = (raw[8] as u64) * 0x100000000000000 + (raw[9] as u64) * 0x1000000000000 + (
    raw[10] as u64) * 0x10000000000 + (raw[11] as u64) * 0x100000000 + (raw[12] as u64) * 0x1000000
        + (raw[13] as u64) * 0x10000 + (raw[14] as u64) * 0x100 + (raw[15] as u64);
    proof {
        assert(hi == be64(raw@.subrange(0, 8)));
        assert(lo == be64(raw@.subrange(8, 16)));
    }
    (hi as u128) * 0x10000000000000000 + (lo as u128)
}

/// Relies on std's String::from_utf8: it succeeds exactly on valid UTF-8
/// input and returns the string those bytes encode.
#[verifier::external_body]
fn utf8_to_string(bytes: Vec<u8>) -> (r: Option<String>)
    ensures
        r is Some <==> valid_utf8(bytes@),
        r matches Some(s) ==> s@ == decode_utf8(bytes@),
{
    String::from_utf8(bytes).ok()
}

/// Which wire types the identifier decoder accepts: text, UUID, and the
/// three integer widths.
pub open spec fn spec_id_accepts(ty: WireType) -> bool {
    match ty {
        WireType::Text => true,
        WireType::Uuid => true,
        WireType::Int2 => true,
        WireType::Int4 => true,
        WireType::Int8 => true,
        _ => false,
    }
}

/// True exactly for the wire types the identifier decoder accepts.
pub fn graphql_id_accepts(ty: WireType) -> (r: bool)
    ensures
        r == spec_id_accepts(ty),
{
    match ty {
        WireType::Text => true,
        WireType::Uuid => true,
        WireType::Int2 => true,
        WireType::Int4 => true,
        WireType::Int8 => true,
        _ => false,
    }
}

/// Decodes a record identifier from a raw big-endian wire value of the
/// networked backend, dispatching on the column's declared wire type:
/// 2-, 4- and 8-byte integers widen (then reinterpret as unsigned), a
/// 16-byte UUID value is read whole, and any other declared type is read
/// as UTF-8 text. A value of the wrong length, or text that is not valid
/// UTF-8, does not decode.
pub fn graphql_id_from_sql(ty: WireType, raw: &Vec<u8>) -> (r: Option<GraphqlId>)
    ensures
        ty is Int2 ==> r == (if raw@.len() == 2 {
            Some(GraphqlId::Int(((be16(raw@) as u16) as i16) as usize))
        } else {
            None::<GraphqlId>
        }),
        ty is Int4 ==> r == (if raw@.len() == 4 {
            Some(GraphqlId::Int(((be32(raw@) as u32) as i32) as usize))
        } else {
            None::<GraphqlId>
        }),
        ty is Int8 ==> r == (if raw@.len() == 8 {
            Some(GraphqlId::Int(((be64(raw@) as u64) as i64) as usize))
        } else {
            None::<GraphqlId>
        }),
        ty is Uuid ==> r == (if raw@.len() == 16 {
            Some(GraphqlId::UUID(be128(raw@) as u128))
        } else {
            None::<GraphqlId>
        }),
        !spec_id_accepts(ty) || ty is Text ==> {
            &&& r is Some <==> valid_utf8(raw@)
            &&& r matches Some(id) ==> (id matches GraphqlId::String(s) && s@ == decode_utf8(
                raw@,
            ))
        },
{
    match ty {
        WireType::Int2 => {
            if raw.len() == 2 {
                let v = read_be16(raw);
                Some(GraphqlId::Int(#[verifier::truncate] ((v as i16) as usize)))
            } else {
                None
            }
        },
        WireType::Int4 => {
            if raw.len() == 4 {
                let v = read_be32(raw);
                Some(GraphqlId::Int(#[verifier::truncate] ((#[verifier::truncate] (v as i32))
                    as usize)))
            } else {
                None
            }
        },
        WireType::Int8 => {
            if raw.len() == 8 {
                let v = read_be64(raw);
                Some(GraphqlId::Int(#[verifier::truncate] ((#[verifier::truncate] (v as i64))
                    as usize)))
            } else {
                None
            }
        },
        WireType::Uuid => {
            if raw.len() == 16 {
                Some(GraphqlId::UUID(read_be128(raw)))
            } else {
                None
            }
        },
        _ => {
            match utf8_to_string(raw.clone()) {
                Some(s) => Some(GraphqlId::String(s)),
                None => None,
            }
        },
    }
}

/// A value as the embedded file-based backend hands it over.
#[derive(Debug, PartialEq)]
pub enum SqliteValue {
    Null,
    Integer(i64),
    /// IEEE-754 bit pattern of a 64-bit float.
    Real(u64),
    /// Text payload as its UTF-8 bytes, as the driver hands it over.
    Text(Vec<u8>),
    Blob(Vec<u8>),
}

/// Decodes a record identifier from a file-based backend value: a text
/// value of exactly sixteen bytes is taken as a UUID, any other text
/// value as an opaque string, and an integer value as an integer
/// identifier. Nulls, floats, blobs and ill-encoded text do not decode.
pub fn graphql_id_from_sqlite(v: &SqliteValue) -> (r: Option<GraphqlId>)
    ensures
        *v matches SqliteValue::Integer(i) ==> r == Some(GraphqlId::Int(i as usize)),
        *v matches SqliteValue::Text(b) ==> {
            &&& !valid_utf8(b@) ==> r is None
            &&& valid_utf8(b@) && b@.len() == 16 ==> r == Some(GraphqlId::UUID(be128(b@) as u128))
            &&& valid_utf8(b@) && b@.len() != 16 ==> (r matches Some(id) && (id
                matches GraphqlId::String(s) && s@ == decode_utf8(b@)))
        },
        (*v is Null || *v is Real || *v is Blob) ==> r is None,
{
    match v {
        SqliteValue::Integer(i) => Some(
            GraphqlId::Int(#[verifier::truncate] (*i as usize)),
        ),
        SqliteValue::Text(b) => {
            match utf8_to_string(b.clone()) {
                Some(s) => {
                    if b.len() == 16 {
                        Some(GraphqlId::UUID(read_be128(b)))
                    } else {
                        Some(GraphqlId::String(s))
                    }
                },
                None => None,
            }
        },
        _ => None,
    }
}

} // verus!
