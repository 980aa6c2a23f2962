//! Encoding scalars and record identifiers into backend bound parameters,
//! the model of what a driver stores when such a parameter is bound, and
//! the round-trip law tying the encoding to the row decoder.

use vstd::prelude::*;

use crate::row::{spec_decode_column, TypeIdentifier, WireColumn, WireData, WireType};
use crate::value::{GraphqlId, PrismaValue};

verus! {

/// A single bound-parameter value in a storage-independent form: what the
/// connector binds positionally into a prepared statement.
#[derive(Debug, PartialEq)]
pub enum DatabaseValue {
    Text(String),
    Integer(i64),
    /// IEEE-754 bit pattern of a 64-bit float.
    Real(u64),
    Boolean(bool),
    /// Microseconds since the Unix epoch, UTC.
    DateTime(i64),
    Uuid(u128),
    Null,
}

/// The total encoding of a record identifier as a bound parameter.
pub open spec fn spec_id_to_database_value(id: GraphqlId) -> DatabaseValue {
    match id {
        GraphqlId::String(s) => DatabaseValue::Text(s),
        GraphqlId::Int(i) => DatabaseValue::Integer(i as i64),
        GraphqlId::UUID(u) => DatabaseValue::Uuid(u),
    }
}

impl GraphqlId {
    /// Encodes a record identifier as a bound parameter; total for every
    /// variant.
    pub fn into_database_value(self) -> (r: DatabaseValue)
        ensures
            r == spec_id_to_database_value(self),
    {
        match self {
            GraphqlId::String(s) => DatabaseValue::Text(s),
            GraphqlId::Int(i) => DatabaseValue::Integer(#[verifier::truncate] (i as i64)),
            GraphqlId::UUID(u) => DatabaseValue::Uuid(u),
        }
    }
}

/// The encoding of a non-list scalar as a bound parameter: a document is
/// bound as its serialized text, a relation link and an integer
/// identifier as 64-bit integers, and everything else directly.
pub open spec fn spec_to_database_value(v: PrismaValue) -> DatabaseValue
    recommends
        !(v is List),
{
    match v {
        PrismaValue::String(s) => DatabaseValue::Text(s),
        PrismaValue::Float(f) => DatabaseValue::Real(f),
        PrismaValue::Boolean(b) => DatabaseValue::Boolean(b),
        PrismaValue::DateTime(d) => DatabaseValue::DateTime(d),
        PrismaValue::Enum(e) => DatabaseValue::Text(e),
        PrismaValue::Json(j) => DatabaseValue::Text(j),
        PrismaValue::Int(i) => DatabaseValue::Integer(i),
        PrismaValue::Relation(i) => DatabaseValue::Integer(i as i64),
        PrismaValue::Null => DatabaseValue::Null,
        PrismaValue::Uuid(u) => DatabaseValue::Uuid(u),
        PrismaValue::GraphqlId(id) => spec_id_to_database_value(id),
        PrismaValue::List(_) => DatabaseValue::Null,
    }
}

impl PrismaValue {
    /// Encodes a scalar as a single bound parameter. Total for every
    /// variant except `List`: a list is not representable as a single
    /// bound parameter, and attempting it is a programming error, so the
    /// contract excludes it.
    pub fn into_database_value(self) -> (r: DatabaseValue)
        requires
            !(self is List),
        ensures
            r == spec_to_database_value(self),
    {
        match self {
            PrismaValue::String(s) => DatabaseValue::Text(s),
            PrismaValue::Float(f) => DatabaseValue::Real(f),
            PrismaValue::Boolean(b) => DatabaseValue::Boolean(b),
            PrismaValue::DateTime(d) => DatabaseValue::DateTime(d),
            PrismaValue::Enum(e) => DatabaseValue::Text(e),
            PrismaValue::Json(j) => DatabaseValue::Text(j),
            PrismaValue::Int(i) => DatabaseValue::Integer(i),
            PrismaValue::Relation(i) => DatabaseValue::Integer(
                #[verifier::truncate] (i as i64),
            ),
            PrismaValue::Null => DatabaseValue::Null,
            PrismaValue::Uuid(u) => DatabaseValue::Uuid(u),
            PrismaValue::GraphqlId(id) => id.into_database_value(),
            PrismaValue::List(_) => DatabaseValue::Null,
        }
    }
}

/// What a driver stores when one bound parameter goes into a column of
/// the given declared wire type, as the cell is read back later: a null
/// parameter stores SQL NULL whatever the column type; any other
/// parameter is stored at the column's native representation when the
/// types agree, and rejected by the backend (`None`) when they do not.
/// Text bound into a document column is kept as the document's text.
pub open spec fn spec_stored_cell(p: DatabaseValue, ty: WireType) -> Option<WireColumn> {
    match (p, ty) {
        (DatabaseValue::Null, _) => Some(WireColumn { ty, data: None }),
        (DatabaseValue::Text(s), WireType::Text) => Some(
            WireColumn { ty, data: Some(WireData::Text(s)) },
        ),
        (DatabaseValue::Text(s), WireType::Json) => Some(
            WireColumn { ty, data: Some(WireData::Json(s)) },
        ),
        (DatabaseValue::Integer(i), WireType::Int8) => Some(
            WireColumn { ty, data: Some(WireData::I64(i)) },
        ),
        (DatabaseValue::Real(f), WireType::Float8) => Some(
            WireColumn { ty, data: Some(WireData::F64(f)) },
        ),
        (DatabaseValue::Boolean(b), WireType::Bool) => Some(
            WireColumn { ty, data: Some(WireData::Bool(b)) },
        ),
        (DatabaseValue::DateTime(d), WireType::Timestamp) => Some(
            WireColumn { ty, data: Some(WireData::Timestamp(d)) },
        ),
        (DatabaseValue::Uuid(u), WireType::Uuid) => Some(
            WireColumn { ty, data: Some(WireData::Uuid(u)) },
        ),
        _ => None,
    }
}

/// Executable form of the storage model, for exercising round trips
/// without a live backend.
pub fn stored_cell(p: DatabaseValue, ty: WireType) -> (r: Option<WireColumn>)
    ensures
        r == spec_stored_cell(p, ty),
{
    match (p, ty) {
        (DatabaseValue::Null, _) => Some(WireColumn { ty, data: None }),
        (DatabaseValue::Text(s), WireType::Text) => Some(
            WireColumn { ty, data: Some(WireData::Text(s)) },
        ),
        (DatabaseValue::Text(s), WireType::Json) => Some(
            WireColumn { ty, data: Some(WireData::Json(s)) },
        ),
        (DatabaseValue::Integer(i), WireType::Int8) => Some(
            WireColumn { ty, data: Some(WireData::I64(i)) },
        ),
        (DatabaseValue::Real(f), WireType::Float8) => Some(
            WireColumn { ty, data: Some(WireData::F64(f)) },
        ),
        (DatabaseValue::Boolean(b), WireType::Bool) => Some(
            WireColumn { ty, data: Some(WireData::Bool(b)) },
        ),
        (DatabaseValue::DateTime(d), WireType::Timestamp) => Some(
            WireColumn { ty, data: Some(WireData::Timestamp(d)) },
        ),
        (DatabaseValue::Uuid(u), WireType::Uuid) => Some(
            WireColumn { ty, data: Some(WireData::Uuid(u)) },
        ),
        _ => None,
    }
}

/// The type tag under which a value of this variant is read back.
pub open spec fn spec_matching_tag(v: PrismaValue) -> TypeIdentifier {
    match v {
        PrismaValue::String(_) => TypeIdentifier::String,
        PrismaValue::Float(_) => TypeIdentifier::Float,
        PrismaValue::Boolean(_) => TypeIdentifier::Boolean,
        PrismaValue::DateTime(_) => TypeIdentifier::DateTime,
        PrismaValue::Enum(_) => TypeIdentifier::Enum,
        PrismaValue::Json(_) => TypeIdentifier::Json,
        PrismaValue::Int(_) => TypeIdentifier::Int,
        PrismaValue::Relation(_) => TypeIdentifier::Relation,
        PrismaValue::Null => TypeIdentifier::String,
        PrismaValue::Uuid(_) => TypeIdentifier::UUID,
        PrismaValue::GraphqlId(_) => TypeIdentifier::GraphQLID,
        PrismaValue::List(_) => TypeIdentifier::String,
    }
}

/// The declared column type a value of this variant is stored under.
pub open spec fn spec_matching_wire_type(v: PrismaValue) -> WireType {
    match v {
        PrismaValue::String(_) => WireType::Text,
        PrismaValue::Float(_) => WireType::Float8,
        PrismaValue::Boolean(_) => WireType::Bool,
        PrismaValue::DateTime(_) => WireType::Timestamp,
        PrismaValue::Enum(_) => WireType::Text,
        PrismaValue::Json(_) => WireType::Json,
        PrismaValue::Int(_) => WireType::Int8,
        PrismaValue::Relation(_) => WireType::Int8,
        PrismaValue::Null => WireType::Text,
        PrismaValue::Uuid(_) => WireType::Uuid,
        PrismaValue::GraphqlId(GraphqlId::String(_)) => WireType::Text,
        PrismaValue::GraphqlId(GraphqlId::Int(_)) => WireType::Int8,
        PrismaValue::GraphqlId(GraphqlId::UUID(_)) => WireType::Uuid,
        PrismaValue::List(_) => WireType::Text,
    }
}

/// Casting an unsigned machine word to a 64-bit signed integer and back
/// is the identity, on 32-bit and 64-bit architectures alike.
proof fn lemma_usize_i64_round_trip(u: usize)
    ensures
        ((u as i64) as usize) == u,
{
    assert(((u as i64) as usize) == u) by (bit_vector);
}

/// Round-trip law: encoding a scalar to a bound parameter, storing it in
/// a column of its matching declared type, and decoding it back through
/// the row decoder under its matching type tag yields the value
/// unchanged. It holds for every variant except `List`, which cannot be
/// bound as a single parameter, and `Relation`, which is read back as an
/// integer record identifier rather than as a relation link.
pub proof fn lemma_param_round_trip(v: PrismaValue)
    requires
        !(v is List),
        !(v is Relation),
    ensures
        ({
            let cell = spec_stored_cell(spec_to_database_value(v), spec_matching_wire_type(v));
            &&& cell is Some
            &&& spec_decode_column(spec_matching_tag(v), cell.unwrap()) == Some(v)
        }),
{
    match v {
        PrismaValue::GraphqlId(GraphqlId::Int(u)) => {
            lemma_usize_i64_round_trip(u);
        },
        _ => {},
    }
}

} // verus!
