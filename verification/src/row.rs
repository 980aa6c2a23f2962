//! The row decoder: one backend-native row plus an ordered list of expected
//! type tags becomes an ordered list of scalar values.
//!
//! A backend row is modeled as a sequence of cells, each carrying the
//! column's declared wire type and, when the cell is not SQL NULL, a payload
//! already read at the native width of that type. Integer columns are
//! decoded width-aware: the declared width picks the decode path, and the
//! value is widened to the canonical 64-bit representation afterwards.

use vstd::prelude::*;

use crate::error::ConnectorError;
use crate::value::{GraphqlId, PrismaValue};

verus! {

/// Expected value kind of one selected column, in column order.
#[derive(Debug, Clone, Copy, PartialEq, Eq, Structural)]
pub enum TypeIdentifier {
    String,
    GraphQLID,
    Relation,
    Float,
    Int,
    Boolean,
    Enum,
    Json,
    UUID,
    DateTime,
}

/// The declared wire type of a column, as the networked backend reports it.
#[derive(Debug, Clone, Copy, PartialEq, Eq, Structural)]
pub enum WireType {
    Int2,
    Int4,
    Int8,
    Float8,
    Bool,
    Text,
    Uuid,
    Timestamp,
    Json,
}

/// The payload of one non-null cell, read by the driver at the native
/// width of the column's declared wire type.
#[derive(Debug, PartialEq)]
pub enum WireData {
    I16(i16),
    I32(i32),
    I64(i64),
    /// IEEE-754 bit pattern of a 64-bit float.
    F64(u64),
    Bool(bool),
    Text(String),
    Uuid(u128),
    /// Naive (zone-less) timestamp in microseconds.
    Timestamp(i64),
    /// Serialized text of a JSON document.
    Json(String),
}

/// One cell of a backend-native row: the column's declared wire type and
/// the payload, absent when the stored value is SQL NULL.
#[derive(Debug, PartialEq)]
pub struct WireColumn {
    pub ty: WireType,
    pub data: Option<WireData>,
}

/// One backend-native row, cell by cell in column order.
#[derive(Debug, PartialEq)]
pub struct WireRow {
    pub columns: Vec<WireColumn>,
}

/// One decoded row of scalar values, in column order.
#[derive(Debug, PartialEq)]
pub struct PrismaRow {
    pub values: Vec<PrismaValue>,
}

impl Default for PrismaRow {
    /// An empty row.
    fn default() -> (r: Self)
        ensures
            r.values@.len() == 0,
    {
        PrismaRow { values: Vec::new() }
    }
}

/// What an identifier-tagged cell decodes to: NULL in any accepted column
/// type is the null value; an integer column of either width yields an
/// integer identifier (widened, then reinterpreted as unsigned); a UUID
/// column yields a UUID identifier; a text column yields an opaque string
/// identifier. Any other wire type is not accepted for identifiers.
pub open spec fn spec_decode_id_column(col: WireColumn) -> Option<PrismaValue> {
    match (col.ty, col.data) {
        (WireType::Int2, None) => Some(PrismaValue::Null),
        (WireType::Int4, None) => Some(PrismaValue::Null),
        (WireType::Int8, None) => Some(PrismaValue::Null),
        (WireType::Uuid, None) => Some(PrismaValue::Null),
        (WireType::Text, None) => Some(PrismaValue::Null),
        (WireType::Int2, Some(WireData::I16(v))) => Some(
            PrismaValue::GraphqlId(GraphqlId::Int(v as usize)),
        ),
        (WireType::Int4, Some(WireData::I32(v))) => Some(
            PrismaValue::GraphqlId(GraphqlId::Int(v as usize)),
        ),
        (WireType::Int8, Some(WireData::I64(v))) => Some(
            PrismaValue::GraphqlId(GraphqlId::Int(v as usize)),
        ),
        (WireType::Uuid, Some(WireData::Uuid(u))) => Some(
            PrismaValue::GraphqlId(GraphqlId::UUID(u)),
        ),
        (WireType::Text, Some(WireData::Text(s))) => Some(
            PrismaValue::GraphqlId(GraphqlId::String(s)),
        ),
        _ => None,
    }
}

/// What one cell decodes to under one type tag, or `None` when the cell
/// cannot be decoded into the declared tag. Nullable tags map SQL NULL to
/// the null value; integer tags use a non-nullable, width-aware fetch; a
/// timestamp is reinterpreted as UTC without adjustment.
pub open spec fn spec_decode_column(tag: TypeIdentifier, col: WireColumn) -> Option<PrismaValue> {
    match tag {
        TypeIdentifier::String => match (col.ty, col.data) {
            (WireType::Text, None) => Some(PrismaValue::Null),
            (WireType::Text, Some(WireData::Text(s))) => Some(PrismaValue::String(s)),
            _ => None,
        },
        TypeIdentifier::GraphQLID => spec_decode_id_column(col),
        TypeIdentifier::Relation => spec_decode_id_column(col),
        TypeIdentifier::Float => match (col.ty, col.data) {
            (WireType::Float8, None) => Some(PrismaValue::Null),
            (WireType::Float8, Some(WireData::F64(bits))) => Some(PrismaValue::Float(bits)),
            _ => None,
        },
        TypeIdentifier::Int => match (col.ty, col.data) {
            (WireType::Int2, Some(WireData::I16(v))) => Some(PrismaValue::Int(v as i64)),
            (WireType::Int4, Some(WireData::I32(v))) => Some(PrismaValue::Int(v as i64)),
            (WireType::Int8, Some(WireData::I64(v))) => Some(PrismaValue::Int(v)),
            _ => None,
        },
        TypeIdentifier::Boolean => match (col.ty, col.data) {
            (WireType::Bool, None) => Some(PrismaValue::Null),
            (WireType::Bool, Some(WireData::Bool(b))) => Some(PrismaValue::Boolean(b)),
            _ => None,
        },
        TypeIdentifier::Enum => match (col.ty, col.data) {
            (WireType::Text, None) => Some(PrismaValue::Null),
            (WireType::Text, Some(WireData::Text(s))) => Some(PrismaValue::Enum(s)),
            _ => None,
        },
        TypeIdentifier::Json => match (col.ty, col.data) {
            (WireType::Json, None) => Some(PrismaValue::Null),
            (WireType::Json, Some(WireData::Json(s))) => Some(PrismaValue::Json(s)),
            _ => None,
        },
        TypeIdentifier::UUID => match (col.ty, col.data) {
            (WireType::Uuid, None) => Some(PrismaValue::Null),
            (WireType::Uuid, Some(WireData::Uuid(u))) => Some(PrismaValue::Uuid(u)),
            _ => None,
        },
        TypeIdentifier::DateTime => match (col.ty, col.data) {
            (WireType::Timestamp, None) => Some(PrismaValue::Null),
            (WireType::Timestamp, Some(WireData::Timestamp(t))) => Some(PrismaValue::DateTime(t)),
            _ => None,
        },
    }
}

/// What the cell at position `i` decodes to under the tag at position `i`,
/// or `None` when the row has no such cell or the cell does not decode.
pub open spec fn spec_column_value(
    tags: Seq<TypeIdentifier>,
    cols: Seq<WireColumn>,
    i: int,
) -> Option<PrismaValue> {
    if 0 <= i < tags.len() && i < cols.len() {
        spec_decode_column(tags[i], cols[i])
    } else {
        None
    }
}

/// Holds when every tagged cell of a row decodes.
pub open spec fn spec_row_decodes(tags: Seq<TypeIdentifier>, cols: Seq<WireColumn>) -> bool {
    forall|i: int| 0 <= i < tags.len() ==> (#[trigger] spec_column_value(tags, cols, i)) is Some
}

/// The scalar values a fully decoding row decodes to, in column order.
pub open spec fn spec_decoded_values(tags: Seq<TypeIdentifier>, cols: Seq<WireColumn>) -> Seq<
    PrismaValue,
> {
    Seq::new(tags.len(), |i: int| spec_column_value(tags, cols, i).unwrap())
}

/// Decodes one cell under one type tag; `i` is the column position, used
/// only to name the failing column in the error.
pub fn decode_column(tag: TypeIdentifier, col: &WireColumn, i: usize) -> (r: Result<
    PrismaValue,
    ConnectorError,
>)
    ensures
        r matches Ok(pv) ==> spec_decode_column(tag, *col) == Some(pv),
        r is Ok <==> spec_decode_column(tag, *col) is Some,
        r is Err ==> r == Err::<PrismaValue, ConnectorError>(ConnectorError::ColumnDecodeFailure(
            i,
        )),
{
    let decoded: Option<PrismaValue> = match tag {
        TypeIdentifier::String => match (col.ty, &col.data) {
            (WireType::Text, Option::None) => Some(PrismaValue::Null),
            (WireType::Text, Option::Some(WireData::Text(s))) => Some(
                PrismaValue::String(s.clone()),
            ),
            _ => None,
        },
        TypeIdentifier::GraphQLID => decode_id_column(col),
        TypeIdentifier::Relation => decode_id_column(col),
        TypeIdentifier::Float => match (col.ty, &col.data) {
            (WireType::Float8, Option::None) => Some(PrismaValue::Null),
            (WireType::Float8, Option::Some(WireData::F64(bits))) => Some(
                PrismaValue::Float(*bits),
            ),
            _ => None,
        },
        TypeIdentifier::Int => match (col.ty, &col.data) {
            (WireType::Int2, Option::Some(WireData::I16(v))) => Some(PrismaValue::Int(*v as i64)),
            (WireType::Int4, Option::Some(WireData::I32(v))) => Some(PrismaValue::Int(*v as i64)),
            (WireType::Int8, Option::Some(WireData::I64(v))) => Some(PrismaValue::Int(*v)),
            _ => None,
        },
        TypeIdentifier::Boolean => match (col.ty, &col.data) {
            (WireType::Bool, Option::None) => Some(PrismaValue::Null),
            (WireType::Bool, Option::Some(WireData::Bool(b))) => Some(PrismaValue::Boolean(*b)),
            _ => None,
        },
        TypeIdentifier::Enum => match (col.ty, &col.data) {
            (WireType::Text, Option::None) => Some(PrismaValue::Null),
            (WireType::Text, Option::Some(WireData::Text(s))) => Some(PrismaValue::Enum(s.clone())),
            _ => None,
        },
        TypeIdentifier::Json => match (col.ty, &col.data) {
            (WireType::Json, Option::None) => Some(PrismaValue::Null),
            (WireType::Json, Option::Some(WireData::Json(s))) => Some(PrismaValue::Json(s.clone())),
            _ => None,
        },
        TypeIdentifier::UUID => match (col.ty, &col.data) {
            (WireType::Uuid, Option::None) => Some(PrismaValue::Null),
            (WireType::Uuid, Option::Some(WireData::Uuid(u))) => Some(PrismaValue::Uuid(*u)),
            _ => None,
        },
        TypeIdentifier::DateTime => match (col.ty, &col.data) {
            (WireType::Timestamp, Option::None) => Some(PrismaValue::Null),
            (WireType::Timestamp, Option::Some(WireData::Timestamp(t))) => Some(
                PrismaValue::DateTime(*t),
            ),
            _ => None,
        },
    };
    match decoded {
        Some(pv) => Ok(pv),
        None => Err(ConnectorError::ColumnDecodeFailure(i)),
    }
}

/// Decodes one identifier-tagged cell, dispatching on the column's
/// declared wire type as the identifier decoder does.
fn decode_id_column(col: &WireColumn) -> (r: Option<PrismaValue>)
    ensures
        r == spec_decode_id_column(*col),
{
    match (col.ty, &col.data) {
        (WireType::Int2, Option::None) => Some(PrismaValue::Null),
        (WireType::Int4, Option::None) => Some(PrismaValue::Null),
        (WireType::Int8, Option::None) => Some(PrismaValue::Null),
        (WireType::Uuid, Option::None) => Some(PrismaValue::Null),
        (WireType::Text, Option::None) => Some(PrismaValue::Null),
        (WireType::Int2, Option::Some(WireData::I16(v))) => Some(
            PrismaValue::GraphqlId(GraphqlId::Int(#[verifier::truncate] (*v as usize))),
        ),
        (WireType::Int4, Option::Some(WireData::I32(v))) => Some(
            PrismaValue::GraphqlId(GraphqlId::Int(#[verifier::truncate] (*v as usize))),
        ),
        (WireType::Int8, Option::Some(WireData::I64(v))) => Some(
            PrismaValue::GraphqlId(GraphqlId::Int(#[verifier::truncate] (*v as usize))),
        ),
        (WireType::Uuid, Option::Some(WireData::Uuid(u))) => Some(
            PrismaValue::GraphqlId(GraphqlId::UUID(*u)),
        ),
        (WireType::Text, Option::Some(WireData::Text(s))) => Some(
            PrismaValue::GraphqlId(GraphqlId::String(s.clone())),
        ),
        _ => None,
    }
}

/// Decodes a whole backend-native row: one cell per expected type tag, in
/// column order. Succeeds exactly when every tagged cell decodes, and
/// otherwise names the first column that does not.
pub fn to_prisma_row(row: &WireRow, idents: &Vec<TypeIdentifier>) -> (r: Result<
    PrismaRow,
    ConnectorError,
>)
    ensures
        r is Ok <==> (forall|i: int|
            0 <= i < idents@.len() ==> (#[trigger] spec_column_value(
                idents@,
                row.columns@,
                i,
            )) is Some),
        r matches Ok(pr) ==> pr.values@.len() == idents@.len() && (forall|i: int|
            0 <= i < idents@.len() ==> #[trigger] spec_column_value(idents@, row.columns@, i)
                == Some(pr.values@[i])),
        r matches Err(e) ==> (exists|i: usize|
            {
                &&& 0 <= i < idents@.len()
                &&& spec_column_value(idents@, row.columns@, i as int) is None
                &&& (forall|j: int|
                    0 <= j < i ==> (#[trigger] spec_column_value(
                        idents@,
                        row.columns@,
                        j,
                    )) is Some)
                &&& e == ConnectorError::ColumnDecodeFailure(i)
            }),
{
    let mut out = PrismaRow::default();
    let mut idx: usize = 0;
    while idx < idents.len()
        invariant
            idx <= idents@.len(),
            out.values@.len() == idx,
            forall|j: int|
                0 <= j < idx ==> #[trigger] spec_column_value(idents@, row.columns@, j) == Some(
                    out.values@[j],
                ),
        decreases idents@.len() - idx,
    {
        if idx >= row.columns.len() {
            proof {
                assert(spec_column_value(idents@, row.columns@, idx as int) is None);
            }
            return Err(ConnectorError::ColumnDecodeFailure(idx));
        }
        match decode_column(idents[idx], &row.columns[idx], idx) {
            Ok(pv) => out.values.push(pv),
            Err(e) => {
                proof {
                    assert(spec_column_value(idents@, row.columns@, idx as int) is None);
                }
                return Err(e);
            },
        }
        idx = idx + 1;
    }
    Ok(out)
}

} // verus!
