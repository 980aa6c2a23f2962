//! The universal value model: typed scalars, record identifiers, and the
//! lossless mapping from query-literal trees into scalar values.

use vstd::prelude::*;

use crate::error::{DomainError, ValueKind};

verus! {

broadcast use vstd::std_specs::vec::group_vec_axioms;

/// A record identifier, one of three encodings: an opaque string, an
/// unsigned integer, or a UUID carried as its 128-bit value.
#[derive(Debug, PartialEq, Eq, Hash, Clone)]
pub enum GraphqlId {
    String(String),
    Int(usize),
    UUID(u128),
}

/// An optional list of scalar values: `None` is "no list value", which is
/// distinct from an empty list and from a list containing nulls.
pub type PrismaListValue = Option<Vec<PrismaValue>>;

/// A single typed unit of query data, in a storage-independent form.
///
/// Values with no native representation in this crate are carried as plain
/// data: a 64-bit float as its IEEE-754 bit pattern, a UTC timestamp as
/// microseconds since the Unix epoch, a structured document as its
/// serialized text, and a UUID as its 128-bit value.
#[derive(Debug, PartialEq)]
pub enum PrismaValue {
    String(String),
    /// IEEE-754 bit pattern of a 64-bit float, carried opaquely.
    Float(u64),
    Boolean(bool),
    /// Microseconds since the Unix epoch, UTC.
    DateTime(i64),
    Enum(String),
    /// Serialized text of a JSON-like document, carried opaquely.
    Json(String),
    Int(i64),
    /// Link to a related record, by its integer identifier.
    Relation(usize),
    Null,
    /// A 128-bit UUID value.
    Uuid(u128),
    GraphqlId(GraphqlId),
    List(PrismaListValue),
}

/// One node of a query-literal tree, as the declarative query layer hands
/// it over: the external literal syntax reduced to plain values.
#[derive(Debug, PartialEq)]
pub enum LiteralValue {
    Variable(String),
    Int(i64),
    /// IEEE-754 bit pattern of a 64-bit float literal.
    Float(u64),
    String(String),
    Boolean(bool),
    Null,
    Enum(String),
    List(Vec<LiteralValue>),
    Object(Vec<(String, LiteralValue)>),
}

impl From<String> for PrismaValue {
    fn from(s: String) -> (r: Self) {
        PrismaValue::String(s)
    }
}

impl vstd::std_specs::convert::FromSpecImpl<String> for PrismaValue {
    open spec fn obeys_from_spec() -> bool {
        true
    }

    open spec fn from_spec(s: String) -> Self {
        PrismaValue::String(s)
    }
}

impl From<bool> for PrismaValue {
    fn from(b: bool) -> (r: Self) {
        PrismaValue::Boolean(b)
    }
}

impl vstd::std_specs::convert::FromSpecImpl<bool> for PrismaValue {
    open spec fn obeys_from_spec() -> bool {
        true
    }

    open spec fn from_spec(b: bool) -> Self {
        PrismaValue::Boolean(b)
    }
}

impl From<i64> for PrismaValue {
    fn from(i: i64) -> (r: Self) {
        PrismaValue::Int(i)
    }
}

impl vstd::std_specs::convert::FromSpecImpl<i64> for PrismaValue {
    open spec fn obeys_from_spec() -> bool {
        true
    }

    open spec fn from_spec(i: i64) -> Self {
        PrismaValue::Int(i)
    }
}

impl From<GraphqlId> for PrismaValue {
    fn from(id: GraphqlId) -> (r: Self) {
        PrismaValue::GraphqlId(id)
    }
}

impl vstd::std_specs::convert::FromSpecImpl<GraphqlId> for PrismaValue {
    open spec fn obeys_from_spec() -> bool {
        true
    }

    open spec fn from_spec(id: GraphqlId) -> Self {
        PrismaValue::GraphqlId(id)
    }
}

impl From<PrismaListValue> for PrismaValue {
    fn from(l: PrismaListValue) -> (r: Self) {
        PrismaValue::List(l)
    }
}

impl vstd::std_specs::convert::FromSpecImpl<PrismaListValue> for PrismaValue {
    open spec fn obeys_from_spec() -> bool {
        true
    }

    open spec fn from_spec(l: PrismaListValue) -> Self {
        PrismaValue::List(l)
    }
}

impl From<String> for GraphqlId {
    fn from(s: String) -> (r: Self) {
        GraphqlId::String(s)
    }
}

impl vstd::std_specs::convert::FromSpecImpl<String> for GraphqlId {
    open spec fn obeys_from_spec() -> bool {
        true
    }

    open spec fn from_spec(s: String) -> Self {
        GraphqlId::String(s)
    }
}

impl From<usize> for GraphqlId {
    fn from(id: usize) -> (r: Self) {
        GraphqlId::Int(id)
    }
}

impl vstd::std_specs::convert::FromSpecImpl<usize> for GraphqlId {
    open spec fn obeys_from_spec() -> bool {
        true
    }

    open spec fn from_spec(id: usize) -> Self {
        GraphqlId::Int(id)
    }
}

/// Holds when the literal tree uses only kinds with a defined mapping into
/// the value model: everything but variables and objects, element-wise
/// through lists.
pub open spec fn literal_supported(v: LiteralValue) -> bool
    decreases v,
{
    match v {
        LiteralValue::Variable(_) => false,
        LiteralValue::Object(_) => false,
        LiteralValue::List(l) => forall|i: int|
            0 <= i < l@.len() ==> literal_supported(#[trigger] l@[i]),
        _ => true,
    }
}

/// The defined mapping from a supported literal to a scalar value:
/// booleans, enum labels, floats, integers, nulls and strings map
/// directly; lists map recursively, element-wise, to a present list.
pub open spec fn literal_maps_to(v: LiteralValue, r: PrismaValue) -> bool
    decreases v,
{
    match v {
        LiteralValue::Boolean(b) => r == PrismaValue::Boolean(b),
        LiteralValue::Enum(e) => r == PrismaValue::Enum(e),
        LiteralValue::Float(f) => r == PrismaValue::Float(f),
        LiteralValue::Int(i) => r == PrismaValue::Int(i),
        LiteralValue::Null => r == PrismaValue::Null,
        LiteralValue::String(s) => r == PrismaValue::String(s),
        LiteralValue::List(l) => (r matches PrismaValue::List(Some(rs)) && rs@.len() == l@.len()
            && forall|i: int|
            0 <= i < l@.len() ==> literal_maps_to(#[trigger] l@[i], rs@[i])),
        LiteralValue::Variable(_) => false,
        LiteralValue::Object(_) => false,
    }
}

impl PrismaValue {
    /// True exactly when the active variant is `Null`.
    pub fn is_null(&self) -> (r: bool)
        ensures
            r == (*self is Null),
    {
        match self {
            PrismaValue::Null => true,
            _ => false,
        }
    }

    /// Maps an external literal tree into the value model; a literal kind
    /// with no defined mapping fails loudly with a typed error instead of
    /// being silently coerced.
    #[verifier::loop_isolation(false)]
    pub fn from_value(v: &LiteralValue) -> (r: Result<PrismaValue, DomainError>)
        ensures
            r matches Ok(pv) ==> literal_maps_to(*v, pv),
            r is Ok <==> literal_supported(*v),
            r is Err ==> r == Err::<PrismaValue, DomainError>(DomainError::UnsupportedLiteralKind),
        decreases *v,
    {
        match v {
            LiteralValue::Boolean(b) => Ok(PrismaValue::Boolean(*b)),
            LiteralValue::Enum(e) => Ok(PrismaValue::Enum(e.clone())),
            LiteralValue::Float(f) => Ok(PrismaValue::Float(*f)),
            LiteralValue::Int(i) => Ok(PrismaValue::Int(*i)),
            LiteralValue::Null => Ok(PrismaValue::Null),
            LiteralValue::String(s) => Ok(PrismaValue::String(s.clone())),
            LiteralValue::List(l) => {
                let mut out: Vec<PrismaValue> = Vec::new();
                let mut idx: usize = 0;
                while idx < l.len()
                    invariant
                        idx <= l@.len(),
                        out@.len() == idx,
                        forall|j: int| #![trigger l@[j]]
                            0 <= j < idx ==> literal_supported(l@[j]) && literal_maps_to(
                                l@[j],
                                out@[j],
                            ),
                    decreases l@.len() - idx,
                {
                    match Self::from_value(&l[idx]) {
                        Ok(pv) => out.push(pv),
                        Err(e) => {
                            proof {
                                assert(!literal_supported(l@[idx as int]));
                            }
                            return Err(e);
                        },
                    }
                    idx = idx + 1;
                }
                Ok(PrismaValue::List(Some(out)))
            },
            LiteralValue::Variable(_) => Err(DomainError::UnsupportedLiteralKind),
            LiteralValue::Object(_) => Err(DomainError::UnsupportedLiteralKind),
        }
    }

    /// Narrows to an optional list: a list value yields its list, `Null`
    /// yields the absent list, and any other variant is a conversion
    /// failure naming the source and target kinds.
    pub fn try_into_list(self) -> (r: Result<PrismaListValue, DomainError>)
        ensures
            r == (match self {
                PrismaValue::List(l) => Ok::<PrismaListValue, DomainError>(l),
                PrismaValue::Null => Ok(None),
                _ => Err(
                    DomainError::ConversionFailure(
                        ValueKind::PrismaValue,
                        ValueKind::PrismaListValue,
                    ),
                ),
            }),
    {
        match self {
            PrismaValue::List(l) => Ok(l),
            PrismaValue::Null => Ok(None),
            _ => Err(
                DomainError::ConversionFailure(ValueKind::PrismaValue, ValueKind::PrismaListValue),
            ),
        }
    }

    /// Narrows to a record identifier; any other active variant is a
    /// conversion failure.
    pub fn try_into_id(self) -> (r: Result<GraphqlId, DomainError>)
        ensures
            r == (match self {
                PrismaValue::GraphqlId(id) => Ok::<GraphqlId, DomainError>(id),
                _ => Err(
                    DomainError::ConversionFailure(ValueKind::PrismaValue, ValueKind::GraphqlId),
                ),
            }),
    {
        match self {
            PrismaValue::GraphqlId(id) => Ok(id),
            _ => Err(DomainError::ConversionFailure(ValueKind::PrismaValue, ValueKind::GraphqlId)),
        }
    }

    /// Narrows to a 64-bit integer; any other active variant is a
    /// conversion failure.
    pub fn try_into_i64(self) -> (r: Result<i64, DomainError>)
        ensures
            r == (match self {
                PrismaValue::Int(i) => Ok::<i64, DomainError>(i),
                _ => Err(DomainError::ConversionFailure(ValueKind::PrismaValue, ValueKind::Int64)),
            }),
    {
        match self {
            PrismaValue::Int(i) => Ok(i),
            _ => Err(DomainError::ConversionFailure(ValueKind::PrismaValue, ValueKind::Int64)),
        }
    }
}

} // verus!
