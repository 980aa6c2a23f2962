//! Typed error values shared across the value model, the row decoder and the
//! connector contract.

use vstd::prelude::*;

verus! {

/// The kind of a value taking part in a narrowing conversion; a
/// `ConversionFailure` names the source and the target kind.
#[derive(Debug, Clone, Copy, PartialEq, Eq, Structural)]
pub enum ValueKind {
    PrismaValue,
    PrismaListValue,
    GraphqlId,
    Int64,
}

/// Failure of an operation of the value model itself, recoverable by the
/// caller choosing a different path.
#[derive(Debug, Clone, Copy, PartialEq, Eq, Structural)]
pub enum DomainError {
    /// The active variant of the source value did not match the target kind.
    ConversionFailure(ValueKind, ValueKind),
    /// A literal kind with no defined mapping into the value model.
    UnsupportedLiteralKind,
}

/// Failure raised by a backend driver or while interpreting what it returned.
#[derive(Debug, Clone, PartialEq, Eq)]
pub enum ConnectorError {
    /// Pool, connection or configuration problem at driver construction time.
    DatabaseCreationError(String),
    /// The column at this index could not be decoded into its declared type tag.
    ColumnDecodeFailure(usize),
    /// Statement preparation or execution failed; carries the backend's message.
    QueryError(String),
    /// The configured connector name is not one of the supported backends.
    UnsupportedConnector(String),
}

} // verus!
