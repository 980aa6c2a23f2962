//! The schema boundary: the validation error type and the validation
//! contract a schema offers to query documents. Parsing and loading the
//! schema source are an external collaborator's job; a parsed schema is
//! carried here as plain data.

use vstd::prelude::*;

verus! {

/// Why a query document failed validation against a schema.
#[derive(Debug, PartialEq)]
pub enum ValidationError {
    EverythingIsBroken,
    Problematic(String),
    Duplicate(String),
}

/// A parsed schema, carried as its source text.
#[derive(Debug, PartialEq)]
pub struct PrismaSchema {
    pub source: String,
}

/// A parsed query document, carried as its source text.
#[derive(Debug, PartialEq)]
pub struct QueryDocument {
    pub source: String,
}

/// The validation contract a schema implements for query documents.
pub trait Validatable {
    fn validate(&self, doc: &QueryDocument) -> Result<(), ValidationError>;
}

impl Validatable for PrismaSchema {
    /// No validation rule is enforced yet: every document is accepted.
    fn validate(&self, doc: &QueryDocument) -> (r: Result<(), ValidationError>)
        ensures
            r is Ok,
    {
        Ok(())
    }
}

} // verus!
