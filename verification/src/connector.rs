//! The decision logic of the uniform connector and transaction contract:
//! what the write path returns, how a selection's rows are decoded, the
//! statement sequence of a bulk delete, and the commit decision of a
//! transaction scope. A backend driver performs the statements and hands
//! the returned rows back as plain values.

use vstd::prelude::*;

use crate::error::ConnectorError;
use crate::param::DatabaseValue;
use crate::row::{
    spec_column_value, spec_decode_id_column, spec_decoded_values, spec_row_decodes, to_prisma_row,
    PrismaRow, TypeIdentifier, WireRow,
};
use crate::value::{GraphqlId, PrismaValue};

verus! {

/// The statement kinds the write path distinguishes: an insert returns
/// the identifier of the last affected row; every other kind returns
/// nothing.
#[derive(Debug, Clone, Copy, PartialEq, Eq, Structural)]
pub enum StatementKind {
    Insert,
    Other,
}

/// One statement as the black-box builder hands it over: its kind, its
/// text, and the ordered parameter list to bind positionally. The text
/// is opaque to this crate: a driver prepares and executes it, never
/// inspecting or interpolating it.
#[derive(Debug, PartialEq)]
pub struct SqlStatement {
    pub kind: StatementKind,
    pub sql: String,
    pub params: Vec<DatabaseValue>,
}

/// One step of a bulk-delete plan.
#[derive(Debug, PartialEq)]
pub enum WriteCommand {
    /// Disable constraint enforcement for the rest of the transaction.
    DeferConstraints,
    /// Delete every row of one table.
    DeleteFrom(String),
}

/// The two ways a transaction scope can end.
#[derive(Debug, Clone, Copy, PartialEq, Eq, Structural)]
pub enum TransactionOutcome {
    Commit,
    RollBack,
}

/// The transaction-scoping decision: commit exactly when the body
/// succeeded; on failure the transaction is left uncommitted, to be
/// rolled back on teardown.
pub fn transaction_outcome(body_succeeded: bool) -> (r: TransactionOutcome)
    ensures
        r is Commit <==> body_succeeded,
{
    if body_succeeded {
        TransactionOutcome::Commit
    } else {
        TransactionOutcome::RollBack
    }
}

/// The identifier in the first column of a returned row, when the row
/// carries a non-null, identifier-shaped value there.
pub open spec fn spec_row_insert_id(row: WireRow) -> Option<GraphqlId> {
    if row.columns@.len() > 0 {
        match spec_decode_id_column(row.columns@[0]) {
            Some(PrismaValue::GraphqlId(gid)) => Some(gid),
            _ => None,
        }
    } else {
        None
    }
}

/// What a write returns once the backend has executed the statement and
/// handed back the returned rows: for an insert, the identifier in the
/// first column of the last returned row (or nothing when the backend
/// reports no row); for every other statement kind, nothing. An insert
/// whose returned identifier cannot be decoded is a typed error.
pub fn write_returned_id(kind: StatementKind, returned: &Vec<WireRow>) -> (r: Result<
    Option<GraphqlId>,
    ConnectorError,
>)
    ensures
        kind is Other ==> r == Ok::<Option<GraphqlId>, ConnectorError>(None::<GraphqlId>),
        kind is Insert && returned@.len() == 0 ==> r == Ok::<Option<GraphqlId>, ConnectorError>(
            None::<GraphqlId>,
        ),
        kind is Insert && returned@.len() > 0 ==> r == (match spec_row_insert_id(
            returned@.last(),
        ) {
            Some(gid) => Ok::<Option<GraphqlId>, ConnectorError>(Some(gid)),
            None => Err(ConnectorError::ColumnDecodeFailure(0)),
        }),
{
    match kind {
        StatementKind::Other => Ok(None),
        StatementKind::Insert => {
            if returned.len() == 0 {
                Ok(None)
            } else {
                let row = &returned[returned.len() - 1];
                if row.columns.len() == 0 {
                    return Err(ConnectorError::ColumnDecodeFailure(0));
                }
                match crate::row::decode_column(
                    TypeIdentifier::GraphQLID,
                    &row.columns[0],
                    0,
                ) {
                    Ok(PrismaValue::GraphqlId(gid)) => Ok(Some(gid)),
                    _ => Err(ConnectorError::ColumnDecodeFailure(0)),
                }
            }
        },
    }
}

/// Decodes every returned row of a selection via the row decoder, using
/// the supplied type tags, one per selected column in column order.
/// Succeeds exactly when every row decodes; otherwise the first failing
/// row's error names the first column of it that does not decode.
pub fn decode_rows(rows: &Vec<WireRow>, idents: &Vec<TypeIdentifier>) -> (r: Result<
    Vec<PrismaRow>,
    ConnectorError,
>)
    ensures
        r is Ok <==> (forall|k: int|
            0 <= k < rows@.len() ==> spec_row_decodes(idents@, (#[trigger] rows@[k]).columns@)),
        r matches Ok(out) ==> out@.len() == rows@.len() && (forall|k: int|
            0 <= k < rows@.len() ==> (#[trigger] out@[k]).values@ == spec_decoded_values(
                idents@,
                rows@[k].columns@,
            )),
        r matches Err(e) ==> (exists|k: int|
            {
                &&& 0 <= k < rows@.len()
                &&& !spec_row_decodes(idents@, (#[trigger] rows@[k]).columns@)
                &&& (forall|j: int|
                    0 <= j < k ==> spec_row_decodes(idents@, (#[trigger] rows@[j]).columns@))
                &&& (e matches ConnectorError::ColumnDecodeFailure(ci) && (spec_column_value(
                    idents@,
                    rows@[k].columns@,
                    ci as int,
                ) is None && (forall|cj: int|
                    0 <= cj < ci ==> (#[trigger] spec_column_value(
                        idents@,
                        rows@[k].columns@,
                        cj,
                    )) is Some)))
            }),
{
    let mut out: Vec<PrismaRow> = Vec::new();
    let mut idx: usize = 0;
    while idx < rows.len()
        invariant
            idx <= rows@.len(),
            out@.len() == idx,
            forall|k: int|
                0 <= k < idx ==> spec_row_decodes(idents@, (#[trigger] rows@[k]).columns@),
            forall|k: int|
                0 <= k < idx ==> (#[trigger] out@[k]).values@ == spec_decoded_values(
                    idents@,
                    rows@[k].columns@,
                ),
        decreases rows@.len() - idx,
    {
        match to_prisma_row(&rows[idx], idents) {
            Ok(pr) => {
                proof {
                    assert(pr.values@ =~= spec_decoded_values(idents@, rows@[idx as int].columns@));
                }
                out.push(pr);
            },
            Err(e) => {
                return Err(e);
            },
        }
        idx = idx + 1;
    }
    Ok(out)
}

/// The statement sequence of a bulk delete over a schema's table list:
/// constraint enforcement is deferred first, so that tables with
/// circular foreign-key relationships can be cleared in any order, and
/// then exactly one delete is issued per table, in the given order.
pub fn truncate_plan(tables: &Vec<String>) -> (r: Vec<WriteCommand>)
    ensures
        r@.len() == tables@.len() + 1,
        r@[0] is DeferConstraints,
        forall|i: int|
            0 <= i < tables@.len() ==> #[trigger] r@[i + 1] == WriteCommand::DeleteFrom(
                tables@[i],
            ),
{
    let mut out: Vec<WriteCommand> = Vec::new();
    out.push(WriteCommand::DeferConstraints);
    let mut idx: usize = 0;
    while idx < tables.len()
        invariant
            idx <= tables@.len(),
            out@.len() == idx + 1,
            out@[0] is DeferConstraints,
            forall|i: int|
                0 <= i < idx ==> #[trigger] out@[i + 1] == WriteCommand::DeleteFrom(tables@[i]),
        decreases tables@.len() - idx,
    {
        out.push(WriteCommand::DeleteFrom(tables[idx].clone()));
        idx = idx + 1;
    }
    out
}

} // verus!
