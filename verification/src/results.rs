//! The result materializer: assembling decoded rows and nested
//! sub-results into the caller-facing result tree, recovering the
//! requested page from an over-fetched row set, and extracting record
//! identifiers for the next level of relation resolution.

use vstd::prelude::*;

use crate::row::PrismaRow;
use crate::value::{GraphqlId, PrismaValue};

verus! {

/// One selected scalar field: its name, and whether the engine added it
/// implicitly (to support relation resolution) rather than the caller
/// requesting it.
#[derive(Debug, PartialEq)]
pub struct SelectedScalarField {
    pub name: String,
    pub implicit: bool,
}

/// The selected-field descriptor of one query level, used to tell
/// explicitly requested fields from implicitly added ones.
#[derive(Debug, PartialEq)]
pub struct SelectedFields {
    pub scalar: Vec<SelectedScalarField>,
}

/// Values of one multi-valued scalar field of one record, stored out of
/// line and keyed by the record's identifier.
#[derive(Debug, PartialEq)]
pub struct ScalarListValues {
    pub record_id: GraphqlId,
    pub values: Vec<PrismaValue>,
}

/// One decoded record together with the field-name ordering used to
/// index into it.
#[derive(Debug, PartialEq)]
pub struct SingleNode {
    pub node: PrismaRow,
    pub field_names: Vec<String>,
}

/// A decoded record set together with the field-name ordering used to
/// index into each record.
#[derive(Debug, PartialEq)]
pub struct ManyNodes {
    pub nodes: Vec<PrismaRow>,
    pub field_names: Vec<String>,
}

/// The pagination bounds a query was asked for. At most one of the two
/// bounds may be requested; upstream query construction must reject a
/// query carrying both.
#[derive(Debug, PartialEq, Eq, Structural, Clone, Copy)]
pub struct QueryArguments {
    pub first: Option<usize>,
    pub last: Option<usize>,
}

/// The recursive unit nested results are built from.
#[derive(Debug, PartialEq)]
pub enum ReadQueryResult {
    Single(SingleReadQueryResult),
    Many(ManyReadQueryResults),
}

/// One logical record with its nested results and out-of-line list
/// values; `scalars` is absent when no record matched.
#[derive(Debug, PartialEq)]
pub struct SingleReadQueryResult {
    pub name: String,
    pub fields: Vec<String>,
    /// Scalar field results.
    pub scalars: Option<SingleNode>,
    /// Nested query results.
    pub nested: Vec<ReadQueryResult>,
    /// Scalar list results, field names mapped to their values.
    pub lists: Vec<(String, Vec<ScalarListValues>)>,
    /// Used for filtering implicit fields in result records.
    pub selected_fields: SelectedFields,
}

/// A record set with its nested results, the query arguments the caller
/// sent (needed for pagination trimming), and out-of-line list values.
#[derive(Debug, PartialEq)]
pub struct ManyReadQueryResults {
    pub name: String,
    pub fields: Vec<String>,
    /// Scalar field results.
    pub scalars: ManyNodes,
    /// Nested query results.
    pub nested: Vec<ReadQueryResult>,
    /// Scalar list results, field names mapped to their values.
    pub lists: Vec<(String, Vec<ScalarListValues>)>,
    /// Required for result processing.
    pub query_arguments: QueryArguments,
    /// Used for filtering implicit fields in result records.
    pub selected_fields: SelectedFields,
}

/// The predicate an implicitly added field satisfies.
pub open spec fn is_implicit_field(f: SelectedScalarField) -> bool {
    f.implicit
}

/// Filters the implicitly added fields out of a descriptor, in order.
fn implicit_fields_of(fields: &SelectedFields) -> (r: Vec<&SelectedScalarField>)
    ensures
        r@.map_values(|f: &SelectedScalarField| *f) == fields.scalar@.filter(
            |f: SelectedScalarField| is_implicit_field(f),
        ),
{
    let mut out: Vec<&SelectedScalarField> = Vec::new();
    let mut idx: usize = 0;
    proof {
        assert(out@.map_values(|f: &SelectedScalarField| *f) =~= fields.scalar@.take(0).filter(
            |f: SelectedScalarField| is_implicit_field(f),
        )) by {
            reveal(Seq::filter);
        }
    }
    while idx < fields.scalar.len()
        invariant
            idx <= fields.scalar@.len(),
            out@.map_values(|f: &SelectedScalarField| *f) == fields.scalar@.take(idx as int).filter(
                |f: SelectedScalarField| is_implicit_field(f),
            ),
        decreases fields.scalar@.len() - idx,
    {
        let f = &fields.scalar[idx];
        if f.implicit {
            out.push(f);
        }
        proof {
            let pred = |f: SelectedScalarField| is_implicit_field(f);
            reveal(Seq::filter);
            assert(fields.scalar@.take(idx + 1).drop_last() =~= fields.scalar@.take(idx as int));
            assert(fields.scalar@.take(idx + 1).last() == fields.scalar@[idx as int]);
            assert(out@.map_values(|f: &SelectedScalarField| *f) =~= fields.scalar@.take(
                idx + 1,
            ).filter(pred));
        }
        idx = idx + 1;
    }
    proof {
        assert(fields.scalar@.take(fields.scalar@.len() as int) =~= fields.scalar@);
    }
    out
}

/// Holds of the first position whose field name is the conventional
/// identifier field name.
pub open spec fn id_field_at(names: Seq<String>, i: int) -> bool {
    &&& 0 <= i < names.len()
    &&& names[i]@ == "id"@
    &&& forall|j: int| 0 <= j < i ==> names[j]@ != "id"@
}

/// At most one position is the first position of the identifier field.
proof fn lemma_id_field_at_unique(names: Seq<String>, i: int, j: int)
    requires
        id_field_at(names, i),
        id_field_at(names, j),
    ensures
        i == j,
{
}

/// Holds when some field carries the conventional identifier field name.
pub open spec fn has_id_field(names: Seq<String>) -> bool {
    exists|i: int| 0 <= i < names.len() && names[i]@ == "id"@
}

/// The identifier a record carries at a given position, when it carries
/// one there.
pub open spec fn spec_id_of_row(values: Seq<PrismaValue>, i: int) -> Option<GraphqlId> {
    if 0 <= i < values.len() {
        match values[i] {
            PrismaValue::GraphqlId(gid) => Some(gid),
            _ => None,
        }
    } else {
        None
    }
}

/// Position of the first field named "id" within a field-name ordering.
fn position_of_id(names: &Vec<String>) -> (r: Option<usize>)
    ensures
        r matches Some(i) ==> id_field_at(names@, i as int),
        r is None ==> !has_id_field(names@),
{
    let id_name: String = "id".to_owned();
    let mut idx: usize = 0;
    while idx < names.len()
        invariant
            idx <= names@.len(),
            id_name@ == "id"@,
            forall|j: int| 0 <= j < idx ==> names@[j]@ != "id"@,
        decreases names@.len() - idx,
    {
        if names[idx] == id_name {
            return Some(idx);
        }
        idx = idx + 1;
    }
    None
}

impl SingleReadQueryResult {
    /// Returns the implicitly added fields.
    pub fn get_implicit_fields(&self) -> (r: Vec<&SelectedScalarField>)
        ensures
            r@.map_values(|f: &SelectedScalarField| *f) == self.selected_fields.scalar@.filter(
                |f: SelectedScalarField| is_implicit_field(f),
            ),
    {
        implicit_fields_of(&self.selected_fields)
    }

    /// Gets the identifier from the record: the value at the position of
    /// the conventional identifier field, when a record matched, the
    /// field is present, and the value there is identifier-shaped.
    pub fn find_id(&self) -> (r: Option<&GraphqlId>)
        ensures
            self.scalars is None ==> r is None,
            self.scalars matches Some(sn) ==> {
                &&& !has_id_field(sn.field_names@) ==> r is None
                &&& forall|i: int| #[trigger]
                    id_field_at(sn.field_names@, i) ==> ((r matches Some(id) && spec_id_of_row(
                        sn.node.values@,
                        i,
                    ) == Some(*id)) || (r is None && spec_id_of_row(sn.node.values@, i) is None))
            },
    {
        match &self.scalars {
            Option::None => None,
            Option::Some(sn) => {
                match position_of_id(&sn.field_names) {
                    Option::None => None,
                    Option::Some(pos) => {
                        if pos < sn.node.values.len() {
                            match &sn.node.values[pos] {
                                PrismaValue::GraphqlId(id) => Some(id),
                                _ => None,
                            }
                        } else {
                            None
                        }
                    },
                }
            },
        }
    }
}

impl ManyNodes {
    /// Reverses the record order in place.
    pub fn reverse(&mut self)
        ensures
            final (self).nodes@ == old(self).nodes@.reverse(),
            final (self).field_names == old(self).field_names,
    {
        let ghost orig = self.nodes@;
        let mut rev: Vec<PrismaRow> = Vec::new();
        proof {
            assert(rev@ =~= orig.skip(self.nodes@.len() as int).reverse());
        }
        while self.nodes.len() > 0
            invariant
                self.field_names == old(self).field_names,
                rev@.len() + self.nodes@.len() == orig.len(),
                self.nodes@ == orig.take(self.nodes@.len() as int),
                rev@ == orig.skip(self.nodes@.len() as int).reverse(),
            decreases self.nodes@.len(),
        {
            match self.nodes.pop() {
                Option::Some(row) => {
                    rev.push(row);
                },
                Option::None => {},
            }
            proof {
                assert(self.nodes@ =~= orig.take(self.nodes@.len() as int));
                assert(rev@ =~= orig.skip(self.nodes@.len() as int).reverse());
            }
        }
        proof {
            assert(orig.skip(0).reverse() =~= orig.reverse());
        }
        self.nodes = rev;
    }

    /// Drops `n` records from the tail.
    pub fn drop_right(&mut self, n: usize)
        requires
            n <= old(self).nodes@.len(),
        ensures
            final (self).nodes@ == old(self).nodes@.take(old(self).nodes@.len() - n),
            final (self).field_names == old(self).field_names,
    {
        let keep = self.nodes.len() - n;
        self.nodes.truncate(keep);
    }

    /// Drops `n` records from the head.
    pub fn drop_left(&mut self, n: usize)
        requires
            n <= old(self).nodes@.len(),
        ensures
            final (self).nodes@ == old(self).nodes@.skip(n as int),
            final (self).field_names == old(self).field_names,
    {
        let tail = self.nodes.split_off(n);
        self.nodes = tail;
    }
}

/// The record sequence pagination trimming leaves behind: when a `last`
/// bound was requested the fetched records are reversed first; then
/// exactly one over-fetched record is dropped — from the tail when a
/// `first` bound was exceeded, from the head when a `last` bound was —
/// and nothing is dropped when neither bound was exceeded.
pub open spec fn spec_trimmed_records(nodes: Seq<PrismaRow>, args: QueryArguments) -> Seq<
    PrismaRow,
> {
    let base = if args.last is Some {
        nodes.reverse()
    } else {
        nodes
    };
    if args.first is Some && base.len() > args.first.unwrap() {
        base.take(base.len() - 1)
    } else if args.last is Some && base.len() > args.last.unwrap() {
        base.skip(1)
    } else {
        base
    }
}

/// After trimming, no record is invented, and when the query stage
/// over-fetched by at most one record — as it does to detect further
/// pages — the record count respects the requested bound.
pub proof fn lemma_trimmed_within_bounds(nodes: Seq<PrismaRow>, args: QueryArguments)
    requires
        !(args.first is Some && args.last is Some),
    ensures
        spec_trimmed_records(nodes, args).len() <= nodes.len(),
        args.first is Some && nodes.len() <= args.first.unwrap() + 1 ==> spec_trimmed_records(
            nodes,
            args,
        ).len() <= args.first.unwrap(),
        args.last is Some && nodes.len() <= args.last.unwrap() + 1 ==> spec_trimmed_records(
            nodes,
            args,
        ).len() <= args.last.unwrap(),
{
}

impl ManyReadQueryResults {
    /// Returns the implicitly added fields.
    pub fn get_implicit_fields(&self) -> (r: Vec<&SelectedScalarField>)
        ensures
            r@.map_values(|f: &SelectedScalarField| *f) == self.selected_fields.scalar@.filter(
                |f: SelectedScalarField| is_implicit_field(f),
            ),
    {
        implicit_fields_of(&self.selected_fields)
    }

    /// Removes the excess records the query stage over-fetched, based on
    /// the query arguments. A query carrying both bounds at once is
    /// invalid and must have been rejected upstream.
    pub fn remove_excess_records(&mut self)
        requires
            !(old(self).query_arguments.first is Some && old(self).query_arguments.last is Some),
        ensures
            final (self).scalars.nodes@ == spec_trimmed_records(
                old(self).scalars.nodes@,
                old(self).query_arguments,
            ),
            final (self).scalars.field_names == old(self).scalars.field_names,
            final (self).name == old(self).name,
            final (self).fields == old(self).fields,
            final (self).nested == old(self).nested,
            final (self).lists == old(self).lists,
            final (self).query_arguments == old(self).query_arguments,
            final (self).selected_fields == old(self).selected_fields,
    {
        let reversed = self.query_arguments.last.is_some();
        if reversed {
            self.scalars.reverse();
        }
        match (self.query_arguments.first, self.query_arguments.last) {
            (Option::Some(f), _) => {
                if self.scalars.nodes.len() > f {
                    self.scalars.drop_right(1);
                }
            },
            (_, Option::Some(l)) => {
                if self.scalars.nodes.len() > l {
                    self.scalars.drop_left(1);
                }
            },
            _ => (),
        }
    }

    /// Gets all identifiers from the record set, in record order, with an
    /// all-or-nothing outcome: when any record's identifier is missing or
    /// malformed, no list is returned at all.
    pub fn find_ids(&self) -> (r: Option<Vec<&GraphqlId>>)
        ensures
            !has_id_field(self.scalars.field_names@) ==> r is None,
            forall|p: int| #[trigger]
                id_field_at(self.scalars.field_names@, p) ==> {
                    &&& (r is Some <==> (forall|k: int|
                        0 <= k < self.scalars.nodes@.len() ==> spec_id_of_row(
                            #[trigger] self.scalars.nodes@[k].values@,
                            p,
                        ) is Some))
                    &&& r matches Some(ids) ==> ids@.len() == self.scalars.nodes@.len() && (forall|
                        k: int,
                    |
                        0 <= k < ids@.len() ==> Some(*ids@[k]) == spec_id_of_row(
                            (#[trigger] self.scalars.nodes@[k]).values@,
                            p,
                        ))
                },
    {
        let pos = match position_of_id(&self.scalars.field_names) {
            Option::Some(p) => p,
            Option::None => {
                return None;
            },
        };
        let mut out: Vec<&GraphqlId> = Vec::new();
        let mut idx: usize = 0;
        while idx < self.scalars.nodes.len()
            invariant
                id_field_at(self.scalars.field_names@, pos as int),
                idx <= self.scalars.nodes@.len(),
                out@.len() == idx,
                forall|k: int|
                    0 <= k < idx ==> Some(*out@[k]) == spec_id_of_row(
                        (#[trigger] self.scalars.nodes@[k]).values@,
                        pos as int,
                    ),
            decreases self.scalars.nodes@.len() - idx,
        {
            let row = &self.scalars.nodes[idx];
            let failed = if pos >= row.values.len() {
                true
            } else {
                match &row.values[pos] {
                    PrismaValue::GraphqlId(id) => {
                        out.push(id);
                        false
                    },
                    _ => true,
                }
            };
            if failed {
                proof {
                    assert(spec_id_of_row(self.scalars.nodes@[idx as int].values@, pos as int)
                        is None);
                    assert forall|p: int| #[trigger]
                        id_field_at(self.scalars.field_names@, p) implies p
                        == pos as int by {
                        lemma_id_field_at_unique(self.scalars.field_names@, p, pos as int);
                    }
                }
                return None;
            }
            idx = idx + 1;
        }
        proof {
            assert forall|p: int| #[trigger] id_field_at(self.scalars.field_names@, p) implies p
                == pos as int by {
                lemma_id_field_at_unique(self.scalars.field_names@, p, pos as int);
            }
        }
        Some(out)
    }
}

} // verus!
