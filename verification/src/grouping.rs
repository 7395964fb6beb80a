//! Sorting a table listing by schema and cutting it into runs, both done by
//! `itertools`.

use crate::order::{lemma_schema_less_total, schema_less, schema_precedes};
use crate::tree::{optional_text, table_views, Table, TableView};
use itertools::Itertools;
use std::cmp::Ordering;
use vstd::prelude::*;

verus! {

/// The tables of `tables` whose schema is `key`, in the order they have there.
pub open spec fn with_schema(tables: Seq<TableView>, key: Option<Seq<char>>) -> Seq<TableView> {
    tables.filter(has_schema(key))
}

/// The test for a table's schema being `key`.
pub open spec fn has_schema(key: Option<Seq<char>>) -> spec_fn(TableView) -> bool {
    |table: TableView| table.schema == key
}

/// Whether no table of `tables` has a schema that comes before the schema of
/// a later one: named schemas from last to first, tables without one at the
/// end.
pub open spec fn is_descending(tables: Seq<TableView>) -> bool {
    forall|i: int, j: int|
        #![trigger tables[i], tables[j]]
        0 <= i < j < tables.len() ==> !schema_less(tables[i].schema, tables[j].schema)
}

/// Whether `sorted` is `tables` put in descending order of schema, the
/// tables of one schema left in the order they had.
pub open spec fn is_stable_sort(sorted: Seq<TableView>, tables: Seq<TableView>) -> bool {
    &&& sorted.len() == tables.len()
    &&& is_descending(sorted)
    &&& forall|key: Option<Seq<char>>| #[trigger]
        with_schema(sorted, key) == with_schema(tables, key)
}

/// Neighbouring tables that share one schema.
pub struct Run {
    pub schema: Option<String>,
    pub tables: Vec<Table>,
}

/// What a [`Run`] holds, as plain values.
pub struct RunView {
    pub schema: Option<Seq<char>>,
    pub tables: Seq<TableView>,
}

impl View for Run {
    type V = RunView;

    open spec fn view(&self) -> RunView {
        RunView { schema: optional_text(self.schema), tables: table_views(self.tables@) }
    }
}

/// The views of a sequence of runs, in order.
pub open spec fn run_views(runs: Seq<Run>) -> Seq<RunView> {
    runs.map_values(|run: Run| run@)
}

/// The tables of all runs, one run after the other.
pub open spec fn concat(runs: Seq<RunView>) -> Seq<TableView>
    decreases runs.len(),
{
    if runs.len() == 0 {
        Seq::empty()
    } else {
        concat(runs.drop_last()) + runs.last().tables
    }
}

/// Whether a run is not empty and each of its tables has the run's schema.
pub open spec fn is_uniform(run: RunView) -> bool {
    &&& run.tables.len() > 0
    &&& forall|i: int| 0 <= i < run.tables.len() ==> (#[trigger] run.tables[i]).schema == run.schema
}

/// Whether each run is uniform and any two neighbouring runs differ in
/// schema, so that no run can be made longer.
pub open spec fn are_maximal(runs: Seq<RunView>) -> bool {
    &&& forall|r: int| 0 <= r < runs.len() ==> is_uniform(#[trigger] runs[r])
    &&& forall|r: int, s: int|
        #![trigger runs[r], runs[s]]
        0 <= r < runs.len() && s == r + 1 && s < runs.len() ==> runs[r].schema != runs[s].schema
}

/// Whether `runs` cuts `tables` into its maximal runs of equal schema: the
/// runs give `tables` back when put together, and none can be made longer.
pub open spec fn is_runs_of(runs: Seq<RunView>, tables: Seq<TableView>) -> bool {
    &&& concat(runs) == tables
    &&& are_maximal(runs)
}

/// How two optional schema names compare.
pub fn schema_ordering(a: &Option<String>, b: &Option<String>) -> (o: Ordering)
    ensures
        (o == Ordering::Less) == schema_less(optional_text(*a), optional_text(*b)),
        (o == Ordering::Greater) == schema_less(optional_text(*b), optional_text(*a)),
        (o == Ordering::Equal) == (optional_text(*a) == optional_text(*b)),
{
    proof {
        lemma_schema_less_total(optional_text(*a), optional_text(*b));
    }
    if schema_precedes(a, b) {
        Ordering::Less
    } else if schema_precedes(b, a) {
        Ordering::Greater
    } else {
        Ordering::Equal
    }
}

/// `Itertools::sorted_by` on the tables, with [`schema_ordering`] turned
/// round as the comparison. The call collects the items and sorts them with
/// the stable `slice::sort_by`: what comes back is the same tables in
/// descending order of schema, and tables of one schema keep their order.
#[verifier::external_body]
pub(crate) fn sort_by_schema(tables: &Vec<Table>) -> (sorted: Vec<Table>)
    ensures
        is_stable_sort(table_views(sorted@), table_views(tables@)),
{
    tables.iter().sorted_by(|a, b| schema_ordering(&b.schema, &a.schema)).cloned().collect()
}

/// `Itertools::group_by` on the tables, keyed by schema. Neighbours with
/// equal keys fall into one group; each group comes back as a run with its
/// key, in the order of the input.
#[verifier::external_body]
pub(crate) fn schema_runs(tables: &Vec<Table>) -> (runs: Vec<Run>)
    ensures
        is_runs_of(run_views(runs@), table_views(tables@)),
{
    let groups = tables.iter().group_by(|table| table.schema.as_ref());
    groups
        .into_iter()
        .map(|(key, group)| Run { schema: key.cloned(), tables: group.cloned().collect() })
        .collect()
}

} // verus!
