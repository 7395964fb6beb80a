//! The schema tree of a table listing: one node for each schema name, with
//! the tables that carry it.

use crate::grouping::{
    are_maximal, concat, has_schema, is_descending, is_uniform, run_views, schema_runs,
    sort_by_schema, with_schema, RunView,
};
use crate::order::{lemma_schema_less_total, name_less, schema_less};
use crate::tree::{child_views, table_views, Child, ChildView, Schema, SchemaView, Table, TableView};
use vstd::prelude::*;

verus! {

/// The views of a sequence of schema nodes, in order.
pub open spec fn schema_views(nodes: Seq<Schema>) -> Seq<SchemaView> {
    nodes.map_values(|node: Schema| node@)
}

/// Whether `nodes` is the schema tree of the listing `tables`:
/// the names of the nodes go strictly from last to first, so that no name
/// occurs twice; each node holds the tables of its schema, all of them and
/// in the order of the listing, and at least one; and each schema name of
/// the listing has its node. Tables without a schema are in no node.
pub open spec fn is_schema_tree(nodes: Seq<SchemaView>, tables: Seq<TableView>) -> bool {
    &&& forall|i: int, j: int|
        #![trigger nodes[i], nodes[j]]
        0 <= i < j < nodes.len() ==> name_less(nodes[j].name, nodes[i].name)
    &&& forall|i: int|
        0 <= i < nodes.len() ==> {
            &&& (#[trigger] nodes[i]).tables.len() > 0
            &&& nodes[i].tables == with_schema(tables, Some(nodes[i].name))
        }
    &&& forall|k: int|
        0 <= k < tables.len() && (#[trigger] tables[k]).schema is Some ==> exists|i: int|
            0 <= i < nodes.len() && (#[trigger] nodes[i]).name == tables[k].schema->0
}

/// Of tables that all have one schema, a schema selects all or none.
proof fn lemma_with_schema_uniform(
    tables: Seq<TableView>,
    schema: Option<Seq<char>>,
    key: Option<Seq<char>>,
)
    requires
        forall|i: int| 0 <= i < tables.len() ==> (#[trigger] tables[i]).schema == schema,
    ensures
        with_schema(tables, key) == if key == schema {
            tables
        } else {
            Seq::empty()
        },
    decreases tables.len(),
{
    reveal(Seq::filter);
    if tables.len() > 0 {
        let front = tables.drop_last();
        assert forall|i: int| 0 <= i < front.len() implies (#[trigger] front[i]).schema
            == schema by {
            assert(front[i] == tables[i]);
        }
        lemma_with_schema_uniform(front, schema, key);
        assert(tables.last() == tables[tables.len() - 1]);
        if key == schema {
            assert(front.push(tables.last()) =~= tables);
        }
    } else {
        assert(tables =~= Seq::empty());
    }
}

/// A schema that selects a table is the schema of a table of the listing.
proof fn lemma_with_schema_witness(tables: Seq<TableView>, key: Option<Seq<char>>) -> (p: int)
    requires
        with_schema(tables, key).len() > 0,
    ensures
        0 <= p < tables.len(),
        tables[p].schema == key,
{
    let kept = with_schema(tables, key);
    let first = kept[0];
    tables.lemma_filter_pred(has_schema(key), 0);
    assert(kept.contains(first));
    tables.lemma_filter_contains_rev(has_schema(key), first);
    choose|p: int| 0 <= p < tables.len() && tables[p] == first
}

/// Both parts of a descending listing are descending, and no table of the
/// first part has a schema that comes before one of the second part.
proof fn lemma_descending_split(x: Seq<TableView>, y: Seq<TableView>)
    requires
        is_descending(x + y),
    ensures
        is_descending(x),
        forall|i: int, j: int|
            #![trigger x[i], y[j]]
            0 <= i < x.len() && 0 <= j < y.len() ==> !schema_less(x[i].schema, y[j].schema),
{
    let z = x + y;
    assert forall|i: int, j: int| #![trigger x[i], x[j]] 0 <= i < j < x.len() implies !schema_less(
        x[i].schema,
        x[j].schema,
    ) by {
        assert(z[i] == x[i]);
        assert(z[j] == x[j]);
    }
    assert forall|i: int, j: int|
        #![trigger x[i], y[j]]
        0 <= i < x.len() && 0 <= j < y.len() implies !schema_less(x[i].schema, y[j].schema) by {
        assert(z[i] == x[i]);
        assert(z[x.len() + j] == y[j]);
    }
}

/// Whether the schemas of the runs go strictly from last to first.
spec fn are_strictly_descending(runs: Seq<RunView>) -> bool {
    forall|i: int, j: int|
        #![trigger runs[i], runs[j]]
        0 <= i < j < runs.len() ==> schema_less(runs[j].schema, runs[i].schema)
}

/// Whether each run holds all tables of its schema.
spec fn are_complete(runs: Seq<RunView>) -> bool {
    forall|i: int|
        0 <= i < runs.len() ==> with_schema(concat(runs), (#[trigger] runs[i]).schema)
            == runs[i].tables
}

/// Whether `key` is the schema of one of the runs.
spec fn has_run(runs: Seq<RunView>, key: Option<Seq<char>>) -> bool {
    exists|i: int| 0 <= i < runs.len() && (#[trigger] runs[i]).schema == key
}

/// Whether a schema without a run has no table.
spec fn are_exhaustive(runs: Seq<RunView>) -> bool {
    forall|key: Option<Seq<char>>|
        !has_run(runs, key) ==> #[trigger] with_schema(concat(runs), key) == Seq::<
            TableView,
        >::empty()
}

/// Maximal runs without the last of them are maximal.
proof fn lemma_front_is_maximal(runs: Seq<RunView>)
    requires
        runs.len() > 0,
        are_maximal(runs),
    ensures
        are_maximal(runs.drop_last()),
{
    let front = runs.drop_last();
    assert forall|r: int| 0 <= r < front.len() implies is_uniform(#[trigger] front[r]) by {
        assert(front[r] == runs[r]);
    }
    assert forall|r: int, s: int|
        #![trigger front[r], front[s]]
        0 <= r < front.len() && s == r + 1 && s < front.len() implies front[r].schema
        != front[s].schema by {
        assert(front[r] == runs[r]);
        assert(front[s] == runs[s]);
    }
}

/// A schema that has a table in `x` does not come before the schema of a
/// table in `y`, where `x + y` is in descending order.
proof fn lemma_member_not_before(
    x: Seq<TableView>,
    y: Seq<TableView>,
    key: Option<Seq<char>>,
)
    requires
        is_descending(x + y),
        with_schema(x, key).len() > 0,
        y.len() > 0,
    ensures
        !schema_less(key, y[0].schema),
{
    let p = lemma_with_schema_witness(x, key);
    let z = x + y;
    let q = x.len() as int;
    assert(z[p] == x[p]);
    assert(z[q] == y[0]);
    assert(!schema_less(z[p].schema, z[q].schema));
}

/// The schema of the last run comes strictly before that of every other run.
proof fn lemma_last_run_is_least(runs: Seq<RunView>, i: int)
    requires
        runs.len() > 0,
        is_descending(concat(runs)),
        are_maximal(runs),
        are_strictly_descending(runs.drop_last()),
        are_complete(runs.drop_last()),
        0 <= i < runs.len() - 1,
    ensures
        schema_less(runs.last().schema, runs[i].schema),
{
    let front = runs.drop_last();
    let last = runs.last();
    let m = front.len() as int;
    let s1 = concat(front);
    let l = last.tables;
    assert(runs[m] == last);
    assert(is_uniform(runs[m]));
    assert(l[0].schema == last.schema);
    assert(front[i] == runs[i]);
    assert(is_uniform(runs[i]));
    assert(with_schema(s1, front[i].schema) == front[i].tables);
    lemma_member_not_before(s1, l, runs[i].schema);
    lemma_schema_less_total(runs[i].schema, last.schema);
    if runs[i].schema == last.schema {
        if i == m - 1 {
            assert(runs[i].schema != runs[m].schema);
        } else {
            assert(front[m - 1] == runs[m - 1]);
            assert(is_uniform(runs[m - 1]));
            assert(with_schema(s1, front[m - 1].schema) == front[m - 1].tables);
            lemma_member_not_before(s1, l, runs[m - 1].schema);
            assert(schema_less(front[m - 1].schema, front[i].schema));
        }
    }
}

/// The tables of schema `key` in the runs are those in the front runs, then
/// those of the last run if `key` is its schema.
proof fn lemma_with_schema_last(runs: Seq<RunView>, key: Option<Seq<char>>)
    requires
        runs.len() > 0,
        are_maximal(runs),
    ensures
        with_schema(concat(runs), key) == with_schema(concat(runs.drop_last()), key) + (if key
            == runs.last().schema {
            runs.last().tables
        } else {
            Seq::empty()
        }),
{
    let last = runs.last();
    assert(runs[runs.len() - 1] == last);
    assert(is_uniform(runs[runs.len() - 1]));
    Seq::filter_distributes_over_add(concat(runs.drop_last()), last.tables, has_schema(key));
    lemma_with_schema_uniform(last.tables, last.schema, key);
}

/// The schemas go strictly from last to first with the last run too.
proof fn lemma_step_strictly_descending(runs: Seq<RunView>)
    requires
        runs.len() > 0,
        is_descending(concat(runs)),
        are_maximal(runs),
        are_strictly_descending(runs.drop_last()),
        are_complete(runs.drop_last()),
    ensures
        are_strictly_descending(runs),
{
    let front = runs.drop_last();
    let m = front.len() as int;
    assert(runs[m] == runs.last());
    assert forall|i: int, j: int|
        #![trigger runs[i], runs[j]]
        0 <= i < j < runs.len() implies schema_less(runs[j].schema, runs[i].schema) by {
        if j < m {
            assert(front[i] == runs[i]);
            assert(front[j] == runs[j]);
        } else {
            lemma_last_run_is_least(runs, i);
        }
    }
}

/// The schema of the last run is the schema of no run before it.
proof fn lemma_last_schema_is_new(runs: Seq<RunView>)
    requires
        runs.len() > 0,
        is_descending(concat(runs)),
        are_maximal(runs),
        are_strictly_descending(runs.drop_last()),
        are_complete(runs.drop_last()),
    ensures
        !has_run(runs.drop_last(), runs.last().schema),
{
    let front = runs.drop_last();
    let key = runs.last().schema;
    if has_run(front, key) {
        let r = choose|r: int| 0 <= r < front.len() && (#[trigger] front[r]).schema == key;
        assert(front[r] == runs[r]);
        lemma_last_run_is_least(runs, r);
        lemma_schema_less_total(key, key);
    }
}

/// A run before the last still holds all tables of its schema when the
/// last run is counted in.
proof fn lemma_step_complete_front(runs: Seq<RunView>, i: int)
    requires
        runs.len() > 0,
        are_maximal(runs),
        0 <= i < runs.len() - 1,
        with_schema(concat(runs.drop_last()), runs[i].schema) == runs[i].tables,
        runs[i].schema != runs.last().schema,
    ensures
        with_schema(concat(runs), runs[i].schema) == runs[i].tables,
{
    let kept = with_schema(concat(runs.drop_last()), runs[i].schema);
    lemma_with_schema_last(runs, runs[i].schema);
    assert(kept + Seq::<TableView>::empty() =~= kept);
}

/// The last run holds all tables of its schema.
proof fn lemma_step_complete_last(runs: Seq<RunView>)
    requires
        runs.len() > 0,
        are_maximal(runs),
        with_schema(concat(runs.drop_last()), runs.last().schema) == Seq::<TableView>::empty(),
    ensures
        with_schema(concat(runs), runs.last().schema) == runs.last().tables,
{
    lemma_with_schema_last(runs, runs.last().schema);
    assert(Seq::<TableView>::empty() + runs.last().tables =~= runs.last().tables);
}

/// A schema without a run has no table, the last run counted in.
proof fn lemma_step_exhaustive(runs: Seq<RunView>, key: Option<Seq<char>>)
    requires
        runs.len() > 0,
        are_maximal(runs),
        are_exhaustive(runs.drop_last()),
        !has_run(runs, key),
    ensures
        with_schema(concat(runs), key) == Seq::<TableView>::empty(),
{
    let front = runs.drop_last();
    let m = front.len() as int;
    assert(runs[m] == runs.last());
    lemma_with_schema_last(runs, key);
    assert(runs[m].schema != key);
    if has_run(front, key) {
        let r = choose|r: int| 0 <= r < front.len() && (#[trigger] front[r]).schema == key;
        assert(front[r] == runs[r]);
    }
    assert(with_schema(concat(front), key) == Seq::<TableView>::empty());
    assert(Seq::<TableView>::empty() + Seq::<TableView>::empty() =~= Seq::<TableView>::empty());
}

/// No schema selects a table of the empty listing.
proof fn lemma_with_schema_empty(key: Option<Seq<char>>)
    ensures
        with_schema(Seq::<TableView>::empty(), key) == Seq::<TableView>::empty(),
{
    reveal(Seq::filter);
}

/// In a listing in descending order each schema has one run: the schemas of
/// the runs go strictly from last to first, the run of a schema holds all
/// tables of that schema, and no other schema has a table.
proof fn lemma_runs_of_descending(runs: Seq<RunView>)
    requires
        is_descending(concat(runs)),
        are_maximal(runs),
    ensures
        are_strictly_descending(runs),
        are_complete(runs),
        are_exhaustive(runs),
    decreases runs.len(),
{
    if runs.len() == 0 {
        assert forall|key: Option<Seq<char>>| #[trigger]
            with_schema(concat(runs), key) == Seq::<TableView>::empty() by {
            lemma_with_schema_empty(key);
        }
    } else {
        let front = runs.drop_last();
        lemma_descending_split(concat(front), runs.last().tables);
        lemma_front_is_maximal(runs);
        lemma_runs_of_descending(front);
        lemma_step_strictly_descending(runs);
        assert forall|i: int| 0 <= i < runs.len() implies with_schema(
            concat(runs),
            (#[trigger] runs[i]).schema,
        ) == runs[i].tables by {
            if i < runs.len() - 1 {
                assert(front[i] == runs[i]);
                lemma_last_run_is_least(runs, i);
                lemma_schema_less_total(runs[i].schema, runs.last().schema);
                lemma_step_complete_front(runs, i);
            } else {
                assert(runs[i] == runs.last());
                lemma_last_schema_is_new(runs);
                lemma_step_complete_last(runs);
            }
        }
        assert forall|key: Option<Seq<char>>| !has_run(runs, key) implies #[trigger]
            with_schema(concat(runs), key) == Seq::<TableView>::empty() by {
            lemma_step_exhaustive(runs, key);
        }
    }
}

/// Whether the nodes are made of the runs at the places `origin`: all runs
/// with a schema, in their order.
spec fn are_nodes_of(
    nodes: Seq<SchemaView>,
    origin: Seq<int>,
    runs: Seq<RunView>,
    done: int,
) -> bool {
    &&& origin.len() == nodes.len()
    &&& forall|k: int|
        0 <= k < origin.len() ==> {
            &&& 0 <= (#[trigger] origin[k]) < done
            &&& runs[origin[k]].schema == Some(nodes[k].name)
            &&& runs[origin[k]].tables == nodes[k].tables
        }
    &&& forall|k: int, n: int|
        #![trigger origin[k], origin[n]]
        0 <= k < n < origin.len() ==> origin[k] < origin[n]
    &&& forall|r: int|
        0 <= r < done && (#[trigger] runs[r]).schema is Some ==> exists|k: int|
            0 <= k < origin.len() && #[trigger] origin[k] == r
}

/// A run without a schema adds no node.
proof fn lemma_nodes_skip(
    nodes: Seq<SchemaView>,
    origin: Seq<int>,
    runs: Seq<RunView>,
    done: int,
)
    requires
        are_nodes_of(nodes, origin, runs, done),
        0 <= done < runs.len(),
        runs[done].schema is None,
    ensures
        are_nodes_of(nodes, origin, runs, done + 1),
{
}

/// A run with a schema adds its node behind the others.
proof fn lemma_nodes_push(
    nodes: Seq<SchemaView>,
    origin: Seq<int>,
    runs: Seq<RunView>,
    done: int,
    node: SchemaView,
)
    requires
        are_nodes_of(nodes, origin, runs, done),
        0 <= done < runs.len(),
        runs[done].schema == Some(node.name),
        runs[done].tables == node.tables,
    ensures
        are_nodes_of(nodes.push(node), origin.push(done), runs, done + 1),
{
    let grown = origin.push(done);
    let more = nodes.push(node);
    assert forall|k: int| 0 <= k < grown.len() implies {
        &&& 0 <= (#[trigger] grown[k]) < done + 1
        &&& runs[grown[k]].schema == Some(more[k].name)
        &&& runs[grown[k]].tables == more[k].tables
    } by {
        if k < origin.len() {
            assert(grown[k] == origin[k]);
            assert(more[k] == nodes[k]);
        }
    }
    assert forall|k: int, n: int|
        #![trigger grown[k], grown[n]]
        0 <= k < n < grown.len() implies grown[k] < grown[n] by {
        assert(grown[k] == origin[k]);
        if n < origin.len() {
            assert(grown[n] == origin[n]);
        }
    }
    assert forall|r: int| 0 <= r < done + 1 && (#[trigger] runs[r]).schema is Some implies exists|
        k: int,
    |
        0 <= k < grown.len() && #[trigger] grown[k] == r by {
        if r < done {
            let k = choose|k: int| 0 <= k < origin.len() && #[trigger] origin[k] == r;
            assert(grown[k] == r);
        } else {
            assert(grown[origin.len() as int] == r);
        }
    }
}

/// The nodes made of all runs with a schema are the schema tree of the
/// listing that the runs were cut from.
proof fn lemma_nodes_are_tree(
    nodes: Seq<SchemaView>,
    origin: Seq<int>,
    runs: Seq<RunView>,
    ordered: Seq<TableView>,
    listing: Seq<TableView>,
)
    requires
        are_nodes_of(nodes, origin, runs, runs.len() as int),
        concat(runs) == ordered,
        are_strictly_descending(runs),
        are_complete(runs),
        are_exhaustive(runs),
        are_maximal(runs),
        forall|key: Option<Seq<char>>| #[trigger]
            with_schema(ordered, key) == with_schema(listing, key),
    ensures
        is_schema_tree(nodes, listing),
{
    assert forall|i: int, j: int|
        #![trigger nodes[i], nodes[j]]
        0 <= i < j < nodes.len() implies name_less(nodes[j].name, nodes[i].name) by {
        assert(origin[i] < origin[j]);
        assert(schema_less(runs[origin[j]].schema, runs[origin[i]].schema));
    }
    assert forall|i: int| 0 <= i < nodes.len() implies {
        &&& (#[trigger] nodes[i]).tables.len() > 0
        &&& nodes[i].tables == with_schema(listing, Some(nodes[i].name))
    } by {
        let r = origin[i];
        assert(is_uniform(runs[r]));
        assert(with_schema(ordered, runs[r].schema) == runs[r].tables);
        assert(with_schema(ordered, runs[r].schema) == with_schema(listing, runs[r].schema));
    }
    assert forall|k: int|
        0 <= k < listing.len() && (#[trigger] listing[k]).schema is Some implies exists|i: int|
        0 <= i < nodes.len() && (#[trigger] nodes[i]).name == listing[k].schema->0 by {
        let key = listing[k].schema;
        listing.lemma_filter_contains(has_schema(key), k);
        assert(with_schema(listing, key).len() > 0);
        assert(with_schema(ordered, key) == with_schema(listing, key));
        assert(has_run(runs, key));
        let r = choose|r: int| 0 <= r < runs.len() && (#[trigger] runs[r]).schema == key;
        let i = choose|i: int| 0 <= i < origin.len() && #[trigger] origin[i] == r;
        assert(nodes[i].name == key->0);
    }
}

/// Groups a table listing by schema: the listing is sorted by schema, the
/// last name first, and each run of one schema becomes a node; tables
/// without a schema are left out.
pub fn group_by_schema(tables: &Vec<Table>) -> (nodes: Vec<Schema>)
    ensures
        is_schema_tree(schema_views(nodes@), table_views(tables@)),
{
    let sorted = sort_by_schema(tables);
    let runs = schema_runs(&sorted);
    let ghost all = runs@;
    let ghost cut = run_views(all);
    proof {
        lemma_runs_of_descending(cut);
    }
    let mut nodes: Vec<Schema> = Vec::new();
    let ghost mut origin: Seq<int> = Seq::empty();
    for run in it: runs
        invariant
            it.seq() == all,
            cut == run_views(all),
            are_nodes_of(schema_views(nodes@), origin, cut, it.index() as int),
    {
        let ghost done = it.index() as int;
        let ghost before = schema_views(nodes@);
        assert(run == all[done]);
        assert(cut[done] == run@);
        match run.schema {
            Some(name) => {
                let node = Schema { name, tables: run.tables };
                proof {
                    lemma_nodes_push(before, origin, cut, done, node@);
                    origin = origin.push(done);
                }
                nodes.push(node);
                assert(schema_views(nodes@) =~= before.push(node@));
            },
            None => {
                proof {
                    lemma_nodes_skip(before, origin, cut, done);
                }
            },
        }
    }
    proof {
        lemma_nodes_are_tree(
            schema_views(nodes@),
            origin,
            cut,
            table_views(sorted@),
            table_views(tables@),
        );
    }
    nodes
}

/// The schemas that the nodes hold, where each node holds one.
pub open spec fn schemas_of(children: Seq<ChildView>) -> Seq<SchemaView> {
    children.map_values(|child: ChildView| child->Schema_0)
}

/// The tree of a table listing: one node for each schema name, in the order
/// and with the tables that [`group_by_schema`] gives.
pub fn schema_tree(tables: &Vec<Table>) -> (children: Vec<Child>)
    ensures
        forall|i: int| 0 <= i < children.len() ==> (#[trigger] children[i]) is Schema,
        is_schema_tree(schemas_of(child_views(children@)), table_views(tables@)),
{
    let nodes = group_by_schema(tables);
    let ghost all = nodes@;
    let mut children: Vec<Child> = Vec::new();
    for node in it: nodes
        invariant
            it.seq() == all,
            children.len() == it.index(),
            forall|i: int| 0 <= i < children.len() ==> (#[trigger] children[i]) is Schema,
            forall|i: int|
                0 <= i < children.len() ==> (#[trigger] children[i])->Schema_0 == all[i],
    {
        children.push(Child::from_schema(node));
    }
    assert(schemas_of(child_views(children@)) =~= schema_views(all));
    children
}

} // verus!
