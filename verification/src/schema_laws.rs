//! What holds of every schema tree: it has one node for each schema name of
//! the listing, and its nodes hold each table that has a schema once.

use crate::grouping::{has_schema, with_schema};
use crate::order::{lemma_schema_less_total, name_less};
use crate::schema_tree::is_schema_tree;
use crate::tree::{SchemaView, TableView};
use vstd::prelude::*;

verus! {

/// The schema names that occur in a listing.
pub open spec fn schema_names(tables: Seq<TableView>) -> Set<Seq<char>> {
    Set::new(
        |name: Seq<char>|
            exists|k: int| 0 <= k < tables.len() && (#[trigger] tables[k]).schema == Some(name),
    )
}

/// The names of the nodes, in order.
pub open spec fn node_names(nodes: Seq<SchemaView>) -> Seq<Seq<char>> {
    nodes.map_values(|node: SchemaView| node.name)
}

/// The number of tables in all nodes together.
pub open spec fn table_count(nodes: Seq<SchemaView>) -> nat
    decreases nodes.len(),
{
    if nodes.len() == 0 {
        0
    } else {
        table_count(nodes.drop_last()) + nodes.last().tables.len()
    }
}

/// The test for a table having a schema.
pub open spec fn has_any_schema() -> spec_fn(TableView) -> bool {
    |table: TableView| table.schema is Some
}

/// The tables of a listing that have a schema, in the order of the listing.
pub open spec fn with_any_schema(tables: Seq<TableView>) -> Seq<TableView> {
    tables.filter(has_any_schema())
}

/// The number of tables of the listing whose schema is one of `names`, each
/// table counted once for each place its schema has among the names.
spec fn count_named(names: Seq<Seq<char>>, tables: Seq<TableView>) -> nat
    decreases names.len(),
{
    if names.len() == 0 {
        0
    } else {
        count_named(names.drop_last(), tables) + with_schema(tables, Some(names.last())).len()
    }
}

/// The empty listing has no table of any name.
proof fn lemma_count_named_empty(names: Seq<Seq<char>>)
    ensures
        count_named(names, Seq::empty()) == 0,
    decreases names.len(),
{
    if names.len() > 0 {
        lemma_count_named_empty(names.drop_last());
        reveal(Seq::filter);
    }
}

/// One more table is one more table of its schema and of no other.
proof fn lemma_with_schema_push(tables: Seq<TableView>, table: TableView, key: Option<Seq<char>>)
    ensures
        with_schema(tables.push(table), key) == if table.schema == key {
            with_schema(tables, key).push(table)
        } else {
            with_schema(tables, key)
        },
{
    reveal(Seq::filter);
    assert(tables.push(table).drop_last() =~= tables);
}

/// One more table is counted once if its schema is among the names, which
/// are all different, and not at all if it is not.
proof fn lemma_count_named_push(names: Seq<Seq<char>>, tables: Seq<TableView>, table: TableView)
    requires
        names.no_duplicates(),
    ensures
        count_named(names, tables.push(table)) == count_named(names, tables) + if table.schema
            is Some && names.contains(table.schema->0) {
            1nat
        } else {
            0nat
        },
    decreases names.len(),
{
    if names.len() > 0 {
        let front = names.drop_last();
        let last = names.last();
        assert forall|i: int, j: int| 0 <= i < j < front.len() implies front[i] != front[j] by {
            assert(front[i] == names[i]);
            assert(front[j] == names[j]);
        }
        lemma_count_named_push(front, tables, table);
        lemma_with_schema_push(tables, table, Some(last));
        if table.schema == Some(last) {
            assert(names[names.len() - 1] == last);
            assert(names.contains(last));
            if front.contains(last) {
                let i = choose|i: int| 0 <= i < front.len() && front[i] == last;
                assert(names[i] == last);
                assert(false);
            }
        } else if table.schema is Some {
            let name = table.schema->0;
            if names.contains(name) {
                let i = choose|i: int| 0 <= i < names.len() && names[i] == name;
                assert(front[i] == name);
                assert(front.contains(name));
            }
            if front.contains(name) {
                let i = choose|i: int| 0 <= i < front.len() && front[i] == name;
                assert(names[i] == name);
                assert(names.contains(name));
            }
        }
    } else {
        assert(!names.contains(table.schema->0));
    }
}

/// Names that are all different and hold every schema of the listing count
/// each table that has a schema once.
proof fn lemma_count_named_covers(names: Seq<Seq<char>>, tables: Seq<TableView>)
    requires
        names.no_duplicates(),
        forall|k: int|
            0 <= k < tables.len() && (#[trigger] tables[k]).schema is Some ==> names.contains(
                tables[k].schema->0,
            ),
    ensures
        count_named(names, tables) == with_any_schema(tables).len(),
    decreases tables.len(),
{
    if tables.len() == 0 {
        assert(tables =~= Seq::empty());
        lemma_count_named_empty(names);
        reveal(Seq::filter);
    } else {
        let front = tables.drop_last();
        let last = tables.last();
        assert(front.push(last) =~= tables);
        assert forall|k: int|
            0 <= k < front.len() && (#[trigger] front[k]).schema is Some implies names.contains(
            front[k].schema->0,
        ) by {
            assert(front[k] == tables[k]);
        }
        lemma_count_named_covers(names, front);
        lemma_count_named_push(names, front, last);
        assert(tables[tables.len() - 1] == last);
        assert(with_any_schema(tables).len() == with_any_schema(front).len() + if last.schema
            is Some {
            1nat
        } else {
            0nat
        }) by {
            reveal(Seq::filter);
        }
    }
}

/// Nodes that each hold the tables of their schema hold as many tables as
/// their names count.
proof fn lemma_table_count_is_count_named(
    nodes: Seq<SchemaView>,
    tables: Seq<TableView>,
)
    requires
        forall|i: int|
            0 <= i < nodes.len() ==> (#[trigger] nodes[i]).tables == with_schema(
                tables,
                Some(nodes[i].name),
            ),
    ensures
        table_count(nodes) == count_named(node_names(nodes), tables),
    decreases nodes.len(),
{
    if nodes.len() > 0 {
        let front = nodes.drop_last();
        assert forall|i: int| 0 <= i < front.len() implies (#[trigger] front[i]).tables
            == with_schema(tables, Some(front[i].name)) by {
            assert(front[i] == nodes[i]);
        }
        lemma_table_count_is_count_named(front, tables);
        assert(node_names(nodes).drop_last() =~= node_names(front));
        assert(node_names(nodes).last() == nodes.last().name);
        assert(nodes[nodes.len() - 1] == nodes.last());
    }
}

/// No two nodes of a schema tree have the same name.
pub proof fn lemma_node_names_are_distinct(nodes: Seq<SchemaView>, tables: Seq<TableView>)
    requires
        is_schema_tree(nodes, tables),
    ensures
        node_names(nodes).no_duplicates(),
{
    let names = node_names(nodes);
    assert forall|i: int, j: int|
        0 <= i < names.len() && 0 <= j < names.len() && i != j implies names[i] != names[j] by {
        lemma_schema_less_total(Some(nodes[i].name), Some(nodes[j].name));
        if i < j {
            assert(name_less(nodes[j].name, nodes[i].name));
        } else {
            assert(name_less(nodes[i].name, nodes[j].name));
        }
    }
}

/// Of two nodes of a schema tree, the one whose name comes later in the
/// order of names stands first.
pub proof fn lemma_later_name_stands_first(
    nodes: Seq<SchemaView>,
    tables: Seq<TableView>,
    i: int,
    j: int,
)
    requires
        is_schema_tree(nodes, tables),
        0 <= i < nodes.len(),
        0 <= j < nodes.len(),
        name_less(nodes[j].name, nodes[i].name),
    ensures
        i < j,
{
    lemma_schema_less_total(Some(nodes[i].name), Some(nodes[j].name));
    if j < i {
        assert(name_less(nodes[i].name, nodes[j].name));
    }
}

/// A schema tree has as many nodes as its listing has schema names.
pub proof fn lemma_one_node_for_each_schema(nodes: Seq<SchemaView>, tables: Seq<TableView>)
    requires
        is_schema_tree(nodes, tables),
    ensures
        schema_names(tables).finite(),
        nodes.len() == schema_names(tables).len(),
        schema_names(tables) == node_names(nodes).to_set(),
{
    let names = node_names(nodes);
    lemma_node_names_are_distinct(nodes, tables);
    assert forall|name: Seq<char>| names.to_set().contains(name) implies schema_names(
        tables,
    ).contains(name) by {
        let i = choose|i: int| 0 <= i < names.len() && names[i] == name;
        assert(nodes[i].tables.len() > 0);
        let kept = with_schema(tables, Some(name));
        tables.lemma_filter_pred(has_schema(Some(name)), 0);
        assert(kept.contains(kept[0]));
        tables.lemma_filter_contains_rev(has_schema(Some(name)), kept[0]);
        let k = choose|k: int| 0 <= k < tables.len() && tables[k] == kept[0];
        assert(tables[k].schema == Some(name));
    }
    assert forall|name: Seq<char>| schema_names(tables).contains(name) implies names.to_set()
        .contains(name) by {
        let k = choose|k: int| 0 <= k < tables.len() && (#[trigger] tables[k]).schema == Some(name);
        let i = choose|i: int|
            0 <= i < nodes.len() && (#[trigger] nodes[i]).name == tables[k].schema->0;
        assert(names[i] == name);
    }
    assert(schema_names(tables) =~= names.to_set());
    names.unique_seq_to_set();
    vstd::seq_lib::seq_to_set_is_finite(names);
}

/// The nodes of a schema tree hold as many tables as the listing has tables
/// with a schema: none is lost and none is counted twice.
pub proof fn lemma_tree_keeps_each_table(nodes: Seq<SchemaView>, tables: Seq<TableView>)
    requires
        is_schema_tree(nodes, tables),
    ensures
        table_count(nodes) == with_any_schema(tables).len(),
{
    let names = node_names(nodes);
    lemma_node_names_are_distinct(nodes, tables);
    lemma_table_count_is_count_named(nodes, tables);
    assert forall|k: int|
        0 <= k < tables.len() && (#[trigger] tables[k]).schema is Some implies names.contains(
        tables[k].schema->0,
    ) by {
        let i = choose|i: int|
            0 <= i < nodes.len() && (#[trigger] nodes[i]).name == tables[k].schema->0;
        assert(names[i] == tables[k].schema->0);
    }
    lemma_count_named_covers(names, tables);
}

} // verus!
