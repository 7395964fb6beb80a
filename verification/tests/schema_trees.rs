use mssql_adapter::order::{name_precedes, schema_precedes};
use mssql_adapter::schema_tree::{group_by_schema, schema_tree};
use mssql_adapter::tree::{Child, Database, Schema, Table};

fn table(name: &str, schema: Option<&str>) -> Table {
    Table::new(name.to_string(), schema.map(|s| s.to_string()))
}

fn names(schema: &Schema) -> Vec<String> {
    schema.tables.iter().map(|t| t.name.clone()).collect()
}

#[test]
fn one_node_for_each_schema_name() {
    let tables = vec![
        table("orders", Some("sales")),
        table("users", Some("dbo")),
        table("loose", None),
        table("items", Some("sales")),
        table("logs", Some("audit")),
        table("roles", Some("dbo")),
        table("stray", None),
    ];
    let nodes = group_by_schema(&tables);
    assert_eq!(nodes.len(), 3);
    assert_eq!(nodes[0].name, "sales");
    assert_eq!(names(&nodes[0]), vec!["orders", "items"]);
    assert_eq!(nodes[1].name, "dbo");
    assert_eq!(names(&nodes[1]), vec!["users", "roles"]);
    assert_eq!(nodes[2].name, "audit");
    assert_eq!(names(&nodes[2]), vec!["logs"]);
    let kept: usize = nodes.iter().map(|n| n.tables.len()).sum();
    assert_eq!(kept, 5);
}

#[test]
fn nodes_come_from_last_name_to_first() {
    let tables = vec![
        table("a", Some("b")),
        table("b", Some("a")),
        table("c", Some("c")),
        table("d", Some("B")),
        table("e", Some("ab")),
        table("f", Some("é")),
    ];
    let nodes = group_by_schema(&tables);
    let order: Vec<&str> = nodes.iter().map(|n| n.name.as_str()).collect();
    assert_eq!(order, vec!["é", "c", "b", "ab", "a", "B"]);
    for pair in nodes.windows(2) {
        assert!(pair[1].name < pair[0].name);
    }
}

#[test]
fn tables_keep_their_fields_and_schema() {
    let mut first = table("t", Some("s"));
    first.engine = Some("heap".to_string());
    first.create_time = Some(10);
    first.update_time = Some(20);
    let nodes = group_by_schema(&vec![first]);
    assert_eq!(nodes.len(), 1);
    let kept = &nodes[0].tables[0];
    assert_eq!(kept.name, "t");
    assert_eq!(kept.schema.as_deref(), Some("s"));
    assert_eq!(kept.engine.as_deref(), Some("heap"));
    assert_eq!(kept.create_time, Some(10));
    assert_eq!(kept.update_time, Some(20));
}

#[test]
fn listing_without_schemas_gives_no_node() {
    assert!(group_by_schema(&Vec::new()).is_empty());
    let tables = vec![table("a", None), table("b", None)];
    assert!(group_by_schema(&tables).is_empty());
    assert!(schema_tree(&tables).is_empty());
}

#[test]
fn empty_schema_name_is_a_name() {
    let tables = vec![table("a", Some("")), table("b", None), table("c", Some("x"))];
    let nodes = group_by_schema(&tables);
    assert_eq!(nodes.len(), 2);
    assert_eq!(nodes[0].name, "x");
    assert_eq!(nodes[1].name, "");
    assert_eq!(names(&nodes[1]), vec!["a"]);
}

#[test]
fn tree_holds_the_schema_nodes() {
    let tables = vec![table("a", Some("one")), table("b", Some("two")), table("c", Some("one"))];
    let children = schema_tree(&tables);
    assert_eq!(children.len(), 2);
    match &children[0] {
        Child::Schema(schema) => {
            assert_eq!(schema.name, "two");
            assert_eq!(names(schema), vec!["b"]);
        }
        Child::Table(_) => panic!("a bare table"),
    }
    match &children[1] {
        Child::Schema(schema) => {
            assert_eq!(schema.name, "one");
            assert_eq!(names(schema), vec!["a", "c"]);
        }
        Child::Table(_) => panic!("a bare table"),
    }
}

#[test]
fn database_keeps_name_and_children() {
    let children = schema_tree(&vec![table("a", Some("s"))]);
    let database = Database::new("master".to_string(), children);
    assert_eq!(database.name, "master");
    assert_eq!(database.children.len(), 1);
    let bare = Child::from_table(table("t", None));
    assert!(matches!(bare, Child::Table(_)));
}

#[test]
fn names_are_ordered_by_their_bytes() {
    let samples = ["", "a", "A", "ab", "b", "é", "z", "zz", "日本", "\u{10000}", "\u{ffff}"];
    for x in samples {
        for y in samples {
            assert_eq!(name_precedes(x, y), x < y, "{:?} {:?}", x, y);
        }
    }
}

#[test]
fn table_without_schema_comes_before_named_ones() {
    let none: Option<String> = None;
    let empty = Some(String::new());
    let a = Some("a".to_string());
    let b = Some("b".to_string());
    assert!(schema_precedes(&none, &empty));
    assert!(schema_precedes(&none, &a));
    assert!(!schema_precedes(&none, &none));
    assert!(!schema_precedes(&a, &none));
    assert!(schema_precedes(&a, &b));
    assert!(!schema_precedes(&b, &a));
    assert!(!schema_precedes(&a, &a));
    for x in [&none, &empty, &a, &b] {
        for y in [&none, &empty, &a, &b] {
            assert_eq!(schema_precedes(x, y), x < y);
        }
    }
}
