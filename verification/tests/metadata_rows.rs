use mssql_adapter::metadata::{
    shown, Column, Constraint, ForeignKey, Index, MetadataRow, TableRow,
};

fn some(text: &str) -> Option<String> {
    Some(text.to_string())
}

#[test]
fn constraint_has_name_and_column() {
    let row = Constraint::new("PK_orders".to_string(), "id".to_string());
    assert_eq!(row.fields(), vec!["name", "column_name"]);
    assert_eq!(row.columns(), vec!["PK_orders", "id"]);
}

#[test]
fn column_has_five_fields() {
    let row = Column::new(some("id"), some("int"), some("NO"), some("((0))"), some("key"));
    assert_eq!(row.fields(), vec!["name", "type", "null", "default", "comment"]);
    assert_eq!(row.columns(), vec!["id", "int", "NO", "((0))", "key"]);
}

#[test]
fn absent_values_are_empty_not_null() {
    let row = Column::new(some("id"), None, some("YES"), None, None);
    assert_eq!(row.columns(), vec!["id", "", "YES", "", ""]);
    let row = ForeignKey::new(None, None, None, None);
    assert_eq!(row.columns(), vec!["", "", "", ""]);
    let row = Index::new(None, None, None);
    assert_eq!(row.columns(), vec!["", "", ""]);
    assert_eq!(shown(&None), "");
    assert_eq!(shown(&some("NULL")), "NULL");
}

#[test]
fn foreign_key_has_four_fields() {
    let row = ForeignKey::new(some("FK_a"), some("user_id"), some("users"), some("id"));
    assert_eq!(row.fields(), vec!["name", "column_name", "ref_table", "ref_column"]);
    assert_eq!(row.columns(), vec!["FK_a", "user_id", "users", "id"]);
}

#[test]
fn index_has_three_fields() {
    let row = Index::new(some("IX_a"), some("email"), some("NONCLUSTERED"));
    assert_eq!(row.fields(), vec!["name", "column_name", "type"]);
    assert_eq!(row.columns(), vec!["IX_a", "email", "NONCLUSTERED"]);
}

#[test]
fn every_kind_has_a_value_for_each_field() {
    let rows = vec![
        MetadataRow::Column(Column::new(some("a"), None, None, None, None)),
        MetadataRow::Constraint(Constraint::new("c".to_string(), "a".to_string())),
        MetadataRow::ForeignKey(ForeignKey::new(some("f"), None, some("t"), None)),
        MetadataRow::Index(Index::new(None, some("a"), None)),
    ];
    let widths: Vec<usize> = rows.iter().map(|row| row.fields().len()).collect();
    assert_eq!(widths, vec![5, 2, 4, 3]);
    for row in &rows {
        assert_eq!(row.fields().len(), row.columns().len());
    }
    assert_eq!(rows[0].columns(), vec!["a", "", "", "", ""]);
    assert_eq!(rows[1].columns(), vec!["c", "a"]);
    assert_eq!(rows[2].columns(), vec!["f", "", "t", ""]);
    assert_eq!(rows[3].columns(), vec!["", "a", ""]);
}
