use mssql_adapter::query::{
    DATABASES_QUERY,
    columns_query, constraints_query, foreign_keys_query, indexes_query,
    page_offset, records_query, tables_query, RECORDS_LIMIT_PER_PAGE,
};
use mssql_adapter::tree::{Database, Table};

fn database(name: &str) -> Database {
    Database::new(name.to_string(), Vec::new())
}

fn table(name: &str, schema: Option<&str>) -> Table {
    Table::new(name.to_string(), schema.map(|s| s.to_string()))
}

#[test]
fn page_size_is_two_hundred() {
    assert_eq!(RECORDS_LIMIT_PER_PAGE, 200);
}

#[test]
fn page_offset_is_page_times_page_size() {
    assert_eq!(page_offset(0), 0);
    assert_eq!(page_offset(1), 200);
    assert_eq!(page_offset(2), 400);
    assert_eq!(page_offset(17), 3400);
    assert_eq!(page_offset(u16::MAX), 13_107_000);
}

#[test]
fn pages_do_not_overlap() {
    for page in [0u16, 1, 2, 100, u16::MAX - 1] {
        let end = page_offset(page) + RECORDS_LIMIT_PER_PAGE as u32;
        assert_eq!(end, page_offset(page + 1));
    }
}

#[test]
fn databases_query_is_fixed() {
    assert_eq!(DATABASES_QUERY, "SELECT NAME\n        FROM SYS.DATABASES");
}

#[test]
fn tables_query_names_the_database_twice() {
    assert_eq!(
        tables_query("shop"),
        "\n            USE shop\n            SELECT TABLE_NAME, TABLE_SCHEMA FROM INFORMATION_SCHEMA.TABLES WHERE TABLE_CATALOG = 'shop'\n            "
    );
}

#[test]
fn records_query_without_filter() {
    let query = records_query(&database("shop"), &table("orders", Some("sales")), 0, &None);
    assert_eq!(
        query,
        "SELECT * FROM \"shop\".\"sales\".\"orders\" ORDER BY 1 OFFSET 0 ROWS FETCH NEXT 200 ROWS ONLY"
    );
}

#[test]
fn records_query_of_second_page_starts_after_the_first() {
    let query = records_query(&database("shop"), &table("orders", Some("sales")), 1, &None);
    assert_eq!(
        query,
        "SELECT * FROM \"shop\".\"sales\".\"orders\" ORDER BY 1 OFFSET 200 ROWS FETCH NEXT 200 ROWS ONLY"
    );
    let query = records_query(&database("shop"), &table("orders", Some("sales")), 65535, &None);
    assert_eq!(
        query,
        "SELECT * FROM \"shop\".\"sales\".\"orders\" ORDER BY 1 OFFSET 13107000 ROWS FETCH NEXT 200 ROWS ONLY"
    );
}

#[test]
fn records_query_puts_the_filter_behind_where() {
    let filter = Some("id > 10".to_string());
    let query = records_query(&database("shop"), &table("orders", Some("sales")), 3, &filter);
    assert_eq!(
        query,
        "SELECT * FROM \"shop\".\"sales\".\"orders\" WHERE id > 10 ORDER BY 1 OFFSET 600 ROWS FETCH NEXT 200 ROWS ONLY"
    );
}

#[test]
fn records_query_takes_the_filter_as_it_is() {
    let filter = Some("name = 'a' OR 1=1 --".to_string());
    let query = records_query(&database("d"), &table("t", None), 0, &filter);
    assert_eq!(
        query,
        "SELECT * FROM \"d\".\"dbo\".\"t\" WHERE name = 'a' OR 1=1 -- ORDER BY 1 OFFSET 0 ROWS FETCH NEXT 200 ROWS ONLY"
    );
}

#[test]
fn table_without_schema_is_looked_up_in_dbo() {
    let query = records_query(&database("shop"), &table("orders", None), 0, &None);
    assert_eq!(
        query,
        "SELECT * FROM \"shop\".\"dbo\".\"orders\" ORDER BY 1 OFFSET 0 ROWS FETCH NEXT 200 ROWS ONLY"
    );
    let query = columns_query(&database("shop"), &table("orders", None));
    assert!(query.contains("WHERE TABLE_NAME = 'orders' AND TABLE_SCHEMA = 'dbo'"));
}

#[test]
fn columns_query_names_database_table_and_schema() {
    assert_eq!(
        columns_query(&database("shop"), &table("orders", Some("sales"))),
        "\n            USE shop\n            SELECT COLUMN_NAME, DATA_TYPE, IS_NULLABLE, COLUMN_DEFAULT\n            FROM INFORMATION_SCHEMA.COLUMNS\n            WHERE TABLE_NAME = 'orders' AND TABLE_SCHEMA = 'sales'\n            "
    );
}

#[test]
fn constraints_query_leaves_foreign_keys_out() {
    assert_eq!(
        constraints_query(&database("shop"), &table("orders", Some("sales"))),
        "\n            USE shop\n            SELECT\n            TC.CONSTRAINT_NAME,\n            KCU.COLUMN_NAME\n            FROM\n            INFORMATION_SCHEMA.TABLE_CONSTRAINTS AS TC\n            JOIN INFORMATION_SCHEMA.KEY_COLUMN_USAGE AS KCU ON TC.CONSTRAINT_NAME = KCU.CONSTRAINT_NAME\n            AND TC.TABLE_SCHEMA = KCU.TABLE_SCHEMA\n            JOIN INFORMATION_SCHEMA.CONSTRAINT_COLUMN_USAGE AS CCU ON CCU.CONSTRAINT_NAME = TC.CONSTRAINT_NAME\n            AND CCU.TABLE_SCHEMA = TC.TABLE_SCHEMA\n            WHERE\n            NOT TC.CONSTRAINT_TYPE = 'FOREIGN KEY'\n            AND TC.TABLE_NAME = 'orders'\n            "
    );
}

#[test]
fn foreign_keys_query_asks_for_the_referenced_column() {
    assert_eq!(
        foreign_keys_query(&database("shop"), &table("orders", Some("sales"))),
        "\n            USE shop\n            SELECT\n            TC.CONSTRAINT_NAME,\n            KCU.COLUMN_NAME,\n            CCU.TABLE_NAME AS FOREIGN_TABLE_NAME,\n            CCU.COLUMN_NAME AS FOREIGN_COLUMN_NAME\n            FROM\n            INFORMATION_SCHEMA.TABLE_CONSTRAINTS AS TC\n            JOIN INFORMATION_SCHEMA.KEY_COLUMN_USAGE AS KCU ON TC.CONSTRAINT_NAME = KCU.CONSTRAINT_NAME\n            AND TC.TABLE_SCHEMA = KCU.TABLE_SCHEMA\n            JOIN INFORMATION_SCHEMA.CONSTRAINT_COLUMN_USAGE AS CCU ON CCU.CONSTRAINT_NAME = TC.CONSTRAINT_NAME\n            AND CCU.TABLE_SCHEMA = TC.TABLE_SCHEMA\n            WHERE\n            TC.CONSTRAINT_TYPE = 'FOREIGN KEY'\n            AND TC.TABLE_NAME = 'orders'\n        "
    );
}

#[test]
fn indexes_query_joins_the_system_catalog() {
    assert_eq!(
        indexes_query(&database("shop"), &table("orders", Some("sales"))),
        "\n            USE shop\n            SELECT\n            ind.name AS INDEX_NAME,\n\t\t\tcol.name AS COLUMN_NAME,\n            ind.TYPE_DESC AS TYPE\n            FROM SYS.INDEXES ind\n\t\t\tINNER JOIN \n\t\t\tsys.index_columns ic ON  ind.object_id = ic.object_id and ind.index_id = ic.index_id \n\t\t\tINNER JOIN \n\t\t\tsys.columns col ON ic.object_id = col.object_id and ic.column_id = col.column_id\n\t\t\tINNER JOIN \n\t\t\tsys.tables t ON ind.object_id = t.object_id\n            WHERE t.name = 'orders'\n            "
    );
}
