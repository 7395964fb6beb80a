//! The SQL text of each question that is put to the server.
//!
//! Names of databases, schemas and tables, and the filter of a page, stand
//! in the text as they are given: nothing is quoted for them or escaped, so
//! they must come from a trusted source.

use crate::text::{decimal, push_decimal};
use crate::tree::{optional_text, Database, Table};
use vstd::prelude::*;
use vstd::string::*;

verus! {

/// The number of records in one page.
pub const RECORDS_LIMIT_PER_PAGE: u8 = 200;

/// The schema that holds a table for which the catalog names none.
pub const DEFAULT_SCHEMA: &'static str = "dbo";

/// The text that asks for the names of all databases.
pub const DATABASES_QUERY: &'static str = "SELECT NAME\n        FROM SYS.DATABASES";

/// What each question about one database begins with, up to the name of the
/// database.
pub const USE_DATABASE: &'static str = "\n            USE ";

/// What a question ends with, behind the last name.
pub const END_OF_QUERY: &'static str = "'\n            ";

/// What the question for foreign keys ends with.
pub const END_OF_FOREIGN_KEYS_QUERY: &'static str = "'\n        ";

/// The question for the tables of a database, up to the name of the
/// database.
pub const SELECT_TABLES: &'static str = "\n            \
    SELECT TABLE_NAME, TABLE_SCHEMA FROM INFORMATION_SCHEMA.TABLES WHERE TABLE_CATALOG = '";

/// The question for the columns of a table, up to the name of the table.
pub const SELECT_COLUMNS: &'static str = "\n            \
    SELECT COLUMN_NAME, DATA_TYPE, IS_NULLABLE, COLUMN_DEFAULT\n            \
    FROM INFORMATION_SCHEMA.COLUMNS\n            \
    WHERE TABLE_NAME = '";

/// What stands between the name of the table and that of its schema in the
/// question for columns.
pub const AND_SCHEMA: &'static str = "' AND TABLE_SCHEMA = '";

/// The question for the constraints of a table, up to the name of the table.
pub const SELECT_CONSTRAINTS: &'static str = "\n            \
    SELECT\n            \
    TC.CONSTRAINT_NAME,\n            \
    KCU.COLUMN_NAME\n            \
    FROM\n            \
    INFORMATION_SCHEMA.TABLE_CONSTRAINTS AS TC\n            \
    JOIN INFORMATION_SCHEMA.KEY_COLUMN_USAGE AS KCU ON TC.CONSTRAINT_NAME = KCU.CONSTRAINT_NAME\n            \
    AND TC.TABLE_SCHEMA = KCU.TABLE_SCHEMA\n            \
    JOIN INFORMATION_SCHEMA.CONSTRAINT_COLUMN_USAGE AS CCU ON CCU.CONSTRAINT_NAME = TC.CONSTRAINT_NAME\n            \
    AND CCU.TABLE_SCHEMA = TC.TABLE_SCHEMA\n            \
    WHERE\n            \
    NOT TC.CONSTRAINT_TYPE = 'FOREIGN KEY'\n            \
    AND TC.TABLE_NAME = '";

/// The question for the foreign keys of a table, up to the name of the
/// table.
pub const SELECT_FOREIGN_KEYS: &'static str = "\n            \
    SELECT\n            \
    TC.CONSTRAINT_NAME,\n            \
    KCU.COLUMN_NAME,\n            \
    CCU.TABLE_NAME AS FOREIGN_TABLE_NAME,\n            \
    CCU.COLUMN_NAME AS FOREIGN_COLUMN_NAME\n            \
    FROM\n            \
    INFORMATION_SCHEMA.TABLE_CONSTRAINTS AS TC\n            \
    JOIN INFORMATION_SCHEMA.KEY_COLUMN_USAGE AS KCU ON TC.CONSTRAINT_NAME = KCU.CONSTRAINT_NAME\n            \
    AND TC.TABLE_SCHEMA = KCU.TABLE_SCHEMA\n            \
    JOIN INFORMATION_SCHEMA.CONSTRAINT_COLUMN_USAGE AS CCU ON CCU.CONSTRAINT_NAME = TC.CONSTRAINT_NAME\n            \
    AND CCU.TABLE_SCHEMA = TC.TABLE_SCHEMA\n            \
    WHERE\n            \
    TC.CONSTRAINT_TYPE = 'FOREIGN KEY'\n            \
    AND TC.TABLE_NAME = '";

/// The question for the indexes of a table, up to the name of the table.
pub const SELECT_INDEXES: &'static str = "\n            \
    SELECT\n            \
    ind.name AS INDEX_NAME,\n\t\t\t\
    col.name AS COLUMN_NAME,\n            \
    ind.TYPE_DESC AS TYPE\n            \
    FROM SYS.INDEXES ind\n\t\t\t\
    INNER JOIN \n\t\t\t\
    sys.index_columns ic ON  ind.object_id = ic.object_id and ind.index_id = ic.index_id \n\t\t\t\
    INNER JOIN \n\t\t\t\
    sys.columns col ON ic.object_id = col.object_id and ic.column_id = col.column_id\n\t\t\t\
    INNER JOIN \n\t\t\t\
    sys.tables t ON ind.object_id = t.object_id\n            \
    WHERE t.name = '";

/// The schema of a table, or the default schema where it has none.
pub open spec fn schema_or_default(schema: Option<Seq<char>>) -> Seq<char> {
    match schema {
        Some(name) => name,
        None => DEFAULT_SCHEMA@,
    }
}

/// The place of the first record of a page among the records of its table:
/// pages are counted from zero and each holds
/// [`RECORDS_LIMIT_PER_PAGE`] records.
pub open spec fn page_start(page: int) -> int {
    page * RECORDS_LIMIT_PER_PAGE
}

/// The place after the last record of a page.
pub open spec fn page_end(page: int) -> int {
    page_start(page) + RECORDS_LIMIT_PER_PAGE
}

/// The windows of two different pages share no record: the earlier page
/// is not empty and ends where the later one begins, or before.
pub proof fn lemma_pages_are_disjoint(p: int, q: int)
    requires
        0 <= p < q,
    ensures
        page_start(p) < page_end(p) <= page_start(q),
{
    assert(p * 200 + 200 <= q * 200) by (nonlinear_arith)
        requires
            p < q,
    ;
}

/// The place of the first record of a page.
pub fn page_offset(page: u16) -> (offset: u32)
    ensures
        offset == page_start(page as int),
{
    let wide: u32 = page as u32;
    let limit: u32 = RECORDS_LIMIT_PER_PAGE as u32;
    assert(wide * limit <= 65535 * 200) by (nonlinear_arith)
        requires
            wide <= 65535,
            limit == 200,
    ;
    wide * limit
}

fn schema_name(table: &Table) -> (name: &str)
    ensures
        name@ == schema_or_default(table@.schema),
{
    match &table.schema {
        Some(schema) => schema.as_str(),
        None => DEFAULT_SCHEMA,
    }
}

/// The text that asks for the tables of a database, each with its schema.
pub open spec fn tables_query_text(database: Seq<char>) -> Seq<char> {
    USE_DATABASE@ + database + SELECT_TABLES@ + database + END_OF_QUERY@
}

/// The text that asks for the tables of a database, each with its schema.
pub fn tables_query(database: &str) -> (query: String)
    ensures
        query@ == tables_query_text(database@),
{
    let mut query = String::from_str(USE_DATABASE);
    query.append(database);
    query.append(SELECT_TABLES);
    query.append(database);
    query.append(END_OF_QUERY);
    query
}

/// The text that asks for the columns of a table.
pub open spec fn columns_query_text(
    database: Seq<char>,
    table: Seq<char>,
    schema: Seq<char>,
) -> Seq<char> {
    USE_DATABASE@ + database + SELECT_COLUMNS@ + table + AND_SCHEMA@ + schema + END_OF_QUERY@
}

/// The text that asks for the columns of a table. A table without a schema
/// is looked up in the default schema.
pub fn columns_query(database: &Database, table: &Table) -> (query: String)
    ensures
        query@ == columns_query_text(
            database.name@,
            table.name@,
            schema_or_default(table@.schema),
        ),
{
    let mut query = String::from_str(USE_DATABASE);
    query.append(database.name.as_str());
    query.append(SELECT_COLUMNS);
    query.append(table.name.as_str());
    query.append(AND_SCHEMA);
    query.append(schema_name(table));
    query.append(END_OF_QUERY);
    query
}

/// The text that asks for the constraints of a table, foreign keys left out.
pub open spec fn constraints_query_text(database: Seq<char>, table: Seq<char>) -> Seq<char> {
    USE_DATABASE@ + database + SELECT_CONSTRAINTS@ + table + END_OF_QUERY@
}

/// The text that asks for the constraints of a table, foreign keys left out.
pub fn constraints_query(database: &Database, table: &Table) -> (query: String)
    ensures
        query@ == constraints_query_text(database.name@, table.name@),
{
    let mut query = String::from_str(USE_DATABASE);
    query.append(database.name.as_str());
    query.append(SELECT_CONSTRAINTS);
    query.append(table.name.as_str());
    query.append(END_OF_QUERY);
    query
}

/// The text that asks for the foreign keys of a table.
pub open spec fn foreign_keys_query_text(database: Seq<char>, table: Seq<char>) -> Seq<char> {
    USE_DATABASE@ + database + SELECT_FOREIGN_KEYS@ + table + END_OF_FOREIGN_KEYS_QUERY@
}

/// The text that asks for the foreign keys of a table.
pub fn foreign_keys_query(database: &Database, table: &Table) -> (query: String)
    ensures
        query@ == foreign_keys_query_text(database.name@, table.name@),
{
    let mut query = String::from_str(USE_DATABASE);
    query.append(database.name.as_str());
    query.append(SELECT_FOREIGN_KEYS);
    query.append(table.name.as_str());
    query.append(END_OF_FOREIGN_KEYS_QUERY);
    query
}

/// The text that asks for the indexes of a table.
pub open spec fn indexes_query_text(database: Seq<char>, table: Seq<char>) -> Seq<char> {
    USE_DATABASE@ + database + SELECT_INDEXES@ + table + END_OF_QUERY@
}

/// The text that asks for the indexes of a table.
pub fn indexes_query(database: &Database, table: &Table) -> (query: String)
    ensures
        query@ == indexes_query_text(database.name@, table.name@),
{
    let mut query = String::from_str(USE_DATABASE);
    query.append(database.name.as_str());
    query.append(SELECT_INDEXES);
    query.append(table.name.as_str());
    query.append(END_OF_QUERY);
    query
}

/// The condition of a page, as it stands in the text: nothing without a
/// filter, else the filter behind `WHERE`.
pub open spec fn where_clause(filter: Option<Seq<char>>) -> Seq<char> {
    match filter {
        Some(condition) => " WHERE "@ + condition,
        None => Seq::empty(),
    }
}

/// The text that asks for one page of the records of a table, in the order
/// of their first column.
pub open spec fn records_query_text(
    database: Seq<char>,
    schema: Seq<char>,
    table: Seq<char>,
    page: int,
    filter: Option<Seq<char>>,
) -> Seq<char> {
    "SELECT * FROM \""@ + database + "\".\""@ + schema + "\".\""@ + table + "\""@ + where_clause(
        filter,
    ) + " ORDER BY 1 OFFSET "@ + decimal(page_start(page) as nat) + " ROWS FETCH NEXT "@ + decimal(
        RECORDS_LIMIT_PER_PAGE as nat,
    ) + " ROWS ONLY"@
}

/// The text that asks for one page of the records of a table, in the order
/// of their first column, so that the pages of a table that does not change
/// are the same each time they are asked for. A filter stands behind `WHERE`
/// as it is given. A table without a schema is looked up in the default
/// schema.
pub fn records_query(
    database: &Database,
    table: &Table,
    page: u16,
    filter: &Option<String>,
) -> (query: String)
    ensures
        query@ == records_query_text(
            database.name@,
            schema_or_default(table@.schema),
            table.name@,
            page as int,
            optional_text(*filter),
        ),
{
    let mut query = String::from_str("SELECT * FROM \"");
    query.append(database.name.as_str());
    query.append("\".\"");
    query.append(schema_name(table));
    query.append("\".\"");
    query.append(table.name.as_str());
    query.append("\"");
    let ghost head = query@;
    match filter {
        Some(condition) => {
            query.append(" WHERE ");
            query.append(condition.as_str());
            assert(query@ =~= head + (" WHERE "@ + condition@));
        },
        None => {
            assert(query@ =~= head + Seq::<char>::empty());
        },
    }
    query.append(" ORDER BY 1 OFFSET ");
    push_decimal(&mut query, page_offset(page) as u64);
    query.append(" ROWS FETCH NEXT ");
    push_decimal(&mut query, RECORDS_LIMIT_PER_PAGE as u64);
    query.append(" ROWS ONLY");
    query
}

} // verus!
