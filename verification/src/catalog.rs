//! Rows of the catalog queries, read into tables and metadata rows.

use crate::metadata::{text_or_empty, Column, Constraint, ForeignKey, Index, TableRow};
use crate::rows::{
    decoded_text, get_optional_text, get_text, get_text_at, required_text, required_text_at,
};
use crate::tree::{Table, TableView};
use sqlx::mssql::MssqlRow;
use vstd::prelude::*;

verus! {

/// The name of a database, from a row of the listing of databases: the text
/// of its first cell.
pub fn database_name_of(row: &MssqlRow) -> (result: Result<String, sqlx::Error>)
    ensures
        match required_text_at(*row, 0) {
            Some(name) => result matches Ok(text) && text@ == name,
            None => result is Err,
        },
{
    get_text_at(row, 0)
}

/// A table, from a row of the listing of tables: its name from
/// `TABLE_NAME`, which must hold one, and its schema from `TABLE_SCHEMA`.
pub fn table_of(row: &MssqlRow) -> (result: Result<Table, sqlx::Error>)
    ensures
        match (required_text(*row, "TABLE_NAME"@), decoded_text(*row, "TABLE_SCHEMA"@)) {
            (Some(name), Some(schema)) => result matches Ok(table) && table@ == (TableView {
                name,
                create_time: None,
                update_time: None,
                engine: None,
                schema,
            }),
            _ => result is Err,
        },
{
    let name = match get_text(row, "TABLE_NAME") {
        Ok(name) => name,
        Err(error) => {
            return Err(error);
        },
    };
    let schema = match get_optional_text(row, "TABLE_SCHEMA") {
        Ok(schema) => schema,
        Err(error) => {
            return Err(error);
        },
    };
    Ok(Table::new(name, schema))
}

/// A column, from a row of the listing of columns. The catalog gives no
/// comment.
pub fn column_of(row: &MssqlRow) -> (result: Result<Column, sqlx::Error>)
    ensures
        match (
            decoded_text(*row, "COLUMN_NAME"@),
            decoded_text(*row, "DATA_TYPE"@),
            decoded_text(*row, "IS_NULLABLE"@),
            decoded_text(*row, "COLUMN_DEFAULT"@),
        ) {
            (Some(name), Some(data_type), Some(null), Some(default)) => result matches Ok(column)
                && column.values() == seq![
                text_or_empty(name),
                text_or_empty(data_type),
                text_or_empty(null),
                text_or_empty(default),
                Seq::<char>::empty(),
            ],
            _ => result is Err,
        },
{
    let name = match get_optional_text(row, "COLUMN_NAME") {
        Ok(value) => value,
        Err(error) => {
            return Err(error);
        },
    };
    let data_type = match get_optional_text(row, "DATA_TYPE") {
        Ok(value) => value,
        Err(error) => {
            return Err(error);
        },
    };
    let null = match get_optional_text(row, "IS_NULLABLE") {
        Ok(value) => value,
        Err(error) => {
            return Err(error);
        },
    };
    let default = match get_optional_text(row, "COLUMN_DEFAULT") {
        Ok(value) => value,
        Err(error) => {
            return Err(error);
        },
    };
    Ok(Column::new(name, data_type, null, default, None))
}

/// A constraint, from a row of the listing of constraints. Both its name
/// and its column must be there.
pub fn constraint_of(row: &MssqlRow) -> (result: Result<Constraint, sqlx::Error>)
    ensures
        match (required_text(*row, "CONSTRAINT_NAME"@), required_text(*row, "COLUMN_NAME"@)) {
            (Some(name), Some(column_name)) => result matches Ok(constraint)
                && constraint.values() == seq![name, column_name],
            _ => result is Err,
        },
{
    let name = match get_text(row, "CONSTRAINT_NAME") {
        Ok(value) => value,
        Err(error) => {
            return Err(error);
        },
    };
    let column_name = match get_text(row, "COLUMN_NAME") {
        Ok(value) => value,
        Err(error) => {
            return Err(error);
        },
    };
    Ok(Constraint::new(name, column_name))
}

/// A foreign key, from a row of the listing of foreign keys.
pub fn foreign_key_of(row: &MssqlRow) -> (result: Result<ForeignKey, sqlx::Error>)
    ensures
        match (
            decoded_text(*row, "CONSTRAINT_NAME"@),
            decoded_text(*row, "COLUMN_NAME"@),
            decoded_text(*row, "FOREIGN_TABLE_NAME"@),
            decoded_text(*row, "FOREIGN_COLUMN_NAME"@),
        ) {
            (Some(name), Some(column_name), Some(ref_table), Some(ref_column)) => result matches Ok(
                key,
            ) && key.values() == seq![
                text_or_empty(name),
                text_or_empty(column_name),
                text_or_empty(ref_table),
                text_or_empty(ref_column),
            ],
            _ => result is Err,
        },
{
    let name = match get_optional_text(row, "CONSTRAINT_NAME") {
        Ok(value) => value,
        Err(error) => {
            return Err(error);
        },
    };
    let column_name = match get_optional_text(row, "COLUMN_NAME") {
        Ok(value) => value,
        Err(error) => {
            return Err(error);
        },
    };
    let ref_table = match get_optional_text(row, "FOREIGN_TABLE_NAME") {
        Ok(value) => value,
        Err(error) => {
            return Err(error);
        },
    };
    let ref_column = match get_optional_text(row, "FOREIGN_COLUMN_NAME") {
        Ok(value) => value,
        Err(error) => {
            return Err(error);
        },
    };
    Ok(ForeignKey::new(name, column_name, ref_table, ref_column))
}

/// An index, from a row of the listing of indexes.
pub fn index_of(row: &MssqlRow) -> (result: Result<Index, sqlx::Error>)
    ensures
        match (
            decoded_text(*row, "INDEX_NAME"@),
            decoded_text(*row, "COLUMN_NAME"@),
            decoded_text(*row, "TYPE"@),
        ) {
            (Some(name), Some(column_name), Some(kind)) => result matches Ok(index)
                && index.values() == seq![
                text_or_empty(name),
                text_or_empty(column_name),
                text_or_empty(kind),
            ],
            _ => result is Err,
        },
{
    let name = match get_optional_text(row, "INDEX_NAME") {
        Ok(value) => value,
        Err(error) => {
            return Err(error);
        },
    };
    let column_name = match get_optional_text(row, "COLUMN_NAME") {
        Ok(value) => value,
        Err(error) => {
            return Err(error);
        },
    };
    let kind = match get_optional_text(row, "TYPE") {
        Ok(value) => value,
        Err(error) => {
            return Err(error);
        },
    };
    Ok(Index::new(name, column_name, kind))
}

} // verus!
