//! Reading rows of the SQL Server driver: the names and types of their
//! columns and the value of a cell, decoded as one type.
//!
//! The rows are those that the driver makes of the server's answer. Decoding
//! relies on what holds of them: a cell with a value holds as many bytes as
//! the type of its column declares.

use crate::coercion::{
    big_view, coerced, int_view, small_view, text_view, tiny_view, Probe, ProbesView,
    UnsupportedColumnType,
};
use crate::text::{null_marker, render_bool, render_signed};
use sqlx::mssql::MssqlRow;
use sqlx::{Column, Row};
use vstd::prelude::*;
use vstd::string::*;

verus! {

/// A row that the driver fetched.
#[verifier::external_type_specification]
#[verifier::external_body]
pub struct ExMssqlRow(MssqlRow);

/// An error of the driver.
#[verifier::external_type_specification]
#[verifier::external_body]
pub struct ExDriverError(sqlx::Error);

/// The names of the columns of a row, in their order.
pub uninterp spec fn column_names(row: MssqlRow) -> Seq<Seq<char>>;

/// The driver's description of the type of each column of a row.
pub uninterp spec fn column_types(row: MssqlRow) -> Seq<Seq<char>>;

/// What decoding the cell of the named column as text gives: `None` where
/// the driver refuses, else the text or the absence of a value.
pub uninterp spec fn decoded_text(row: MssqlRow, column: Seq<char>) -> Option<Option<Seq<char>>>;

/// What decoding the cell of the named column as an 8-bit integer gives.
pub uninterp spec fn decoded_tiny(row: MssqlRow, column: Seq<char>) -> Option<Option<i8>>;

/// What decoding the cell of the named column as a 16-bit integer gives.
pub uninterp spec fn decoded_small(row: MssqlRow, column: Seq<char>) -> Option<Option<i16>>;

/// What decoding the cell of the named column as a 32-bit integer gives.
pub uninterp spec fn decoded_int(row: MssqlRow, column: Seq<char>) -> Option<Option<i32>>;

/// What decoding the cell of the named column as a 64-bit integer gives.
pub uninterp spec fn decoded_big(row: MssqlRow, column: Seq<char>) -> Option<Option<i64>>;

/// What decoding the cell of the named column as a boolean gives.
pub uninterp spec fn decoded_boolean(row: MssqlRow, column: Seq<char>) -> Option<Option<bool>>;

/// What decoding the cell of the named column as text that must be there
/// gives: `None` where the driver refuses or the cell holds no value.
pub uninterp spec fn required_text(row: MssqlRow, column: Seq<char>) -> Option<Seq<char>>;

/// What decoding the cell at a place as text that must be there gives.
pub uninterp spec fn required_text_at(row: MssqlRow, index: int) -> Option<Seq<char>>;

/// What the driver answered, without the error: `None` for an error.
pub open spec fn answer<T>(result: Result<T, sqlx::Error>) -> Option<T> {
    match result {
        Ok(value) => Some(value),
        Err(_) => None,
    }
}

/// What the driver answered for an optional text, as plain values.
pub open spec fn text_answer(result: Result<Option<String>, sqlx::Error>) -> Option<
    Option<Seq<char>>,
> {
    match result {
        Ok(Some(text)) => Some(Some(text@)),
        Ok(None) => Some(None),
        Err(_) => None,
    }
}

/// What the driver answered for a text, as plain values.
pub open spec fn required_answer(result: Result<String, sqlx::Error>) -> Option<Seq<char>> {
    match result {
        Ok(text) => Some(text@),
        Err(_) => None,
    }
}

/// `Row::columns` and the length of the slice: the number of columns of the
/// row, each of which has a name and a type.
#[verifier::external_body]
pub(crate) fn column_count(row: &MssqlRow) -> (count: usize)
    ensures
        count == column_names(*row).len(),
        count == column_types(*row).len(),
{
    row.columns().len()
}

/// `Column::name` of one column of `Row::columns`.
#[verifier::external_body]
pub(crate) fn column_name(row: &MssqlRow, index: usize) -> (name: String)
    requires
        index < column_names(*row).len(),
    ensures
        name@ == column_names(*row)[index as int],
{
    row.columns()[index].name().to_string()
}

/// `Column::type_info` of one column of `Row::columns`, in the form that its
/// `Debug` gives. (`TypeInfo::name` is not asked: it panics for the types
/// that none of the candidates decodes.)
#[verifier::external_body]
pub(crate) fn column_type(row: &MssqlRow, index: usize) -> (description: String)
    requires
        index < column_names(*row).len(),
    ensures
        description@ == column_types(*row)[index as int],
{
    format!("{:?}", row.columns()[index].type_info())
}

/// `Row::try_get` by name for an optional `String`.
#[verifier::external_body]
pub(crate) fn get_optional_text(row: &MssqlRow, column: &str) -> (result: Result<
    Option<String>,
    sqlx::Error,
>)
    ensures
        text_answer(result) == decoded_text(*row, column@),
{
    row.try_get(column)
}

/// `Row::try_get` by name for an optional `i8`.
#[verifier::external_body]
pub(crate) fn get_optional_tiny(row: &MssqlRow, column: &str) -> (result: Result<
    Option<i8>,
    sqlx::Error,
>)
    ensures
        answer(result) == decoded_tiny(*row, column@),
{
    row.try_get(column)
}

/// `Row::try_get` by name for an optional `i16`.
#[verifier::external_body]
pub(crate) fn get_optional_small(row: &MssqlRow, column: &str) -> (result: Result<
    Option<i16>,
    sqlx::Error,
>)
    ensures
        answer(result) == decoded_small(*row, column@),
{
    row.try_get(column)
}

/// `Row::try_get` by name for an optional `i32`.
#[verifier::external_body]
pub(crate) fn get_optional_int(row: &MssqlRow, column: &str) -> (result: Result<
    Option<i32>,
    sqlx::Error,
>)
    ensures
        answer(result) == decoded_int(*row, column@),
{
    row.try_get(column)
}

/// `Row::try_get` by name for an optional `i64`.
#[verifier::external_body]
pub(crate) fn get_optional_big(row: &MssqlRow, column: &str) -> (result: Result<
    Option<i64>,
    sqlx::Error,
>)
    ensures
        answer(result) == decoded_big(*row, column@),
{
    row.try_get(column)
}

/// `Row::try_get` by name for an optional `bool`.
#[verifier::external_body]
pub(crate) fn get_optional_boolean(row: &MssqlRow, column: &str) -> (result: Result<
    Option<bool>,
    sqlx::Error,
>)
    ensures
        answer(result) == decoded_boolean(*row, column@),
{
    row.try_get(column)
}

/// `Row::try_get` by name for a `String`.
#[verifier::external_body]
pub(crate) fn get_text(row: &MssqlRow, column: &str) -> (result: Result<String, sqlx::Error>)
    ensures
        required_answer(result) == required_text(*row, column@),
{
    row.try_get(column)
}

/// `Row::try_get` by place for a `String`.
#[verifier::external_body]
pub(crate) fn get_text_at(row: &MssqlRow, index: usize) -> (result: Result<String, sqlx::Error>)
    ensures
        required_answer(result) == required_text_at(*row, index as int),
{
    row.try_get(index)
}

/// What decoding a real cell gave, each as the display text of the value.
/// The driver's rows hand out reals as floating-point numbers, which this
/// library does not hold; the caller decodes them and renders the value.
pub struct RealProbes {
    /// The cell decoded as a real of single precision.
    pub single: Probe<String>,
    /// The cell decoded as a real of double precision.
    pub double: Probe<String>,
}

/// What the driver's answer for an optional value means as a probe.
pub open spec fn probe_of<T>(decoded: Option<Option<T>>) -> Probe<T> {
    match decoded {
        Some(Some(value)) => Probe::Value(value),
        Some(None) => Probe::Null,
        None => Probe::Failed,
    }
}

/// What decoding the cell of the named column as each candidate type gives,
/// the reals as the caller decoded them.
pub open spec fn probes_of(row: MssqlRow, column: Seq<char>, reals: RealProbes) -> ProbesView {
    ProbesView {
        text: probe_of(decoded_text(row, column)),
        tiny: tiny_view(probe_of(decoded_tiny(row, column))),
        small: small_view(probe_of(decoded_small(row, column))),
        int: int_view(probe_of(decoded_int(row, column))),
        big: big_view(probe_of(decoded_big(row, column))),
        single: text_view(reals.single),
        double: text_view(reals.double),
        boolean: probe_of(decoded_boolean(row, column)),
    }
}

/// The display text of the cell of a column, or `None` where the cell
/// decodes as no candidate type.
pub open spec fn cell_text(row: MssqlRow, index: int, reals: RealProbes) -> Option<Seq<char>> {
    coerced(probes_of(row, column_names(row)[index], reals))
}

/// The display text of a real that the caller decoded.
fn show_real(probe: &Probe<String>) -> (text: Option<String>)
    ensures
        match text_view(*probe) {
            Probe::Failed => text is None,
            Probe::Null => text matches Some(shown) && shown@ == crate::text::null_text(),
            Probe::Value(value) => text matches Some(shown) && shown@ == value,
        },
{
    match probe {
        Probe::Failed => None,
        Probe::Null => Some(null_marker()),
        Probe::Value(value) => Some(value.clone()),
    }
}

/// Coerces the cell of one column to display text. The cell is found by the
/// name of the column and decoded as each candidate type in turn; the first
/// that decodes gives the text, `NULL` for a cell without a value. Where
/// none decodes the error names the column and its type.
pub fn convert_column_value_to_string(
    row: &MssqlRow,
    index: usize,
    reals: &RealProbes,
) -> (result: Result<String, UnsupportedColumnType>)
    requires
        index < column_names(*row).len(),
    ensures
        match cell_text(*row, index as int, *reals) {
            Some(text) => result matches Ok(shown) && shown@ == text,
            None => result matches Err(error) && error.column@ == column_names(*row)[index as int]
                && error.reported_type@ == column_types(*row)[index as int],
        },
{
    let name = column_name(row, index);
    let column = name.as_str();
    if let Ok(value) = get_optional_text(row, column) {
        return Ok(
            match value {
                Some(text) => text,
                None => null_marker(),
            },
        );
    }
    if let Ok(value) = get_optional_tiny(row, column) {
        return Ok(
            match value {
                Some(v) => render_signed(v as i64),
                None => null_marker(),
            },
        );
    }
    if let Ok(value) = get_optional_small(row, column) {
        return Ok(
            match value {
                Some(v) => render_signed(v as i64),
                None => null_marker(),
            },
        );
    }
    if let Ok(value) = get_optional_int(row, column) {
        return Ok(
            match value {
                Some(v) => render_signed(v as i64),
                None => null_marker(),
            },
        );
    }
    if let Ok(value) = get_optional_big(row, column) {
        return Ok(
            match value {
                Some(v) => render_signed(v),
                None => null_marker(),
            },
        );
    }
    if let Some(text) = show_real(&reals.single) {
        return Ok(text);
    }
    if let Some(text) = show_real(&reals.double) {
        return Ok(text);
    }
    if let Ok(value) = get_optional_boolean(row, column) {
        return Ok(
            match value {
                Some(v) => render_bool(v),
                None => null_marker(),
            },
        );
    }
    let reported = column_type(row, index);
    Err(UnsupportedColumnType::new(column, reported.as_str()))
}

/// The names of the columns of a row, in their order.
pub fn row_headers(row: &MssqlRow) -> (headers: Vec<String>)
    ensures
        headers.deep_view() == column_names(*row),
{
    let count = column_count(row);
    let mut headers: Vec<String> = Vec::new();
    let mut index: usize = 0;
    while index < count
        invariant
            index <= count,
            count == column_names(*row).len(),
            headers.len() == index,
            forall|k: int| 0 <= k < index ==> (#[trigger] headers[k])@ == column_names(*row)[k],
        decreases count - index,
    {
        headers.push(column_name(row, index));
        index += 1;
    }
    assert(headers.deep_view() =~= column_names(*row));
    headers
}

/// Whether `cells` holds the display text of each cell of the row.
pub open spec fn are_cells_of(
    cells: Seq<Seq<char>>,
    row: MssqlRow,
    reals: Seq<RealProbes>,
) -> bool {
    &&& cells.len() == column_names(row).len()
    &&& forall|k: int|
        0 <= k < cells.len() ==> cell_text(row, k, reals[k]) == Some(#[trigger] cells[k])
}

/// Whether `index` is the first column of the row whose cell decodes as no
/// candidate type.
pub open spec fn is_first_unsupported(index: int, row: MssqlRow, reals: Seq<RealProbes>) -> bool {
    &&& 0 <= index < column_names(row).len()
    &&& cell_text(row, index, reals[index]) is None
    &&& forall|k: int| 0 <= k < index ==> (#[trigger] cell_text(row, k, reals[k])) is Some
}

/// The display text of each cell of a row, in the order of the columns.
/// `reals` holds, for each column, what decoding its cell as a real gave.
/// The error is that of the first column whose cell does not decode.
pub fn row_cells(row: &MssqlRow, reals: &Vec<RealProbes>) -> (result: Result<
    Vec<String>,
    UnsupportedColumnType,
>)
    requires
        reals.len() == column_names(*row).len(),
    ensures
        match result {
            Ok(cells) => are_cells_of(cells.deep_view(), *row, reals@),
            Err(error) => exists|index: int|
                #![trigger column_names(*row)[index]]
                is_first_unsupported(index, *row, reals@) && error.column@ == column_names(
                    *row,
                )[index] && error.reported_type@ == column_types(*row)[index],
        },
{
    let count = column_count(row);
    let mut cells: Vec<String> = Vec::new();
    let mut index: usize = 0;
    while index < count
        invariant
            index <= count,
            count == column_names(*row).len(),
            count == column_types(*row).len(),
            count == reals.len(),
            cells.len() == index,
            forall|k: int|
                0 <= k < index ==> cell_text(*row, k, reals@[k]) == Some((#[trigger] cells[k])@),
            forall|k: int| 0 <= k < index ==> (#[trigger] cell_text(*row, k, reals@[k])) is Some,
        decreases count - index,
    {
        match convert_column_value_to_string(row, index, &reals[index]) {
            Ok(text) => {
                cells.push(text);
            },
            Err(error) => {
                assert(is_first_unsupported(index as int, *row, reals@));
                assert(index < column_types(*row).len());
                return Err(error);
            },
        }
        index += 1;
    }
    proof {
        let views = cells.deep_view();
        assert forall|k: int| 0 <= k < views.len() implies cell_text(*row, k, reals@[k]) == Some(
            #[trigger] views[k],
        ) by {
            assert(views[k] == cells[k]@);
        }
    }
    Ok(cells)
}

} // verus!
