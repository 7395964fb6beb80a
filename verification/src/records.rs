//! What running a statement gives: the records that a reading statement
//! returned, gathered row by row, or the count of a writing one.

use crate::coercion::UnsupportedColumnType;
use crate::rows::{
    are_cells_of, column_count, column_names, column_types, is_first_unsupported, row_cells,
    row_headers, RealProbes,
};
use crate::tree::{Database, DatabaseView, Table, TableView};
use sqlx::mssql::MssqlRow;
use vstd::prelude::*;
use vstd::string::*;

verus! {

/// The result of running one statement.
pub enum ExecuteResult {
    /// The records that a reading statement returned, and where they came
    /// from.
    Read { headers: Vec<String>, rows: Vec<Vec<String>>, database: Database, table: Table },
    /// The number of rows that a writing statement changed.
    Write { updated_rows: u64 },
}

/// The name that stands for a database or table that is not known.
pub open spec fn unknown_name() -> Seq<char> {
    "-"@
}

/// The database that stands for the origin of records of a free statement.
pub open spec fn unknown_database() -> DatabaseView {
    DatabaseView { name: unknown_name(), children: Seq::empty() }
}

/// The table that stands for the origin of records of a free statement.
pub open spec fn unknown_table() -> TableView {
    TableView {
        name: unknown_name(),
        create_time: None,
        update_time: None,
        engine: None,
        schema: None,
    }
}

/// The result of a writing statement that changed `updated_rows` rows.
pub fn write_result(updated_rows: u64) -> (result: ExecuteResult)
    ensures
        result == (ExecuteResult::Write { updated_rows }),
{
    ExecuteResult::Write { updated_rows }
}

/// The records gathered so far from the rows of one statement.
pub struct Records {
    /// The names of the columns of the row that came last; empty before the
    /// first row.
    pub headers: Vec<String>,
    /// The cells of each row as display text, in the order the rows came.
    pub rows: Vec<Vec<String>>,
}

impl Records {
    /// No records yet.
    pub fn new() -> (records: Records)
        ensures
            records.headers@.len() == 0,
            records.rows@.len() == 0,
    {
        Records { headers: Vec::new(), rows: Vec::new() }
    }

    /// Takes in one more row: its column names replace the headers, and its
    /// cells come after the rows before it.
    pub fn push(&mut self, headers: Vec<String>, cells: Vec<String>)
        ensures
            final(self).headers == headers,
            final(self).rows@ == old(self).rows@.push(cells),
    {
        self.headers = headers;
        self.rows.push(cells);
    }

    /// Takes in one more row of the driver, each cell coerced to display
    /// text. `reals` holds, for each column, what decoding its cell as a
    /// real gave. Where a cell decodes as no candidate type nothing is
    /// taken in, and the error is that of the first such column.
    pub fn push_row(&mut self, row: &MssqlRow, reals: &Vec<RealProbes>) -> (result: Result<
        (),
        UnsupportedColumnType,
    >)
        requires
            reals.len() == column_names(*row).len(),
        ensures
            match result {
                Ok(_) => {
                    &&& final(self).headers.deep_view() == column_names(*row)
                    &&& final(self).rows@.len() == old(self).rows@.len() + 1
                    &&& final(self).rows@.drop_last() == old(self).rows@
                    &&& are_cells_of(final(self).rows@.last().deep_view(), *row, reals@)
                },
                Err(error) => {
                    &&& *final(self) == *old(self)
                    &&& exists|index: int|
                        #![trigger column_names(*row)[index]]
                        is_first_unsupported(index, *row, reals@) && error.column@ == column_names(
                            *row,
                        )[index] && error.reported_type@ == column_types(*row)[index]
                },
            },
    {
        let ghost before = self.rows@;
        match row_cells(row, reals) {
            Ok(cells) => {
                self.push(row_headers(row), cells);
                assert(self.rows@.drop_last() =~= before);
                Ok(())
            },
            Err(error) => Err(error),
        }
    }

    /// Takes in one more row of the driver as [`Records::push_row`] does,
    /// where `reals` has an entry for each column of the row. Where it has
    /// not, nothing is taken in and the answer is `None`.
    pub fn try_push_row(&mut self, row: &MssqlRow, reals: &Vec<RealProbes>) -> (result: Option<
        Result<(), UnsupportedColumnType>,
    >)
        ensures
            match result {
                Some(Ok(_)) => {
                    &&& reals.len() == column_names(*row).len()
                    &&& final(self).headers.deep_view() == column_names(*row)
                    &&& final(self).rows@.len() == old(self).rows@.len() + 1
                    &&& final(self).rows@.drop_last() == old(self).rows@
                    &&& are_cells_of(final(self).rows@.last().deep_view(), *row, reals@)
                },
                Some(Err(error)) => {
                    &&& reals.len() == column_names(*row).len()
                    &&& *final(self) == *old(self)
                    &&& exists|index: int|
                        #![trigger column_names(*row)[index]]
                        is_first_unsupported(index, *row, reals@) && error.column@ == column_names(
                            *row,
                        )[index] && error.reported_type@ == column_types(*row)[index]
                },
                None => {
                    &&& reals.len() != column_names(*row).len()
                    &&& *final(self) == *old(self)
                },
            },
    {
        if reals.len() != column_count(row) {
            return None;
        }
        Some(self.push_row(row, reals))
    }

    /// The headers and rows of a page of records.
    pub fn into_page(self) -> (page: (Vec<String>, Vec<Vec<String>>))
        ensures
            page.0 == self.headers,
            page.1 == self.rows,
    {
        (self.headers, self.rows)
    }

    /// The result of a reading statement that returned these records. The
    /// statement is free text, so the database and table they came from are
    /// not known: both are named `-`.
    pub fn into_read(self) -> (result: ExecuteResult)
        ensures
            result matches ExecuteResult::Read { headers, rows, database, table } && {
                &&& headers == self.headers
                &&& rows == self.rows
                &&& database@ == unknown_database()
                &&& table@ == unknown_table()
            },
    {
        let database = Database::new(String::from_str("-"), Vec::new());
        let table = Table::new(String::from_str("-"), None);
        assert(database@.children =~= Seq::empty());
        ExecuteResult::Read { headers: self.headers, rows: self.rows, database, table }
    }
}

} // verus!
