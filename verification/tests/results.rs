use mssql_adapter::coercion::{coerce, Probe, Probes};
use mssql_adapter::records::{write_result, ExecuteResult, Records};
use mssql_adapter::statement::is_select;

fn strings(items: &[&str]) -> Vec<String> {
    items.iter().map(|s| s.to_string()).collect()
}

#[test]
fn no_rows_give_no_headers() {
    let (headers, rows) = Records::new().into_page();
    assert!(headers.is_empty());
    assert!(rows.is_empty());
}

#[test]
fn headers_are_those_of_the_last_row() {
    let mut records = Records::new();
    records.push(strings(&["a", "b"]), strings(&["1", "2"]));
    records.push(strings(&["x", "y"]), strings(&["3", "NULL"]));
    let (headers, rows) = records.into_page();
    assert_eq!(headers, strings(&["x", "y"]));
    assert_eq!(rows, vec![strings(&["1", "2"]), strings(&["3", "NULL"])]);
}

#[test]
fn select_one_reads_one_cell() {
    let query = "SELECT 1";
    assert!(is_select(query));
    let probes = Probes {
        text: Probe::Failed,
        tiny: Probe::Failed,
        small: Probe::Failed,
        int: Probe::Value(1),
        big: Probe::Failed,
        single: Probe::Failed,
        double: Probe::Failed,
        boolean: Probe::Failed,
    };
    let cell = match coerce("", "INT", &probes) {
        Ok(text) => text,
        Err(error) => panic!("{}", error.message()),
    };
    let mut records = Records::new();
    records.push(strings(&[""]), vec![cell]);
    match records.into_read() {
        ExecuteResult::Read { headers, rows, database, table } => {
            assert_eq!(headers.len(), 1);
            assert_eq!(rows, vec![strings(&["1"])]);
            assert_eq!(database.name, "-");
            assert!(database.children.is_empty());
            assert_eq!(table.name, "-");
            assert_eq!(table.schema, None);
            assert_eq!(table.engine, None);
            assert_eq!(table.create_time, None);
            assert_eq!(table.update_time, None);
        }
        ExecuteResult::Write { .. } => panic!("a count"),
    }
}

#[test]
fn update_writes_and_counts_rows() {
    let query = "UPDATE t SET x=1 WHERE id=5";
    assert!(!is_select(query));
    match write_result(1) {
        ExecuteResult::Write { updated_rows } => assert_eq!(updated_rows, 1),
        ExecuteResult::Read { .. } => panic!("records"),
    }
    match write_result(u64::MAX) {
        ExecuteResult::Write { updated_rows } => assert_eq!(updated_rows, u64::MAX),
        ExecuteResult::Read { .. } => panic!("records"),
    }
}
