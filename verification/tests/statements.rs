use mssql_adapter::statement::{classify, has_select_prefix, is_select, is_whitespace, trim, Statement};

#[test]
fn whitespace_is_that_of_the_standard_library() {
    for code in 0u32..=0x10FFFF {
        if let Some(c) = char::from_u32(code) {
            assert_eq!(is_whitespace(c), c.is_whitespace(), "U+{:04X}", code);
        }
    }
}

#[test]
fn trim_is_that_of_the_standard_library() {
    let samples = [
        "",
        " ",
        "   \t\n",
        "a",
        " a",
        "a ",
        "  SELECT 1  ",
        "\n\tSELECT *\n FROM t \r\n",
        "\u{3000}über\u{a0}",
        "a b  c",
        " \u{200b} ",
        "\u{2028}x\u{2029}",
    ];
    for sample in samples {
        assert_eq!(trim(sample), sample.trim(), "{:?}", sample);
    }
}

#[test]
fn select_prefix_needs_the_whole_keyword() {
    assert!(has_select_prefix("SELECT"));
    assert!(has_select_prefix("SELECT 1"));
    assert!(has_select_prefix("SELECTED"));
    assert!(!has_select_prefix("SELEC"));
    assert!(!has_select_prefix(""));
    assert!(!has_select_prefix("select"));
    assert!(!has_select_prefix(" SELECT"));
    assert!(!has_select_prefix("SELECS 1"));
    assert!(!has_select_prefix("XELECT 1"));
}

#[test]
fn select_in_any_case_reads() {
    assert!(is_select("SELECT 1"));
    assert!(is_select("select 1"));
    assert!(is_select("SeLeCt * FROM t"));
    assert!(is_select("   \n\tselect 1"));
    assert!(is_select("select"));
}

#[test]
fn other_statements_write() {
    assert!(!is_select("UPDATE t SET x=1 WHERE id=5"));
    assert!(!is_select("INSERT INTO t SELECT 1"));
    assert!(!is_select("DELETE FROM t"));
    assert!(!is_select(""));
    assert!(!is_select("   "));
    assert!(!is_select("(SELECT 1)"));
    assert!(!is_select("selec"));
    assert!(!is_select("WITH x AS (SELECT 1) SELECT * FROM x"));
}

#[test]
fn select_agrees_with_upper_casing_the_trimmed_text() {
    let samples = ["select 1", " Select", "ſelect 1", "sEleCt", "selectively", "se lect", "ＳＥＬＥＣＴ"];
    for sample in samples {
        assert_eq!(
            is_select(sample),
            sample.trim().to_uppercase().starts_with("SELECT"),
            "{:?}",
            sample
        );
    }
}

#[test]
fn classified_statement_is_trimmed() {
    match classify("  select * from t\n") {
        Statement::Read(text) => assert_eq!(text, "select * from t"),
        Statement::Write(text) => panic!("writes: {}", text),
    }
    match classify("\tDELETE FROM t ") {
        Statement::Write(text) => assert_eq!(text, "DELETE FROM t"),
        Statement::Read(text) => panic!("reads: {}", text),
    }
    match classify("") {
        Statement::Write(text) => assert_eq!(text, ""),
        Statement::Read(text) => panic!("reads: {}", text),
    }
}
