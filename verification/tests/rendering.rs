use mssql_adapter::coercion::{coerce, Probe, Probes, UnsupportedColumnType};
use mssql_adapter::text::{null_marker, render_bool, render_signed};

fn none() -> Probes {
    Probes {
        text: Probe::Failed,
        tiny: Probe::Failed,
        small: Probe::Failed,
        int: Probe::Failed,
        big: Probe::Failed,
        single: Probe::Failed,
        double: Probe::Failed,
        boolean: Probe::Failed,
    }
}

fn shown(probes: &Probes) -> String {
    match coerce("c", "t", probes) {
        Ok(text) => text,
        Err(error) => panic!("{}", error.message()),
    }
}

#[test]
fn signed_integers_render_as_to_string() {
    let samples: Vec<i64> = vec![
        0,
        1,
        -1,
        9,
        10,
        -10,
        99,
        100,
        12345,
        -98765,
        i8::MIN as i64,
        i8::MAX as i64,
        i16::MIN as i64,
        i16::MAX as i64,
        i32::MIN as i64,
        i32::MAX as i64,
        i64::MIN,
        i64::MIN + 1,
        i64::MAX,
    ];
    for v in samples {
        assert_eq!(render_signed(v), v.to_string());
    }
}

#[test]
fn every_eight_bit_integer_renders_as_to_string() {
    for v in i8::MIN..=i8::MAX {
        assert_eq!(render_signed(v as i64), v.to_string());
    }
}

#[test]
fn booleans_render_as_to_string() {
    assert_eq!(render_bool(true), "true");
    assert_eq!(render_bool(false), "false");
    assert_eq!(render_bool(true), true.to_string());
}

#[test]
fn null_marker_is_upper_case_null() {
    assert_eq!(null_marker(), "NULL");
}

#[test]
fn present_text_is_shown_as_it_is() {
    let mut probes = none();
    probes.text = Probe::Value("héllo wörld".to_string());
    assert_eq!(shown(&probes), "héllo wörld");
    probes.text = Probe::Value(String::new());
    assert_eq!(shown(&probes), "");
}

#[test]
fn present_integers_are_shown_in_decimal() {
    let mut probes = none();
    probes.tiny = Probe::Value(-128);
    assert_eq!(shown(&probes), "-128");
    let mut probes = none();
    probes.small = Probe::Value(32767);
    assert_eq!(shown(&probes), "32767");
    let mut probes = none();
    probes.int = Probe::Value(-2147483648);
    assert_eq!(shown(&probes), "-2147483648");
    let mut probes = none();
    probes.big = Probe::Value(9223372036854775807);
    assert_eq!(shown(&probes), "9223372036854775807");
}

#[test]
fn present_reals_are_shown_as_rendered() {
    let mut probes = none();
    probes.single = Probe::Value(1.5f32.to_string());
    assert_eq!(shown(&probes), "1.5");
    let mut probes = none();
    probes.double = Probe::Value((-0.25f64).to_string());
    assert_eq!(shown(&probes), "-0.25");
}

#[test]
fn present_booleans_are_shown_as_words() {
    let mut probes = none();
    probes.boolean = Probe::Value(true);
    assert_eq!(shown(&probes), "true");
    probes.boolean = Probe::Value(false);
    assert_eq!(shown(&probes), "false");
}

#[test]
fn absent_value_of_each_candidate_is_null() {
    let mut probes = none();
    probes.text = Probe::Null;
    assert_eq!(shown(&probes), "NULL");
    let mut probes = none();
    probes.tiny = Probe::Null;
    assert_eq!(shown(&probes), "NULL");
    let mut probes = none();
    probes.small = Probe::Null;
    assert_eq!(shown(&probes), "NULL");
    let mut probes = none();
    probes.int = Probe::Null;
    assert_eq!(shown(&probes), "NULL");
    let mut probes = none();
    probes.big = Probe::Null;
    assert_eq!(shown(&probes), "NULL");
    let mut probes = none();
    probes.single = Probe::Null;
    assert_eq!(shown(&probes), "NULL");
    let mut probes = none();
    probes.double = Probe::Null;
    assert_eq!(shown(&probes), "NULL");
    let mut probes = none();
    probes.boolean = Probe::Null;
    assert_eq!(shown(&probes), "NULL");
}

#[test]
fn first_candidate_that_decodes_wins() {
    let probes = Probes {
        text: Probe::Failed,
        tiny: Probe::Failed,
        small: Probe::Value(7),
        int: Probe::Value(8),
        big: Probe::Null,
        single: Probe::Value("9".to_string()),
        double: Probe::Failed,
        boolean: Probe::Value(true),
    };
    assert_eq!(shown(&probes), "7");
    let probes = Probes {
        text: Probe::Null,
        tiny: Probe::Value(1),
        small: Probe::Value(2),
        int: Probe::Value(3),
        big: Probe::Value(4),
        single: Probe::Value("5".to_string()),
        double: Probe::Value("6".to_string()),
        boolean: Probe::Value(false),
    };
    assert_eq!(shown(&probes), "NULL");
    let probes = Probes {
        text: Probe::Failed,
        tiny: Probe::Failed,
        small: Probe::Failed,
        int: Probe::Failed,
        big: Probe::Failed,
        single: Probe::Failed,
        double: Probe::Value("2.5".to_string()),
        boolean: Probe::Value(false),
    };
    assert_eq!(shown(&probes), "2.5");
}

#[test]
fn cell_of_no_candidate_type_is_refused() {
    let result = coerce("created_at", "DATETIME", &none());
    match result {
        Ok(text) => panic!("coerced to {}", text),
        Err(error) => {
            assert_eq!(error.column, "created_at");
            assert_eq!(error.reported_type, "DATETIME");
            assert_eq!(error.message(), "column type not implemented: `created_at` DATETIME");
        }
    }
}

#[test]
fn unsupported_column_type_keeps_its_parts() {
    let error = UnsupportedColumnType::new("payload", "VARBINARY");
    assert_eq!(error.column, "payload");
    assert_eq!(error.reported_type, "VARBINARY");
    assert_eq!(error.message(), format!("column type not implemented: `{}` {}", "payload", "VARBINARY"));
}
