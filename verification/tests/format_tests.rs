use duckview::format::{format_cell, format_outcome, format_row, CellValue};
use duckview::model::TimeUnit;

#[test]
fn null_and_bool_cells() {
    assert_eq!(format_cell(CellValue::Null), "NULL");
    assert_eq!(format_cell(CellValue::Bool(true)), "true");
    assert_eq!(format_cell(CellValue::Bool(false)), "false");
}

#[test]
fn integer_cells() {
    assert_eq!(format_cell(CellValue::Int(0)), "0");
    assert_eq!(format_cell(CellValue::Int(-42)), "-42");
    assert_eq!(
        format_cell(CellValue::Int(i128::MIN)),
        "-170141183460469231731687303715884105728"
    );
    assert_eq!(
        format_cell(CellValue::UInt(u128::MAX)),
        "340282366920938463463374607431768211455"
    );
    assert_eq!(format_cell(CellValue::Int(9_223_372_036_854_775_807)), "9223372036854775807");
}

#[test]
fn decimal_cells() {
    assert_eq!(
        format_cell(CellValue::Decimal { scale: 2, value: 12345 }),
        "123.45"
    );
    assert_eq!(
        format_cell(CellValue::Decimal { scale: 2, value: -5 }),
        "-0.05"
    );
    assert_eq!(
        format_cell(CellValue::Decimal { scale: 0, value: -12345 }),
        "-12345"
    );
    assert_eq!(format_cell(CellValue::Decimal { scale: 2, value: 99 }), "0.99");
    assert_eq!(format_cell(CellValue::Decimal { scale: 4, value: 7 }), "0.0007");
}

#[test]
fn text_real_and_enum_cells() {
    assert_eq!(
        format_cell(CellValue::Text(String::from("hello"))),
        "hello"
    );
    assert_eq!(format_cell(CellValue::Real(String::from("19.99"))), "19.99");
    assert_eq!(
        format_cell(CellValue::Enum(String::from("red"))),
        "red"
    );
}

#[test]
fn short_blob_renders_unmodified() {
    // "hello" encodes to "aGVsbG8=", 8 characters, well under the cap.
    let b: Vec<u8> = vec![b'h', b'e', b'l', b'l', b'o'];
    assert_eq!(format_cell(CellValue::Blob(b)), "aGVsbG8=");
}

#[test]
fn long_blob_truncates_to_25_chars_and_ellipsis() {
    // 24 bytes encode to 32 base64 characters.
    let b: Vec<u8> = vec![0u8; 24];
    let rendered = format_cell(CellValue::Blob(b));
    assert_eq!(rendered, format!("{}...", "A".repeat(25)));
    assert_eq!(rendered.len(), 28);
}

#[test]
fn blob_at_cap_renders_unmodified() {
    // 18 bytes encode to exactly 24 characters; 19 bytes need 28 and truncate.
    let just_under: Vec<u8> = vec![0u8; 18];
    assert_eq!(format_cell(CellValue::Blob(just_under)), "A".repeat(24));
    let over: Vec<u8> = vec![0u8; 19];
    assert_eq!(
        format_cell(CellValue::Blob(over)),
        format!("{}...", "A".repeat(25))
    );
}

#[test]
fn temporal_cells() {
    assert_eq!(format_cell(CellValue::Date32(19275)), "2022-10-10");
    assert_eq!(
        format_cell(CellValue::Timestamp(TimeUnit::Millisecond, 0)),
        "1970-01-01T00:00:00.000+00:00"
    );
    assert_eq!(
        format_cell(CellValue::Time64(TimeUnit::Microsecond, 3_661_000_000)),
        "01:01:01.000000"
    );
}

#[test]
fn interval_cell_is_a_fixed_placeholder() {
    assert_eq!(
        format_cell(CellValue::Interval { months: 1, days: 2, nanos: 3 }),
        "Interval"
    );
}

#[test]
fn nested_cell_drops_spaces_and_newlines() {
    let dump = String::from("[\n    Int(1),\n    Int(2),\n]");
    assert_eq!(format_cell(CellValue::Nested(dump)), "[Int(1),Int(2),]");
}

#[test]
fn unreadable_cell_renders_inline_error() {
    let out = format_outcome(Err(String::from("bad column")));
    assert_eq!(out, "Error: bad column");
}

#[test]
fn rows_format_cell_by_cell_in_order() {
    let cells: Vec<Result<CellValue, String>> = vec![
        Ok(CellValue::Int(5)),
        Ok(CellValue::Text(String::from("Product E"))),
        Err(String::from("boom")),
    ];
    let row = format_row(cells);
    assert_eq!(row.len(), 3);
    assert_eq!(row[0], "5");
    assert_eq!(row[1], "Product E");
    assert_eq!(row[2], "Error: boom");
}
