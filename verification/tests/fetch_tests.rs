use duckview::fetch::FetchSession;
use duckview::format::CellValue;
use duckview::model::{
    FetchError, Filename, PageNumber, PageSize, SortIndex, SortOrder, StatementKind,
};

fn started(path: &str, page: i32, size: i32, sort: i32, order: i32) -> FetchSession {
    FetchSession::start(
        Filename(String::from(path)),
        PageNumber(page),
        PageSize(size),
        SortIndex(sort),
        SortOrder(order),
    )
    .unwrap_or_else(|_| panic!("expected the session to start"))
}

fn cell_row(id: i128, name: &str) -> Vec<Result<CellValue, String>> {
    vec![
        Ok(CellValue::Int(id)),
        Ok(CellValue::Text(String::from(name))),
    ]
}

#[test]
fn full_exchange_yields_one_page() {
    let mut s = started("data.parquet", 1, 2, -1, 0);
    assert_eq!(
        s.plan.schema_sql,
        "SELECT * FROM parquet_scan('data.parquet') LIMIT 1"
    );
    s.on_schema(vec![
        (String::from("id"), String::from("Int32")),
        (String::from("name"), String::from("Utf8")),
    ]);
    s.on_row(cell_row(1, "Product A"));
    s.on_row(cell_row(2, "Product B"));
    let r = s.finish(Some(5), 1234);
    assert_eq!(r.column_names, vec!["id\n(Int32)", "name\n(Utf8)"]);
    assert_eq!(r.rows.len(), 2);
    assert_eq!(r.rows[0], vec!["1", "Product A"]);
    assert_eq!(r.rows[1], vec!["2", "Product B"]);
    assert_eq!(r.row_count, 5);
    assert_eq!(r.duration_nanos, 1234);
}

#[test]
fn an_overfull_drain_is_cut_to_the_page_size() {
    let mut s = started("data.parquet", 1, 2, -1, 0);
    s.on_schema(vec![
        (String::from("id"), String::from("Int32")),
        (String::from("name"), String::from("Utf8")),
    ]);
    for i in 0..5 {
        s.on_row(cell_row(i + 1, "row"));
    }
    let r = s.finish(Some(5), 0);
    assert_eq!(r.rows.len(), 2);
    assert_eq!(r.rows[0][0], "1");
    assert_eq!(r.rows[1][0], "2");
}

#[test]
fn a_missing_count_row_yields_minus_one() {
    let mut s = started("data.csv", 1, 10, -1, 0);
    s.on_schema(vec![(String::from("id"), String::from("Int64"))]);
    let r = s.finish(None, 0);
    assert_eq!(r.row_count, -1);
    assert_eq!(r.rows.len(), 0);
}

#[test]
fn failures_carry_their_statement_and_path() {
    let s = started("data.parquet", 1, 10, -1, 0);
    let e = s.prepare_failed(StatementKind::SchemaSample, String::from("syntax"));
    match e {
        FetchError::PrepareError { statement, path, detail } => {
            assert!(matches!(statement, StatementKind::SchemaSample));
            assert_eq!(path, "data.parquet");
            assert_eq!(detail, "syntax");
        }
        _ => panic!("expected a prepare failure"),
    }
    let e = s.execution_failed(StatementKind::PageData, String::from("io"));
    match e {
        FetchError::ExecutionError { statement, path, detail } => {
            assert!(matches!(statement, StatementKind::PageData));
            assert_eq!(path, "data.parquet");
            assert_eq!(detail, "io");
        }
        _ => panic!("expected an execution failure"),
    }
}

#[test]
fn a_session_never_starts_for_a_bad_request() {
    let r = FetchSession::start(
        Filename(String::from("data.parquet")),
        PageNumber(0),
        PageSize(10),
        SortIndex(-1),
        SortOrder(0),
    );
    assert!(matches!(r, Err(FetchError::InvalidPage)));
    let r = FetchSession::start(
        Filename(String::from("data.json")),
        PageNumber(1),
        PageSize(10),
        SortIndex(-1),
        SortOrder(0),
    );
    assert!(matches!(r, Err(FetchError::UnsupportedFileType)));
}

#[test]
fn unreadable_cells_keep_the_row_aligned() {
    let mut s = started("data.parquet", 1, 10, -1, 0);
    s.on_schema(vec![
        (String::from("id"), String::from("Int32")),
        (String::from("name"), String::from("Utf8")),
    ]);
    s.on_row(vec![
        Ok(CellValue::Int(1)),
        Err(String::from("unreadable cell")),
    ]);
    let r = s.finish(Some(1), 0);
    assert_eq!(r.rows[0].len(), r.column_names.len());
    assert_eq!(r.rows[0][1], "Error: unreadable cell");
}
