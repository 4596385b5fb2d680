use duckview::model::{FetchError, Filename, PageNumber, PageSize, SortIndex, SortOrder};
use duckview::query::{file_exists, get_file_extension, plan_fetch};

#[test]
fn extension_is_lowercased_and_dotless() {
    assert_eq!(get_file_extension("data.parquet"), "parquet");
    assert_eq!(get_file_extension("/path/to/file.CSV"), "csv");
    assert_eq!(get_file_extension("no_extension"), "");
    assert_eq!(get_file_extension("trailing."), "");
    assert_eq!(get_file_extension(""), "");
    assert_eq!(get_file_extension(".hidden"), "hidden");
    assert_eq!(get_file_extension("a.b.PARQUET"), "parquet");
}

#[test]
fn sorted_parquet_page_statements() {
    let plan = plan_fetch(
        &Filename(String::from("data.parquet")),
        &PageNumber(2),
        &PageSize(10),
        &SortIndex(1),
        &SortOrder(1),
    )
    .unwrap_or_else(|_| panic!("expected a plan"));
    assert_eq!(plan.scan_function, "parquet_scan");
    assert_eq!(
        plan.page_sql,
        "SELECT * FROM parquet_scan('data.parquet') ORDER BY 1 ASC LIMIT 10 OFFSET 10"
    );
    assert_eq!(
        plan.schema_sql,
        "SELECT * FROM parquet_scan('data.parquet') LIMIT 1"
    );
    assert_eq!(
        plan.count_sql,
        "SELECT count(1) count FROM parquet_scan('data.parquet')"
    );
}

#[test]
fn unsorted_csv_page_statement() {
    let plan = plan_fetch(
        &Filename(String::from("rows.csv")),
        &PageNumber(1),
        &PageSize(20),
        &SortIndex(-1),
        &SortOrder(0),
    )
    .unwrap_or_else(|_| panic!("expected a plan"));
    assert_eq!(plan.scan_function, "read_csv_auto");
    assert_eq!(
        plan.page_sql,
        "SELECT * FROM read_csv_auto('rows.csv') LIMIT 20 OFFSET 0"
    );
}

#[test]
fn sort_index_zero_means_unsorted() {
    let plan = plan_fetch(
        &Filename(String::from("rows.csv")),
        &PageNumber(1),
        &PageSize(5),
        &SortIndex(0),
        &SortOrder(1),
    )
    .unwrap_or_else(|_| panic!("expected a plan"));
    assert_eq!(
        plan.page_sql,
        "SELECT * FROM read_csv_auto('rows.csv') LIMIT 5 OFFSET 0"
    );
}

#[test]
fn direction_code_outside_one_and_two_renders_empty() {
    let plan = plan_fetch(
        &Filename(String::from("rows.csv")),
        &PageNumber(1),
        &PageSize(5),
        &SortIndex(2),
        &SortOrder(0),
    )
    .unwrap_or_else(|_| panic!("expected a plan"));
    assert_eq!(
        plan.page_sql,
        "SELECT * FROM read_csv_auto('rows.csv') ORDER BY 2  LIMIT 5 OFFSET 0"
    );
}

#[test]
fn ascending_and_descending_differ_only_in_keyword() {
    let asc = plan_fetch(
        &Filename(String::from("data.parquet")),
        &PageNumber(1),
        &PageSize(10),
        &SortIndex(1),
        &SortOrder(1),
    )
    .unwrap_or_else(|_| panic!("expected a plan"));
    let desc = plan_fetch(
        &Filename(String::from("data.parquet")),
        &PageNumber(1),
        &PageSize(10),
        &SortIndex(1),
        &SortOrder(2),
    )
    .unwrap_or_else(|_| panic!("expected a plan"));
    assert_eq!(
        asc.page_sql.replace(" ASC ", " DESC "),
        desc.page_sql
    );
}

#[test]
fn quotes_in_the_path_are_doubled() {
    let plan = plan_fetch(
        &Filename(String::from("it's.csv")),
        &PageNumber(1),
        &PageSize(1),
        &SortIndex(-1),
        &SortOrder(0),
    )
    .unwrap_or_else(|_| panic!("expected a plan"));
    assert_eq!(
        plan.count_sql,
        "SELECT count(1) count FROM read_csv_auto('it''s.csv')"
    );
}

#[test]
fn page_below_one_is_rejected_before_anything_else() {
    let r = plan_fetch(
        &Filename(String::from("data.parquet")),
        &PageNumber(0),
        &PageSize(10),
        &SortIndex(-1),
        &SortOrder(0),
    );
    assert!(matches!(r, Err(FetchError::InvalidPage)));
    // Even an unusable extension reports the page first.
    let r = plan_fetch(
        &Filename(String::from("data.txt")),
        &PageNumber(-3),
        &PageSize(10),
        &SortIndex(-1),
        &SortOrder(0),
    );
    assert!(matches!(r, Err(FetchError::InvalidPage)));
}

#[test]
fn unknown_extension_is_rejected() {
    let r = plan_fetch(
        &Filename(String::from("data.txt")),
        &PageNumber(1),
        &PageSize(10),
        &SortIndex(-1),
        &SortOrder(0),
    );
    assert!(matches!(r, Err(FetchError::UnsupportedFileType)));
    let r = plan_fetch(
        &Filename(String::from("no_extension")),
        &PageNumber(1),
        &PageSize(10),
        &SortIndex(-1),
        &SortOrder(0),
    );
    assert!(matches!(r, Err(FetchError::UnsupportedFileType)));
}

#[test]
fn missing_files_do_not_exist() {
    assert!(!file_exists("no_such_file_anywhere.parquet"));
    assert!(!file_exists(""));
}
