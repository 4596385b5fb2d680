use vstd::prelude::*;

verus! {

/// One-based page index into a query's full result set.
pub struct PageNumber(pub i32);

/// Number of rows in one page.
pub struct PageSize(pub i32);

/// One-based column to sort by; zero or negative means no sorting.
pub struct SortIndex(pub i32);

/// Sort direction code: 1 ascending, 2 descending, anything else unsorted.
pub struct SortOrder(pub i32);

/// Path of the file to scan.
pub struct Filename(pub String);

/// Resolution of a timestamp or time-of-day value.
#[derive(Clone, Copy, PartialEq, Eq, Structural)]
pub enum TimeUnit {
    Second,
    Millisecond,
    Microsecond,
    Nanosecond,
}

/// Which of the three statements of one fetch a failure belongs to.
#[derive(Clone, Copy, PartialEq, Eq, Structural)]
pub enum StatementKind {
    /// The statement that reads one page of rows.
    PageData,
    /// The one-row statement that exposes column names and types.
    SchemaSample,
    /// The statement that counts all rows of the file.
    RowCount,
}

/// Why a fetch produced no result.
pub enum FetchError {
    /// The page number was below one; nothing was executed.
    InvalidPage,
    /// The file's extension names no known scan function; nothing was executed.
    UnsupportedFileType,
    /// The in-memory engine session could not be opened.
    ConnectionError { detail: String },
    /// One of the three statements failed to compile.
    PrepareError { statement: StatementKind, path: String, detail: String },
    /// Execution or row iteration of one of the three statements failed.
    ExecutionError { statement: StatementKind, path: String, detail: String },
}

/// One page of results: rendered column headers, formatted row cells,
/// the file's total row count (-1 when unobtainable), and how long the
/// page statement's execute-and-drain phase took.
pub struct QueryResult {
    pub column_names: Vec<String>,
    pub rows: Vec<Vec<String>>,
    pub row_count: i64,
    pub duration_nanos: u64,
}

} // verus!
