//! The fetch protocol: one session per call, three statements in a fixed
//! order, every decision verified.
//!
//! The caller owns the engine I/O and drives one `FetchSession` through it:
//! it opens a session, runs the schema statement and hands back the columns,
//! runs the page statement and hands back each row, and closes with the
//! count statement's single value. Every failure on the way maps to an error
//! attributed to its statement and file path; everything handed back flows
//! through the verified formatter and aggregator.

use vstd::math::min;
use vstd::prelude::*;

use crate::format::{format_row, outcome_text, CellValue};
use crate::model::{
    FetchError, Filename, PageNumber, PageSize, QueryResult, SortIndex, SortOrder, StatementKind,
};
use crate::page::{assemble_page, header_text, page_cap, render_headers};
use crate::query::{
    count_sql_text, extension_text, page_sql_text, plan_fetch, scan_function_text,
    schema_sql_text, QueryPlan,
};

verus! {

/// One fetch call in flight: the planned statements, the columns and rows
/// collected so far, and the request data the final page is shaped by.
pub struct FetchSession {
    pub plan: QueryPlan,
    pub path: String,
    pub page_size: PageSize,
    pub headers: Vec<String>,
    pub rows: Vec<Vec<String>>,
}

impl FetchSession {
    /// Every collected row has exactly one cell per collected column.
    pub open spec fn wf(self) -> bool {
        forall|i: int|
            0 <= i < self.rows@.len() ==> (#[trigger] self.rows@[i])@.len()
                == self.headers@.len()
    }

    /// Validates one fetch request and opens a session plan for it. A page
    /// number below one fails first, an unrecognized extension second, and
    /// a rejected request plans nothing: no statement exists to execute.
    pub fn start(
        filename: Filename,
        page_number: PageNumber,
        page_size: PageSize,
        sort_index: SortIndex,
        sort_order: SortOrder,
    ) -> (r: Result<FetchSession, FetchError>)
        ensures
            (r matches Ok(_)) <==> (page_number.0 >= 1 && scan_function_text(
                extension_text(filename.0@),
            ) is Some),
            (r matches Err(FetchError::InvalidPage)) <==> page_number.0 < 1,
            (r matches Err(FetchError::UnsupportedFileType)) <==> (page_number.0 >= 1
                && scan_function_text(extension_text(filename.0@)) is None),
            r matches Ok(s) ==> {
                &&& s.wf()
                &&& s.path@ == filename.0@
                &&& s.page_size.0 == page_size.0
                &&& scan_function_text(extension_text(filename.0@)) == Some(s.plan.scan_function@)
                &&& s.plan.page_sql@ == page_sql_text(
                    s.plan.scan_function@,
                    filename.0@,
                    sort_index.0 as int,
                    sort_order.0 as int,
                    page_number.0 as int,
                    page_size.0 as int,
                )
                &&& s.plan.schema_sql@ == schema_sql_text(s.plan.scan_function@, filename.0@)
                &&& s.plan.count_sql@ == count_sql_text(s.plan.scan_function@, filename.0@)
                &&& s.headers@.len() == 0
                &&& s.rows@.len() == 0
            },
    {
        let plan = match plan_fetch(&filename, &page_number, &page_size, &sort_index, &sort_order) {
            Ok(p) => p,
            Err(e) => {
                return Err(e);
            },
        };
        Ok(
            FetchSession {
                plan,
                path: filename.0,
                page_size,
                headers: Vec::new(),
                rows: Vec::new(),
            },
        )
    }

    /// The error for a statement that failed to compile, attributed to that
    /// statement and to the session's file path.
    pub fn prepare_failed(&self, statement: StatementKind, detail: String) -> (r: FetchError)
        ensures
            r == (FetchError::PrepareError { statement, path: self.path, detail }),
    {
        FetchError::PrepareError { statement, path: self.path.clone(), detail }
    }

    /// The error for a statement that failed while executing or while its
    /// rows were read, attributed in the same way.
    pub fn execution_failed(&self, statement: StatementKind, detail: String) -> (r: FetchError)
        ensures
            r == (FetchError::ExecutionError { statement, path: self.path, detail }),
    {
        FetchError::ExecutionError { statement, path: self.path.clone(), detail }
    }

    /// Takes the schema statement's columns and renders one header per
    /// column, in the engine's order.
    pub fn on_schema(&mut self, schema: Vec<(String, String)>)
        requires
            old(self).wf(),
            old(self).rows@.len() == 0,
        ensures
            final(self).wf(),
            final(self).headers@.len() == schema@.len(),
            forall|i: int|
                0 <= i < schema@.len() ==> final(self).headers@[i]@ == header_text(
                    schema@[i].0@,
                    schema@[i].1@,
                ),
            final(self).rows == old(self).rows,
            final(self).plan == old(self).plan,
            final(self).path == old(self).path,
            final(self).page_size == old(self).page_size,
    {
        self.headers = render_headers(&schema);
    }

    /// Takes one row of the page statement, cell by cell as the engine read
    /// them, and appends its formatted form: the count and order of the
    /// cells are kept, and an unreadable cell degrades to an inline error
    /// string rather than failing the row.
    pub fn on_row(&mut self, cells: Vec<Result<CellValue, String>>)
        requires
            old(self).wf(),
            cells@.len() == old(self).headers@.len(),
        ensures
            final(self).wf(),
            final(self).rows@.len() == old(self).rows@.len() + 1,
            forall|j: int|
                0 <= j < old(self).rows@.len() ==> final(self).rows@[j] == old(self).rows@[j],
            final(self).rows@.last()@.len() == cells@.len(),
            forall|j: int|
                0 <= j < cells@.len() ==> final(self).rows@.last()@[j]@ == outcome_text(
                    cells@[j],
                ),
            final(self).headers == old(self).headers,
            final(self).plan == old(self).plan,
            final(self).path == old(self).path,
            final(self).page_size == old(self).page_size,
    {
        let row = format_row(cells);
        self.rows.push(row);
    }

    /// Closes the session with the count statement's single value, or none
    /// when it returned no row: an absent count is not a failure and yields
    /// a total of -1. The collected rows are cut to the page cap; the result
    /// is complete, or the caller failed earlier with no result at all.
    pub fn finish(self, count_row: Option<i64>, duration_nanos: u64) -> (r: QueryResult)
        requires
            self.wf(),
        ensures
            r.column_names == self.headers,
            r.rows@.len() == min(self.rows@.len() as int, page_cap(self.page_size.0 as int)),
            r.rows@ == self.rows@.take(
                min(self.rows@.len() as int, page_cap(self.page_size.0 as int)),
            ),
            forall|i: int|
                0 <= i < r.rows@.len() ==> (#[trigger] r.rows@[i])@.len()
                    == r.column_names@.len(),
            r.row_count == match count_row {
                Some(v) => v as int,
                None => -1,
            },
            r.duration_nanos == duration_nanos,
    {
        let total: i64 = match count_row {
            Some(v) => v,
            None => -1,
        };
        assemble_page(self.headers, self.rows, total, duration_nanos, &self.page_size)
    }
}

} // verus!
