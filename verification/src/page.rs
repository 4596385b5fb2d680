//! The result aggregator: rendered column headers, the page cap on rows,
//! and the page count shown for a total row count.

use vstd::arithmetic::div_mod::{lemma_div_basics, lemma_div_decreases, lemma_div_is_ordered_by_denominator};
use vstd::math::min;
use vstd::prelude::*;

use crate::model::{PageSize, QueryResult};
use crate::textutil::{before_paren, trimmed, type_prefix};

verus! {

/// The rendered header of one column: its name, a line break, and its type
/// name in parentheses, the type cut at its first parenthesis and trimmed.
pub open spec fn header_text(name: Seq<char>, ty: Seq<char>) -> Seq<char> {
    name + "\n("@ + trimmed(before_paren(ty)) + ")"@
}

/// Renders one column header from the engine's column name and type text.
pub fn render_header(name: &str, ty: &str) -> (r: String)
    ensures
        r@ == header_text(name@, ty@),
{
    let mut r = name.to_owned();
    r.append("\n(");
    let prefix = type_prefix(ty);
    r.append(prefix.as_str());
    r.append(")");
    proof {
        assert(r@ =~= header_text(name@, ty@));
    }
    r
}

/// Renders every column header of a schema, keeping count and order.
pub fn render_headers(schema: &Vec<(String, String)>) -> (r: Vec<String>)
    ensures
        r@.len() == schema@.len(),
        forall|i: int|
            0 <= i < r@.len() ==> r@[i]@ == header_text(schema@[i].0@, schema@[i].1@),
{
    let mut out: Vec<String> = Vec::new();
    let mut i: usize = 0;
    while i < schema.len()
        invariant
            i <= schema@.len(),
            out@.len() == i,
            forall|k: int|
                0 <= k < i ==> out@[k]@ == header_text(schema@[k].0@, schema@[k].1@),
        decreases schema@.len() - i,
    {
        let pair = &schema[i];
        out.push(render_header(pair.0.as_str(), pair.1.as_str()));
        i = i + 1;
    }
    out
}

/// How many rows one page may hold: the page size, or none at all for a
/// page size of zero or below.
pub open spec fn page_cap(page_size: int) -> int {
    if page_size <= 0 {
        0
    } else {
        page_size
    }
}

/// Packages one page: the headers, the drained rows cut to the page cap,
/// the total row count (-1 when unobtainable) and the measured duration.
/// Either a complete result or, upstream, an error: nothing partial.
pub fn assemble_page(
    column_names: Vec<String>,
    rows: Vec<Vec<String>>,
    row_count: i64,
    duration_nanos: u64,
    page_size: &PageSize,
) -> (r: QueryResult)
    requires
        forall|i: int| 0 <= i < rows@.len() ==> (#[trigger] rows@[i])@.len() == column_names@.len(),
    ensures
        r.column_names == column_names,
        r.rows@.len() == min(rows@.len() as int, page_cap(page_size.0 as int)),
        r.rows@ == rows@.take(min(rows@.len() as int, page_cap(page_size.0 as int))),
        forall|i: int|
            0 <= i < r.rows@.len() ==> (#[trigger] r.rows@[i])@.len() == r.column_names@.len(),
        r.row_count == row_count,
        r.duration_nanos == duration_nanos,
{
    let mut rows = rows;
    let cap: usize = if page_size.0 <= 0 {
        0
    } else {
        page_size.0 as usize
    };
    let ghost full = rows@;
    rows.truncate(cap);
    proof {
        if cap > full.len() {
            assert(full.take(min(full.len() as int, page_cap(page_size.0 as int))) =~= full);
        }
    }
    QueryResult { column_names, rows, row_count, duration_nanos }
}

/// The page count displayed for a total row count: the truncating quotient
/// of the count by the page size, plus one. An exact division yields one
/// page more than the rows fill; that is the behaviour callers expect.
/// An unobtainable count of -1 yields one page, as its truncating quotient
/// is zero.
pub open spec fn page_count_value(total: int, size: int) -> int {
    if total >= 0 {
        total / size + 1
    } else {
        1
    }
}

/// Computes the displayed page count.
pub fn page_count(row_count: i64, page_size: &PageSize) -> (r: i64)
    requires
        row_count >= -1,
        page_size.0 >= 1,
        !(row_count == i64::MAX && page_size.0 == 1),
    ensures
        r as int == page_count_value(row_count as int, page_size.0 as int),
{
    if row_count >= 0 {
        let q: u64 = (row_count as u64) / (page_size.0 as u64);
        proof {
            lemma_div_basics(row_count as int);
            lemma_div_is_ordered_by_denominator(row_count as int, 1, page_size.0 as int);
            if page_size.0 > 1 && row_count > 0 {
                lemma_div_decreases(row_count as int, page_size.0 as int);
            }
        }
        (q as i64) + 1
    } else {
        1
    }
}

} // verus!
