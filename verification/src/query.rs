//! The query builder: from a fetch request to the three SQL statements of
//! one page fetch, with the file path escaped and the scan function chosen
//! by the file's extension.

use vstd::prelude::*;

use crate::model::{FetchError, Filename, PageNumber, PageSize, SortIndex, SortOrder};
use crate::numtext::{i64_text, int_text};
use crate::textutil::{escape_quotes, escaped};

verus! {

/// The lowercased text of a string; what it is on given characters only the
/// lowercasing call knows.
pub uninterp spec fn lowercase_text(s: Seq<char>) -> Seq<char>;

/// Relies on str::to_lowercase: the lowercased text depends on the
/// characters alone, and an empty string stays empty.
#[verifier::external_body]
fn to_lowercase_text(s: &str) -> (r: String)
    ensures
        r@ == lowercase_text(s@),
        s@.len() == 0 ==> r@.len() == 0,
{
    s.to_lowercase()
}

/// Relies on std's Path::is_file: whether the path names an existing regular
/// file on disk at the moment of the call.
#[verifier::external_body]
pub fn file_exists(filename: &str) -> (r: bool) {
    std::path::Path::new(filename).is_file()
}

/// The suffix after the last dot: the whole text when it has no dot, empty
/// when it ends with a dot.
pub open spec fn after_last_dot(s: Seq<char>) -> Seq<char>
    decreases s.len(),
{
    if s.len() == 0 {
        Seq::empty()
    } else if s.last() == '.' {
        Seq::empty()
    } else {
        after_last_dot(s.drop_last()).push(s.last())
    }
}

/// The extension a path is judged by: the lowercased text after the last
/// dot, or empty when the path has no dot or ends with one.
pub open spec fn extension_text(s: Seq<char>) -> Seq<char> {
    let ext = after_last_dot(s);
    if (s.len() > 0 && s.last() == '.') || ext == s {
        Seq::empty()
    } else {
        lowercase_text(ext)
    }
}

proof fn lemma_after_last_dot_none(s: Seq<char>)
    requires
        forall|k: int| 0 <= k < s.len() ==> s[k] != '.',
    ensures
        after_last_dot(s) == s,
    decreases s.len(),
{
    if s.len() > 0 {
        lemma_after_last_dot_none(s.drop_last());
        assert(s.drop_last().push(s.last()) =~= s);
    }
}

proof fn lemma_after_last_dot_at(s: Seq<char>, p: int)
    requires
        0 <= p < s.len(),
        s[p] == '.',
        forall|k: int| p < k < s.len() ==> s[k] != '.',
    ensures
        after_last_dot(s) == s.skip(p + 1),
    decreases s.len(),
{
    if p == s.len() - 1 {
        assert(s.skip(p + 1) =~= Seq::<char>::empty());
    } else {
        lemma_after_last_dot_at(s.drop_last(), p);
        assert(s.drop_last().skip(p + 1).push(s.last()) =~= s.skip(p + 1));
    }
}

/// Extracts the lowercase file extension, without the dot; empty when the
/// path has none.
pub fn get_file_extension(filename: &str) -> (r: String)
    ensures
        r@ == extension_text(filename@),
{
    let n = filename.unicode_len();
    let mut j: usize = n;
    while j > 0 && filename.get_char(j - 1) != '.'
        invariant
            j <= n,
            n == filename@.len(),
            forall|k: int| j <= k < n ==> filename@[k] != '.',
        decreases j,
    {
        j = j - 1;
    }
    if j == 0 {
        proof {
            lemma_after_last_dot_none(filename@);
        }
        String::new()
    } else if j == n {
        String::new()
    } else {
        let raw = filename.substring_char(j, n);
        proof {
            lemma_after_last_dot_at(filename@, j - 1);
            assert(raw@ =~= filename@.skip(j as int));
            assert(after_last_dot(filename@).len() < filename@.len());
        }
        to_lowercase_text(raw)
    }
}

/// The scan function a recognized extension maps to: `parquet_scan` for
/// Parquet files, the auto-detecting `read_csv_auto` for CSV files, nothing
/// for anything else.
pub open spec fn scan_function_text(ext: Seq<char>) -> Option<Seq<char>> {
    if ext == "parquet"@ {
        Some("parquet_scan"@)
    } else if ext == "csv"@ {
        Some("read_csv_auto"@)
    } else {
        None
    }
}

fn scan_function_of(ext: &String) -> (r: Option<String>)
    ensures
        match r {
            Some(s) => scan_function_text(ext@) == Some(s@),
            None => scan_function_text(ext@) is None,
        },
{
    let parquet = "parquet".to_owned();
    let csv = "csv".to_owned();
    if *ext == parquet {
        Some("parquet_scan".to_owned())
    } else if *ext == csv {
        Some("read_csv_auto".to_owned())
    } else {
        None
    }
}

/// The direction keyword a sort-order code renders to: `ASC` for one, `DESC`
/// for two, nothing otherwise.
pub open spec fn direction_text(sort_order: int) -> Seq<char> {
    if sort_order == 1 {
        "ASC"@
    } else if sort_order == 2 {
        "DESC"@
    } else {
        Seq::empty()
    }
}

/// The `ORDER BY` clause of the page statement: present exactly when the
/// sort column index is positive, and always followed by a space and the
/// direction keyword.
pub open spec fn order_clause_text(sort_index: int, sort_order: int) -> Seq<char> {
    if sort_index > 0 {
        " ORDER BY "@ + int_text(sort_index) + " "@ + direction_text(sort_order)
    } else {
        Seq::empty()
    }
}

/// The scan call both halves of every statement share: the scan function
/// applied to the quoted, escaped file path.
pub open spec fn scan_call_text(scan: Seq<char>, path: Seq<char>) -> Seq<char> {
    scan + "('"@ + escaped(path) + "')"@
}

/// The pagination tail of the page statement.
pub open spec fn limit_offset_text(page_number: int, page_size: int) -> Seq<char> {
    " LIMIT "@ + int_text(page_size) + " OFFSET "@ + int_text((page_number - 1) * page_size)
}

/// The page-data statement.
pub open spec fn page_sql_text(
    scan: Seq<char>,
    path: Seq<char>,
    sort_index: int,
    sort_order: int,
    page_number: int,
    page_size: int,
) -> Seq<char> {
    "SELECT * FROM "@ + scan_call_text(scan, path) + order_clause_text(sort_index, sort_order)
        + limit_offset_text(page_number, page_size)
}

/// The schema-sample statement: the same scan, one row.
pub open spec fn schema_sql_text(scan: Seq<char>, path: Seq<char>) -> Seq<char> {
    "SELECT * FROM "@ + scan_call_text(scan, path) + " LIMIT 1"@
}

/// The row-count statement over the whole file.
pub open spec fn count_sql_text(scan: Seq<char>, path: Seq<char>) -> Seq<char> {
    "SELECT count(1) count FROM "@ + scan_call_text(scan, path)
}

/// The three statements of one fetch, plus the scan function they use.
pub struct QueryPlan {
    pub scan_function: String,
    pub page_sql: String,
    pub schema_sql: String,
    pub count_sql: String,
}

fn direction_str(sort_order: i32) -> (r: &'static str)
    ensures
        r@ == direction_text(sort_order as int),
{
    if sort_order == 1 {
        "ASC"
    } else if sort_order == 2 {
        "DESC"
    } else {
        proof {
            reveal_strlit("");
            assert(""@ =~= Seq::<char>::empty());
        }
        ""
    }
}

fn scan_call(scan: &String, escaped_path: &String, path: Ghost<Seq<char>>) -> (r: String)
    requires
        escaped_path@ == escaped(path@),
    ensures
        r@ == scan_call_text(scan@, path@),
{
    let mut r = scan.clone();
    r.append("('");
    r.append(escaped_path.as_str());
    r.append("')");
    proof {
        assert(r@ =~= scan_call_text(scan@, path@));
    }
    r
}

/// Validates one fetch request and renders its three statements. A page
/// number below one is rejected before anything else, an unrecognized
/// extension after that; nothing is rendered for a rejected request.
pub fn plan_fetch(
    filename: &Filename,
    page_number: &PageNumber,
    page_size: &PageSize,
    sort_index: &SortIndex,
    sort_order: &SortOrder,
) -> (r: Result<QueryPlan, FetchError>)
    ensures
        (r matches Ok(_)) <==> (page_number.0 >= 1 && scan_function_text(
            extension_text(filename.0@),
        ) is Some),
        (r matches Err(FetchError::InvalidPage)) <==> page_number.0 < 1,
        (r matches Err(FetchError::UnsupportedFileType)) <==> (page_number.0 >= 1
            && scan_function_text(extension_text(filename.0@)) is None),
        r matches Ok(p) ==> {
            &&& scan_function_text(extension_text(filename.0@)) == Some(p.scan_function@)
            &&& p.page_sql@ == page_sql_text(
                p.scan_function@,
                filename.0@,
                sort_index.0 as int,
                sort_order.0 as int,
                page_number.0 as int,
                page_size.0 as int,
            )
            &&& p.schema_sql@ == schema_sql_text(p.scan_function@, filename.0@)
            &&& p.count_sql@ == count_sql_text(p.scan_function@, filename.0@)
        },
{
    if page_number.0 < 1 {
        return Err(FetchError::InvalidPage);
    }
    let extension = get_file_extension(filename.0.as_str());
    let scan_function = match scan_function_of(&extension) {
        Some(s) => s,
        None => {
            return Err(FetchError::UnsupportedFileType);
        },
    };
    let escaped_path = escape_quotes(filename.0.as_str());
    let ghost path = filename.0@;
    let call = scan_call(&scan_function, &escaped_path, Ghost(path));

    let mut page_sql = "SELECT * FROM ".to_owned();
    page_sql.append(call.as_str());
    if sort_index.0 > 0 {
        page_sql.append(" ORDER BY ");
        let idx = i64_text(sort_index.0 as i64);
        page_sql.append(idx.as_str());
        page_sql.append(" ");
        page_sql.append(direction_str(sort_order.0));
    }
    page_sql.append(" LIMIT ");
    let size_text = i64_text(page_size.0 as i64);
    page_sql.append(size_text.as_str());
    page_sql.append(" OFFSET ");
    proof {
        assert((page_number.0 as int - 1) * (page_size.0 as int) < 0x8000_0000_0000_0000
            && -0x8000_0000_0000_0000 <= (page_number.0 as int - 1) * (page_size.0 as int))
            by (nonlinear_arith)
            requires
                -0x8000_0000 <= page_number.0 as int <= 0x7FFF_FFFF,
                -0x8000_0000 <= page_size.0 as int <= 0x7FFF_FFFF,
        ;
    }
    let offset: i64 = (page_number.0 as i64 - 1) * (page_size.0 as i64);
    let offset_text = i64_text(offset);
    page_sql.append(offset_text.as_str());
    proof {
        assert(page_sql@ =~= page_sql_text(
            scan_function@,
            filename.0@,
            sort_index.0 as int,
            sort_order.0 as int,
            page_number.0 as int,
            page_size.0 as int,
        ));
    }

    let mut schema_sql = "SELECT * FROM ".to_owned();
    schema_sql.append(call.as_str());
    schema_sql.append(" LIMIT 1");
    proof {
        assert(schema_sql@ =~= schema_sql_text(scan_function@, filename.0@));
    }

    let mut count_sql = "SELECT count(1) count FROM ".to_owned();
    count_sql.append(call.as_str());
    proof {
        assert(count_sql@ =~= count_sql_text(scan_function@, filename.0@));
    }

    Ok(QueryPlan { scan_function, page_sql, schema_sql, count_sql })
}

} // verus!
