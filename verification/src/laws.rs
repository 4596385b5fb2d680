//! Laws the library states about itself, proved once and for all inputs.

use vstd::math::min;
use vstd::prelude::*;

use crate::format::{base64_text, blob_text, dots};
use crate::numtext::int_text;
use crate::page::page_cap;
use crate::query::{limit_offset_text, page_sql_text, scan_call_text};
use crate::textutil::{kept_unit, stripped};

verus! {

/// A page never holds more rows than its page size: whatever number of rows
/// the engine hands over, the assembled page keeps `min(drained, pageSize)`
/// of them, which never exceeds the page size.
pub proof fn lemma_rows_within_page_size(drained: int, page_size: int)
    requires
        drained >= 0,
        page_size >= 1,
    ensures
        min(drained, page_cap(page_size)) <= page_size,
        min(drained, page_cap(page_size)) == if drained <= page_size {
            drained
        } else {
            page_size
        },
{
}

/// Sorting the same request ascending and then descending changes the page
/// statement in its direction keyword alone: both statements share one
/// prefix, up to and including the sort column, and one pagination suffix,
/// character for character. Whether the engine then returns exact reverses
/// of each other is the engine's ordering contract, exercised by tests.
pub proof fn lemma_sort_direction_isolated(
    scan: Seq<char>,
    path: Seq<char>,
    sort_index: int,
    page_number: int,
    page_size: int,
)
    requires
        sort_index > 0,
    ensures
        ({
            let prefix = "SELECT * FROM "@ + scan_call_text(scan, path) + " ORDER BY "@
                + int_text(sort_index) + " "@;
            let suffix = limit_offset_text(page_number, page_size);
            page_sql_text(scan, path, sort_index, 1, page_number, page_size) == prefix + "ASC"@
                + suffix && page_sql_text(scan, path, sort_index, 2, page_number, page_size)
                == prefix + "DESC"@ + suffix
        }),
{
    let prefix = "SELECT * FROM "@ + scan_call_text(scan, path) + " ORDER BY "@ + int_text(
        sort_index,
    ) + " "@;
    let suffix = limit_offset_text(page_number, page_size);
    assert(page_sql_text(scan, path, sort_index, 1, page_number, page_size) =~= prefix + "ASC"@
        + suffix);
    assert(page_sql_text(scan, path, sort_index, 2, page_number, page_size) =~= prefix + "DESC"@
        + suffix);
}

/// A blob whose base64 text has at most 25 characters renders unmodified;
/// a longer one renders as the first 25 characters followed by `...`.
pub proof fn lemma_blob_truncation(b: Seq<u8>)
    ensures
        base64_text(b).len() <= 25 ==> blob_text(b) == base64_text(b),
        base64_text(b).len() > 25 ==> blob_text(b) == base64_text(b).take(25) + dots(),
{
}

/// A nested value's dump renders with no embedded newline and no space:
/// stripping removes every one of them, whatever the dump held.
pub proof fn lemma_nested_dump_has_no_whitespace(s: Seq<char>)
    ensures
        forall|i: int|
            0 <= i < stripped(s).len() ==> stripped(s)[i] != '\n' && stripped(s)[i] != ' ',
    decreases s.len(),
{
    if s.len() > 0 {
        lemma_nested_dump_has_no_whitespace(s.drop_last());
        assert(stripped(s) == stripped(s.drop_last()) + kept_unit(s.last()));
        assert forall|i: int|
            0 <= i < stripped(s).len() implies stripped(s)[i] != '\n' && stripped(s)[i]
            != ' ' by {
            if i < stripped(s.drop_last()).len() {
                assert(stripped(s)[i] == stripped(s.drop_last())[i]);
            } else {
                assert(stripped(s)[i] == kept_unit(s.last())[i - stripped(s.drop_last()).len()]);
            }
        }
    }
}

} // verus!
