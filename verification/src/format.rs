//! The value formatter: one display string for every engine-native cell
//! value, total and deterministic.

use vstd::prelude::*;
use vstd::utf8::is_ascii_chars;

use crate::model::TimeUnit;
use crate::numtext::{dec_digits, i128_text, int_text, lemma_dec_digits_ascii, u128_text};
use crate::temporal::{
    date32_to_ymd, date_text, time_text, timestamp_text, timeunit_to_hms, timeunit_to_ymd_hms,
};
use crate::textutil::{strip_spacing, stripped};

verus! {

/// One engine-native value, reduced to the plain parts its display string
/// is computed from. Floating-point cells arrive already rendered by the
/// engine's own text rules; composite cells arrive as a raw structural dump.
pub enum CellValue {
    /// An SQL NULL.
    Null,
    /// A boolean.
    Bool(bool),
    /// Any signed integer, at most 128 bits wide.
    Int(i128),
    /// Any unsigned integer, at most 128 bits wide.
    UInt(u128),
    /// A floating-point value's own rendered text.
    Real(String),
    /// A fixed-point decimal: the scaled integer payload and its scale.
    Decimal { scale: u8, value: i128 },
    /// A text value.
    Text(String),
    /// A binary blob.
    Blob(Vec<u8>),
    /// Days since the epoch, negative before it.
    Date32(i32),
    /// A point in time: a unit and a tick count since the epoch.
    Timestamp(TimeUnit, i64),
    /// A time of day: a unit and a tick count since midnight.
    Time64(TimeUnit, i64),
    /// A months, days and nanoseconds interval.
    Interval { months: i32, days: i32, nanos: i64 },
    /// The raw structural dump of a nested value (list, struct, map, union).
    Nested(String),
    /// An enum-coded value's decoded label.
    Enum(String),
}

/// The standard base64 encoding of the bytes.
pub uninterp spec fn base64_text(b: Seq<u8>) -> Seq<char>;

/// Relies on the base64 crate's general-purpose STANDARD engine: encodes the
/// bytes with the alphabet `A-Z a-z 0-9 + /` and `=` padding, so every output
/// character is ASCII, and the text depends on the bytes alone.
#[verifier::external_body]
fn base64_encode(b: &[u8]) -> (r: String)
    ensures
        r@ == base64_text(b@),
        is_ascii_chars(r@),
{
    base64::Engine::encode(&base64::engine::general_purpose::STANDARD, b)
}

/// The truncation suffix of an over-long blob rendering.
pub open spec fn dots() -> Seq<char> {
    seq!['.', '.', '.']
}

/// How a blob is displayed: its base64 text, cut to the first 25 characters
/// with a `...` suffix when longer than 25.
pub open spec fn blob_text(b: Seq<u8>) -> Seq<char> {
    let e = base64_text(b);
    if e.len() <= 25 {
        e
    } else {
        e.take(25) + dots()
    }
}

/// A run of zero digits.
pub open spec fn zeros(k: nat) -> Seq<char> {
    Seq::new(k, |i: int| '0')
}

/// How a fixed-point decimal is displayed: the digits of its scaled integer
/// payload with a point inserted `scale` digits from the right, padded as
/// `0.00…` when the payload has no more digits than the scale, and a minus
/// sign in front of a negative payload.
pub open spec fn decimal_text(scale: nat, value: int) -> Seq<char> {
    let mag = if value < 0 {
        (-value) as nat
    } else {
        value as nat
    };
    let raw = dec_digits(mag);
    let sign: Seq<char> = if value < 0 {
        seq!['-']
    } else {
        Seq::empty()
    };
    if scale == 0 {
        sign + raw
    } else if raw.len() <= scale {
        sign + seq!['0', '.'] + zeros((scale - raw.len()) as nat) + raw
    } else {
        sign + raw.take(raw.len() - scale) + seq!['.'] + raw.skip(raw.len() - scale)
    }
}

/// The display string of one cell value.
pub open spec fn cell_text(c: CellValue) -> Seq<char> {
    match c {
        CellValue::Null => seq!['N', 'U', 'L', 'L'],
        CellValue::Bool(b) => if b {
            seq!['t', 'r', 'u', 'e']
        } else {
            seq!['f', 'a', 'l', 's', 'e']
        },
        CellValue::Int(n) => int_text(n as int),
        CellValue::UInt(n) => dec_digits(n as nat),
        CellValue::Real(s) => s@,
        CellValue::Decimal { scale, value } => decimal_text(scale as nat, value as int),
        CellValue::Text(s) => s@,
        CellValue::Blob(b) => blob_text(b@),
        CellValue::Date32(d) => date_text(d as int),
        CellValue::Timestamp(u, t) => timestamp_text(u, t as int),
        CellValue::Time64(u, t) => time_text(u, t as int),
        CellValue::Interval { .. } => seq!['I', 'n', 't', 'e', 'r', 'v', 'a', 'l'],
        CellValue::Nested(s) => stripped(s@),
        CellValue::Enum(s) => s@,
    }
}

/// The display string of one cell as handed over by the engine: a readable
/// value, or an inline error line for a cell that could not be read.
pub open spec fn outcome_text(c: Result<CellValue, String>) -> Seq<char> {
    match c {
        Ok(v) => cell_text(v),
        Err(detail) => seq!['E', 'r', 'r', 'o', 'r', ':', ' '] + detail@,
    }
}

/// The blob rendering: full base64 text when short, the first 25 characters
/// and an ellipsis when long.
fn blob_to_text(b: &Vec<u8>) -> (r: String)
    ensures
        r@ == blob_text(b@),
{
    let e = base64_encode(b.as_slice());
    let n = e.as_str().unicode_len();
    if n > 25 {
        let mut t = e.as_str().substring_ascii(0, 25).to_owned();
        t.append("...");
        proof {
            reveal_strlit("...");
            assert(t@ =~= blob_text(b@));
        }
        t
    } else {
        e
    }
}

/// The decimal rendering, with the point spliced into the digit run.
fn decimal_to_text(scale: u8, value: i128) -> (r: String)
    ensures
        r@ == decimal_text(scale as nat, value as int),
{
    let mag: u128 = if value >= 0 {
        value as u128
    } else {
        ((-(value + 1)) as u128) + 1
    };
    let raw = u128_text(mag);
    proof {
        lemma_dec_digits_ascii(mag as nat);
    }
    let rawlen = raw.as_str().unicode_len();
    let mut out: String = if value < 0 {
        proof {
            reveal_strlit("-");
        }
        "-".to_owned()
    } else {
        String::new()
    };
    let ghost sign = out@;
    if scale == 0 {
        out.append(raw.as_str());
        proof {
            assert(out@ =~= decimal_text(scale as nat, value as int));
        }
        out
    } else if rawlen <= scale as usize {
        out.append("0.");
        proof {
            reveal_strlit("0.");
        }
        let ghost base = out@;
        proof {
            assert(base =~= sign + seq!['0', '.']);
        }
        let mut k: usize = rawlen;
        while k < scale as usize
            invariant
                rawlen <= k <= scale as usize,
                out@ == base + zeros((k - rawlen) as nat),
                base == sign + seq!['0', '.'],
            decreases scale as usize - k,
        {
            out.append("0");
            proof {
                reveal_strlit("0");
                assert(out@ =~= base + zeros((k + 1 - rawlen) as nat));
            }
            k = k + 1;
        }
        out.append(raw.as_str());
        proof {
            assert(out@ =~= decimal_text(scale as nat, value as int));
        }
        out
    } else {
        let point = rawlen - scale as usize;
        out.append(raw.as_str().substring_ascii(0, point));
        out.append(".");
        proof {
            reveal_strlit(".");
        }
        out.append(raw.as_str().substring_ascii(point, rawlen));
        proof {
            assert(out@ =~= decimal_text(scale as nat, value as int));
        }
        out
    }
}

/// Maps one engine-native cell value to its display string. Total: every
/// value of every category renders as some string, never a failure.
pub fn format_cell(c: CellValue) -> (r: String)
    ensures
        r@ == cell_text(c),
{
    match c {
        CellValue::Null => {
            proof {
                reveal_strlit("NULL");
            }
            let r = "NULL".to_owned();
            proof {
                assert(r@ =~= seq!['N', 'U', 'L', 'L']);
            }
            r
        },
        CellValue::Bool(b) => {
            proof {
                reveal_strlit("true");
                reveal_strlit("false");
            }
            if b {
                let r = "true".to_owned();
                proof {
                    assert(r@ =~= seq!['t', 'r', 'u', 'e']);
                }
                r
            } else {
                let r = "false".to_owned();
                proof {
                    assert(r@ =~= seq!['f', 'a', 'l', 's', 'e']);
                }
                r
            }
        },
        CellValue::Int(n) => i128_text(n),
        CellValue::UInt(n) => u128_text(n),
        CellValue::Real(s) => s,
        CellValue::Decimal { scale, value } => decimal_to_text(scale, value),
        CellValue::Text(s) => s,
        CellValue::Blob(b) => blob_to_text(&b),
        CellValue::Date32(d) => date32_to_ymd(d),
        CellValue::Timestamp(u, t) => timeunit_to_ymd_hms(u, t),
        CellValue::Time64(u, t) => timeunit_to_hms(u, t),
        CellValue::Interval { .. } => {
            proof {
                reveal_strlit("Interval");
            }
            let r = "Interval".to_owned();
            proof {
                assert(r@ =~= seq!['I', 'n', 't', 'e', 'r', 'v', 'a', 'l']);
            }
            r
        },
        CellValue::Nested(s) => strip_spacing(s.as_str()),
        CellValue::Enum(s) => s,
    }
}

/// Maps one cell read outcome to its display string: the value's rendering,
/// or an `Error: ` line carrying the engine's detail text.
pub fn format_outcome(c: Result<CellValue, String>) -> (r: String)
    ensures
        r@ == outcome_text(c),
{
    match c {
        Ok(v) => format_cell(v),
        Err(detail) => {
            proof {
                reveal_strlit("Error: ");
            }
            let mut r = "Error: ".to_owned();
            r.append(detail.as_str());
            proof {
                assert(r@ =~= seq!['E', 'r', 'r', 'o', 'r', ':', ' '] + detail@);
            }
            r
        },
    }
}

/// Formats one row cell by cell, keeping the count and the order.
pub fn format_row(cells: Vec<Result<CellValue, String>>) -> (r: Vec<String>)
    ensures
        r@.len() == cells@.len(),
        forall|i: int| 0 <= i < r@.len() ==> r@[i]@ == outcome_text(cells@[i]),
{
    let ghost orig = cells@;
    let mut rest = cells;
    let mut out: Vec<String> = Vec::new();
    while rest.len() > 0
        invariant
            out@.len() + rest@.len() == orig.len(),
            forall|i: int| 0 <= i < out@.len() ==> out@[i]@ == outcome_text(orig[i]),
            forall|j: int| 0 <= j < rest@.len() ==> rest@[j] == orig[out@.len() + j],
        decreases rest@.len(),
    {
        let c = rest.remove(0);
        out.push(format_outcome(c));
    }
    out
}

} // verus!
