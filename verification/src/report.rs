//! The fixed-width tabular report: a header, a separator, then one rendered
//! row per match.

use vstd::prelude::*;

use crate::dispatch::{MatchRow, variant_name_spec};
use crate::textfmt::{dec_spec, pad_left, pad_left_spec, pad_right, pad_right_spec, u32_dec};

verus! {

/// The report's column header.
pub open spec fn header_spec() -> Seq<char> {
    pad_right_spec("method"@, 22) + " | match\t\t| score | elapsed"@
}

/// The rule under the header.
pub open spec fn separator_spec() -> Seq<char> {
    "-----------------------|----------------|-------|--------"@
}

/// How one row prints: name left-aligned to 22, the highlighted text, the
/// score right-aligned to 5, and the elapsed time.
pub open spec fn row_render_spec(r: MatchRow) -> Seq<char> {
    pad_right_spec(variant_name_spec(r.variant), 22) + " | "@ + r.text@ + "\t| "@ + pad_left_spec(
        dec_spec(r.score as nat),
        5,
    ) + " | "@ + r.elapsed@
}

/// Renders the report's column header.
pub fn header_line() -> (r: String)
    ensures
        r@ == header_spec(),
{
    let mut h = pad_right("method", 22);
    h.append(" | match\t\t| score | elapsed");
    h
}

/// Renders the rule under the header.
pub fn separator_line() -> (r: String)
    ensures
        r@ == separator_spec(),
{
    String::from_str("-----------------------|----------------|-------|--------")
}

/// Renders one report row.
pub fn render_row(row: &MatchRow) -> (r: String)
    ensures
        r@ == row_render_spec(*row),
{
    let name = row.variant.name();
    let mut r = pad_right(name.as_str(), 22);
    r.append(" | ");
    r.append(row.text.as_str());
    r.append("\t| ");
    let digits = u32_dec(row.score as u32);
    let padded = pad_left(digits.as_str(), 5);
    r.append(padded.as_str());
    r.append(" | ");
    r.append(row.elapsed.as_str());
    r
}

/// Renders the whole report: header, separator, one line per row.
pub fn render_report(rows: &Vec<MatchRow>) -> (out: Vec<String>)
    ensures
        out@.len() == rows@.len() + 2,
        out@[0]@ == header_spec(),
        out@[1]@ == separator_spec(),
        forall|n: int|
            0 <= n < rows@.len() ==> out@[n + 2]@ == row_render_spec(#[trigger] rows@[n]),
{
    let mut out: Vec<String> = Vec::new();
    out.push(header_line());
    out.push(separator_line());
    let mut n: usize = 0;
    while n < rows.len()
        invariant
            n <= rows@.len(),
            out@.len() == n + 2,
            out@[0]@ == header_spec(),
            out@[1]@ == separator_spec(),
            forall|m: int| 0 <= m < n ==> out@[m + 2]@ == row_render_spec(#[trigger] rows@[m]),
        decreases rows@.len() - n,
    {
        out.push(render_row(&rows[n]));
        n = n + 1;
    }
    out
}

} // verus!
