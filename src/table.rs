//! Rendering rows of text cells as a bordered table with rounded corners.

use vstd::prelude::*;

verus! {

/// The text of each cell, row by row.
pub open spec fn cells_view(rows: Seq<Vec<String>>) -> Seq<Seq<Seq<char>>> {
    rows.map_values(|row: Vec<String>| row@.map_values(|c: String| c@))
}

/// What tabled prints for `rows`, the first of them the header, in its rounded style.
pub uninterp spec fn rounded_table(rows: Seq<Seq<Seq<char>>>) -> Seq<char>;

/// Relies on tabled's `Builder::from`, `Builder::build`, `Style::rounded` and the
/// table's `Display`, whose text depends on the cells alone.
#[verifier::external_body]
pub(crate) fn render_rounded(rows: Vec<Vec<String>>) -> (r: String)
    ensures
        r@ == rounded_table(cells_view(rows@)),
{
    let mut table = tabled::builder::Builder::from(rows).build();
    table.with(tabled::settings::Style::rounded());
    table.to_string()
}

} // verus!
