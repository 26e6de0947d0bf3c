//! The table that a schema is shown as, drawn by the `tabled` crate.

use vstd::prelude::*;
use crate::display::{heading, records, spec_heading, spec_records};
use crate::schema::{ColumnView, Schema};

verus! {

/// The text that `tabled` draws for `records`, one line of cells each, in
/// its rounded style, with `heading` in a panel across the top.
pub uninterp spec fn table_text(heading: Seq<char>, records: Seq<Seq<Seq<char>>>) -> Seq<char>;

/// What a schema from `origin` with `row_count` rows is shown as.
pub open spec fn spec_render(schema: Seq<ColumnView>, origin: Seq<char>, row_count: nat) -> Seq<
    char,
> {
    table_text(spec_heading(origin, row_count), spec_records(schema))
}

/// Draws the table with `tabled`: `Builder::from(records).build()`, then
/// `Table::with` for `Style::rounded()` and for `Panel::header(heading)`,
/// then `to_string`. The text depends on nothing but the two arguments, so
/// it is given the name `table_text`; nothing else is claimed of it. The
/// panel is written into the first cell of a new first line, which must
/// exist: the first record may not be empty.
#[verifier::external_body]
fn draw_table(heading: &str, records: Vec<Vec<String>>) -> (out: String)
    requires
        records@.len() > 0,
        records@[0]@.len() > 0,
    ensures
        out@ == table_text(heading@, records.deep_view()),
{
    let mut table = tabled::builder::Builder::from(records).build();
    table.with(tabled::settings::Style::rounded());
    table.with(tabled::settings::Panel::header(heading));
    table.to_string()
}

/// Shows a schema as a table: a heading with the origin of the data and
/// its row count, then one line per column with its label and null count.
pub fn render(schema: &Schema, origin: &str, row_count: usize) -> (out: String)
    ensures
        out@ == spec_render(schema@, origin@, row_count as nat),
{
    let lines = records(schema);
    let top = heading(origin, row_count);
    draw_table(top.as_str(), lines)
}

} // verus!
