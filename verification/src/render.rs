//! The record renderer's computed side: the fixed column titles, one record's
//! cell texts, and the aligned two-row table text that the loop writes out.
//! Every render shows the titles again above the record, so each burst of
//! output stays scannable.
use vstd::prelude::*;
use vstd::string::StringExecFns;
use crate::record::{DisplayRecord, RecordModel};
use crate::text::{dec_text, usize_to_string};

verus! {

/// The column titles, in their fixed order.
pub open spec fn header_titles() -> Seq<Seq<char>> {
    seq!["Time"@, "Source"@, "Destination"@, "Type/Protocol"@, "Details"@, "Length"@]
}

/// One record's cell texts, in column order; the byte count in decimal.
pub open spec fn record_cells_of(r: RecordModel) -> Seq<Seq<char>> {
    seq![r.time, r.source, r.destination, r.ethertype, r.details, dec_text(r.length)]
}

/// The texts of a sequence of strings.
pub open spec fn strings_model(s: Seq<String>) -> Seq<Seq<char>> {
    s.map_values(|c: String| c@)
}

/// The text that the table layout gives two rows of cells: a pure function of
/// the cells alone, named after prettytable's `Table` rendering.
pub uninterp spec fn table_text(header: Seq<Seq<char>>, row: Seq<Seq<char>>) -> Seq<char>;

/// Relies on prettytable's `Table` `Display` with the fixed
/// no-border/line-separator format: the text is a pure function of the two
/// rows' cell contents.
#[verifier::external_body]
fn format_table(header: &Vec<String>, row: &Vec<String>) -> (s: String)
    ensures
        s@ == table_text(strings_model(header@), strings_model(row@)),
{
    let mut table = prettytable::Table::new();
    table.set_format(*prettytable::format::consts::FORMAT_NO_BORDER_LINE_SEPARATOR);
    let mut titles = prettytable::Row::empty();
    for c in header {
        titles.add_cell(prettytable::Cell::new(c));
    }
    let mut cells = prettytable::Row::empty();
    for c in row {
        cells.add_cell(prettytable::Cell::new(c));
    }
    table.add_row(titles);
    table.add_row(cells);
    table.to_string()
}

/// Builds the column titles.
pub fn header_cells() -> (v: Vec<String>)
    ensures
        strings_model(v@) == header_titles(),
{
    let mut v: Vec<String> = Vec::new();
    v.push(String::from_str("Time"));
    v.push(String::from_str("Source"));
    v.push(String::from_str("Destination"));
    v.push(String::from_str("Type/Protocol"));
    v.push(String::from_str("Details"));
    v.push(String::from_str("Length"));
    proof {
        assert(strings_model(v@) =~= header_titles());
    }
    v
}

/// Builds one record's cell texts, in column order.
pub fn record_cells(r: &DisplayRecord) -> (v: Vec<String>)
    ensures
        strings_model(v@) == record_cells_of(r@),
{
    let mut v: Vec<String> = Vec::new();
    v.push(r.time.clone());
    v.push(r.source.clone());
    v.push(r.destination.clone());
    v.push(r.ethertype.clone());
    v.push(r.details.clone());
    v.push(usize_to_string(r.length));
    proof {
        assert(strings_model(v@) =~= record_cells_of(r@));
    }
    v
}

/// Renders one record as the table text the loop writes out: the column
/// titles above the record's row, aligned.
pub fn render_record(r: &DisplayRecord) -> (s: String)
    ensures
        s@ == table_text(header_titles(), record_cells_of(r@)),
{
    let header = header_cells();
    let row = record_cells(r);
    format_table(&header, &row)
}

} // verus!
