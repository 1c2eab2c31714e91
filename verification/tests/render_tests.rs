use framewatch::record::DisplayRecord;
use framewatch::render::{header_cells, record_cells, render_record};
use framewatch::text::usize_to_string;

fn sample_record() -> DisplayRecord {
    DisplayRecord {
        time: String::from("2024-01-01 00:00:00.000"),
        source: String::from("0a:0b:0c:0d:0e:0f"),
        destination: String::from("de:ad:be:ef:00:01"),
        ethertype: String::from("Ipv4"),
        details: String::from("IPv4 10.0.0.1 -> 10.0.0.2"),
        length: 34,
    }
}

#[test]
fn decimal_rendering_is_exact() {
    assert_eq!(usize_to_string(0), "0");
    assert_eq!(usize_to_string(7), "7");
    assert_eq!(usize_to_string(10), "10");
    assert_eq!(usize_to_string(42), "42");
    assert_eq!(usize_to_string(100), "100");
    assert_eq!(usize_to_string(65535), "65535");
}

#[test]
fn header_cells_hold_the_fixed_titles() {
    let h = header_cells();
    assert_eq!(
        h,
        vec!["Time", "Source", "Destination", "Type/Protocol", "Details", "Length"]
    );
}

#[test]
fn record_cells_hold_the_fields_in_column_order() {
    let r = sample_record();
    let cells = record_cells(&r);
    assert_eq!(cells.len(), 6);
    assert_eq!(cells[0], "2024-01-01 00:00:00.000");
    assert_eq!(cells[1], "0a:0b:0c:0d:0e:0f");
    assert_eq!(cells[2], "de:ad:be:ef:00:01");
    assert_eq!(cells[3], "Ipv4");
    assert_eq!(cells[4], "IPv4 10.0.0.1 -> 10.0.0.2");
    assert_eq!(cells[5], "34");
}

#[test]
fn rendered_row_shows_titles_and_every_field() {
    let r = sample_record();
    let s = render_record(&r);
    assert!(s.contains("Time"));
    assert!(s.contains("Source"));
    assert!(s.contains("Destination"));
    assert!(s.contains("Type/Protocol"));
    assert!(s.contains("Details"));
    assert!(s.contains("Length"));
    assert!(s.contains("2024-01-01 00:00:00.000"));
    assert!(s.contains("0a:0b:0c:0d:0e:0f"));
    assert!(s.contains("de:ad:be:ef:00:01"));
    assert!(s.contains("IPv4 10.0.0.1 -> 10.0.0.2"));
    assert!(s.contains("34"));
    // titles precede the record's row
    let title_at = s.find("Time").unwrap();
    let row_at = s.find("2024-01-01").unwrap();
    assert!(title_at < row_at);
}

#[test]
fn rendering_aligns_the_two_rows_in_columns() {
    let r = sample_record();
    let s = render_record(&r);
    let lines: Vec<&str> = s.lines().filter(|l| !l.trim().is_empty()).collect();
    assert_eq!(lines.len(), 2);
    let source_col = lines[0].find("Source").unwrap();
    let source_val = lines[1].find("0a:0b:0c").unwrap();
    assert_eq!(source_col, source_val);
}
