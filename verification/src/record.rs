//! The display record: the fully resolved, immutable summary of one captured
//! frame, and the spec-level description of each of its fields as a function
//! of the frame's bytes.
use vstd::prelude::*;
use crate::text::{mac_text, ipv4_text};

verus! {

/// The well-known link-layer tag for an IPv4 payload.
pub const IPV4_ETHERTYPE: u16 = 0x0800;

/// An Ethernet header is two six-byte addresses and a two-byte tag.
pub const ETHERNET_HEADER_LEN: usize = 14;

/// The fixed part of an IPv4 header.
pub const IPV4_HEADER_LEN: usize = 20;

/// One observed frame, fully resolved at construction time: buffering a
/// record defers only rendering, never decoding.
pub struct DisplayRecord {
    /// Capture-local wall-clock time, millisecond precision.
    pub time: String,
    /// Source link-layer address as canonical text.
    pub source: String,
    /// Destination link-layer address as canonical text.
    pub destination: String,
    /// The decoded ethertype's human-readable label.
    pub ethertype: String,
    /// Protocol-specific summary.
    pub details: String,
    /// Total frame length in bytes.
    pub length: usize,
}

/// The mathematical value of a display record.
pub struct RecordModel {
    pub time: Seq<char>,
    pub source: Seq<char>,
    pub destination: Seq<char>,
    pub ethertype: Seq<char>,
    pub details: Seq<char>,
    pub length: nat,
}

impl View for DisplayRecord {
    type V = RecordModel;

    open spec fn view(&self) -> RecordModel {
        RecordModel {
            time: self.time@,
            source: self.source@,
            destination: self.destination@,
            ethertype: self.ethertype@,
            details: self.details@,
            length: self.length as nat,
        }
    }
}

/// Whether the frame is long enough to carry a link-layer header at all.
pub open spec fn frame_has_header(frame: Seq<u8>) -> bool {
    frame.len() >= ETHERNET_HEADER_LEN
}

/// The frame's link-layer tag: a big-endian 16-bit value at bytes 12 and 13.
pub open spec fn ethertype_tag(frame: Seq<u8>) -> u16
    recommends
        frame_has_header(frame),
{
    (frame[12] as u16 * 256 + frame[13] as u16) as u16
}

/// Whether the frame carries an IPv4 payload long enough for its fixed header.
pub open spec fn frame_has_ipv4(frame: Seq<u8>) -> bool {
    &&& frame_has_header(frame)
    &&& ethertype_tag(frame) == IPV4_ETHERTYPE
    &&& frame.len() >= ETHERNET_HEADER_LEN + IPV4_HEADER_LEN
}

/// The label of an ethertype, as the decoding provider renders it: a fixed
/// table of protocol names ("Ipv4", "Arp", ...), "unknown" for a tag outside
/// the table.
pub uninterp spec fn ethertype_label(tag: u16) -> Seq<char>;

/// The field text standing in for an address or tag that could not be decoded.
pub open spec fn unknown_text() -> Seq<char> {
    "unknown"@
}

/// The detail text of a frame too short to decode at all.
pub open spec fn malformed_text() -> Seq<char> {
    "unrecognized frame"@
}

/// The source-address column of a frame: the six bytes at offsets 6..12.
pub open spec fn source_text_of(frame: Seq<u8>) -> Seq<char> {
    if frame_has_header(frame) {
        mac_text(frame.subrange(6, 12))
    } else {
        unknown_text()
    }
}

/// The destination-address column of a frame: the six bytes at offsets 0..6.
pub open spec fn destination_text_of(frame: Seq<u8>) -> Seq<char> {
    if frame_has_header(frame) {
        mac_text(frame.subrange(0, 6))
    } else {
        unknown_text()
    }
}

/// The protocol column of a frame: the ethertype's label.
pub open spec fn type_text_of(frame: Seq<u8>) -> Seq<char> {
    if frame_has_header(frame) {
        ethertype_label(ethertype_tag(frame))
    } else {
        unknown_text()
    }
}

/// The detail column of a frame. An IPv4 frame shows the encapsulated
/// addresses; a frame whose inner header cannot be decoded degrades to the
/// ethertype's label; a frame with no link-layer header at all gets a
/// placeholder.
pub open spec fn details_text_of(frame: Seq<u8>) -> Seq<char> {
    if !frame_has_header(frame) {
        malformed_text()
    } else if frame_has_ipv4(frame) {
        "IPv4 "@ + ipv4_text(frame.subrange(26, 30)) + " -> "@ + ipv4_text(
            frame.subrange(30, 34),
        )
    } else {
        ethertype_label(ethertype_tag(frame))
    }
}

/// The record that a frame decodes to, given the capture time's text.
pub open spec fn record_of(frame: Seq<u8>, time: Seq<char>) -> RecordModel {
    RecordModel {
        time: time,
        source: source_text_of(frame),
        destination: destination_text_of(frame),
        ethertype: type_text_of(frame),
        details: details_text_of(frame),
        length: frame.len(),
    }
}

/// Reads the frame's link-layer tag out of its two header bytes.
pub fn read_ethertype(frame: &Vec<u8>) -> (tag: u16)
    requires
        frame_has_header(frame@),
    ensures
        tag == ethertype_tag(frame@),
{
    let hi = frame[12];
    let lo = frame[13];
    hi as u16 * 256 + lo as u16
}

} // verus!
