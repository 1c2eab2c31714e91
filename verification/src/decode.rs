//! Record construction: one total, synchronous transform from raw frame
//! bytes to a display record. Header decoding itself is the decoding
//! provider's work, called through trusted wrappers; everything around the
//! calls is verified, and a frame that cannot be decoded degrades to a
//! placeholder record instead of stopping the capture loop.
use vstd::prelude::*;
use vstd::string::StringExecFns;
use crate::record::{
    DisplayRecord, ethertype_label, ethertype_tag, frame_has_header, frame_has_ipv4,
    source_text_of, destination_text_of, type_text_of, details_text_of, record_of,
    read_ethertype, IPV4_ETHERTYPE, ETHERNET_HEADER_LEN, IPV4_HEADER_LEN,
};
use crate::text::{mac_text, ipv4_text};

verus! {

/// Relies on pnet's `EthernetPacket::new` and `get_source`: a frame of at
/// least the fixed header size decodes, and its source address is the six
/// bytes at offsets 6..12, rendered by `MacAddr`'s `Display` as
/// colon-separated lowercase hex pairs.
#[verifier::external_body]
fn eth_source_text(frame: &Vec<u8>) -> (s: String)
    requires
        frame_has_header(frame@),
    ensures
        s@ == mac_text(frame@.subrange(6, 12)),
{
    pnet::packet::ethernet::EthernetPacket::new(frame).unwrap().get_source().to_string()
}

/// Relies on pnet's `EthernetPacket::new` and `get_destination`: the
/// destination address is the six bytes at offsets 0..6, rendered by
/// `MacAddr`'s `Display` as colon-separated lowercase hex pairs.
#[verifier::external_body]
fn eth_destination_text(frame: &Vec<u8>) -> (s: String)
    requires
        frame_has_header(frame@),
    ensures
        s@ == mac_text(frame@.subrange(0, 6)),
{
    pnet::packet::ethernet::EthernetPacket::new(frame).unwrap().get_destination().to_string()
}

/// Relies on pnet's `EthernetPacket::new` and `get_ethertype`: the ethertype
/// is the big-endian 16-bit value at bytes 12..14, and `EtherType`'s
/// `Display` renders it from a fixed table of protocol names, a pure function
/// of the tag named `ethertype_label`.
#[verifier::external_body]
fn eth_type_text(frame: &Vec<u8>) -> (s: String)
    requires
        frame_has_header(frame@),
    ensures
        s@ == ethertype_label(ethertype_tag(frame@)),
{
    pnet::packet::ethernet::EthernetPacket::new(frame).unwrap().get_ethertype().to_string()
}

/// Relies on pnet's `Ipv4Packet::new` and `get_source` on the frame's
/// payload (the bytes from offset 14): a payload of at least the fixed IPv4
/// header size decodes, its source address is payload bytes 12..16, and
/// `Ipv4Addr`'s `Display` renders it in dotted decimal.
#[verifier::external_body]
fn ipv4_source_text(frame: &Vec<u8>) -> (s: String)
    requires
        frame_has_ipv4(frame@),
    ensures
        s@ == ipv4_text(frame@.subrange(26, 30)),
{
    pnet::packet::ipv4::Ipv4Packet::new(&frame[14..]).unwrap().get_source().to_string()
}

/// Relies on pnet's `Ipv4Packet::new` and `get_destination` on the frame's
/// payload: the destination address is payload bytes 16..20, rendered by
/// `Ipv4Addr`'s `Display` in dotted decimal.
#[verifier::external_body]
fn ipv4_destination_text(frame: &Vec<u8>) -> (s: String)
    requires
        frame_has_ipv4(frame@),
    ensures
        s@ == ipv4_text(frame@.subrange(30, 34)),
{
    pnet::packet::ipv4::Ipv4Packet::new(&frame[14..]).unwrap().get_destination().to_string()
}

/// Relies on chrono's `Local::now`: the capture-local wall-clock time with
/// millisecond precision. The result depends on the clock, so nothing is
/// stated of it.
#[verifier::external_body]
fn local_timestamp() -> (s: String) {
    chrono::Local::now().format("%Y-%m-%d %H:%M:%S%.3f").to_string()
}

/// Builds the display record of one frame, given the capture time's text.
///
/// Total: every byte sequence yields a record. A frame too short for a
/// link-layer header becomes a placeholder record; an IPv4-tagged frame whose
/// payload is too short for the inner header degrades to the tag's label.
pub fn build_record(frame: &Vec<u8>, time: String) -> (r: DisplayRecord)
    ensures
        r@ == record_of(frame@, time@),
{
    if frame.len() < ETHERNET_HEADER_LEN {
        DisplayRecord {
            time,
            source: String::from_str("unknown"),
            destination: String::from_str("unknown"),
            ethertype: String::from_str("unknown"),
            details: String::from_str("unrecognized frame"),
            length: frame.len(),
        }
    } else {
        let tag = read_ethertype(frame);
        let details = if tag == IPV4_ETHERTYPE && frame.len() >= ETHERNET_HEADER_LEN
            + IPV4_HEADER_LEN {
            let src = ipv4_source_text(frame);
            let dst = ipv4_destination_text(frame);
            String::from_str("IPv4 ").concat(src.as_str()).concat(" -> ").concat(dst.as_str())
        } else {
            eth_type_text(frame)
        };
        DisplayRecord {
            time,
            source: eth_source_text(frame),
            destination: eth_destination_text(frame),
            ethertype: eth_type_text(frame),
            details,
            length: frame.len(),
        }
    }
}

/// Builds the display record of one frame, stamped with the capture-local
/// clock. The time column is whatever the clock gave; every other column is
/// pinned by the frame's bytes.
pub fn capture_record(frame: &Vec<u8>) -> (r: DisplayRecord)
    ensures
        r@.source == source_text_of(frame@),
        r@.destination == destination_text_of(frame@),
        r@.ethertype == type_text_of(frame@),
        r@.details == details_text_of(frame@),
        r@.length == frame@.len(),
{
    let time = local_timestamp();
    build_record(frame, time)
}

} // verus!
