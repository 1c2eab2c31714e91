use framewatch::decode::{build_record, capture_record};

fn ipv4_frame() -> Vec<u8> {
    let mut f: Vec<u8> = vec![
        0xde, 0xad, 0xbe, 0xef, 0x00, 0x01, // destination MAC
        0x0a, 0x0b, 0x0c, 0x0d, 0x0e, 0x0f, // source MAC
        0x08, 0x00, // ethertype: IPv4
    ];
    let ip_header: Vec<u8> = vec![
        0x45, 0x00, 0x00, 0x14, // version/ihl, dscp/ecn, total length
        0x00, 0x00, 0x00, 0x00, // identification, flags/fragment offset
        0x40, 0x06, 0x00, 0x00, // ttl, protocol, checksum
        10, 0, 0, 1, // source address
        10, 0, 0, 2, // destination address
    ];
    f.extend(ip_header);
    f
}

fn arp_frame() -> Vec<u8> {
    vec![
        0x11, 0x22, 0x33, 0x44, 0x55, 0x66, // destination MAC
        0x77, 0x88, 0x99, 0xaa, 0xbb, 0xcc, // source MAC
        0x08, 0x06, // ethertype: ARP
    ]
}

#[test]
fn ipv4_frame_decodes_fully() {
    let frame = ipv4_frame();
    let rec = build_record(&frame, String::from("2024-01-01 00:00:00.000"));
    assert_eq!(rec.time, "2024-01-01 00:00:00.000");
    assert_eq!(rec.source, "0a:0b:0c:0d:0e:0f");
    assert_eq!(rec.destination, "de:ad:be:ef:00:01");
    assert_eq!(rec.ethertype, "Ipv4");
    assert_eq!(rec.details, "IPv4 10.0.0.1 -> 10.0.0.2");
    assert_eq!(rec.length, 34);
}

#[test]
fn arp_frame_uses_tag_label() {
    let frame = arp_frame();
    let rec = build_record(&frame, String::from("t"));
    assert_eq!(rec.ethertype, "Arp");
    assert_eq!(rec.details, "Arp");
    assert_eq!(rec.length, 14);
}

#[test]
fn truncated_frame_yields_placeholder_record() {
    let frame: Vec<u8> = vec![0x08, 0x00];
    let rec = build_record(&frame, String::from("t"));
    assert_eq!(rec.source, "unknown");
    assert_eq!(rec.destination, "unknown");
    assert_eq!(rec.ethertype, "unknown");
    assert_eq!(rec.details, "unrecognized frame");
    assert_eq!(rec.length, 2);
}

#[test]
fn empty_frame_yields_placeholder_record() {
    let frame: Vec<u8> = Vec::new();
    let rec = build_record(&frame, String::from("t"));
    assert_eq!(rec.details, "unrecognized frame");
    assert_eq!(rec.length, 0);
}

#[test]
fn ipv4_tag_with_short_payload_degrades_to_label() {
    let mut frame = arp_frame();
    frame[12] = 0x08;
    frame[13] = 0x00;
    frame.extend(vec![0u8; 6]); // 20 bytes: too short for an inner IPv4 header
    let rec = build_record(&frame, String::from("t"));
    assert_eq!(rec.ethertype, "Ipv4");
    assert_eq!(rec.details, "Ipv4");
    assert_eq!(rec.length, 20);
}

#[test]
fn unknown_tag_gets_unknown_label() {
    let mut frame = arp_frame();
    frame[12] = 0x12;
    frame[13] = 0x34;
    let rec = build_record(&frame, String::from("t"));
    assert_eq!(rec.ethertype, "unknown");
    assert_eq!(rec.details, "unknown");
}

#[test]
fn mac_text_uses_lowercase_hex_pairs() {
    let mut frame = arp_frame();
    let src: Vec<u8> = vec![0xff, 0x00, 0x10, 0x2a, 0x3b, 0x4c];
    for (i, b) in src.iter().enumerate() {
        frame[6 + i] = *b;
    }
    let rec = build_record(&frame, String::from("t"));
    assert_eq!(rec.source, "ff:00:10:2a:3b:4c");
}

#[test]
fn capture_record_stamps_a_millisecond_time() {
    let frame = ipv4_frame();
    let rec = capture_record(&frame);
    assert_eq!(rec.details, "IPv4 10.0.0.1 -> 10.0.0.2");
    assert_eq!(rec.length, 34);
    let time = rec.time.as_bytes();
    assert_eq!(time.len(), 23);
    assert_eq!(time[4], b'-');
    assert_eq!(time[7], b'-');
    assert_eq!(time[10], b' ');
    assert_eq!(time[13], b':');
    assert_eq!(time[16], b':');
    assert_eq!(time[19], b'.');
}
