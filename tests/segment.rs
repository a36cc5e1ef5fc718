use event_wait::tcp::{parse_segment, PktHeader, SegmentError, BASE_HEADER_LEN, FLAG_ACK, FLAG_SYN};

fn sample(data_offset: u8, extra: usize) -> Vec<u8> {
    let mut v = vec![
        0x12, 0x34, 0x00, 0x50, 0x01, 0x02, 0x03, 0x04, 0x0A, 0x0B, 0x0C, 0x0D, data_offset, FLAG_SYN, 0xFF, 0xFF,
        0xAB, 0xCD, 0x00, 0x01,
    ];
    for i in 0..extra {
        v.push(i as u8);
    }
    v
}

#[test]
fn header_fields_are_big_endian() {
    let pkt = sample(0x50, 3);
    let h = PktHeader::read(&pkt).unwrap();
    assert_eq!(h.source_port, 0x1234);
    assert_eq!(h.dest_port, 80);
    assert_eq!(h.sequence_number, 0x01020304);
    assert_eq!(h.acknowlegement_number, 0x0A0B0C0D);
    assert_eq!(h.data_offset, 0x50);
    assert_eq!(h.flags, FLAG_SYN);
    assert_eq!(h.window_size, 0xFFFF);
    assert_eq!(h.checksum, 0xABCD);
    assert_eq!(h.urgent_pointer, 1);
    assert_eq!(h.get_header_size(), 20);
}

#[test]
fn short_packet_has_no_header() {
    let pkt = sample(0x50, 0);
    assert_eq!(PktHeader::read(&pkt[..19]), Err(()));
    assert_eq!(parse_segment(&pkt[..19]), Err(SegmentError::Truncated));
    assert_eq!(parse_segment(&[]), Err(SegmentError::Truncated));
}

#[test]
fn data_starts_after_options() {
    let pkt = sample(0x60, 7);
    let (h, start) = parse_segment(&pkt).unwrap();
    assert_eq!(h.get_header_size(), 24);
    assert_eq!(start, 24);
    let plain = sample(0x50, 7);
    assert_eq!(parse_segment(&plain).unwrap().1, BASE_HEADER_LEN);
}

#[test]
fn header_longer_than_packet_is_rejected() {
    let pkt = sample(0xF0, 4);
    assert_eq!(parse_segment(&pkt), Err(SegmentError::BadHeaderLength));
}

#[test]
fn header_exactly_filling_packet_is_accepted() {
    let pkt = sample(0x60, 4);
    assert_eq!(parse_segment(&pkt).unwrap().1, 24);
}

#[test]
fn undersized_offset_reads_fixed_header() {
    let pkt = sample(0x00, 2);
    let (h, start) = parse_segment(&pkt).unwrap();
    assert_eq!(h.get_header_size(), 0);
    assert_eq!(start, 20);
}

#[test]
fn flag_bits() {
    assert_eq!(FLAG_SYN, 1 << 1);
    assert_eq!(FLAG_ACK, 1 << 4);
}
