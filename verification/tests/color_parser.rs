use kinect_one::packet::parser::ColorStreamParser;

fn packet(sequence: u32, jpeg: &[u8], padding: usize, filler: usize) -> Vec<u8> {
    let mut bytes = Vec::new();
    bytes.extend(sequence.to_le_bytes());
    bytes.extend(0x42424242u32.to_le_bytes());
    bytes.extend(jpeg);
    bytes.extend(vec![0xa5; padding]);
    bytes.extend(vec![b'Z'; filler]);
    let size = (bytes.len() + 56) as u32;
    let footer: [u32; 14] = [
        0x39393939,
        sequence,
        filler as u32,
        0,
        0,
        777,
        0x3f000000,
        0x3f800000,
        0x42424242,
        size,
        0x40000000,
        0,
        0,
        0,
    ];
    for word in footer {
        bytes.extend(word.to_le_bytes());
    }
    bytes
}

fn jpeg(length: usize) -> Vec<u8> {
    let mut bytes = vec![0xff, 0xd8];
    bytes.extend((0..length - 4).map(|i| (i % 200) as u8));
    bytes.extend([0xff, 0xd9]);
    bytes
}

#[test]
fn whole_packet_in_one_transfer() {
    let image = jpeg(100);
    let mut parser = ColorStreamParser::new();
    let found = parser.parse(packet(5, &image, 0, 8)).expect("a packet");
    assert_eq!(found.sequence, 5);
    assert_eq!(found.timestamp, 777);
    assert_eq!(found.exposure, 0x3f000000);
    assert_eq!(found.gain, 0x3f800000);
    assert_eq!(found.gamma, 0x40000000);
    assert_eq!(found.jpeg_buffer, image);
}

#[test]
fn packet_split_over_transfers() {
    let image = jpeg(1000);
    let bytes = packet(6, &image, 2, 30);
    let mut parser = ColorStreamParser::new();
    let mut found = None;
    for (i, chunk) in bytes.chunks(100).enumerate() {
        let packet = parser.parse(chunk.to_vec());
        if (i + 1) * 100 < bytes.len() {
            assert!(packet.is_none());
        } else {
            found = packet;
        }
    }
    assert_eq!(found.expect("a packet").jpeg_buffer, image);
}

#[test]
fn padding_is_cut_off_the_image() {
    let image = jpeg(64);
    for padding in 0..4 {
        let mut parser = ColorStreamParser::new();
        let found = parser.parse(packet(1, &image, padding, 4)).expect("a packet");
        assert_eq!(found.jpeg_buffer, image);
    }
}

#[test]
fn image_is_cut_at_the_tightest_end_marker() {
    let mut image = jpeg(64);
    image.extend([0xff, 0xd9]);
    let mut parser = ColorStreamParser::new();
    let found = parser.parse(packet(1, &image, 0, 4)).expect("a packet");
    assert_eq!(found.jpeg_buffer, jpeg(64));
    let mut parser = ColorStreamParser::new();
    let found = parser.parse(packet(1, &image, 2, 4)).expect("a packet");
    assert_eq!(found.jpeg_buffer, image);
}

#[test]
fn every_packet_ends_with_the_end_marker() {
    for (length, padding, filler) in [(4, 0, 0), (64, 1, 3), (999, 3, 100), (20000, 2, 0)] {
        let mut parser = ColorStreamParser::new();
        let found = parser.parse(packet(9, &jpeg(length), padding, filler)).expect("a packet");
        let n = found.jpeg_buffer.len();
        assert_eq!(&found.jpeg_buffer[n - 2..], &[0xff, 0xd9]);
    }
}

#[test]
fn image_without_end_marker_is_dropped() {
    let mut image = jpeg(64);
    image.truncate(62);
    let mut parser = ColorStreamParser::new();
    assert!(parser.parse(packet(1, &image, 0, 4)).is_none());
    assert!(parser.parse(packet(2, &jpeg(64), 0, 4)).is_some());
}

#[test]
fn end_marker_behind_too_much_padding_is_not_found() {
    let mut parser = ColorStreamParser::new();
    assert!(parser.parse(packet(1, &jpeg(64), 4, 4)).is_none());
    assert!(parser.parse(packet(2, &jpeg(64), 3, 4)).is_some());
}

#[test]
fn overflow_resets_the_parser() {
    let mut parser = ColorStreamParser::new();
    assert!(parser.parse(vec![0x11; 2 * 1024 * 1024]).is_none());
    assert!(parser.parse(vec![0x11; 1]).is_none());
    let found = parser.parse(packet(3, &jpeg(64), 0, 0));
    assert_eq!(found.expect("a packet after the reset").sequence, 3);
}

#[test]
fn transfer_larger_than_capacity_resets_the_parser() {
    let mut parser = ColorStreamParser::new();
    assert!(parser.parse(vec![0; 100]).is_none());
    assert!(parser.parse(vec![0; 2 * 1024 * 1024 + 1]).is_none());
    assert!(parser.parse(packet(4, &jpeg(64), 0, 0)).is_some());
}

#[test]
fn capacity_itself_is_not_an_overflow() {
    let image = jpeg(2 * 1024 * 1024 - 64);
    let bytes = packet(8, &image, 0, 0);
    assert_eq!(bytes.len(), 2 * 1024 * 1024);
    let mut parser = ColorStreamParser::new();
    assert_eq!(parser.parse(bytes).expect("a packet").jpeg_buffer.len(), image.len());
}

#[test]
fn bytes_without_footer_are_kept() {
    let bytes = packet(7, &jpeg(200), 0, 0);
    let mut parser = ColorStreamParser::new();
    assert!(parser.parse(bytes[..150].to_vec()).is_none());
    assert!(parser.parse(bytes[150..].to_vec()).is_some());
}

#[test]
fn wrong_packet_size_clears() {
    let mut bytes = packet(7, &jpeg(200), 0, 0);
    let at = bytes.len() - 56 + 36;
    bytes[at] ^= 1;
    let mut parser = ColorStreamParser::new();
    assert!(parser.parse(bytes).is_none());
    assert!(parser.parse(packet(8, &jpeg(64), 0, 0)).is_some());
}

#[test]
fn sequence_mismatch_clears() {
    let mut bytes = packet(7, &jpeg(200), 0, 0);
    bytes[0] = 8;
    let mut parser = ColorStreamParser::new();
    assert!(parser.parse(bytes).is_none());
    assert!(parser.parse(packet(9, &jpeg(64), 0, 0)).is_some());
}

#[test]
fn filler_longer_than_payload_clears() {
    let mut bytes = packet(7, &jpeg(200), 0, 0);
    let at = bytes.len() - 56 + 8;
    bytes[at..at + 4].copy_from_slice(&201u32.to_le_bytes());
    let mut parser = ColorStreamParser::new();
    assert!(parser.parse(bytes).is_none());
    assert!(parser.parse(packet(9, &jpeg(64), 0, 0)).is_some());
}

#[test]
fn header_and_footer_without_image_are_dropped() {
    let mut parser = ColorStreamParser::new();
    let empty = packet(1, &[], 0, 0);
    assert_eq!(empty.len(), 64);
    assert!(parser.parse(empty).is_none());
    assert_eq!(parser.parse(packet(2, &jpeg(64), 0, 0)).map(|found| found.sequence), Some(2));
}

#[test]
fn fewer_bytes_than_header_and_footer_are_kept() {
    let bytes = packet(3, &jpeg(64), 0, 0);
    let mut parser = ColorStreamParser::new();
    assert!(parser.parse(bytes[..63].to_vec()).is_none());
    assert_eq!(parser.parse(bytes[63..].to_vec()).map(|found| found.sequence), Some(3));
}

#[test]
fn short_buffer_is_no_packet() {
    let mut parser = ColorStreamParser::new();
    assert!(parser.parse(packet(1, &[], 0, 0)).is_none());
    let mut parser = ColorStreamParser::new();
    assert!(parser.parse(packet(1, &[0xd9], 0, 0)).is_none());
}
