use axi_psu::codec::{decode, decode_symbol, encode, encode_nibble, reply_tag_valid};

#[test]
fn encode_empty_payload() {
    let f = encode(0, &[]);
    assert_eq!(f, vec![0x54, 0x00]);
}

#[test]
fn encode_known_frame() {
    // command 0 -> symbol 0x55 masked to 0x54; byte 0x12 -> low 2 (0x59), high 1 (0x56)
    let f = encode(0, &[0x12]);
    assert_eq!(f, vec![0x54, 0x59, 0x56, 0x00]);
}

#[test]
fn encode_command_seven_is_reply_tag() {
    let f = encode(7, &[0xff]);
    assert_eq!(f, vec![0xa8, 0xaa, 0xaa, 0x00]);
    assert!(reply_tag_valid(&f));
    assert!(!reply_tag_valid(&encode(0, &[0xff])));
    assert!(!reply_tag_valid(&[]));
}

#[test]
fn command_wraps_at_eight() {
    assert_eq!(encode(9, &[1]), encode(1, &[1]));
    assert_eq!(encode(3, &[])[0], 0x68);
}

#[test]
fn frame_length_and_terminator() {
    for n in [0usize, 1, 2, 7, 100, 2047] {
        let p: Vec<u8> = (0..n).map(|i| (i * 37 % 256) as u8).collect();
        let f = encode(5, &p);
        assert_eq!(f.len(), 2 * n + 2);
        assert_eq!(*f.last().unwrap(), 0);
    }
}

#[test]
fn round_trip_all_bytes_all_commands() {
    let p: Vec<u8> = (0..=255u8).collect();
    for c in 0..16usize {
        assert_eq!(decode(&encode(c, &p)), p);
    }
}

#[test]
fn round_trip_largest_payload() {
    let p: Vec<u8> = (0..2047usize).map(|i| (i * 91 % 256) as u8).collect();
    assert_eq!(decode(&encode(7, &p)), p);
}

#[test]
fn decode_output_length_odd_and_even() {
    assert_eq!(decode(&[]), Vec::<u8>::new());
    assert_eq!(decode(&[0xa8]).len(), 0);
    assert_eq!(decode(&[0xa8, 0x55]).len(), 0);
    assert_eq!(decode(&[0xa8, 0x55, 0x56]).len(), 1);
    assert_eq!(decode(&[0xa8, 0x55, 0x56, 0x00]).len(), 1);
    assert_eq!(decode(&[0xa8, 0x55, 0x56, 0x00, 0x00]).len(), 2);
}

#[test]
fn unknown_symbols_decode_to_zero() {
    assert_eq!(decode_symbol(0x00), 0);
    assert_eq!(decode_symbol(0xff), 0);
    assert_eq!(decode(&[0xa8, 0x12, 0x34, 0x00]), vec![0x00]);
}

#[test]
fn symbol_tables_agree() {
    for n in 0..16u8 {
        assert_eq!(decode_symbol(encode_nibble(n)), n);
    }
    assert_eq!(encode_nibble(0), 0x55);
    assert_eq!(encode_nibble(15), 0xaa);
    assert_eq!(decode_symbol(0xa8), 14);
}
