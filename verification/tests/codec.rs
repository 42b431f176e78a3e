use can_relay::errors::RelayError;
use can_relay::frame::CanFrame;
use can_relay::hex_codec::decode_payload;
use can_relay::hex_codec::parse_hex_u32;
use can_relay::hex_codec::u32_to_upper_hex;
use can_relay::isotp::build_isotp_payload;

#[test]
fn decode_payload_decodes_pairs() {
    assert_eq!(decode_payload("DEADBEEF"), Ok(vec![0xDE, 0xAD, 0xBE, 0xEF]));
}

#[test]
fn decode_payload_accepts_lower_case() {
    assert_eq!(decode_payload("0a"), Ok(vec![0x0A]));
}

#[test]
fn decode_payload_empty_is_empty_payload() {
    assert_eq!(decode_payload(""), Ok(vec![]));
}

#[test]
fn decode_payload_rejects_odd_length() {
    assert_eq!(decode_payload("ABC"), Err(RelayError::Decode));
}

#[test]
fn decode_payload_rejects_non_hex() {
    assert_eq!(decode_payload("ZZ"), Err(RelayError::Decode));
}

#[test]
fn parse_hex_u32_parses_identifier() {
    assert_eq!(parse_hex_u32("123"), Some(0x123));
    assert_eq!(parse_hex_u32("7ff"), Some(0x7FF));
    assert_eq!(parse_hex_u32("0"), Some(0));
}

#[test]
fn parse_hex_u32_leading_zeros_do_not_overflow() {
    assert_eq!(parse_hex_u32("00000000FF"), Some(0xFF));
}

#[test]
fn parse_hex_u32_full_range() {
    assert_eq!(parse_hex_u32("FFFFFFFF"), Some(u32::MAX));
    assert_eq!(parse_hex_u32("100000000"), None);
}

#[test]
fn parse_hex_u32_rejects_malformed() {
    assert_eq!(parse_hex_u32(""), None);
    assert_eq!(parse_hex_u32("ZZ"), None);
    assert_eq!(parse_hex_u32("12 "), None);
    assert_eq!(parse_hex_u32("+1"), None);
}

#[test]
fn upper_hex_natural_digits() {
    assert_eq!(u32_to_upper_hex(0), "0");
    assert_eq!(u32_to_upper_hex(0xA), "A");
    assert_eq!(u32_to_upper_hex(0xDE), "DE");
    assert_eq!(u32_to_upper_hex(0x123), "123");
    assert_eq!(u32_to_upper_hex(u32::MAX), "FFFFFFFF");
}

#[test]
fn hex_round_trip_through_rendering() {
    // Rendering then parsing gives the value back.
    for v in [0u32, 1, 9, 0xA, 0xFF, 0x123, 0x7FF, 0xDEADBEEF] {
        assert_eq!(parse_hex_u32(&u32_to_upper_hex(v)), Some(v));
    }
}

#[test]
fn isotp_prefixes_length() {
    // A one-byte payload becomes its length prefix and the byte.
    assert_eq!(build_isotp_payload(&vec![0xAA], None), Ok(vec![0x01, 0xAA]));
}

#[test]
fn isotp_round_trip_short_payload() {
    let payload = vec![0xDE, 0xAD, 0xBE];
    let framed = build_isotp_payload(&payload, None).unwrap();
    assert_eq!(framed[0] as usize, payload.len());
    assert_eq!(&framed[1..], &payload[..]);
}

#[test]
fn isotp_seven_bytes_fills_frame_exactly() {
    let payload = vec![1, 2, 3, 4, 5, 6, 7];
    let framed = build_isotp_payload(&payload, Some(0xCC)).unwrap();
    // Already eight bytes once prefixed: no padding is added.
    assert_eq!(framed, vec![7, 1, 2, 3, 4, 5, 6, 7]);
}

#[test]
fn isotp_truncates_to_eight_bytes() {
    let payload = vec![1, 2, 3, 4, 5, 6, 7, 8, 9];
    let framed = build_isotp_payload(&payload, None).unwrap();
    assert_eq!(framed, vec![9, 1, 2, 3, 4, 5, 6, 7]);
}

#[test]
fn isotp_pads_short_frame() {
    let framed = build_isotp_payload(&vec![0xAA], Some(0x00)).unwrap();
    assert_eq!(framed, vec![0x01, 0xAA, 0, 0, 0, 0, 0, 0]);
}

#[test]
fn isotp_rejects_unrepresentable_length() {
    let payload = vec![0u8; 256];
    assert_eq!(build_isotp_payload(&payload, None), Err(RelayError::FrameBuild));
}

#[test]
fn frame_rejects_out_of_range() {
    assert!(CanFrame::new(0x800, vec![]).is_err());
    assert!(CanFrame::new(0x7FF, vec![0; 9]).is_err());
    let f = CanFrame::new(0x7FF, vec![0; 8]).unwrap();
    assert_eq!(f.id, 0x7FF);
    assert_eq!(f.data.len(), 8);
}
