use pico4u::protocol::{encode_request, hex_padded, is_okay, parse_length_field};

#[test]
fn request_frame_has_four_hex_digits() {
    assert_eq!(encode_request("host:devices"), b"000chost:devices".to_vec());
    assert_eq!(encode_request(""), b"0000".to_vec());
    // the length counts UTF-8 bytes, not characters
    assert_eq!(encode_request("é"), vec![b'0', b'0', b'0', b'2', 0xc3, 0xa9]);
}

#[test]
fn long_payload_widens_the_length_field() {
    let long = "a".repeat(0x10000);
    let frame = encode_request(&long);
    assert_eq!(&frame[..5], b"10000");
    assert_eq!(frame.len(), 0x10000 + 5);
}

#[test]
fn hex_is_lowercase_and_padded() {
    assert_eq!(hex_padded(255, 4), b"00ff".to_vec());
    assert_eq!(hex_padded(0, 4), b"0000".to_vec());
    assert_eq!(hex_padded(0xabcde, 4), b"abcde".to_vec());
    assert_eq!(hex_padded(7, 0), b"7".to_vec());
}

#[test]
fn frame_length_reads_back() {
    for payload in ["", "host:kill", "shell:ip addr show wlan0"] {
        let frame = encode_request(payload);
        assert_eq!(parse_length_field(&frame[..4]), payload.len());
        assert_eq!(&frame[4..], payload.as_bytes());
    }
}

#[test]
fn status_okay_only() {
    assert!(is_okay(b"OKAY"));
    assert!(!is_okay(b"FAIL"));
    assert!(!is_okay(b"okay"));
    assert!(!is_okay(b"OKA"));
}

#[test]
fn length_field_values() {
    assert_eq!(parse_length_field(b"0012"), 0x12);
    assert_eq!(parse_length_field(b"00FF"), 255);
    assert_eq!(parse_length_field(b"+fff"), 0xfff);
    assert_eq!(parse_length_field(b"0000"), 0);
    assert_eq!(parse_length_field(b"00g1"), 0);
    assert_eq!(parse_length_field(b"-001"), 0);
    assert_eq!(parse_length_field(b" 001"), 0);
    assert_eq!(parse_length_field(b"+"), 0);
    assert_eq!(parse_length_field(b""), 0);
    assert_eq!(parse_length_field(&[0xff, b'0', b'0', b'1']), 0);
    assert_eq!(parse_length_field(b"ffffffffffffffffff"), 0);
}
