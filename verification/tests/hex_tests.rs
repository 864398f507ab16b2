use usbpoll::hex::format_hex16;
use usbpoll::hex::hex_lower;

#[test]
fn empty_input_renders_empty() {
    assert_eq!(hex_lower(&[]), "");
}

#[test]
fn single_bytes_render_two_lowercase_digits() {
    assert_eq!(hex_lower(&[0x00]), "00");
    assert_eq!(hex_lower(&[0x0a]), "0a");
    assert_eq!(hex_lower(&[0x10]), "10");
    assert_eq!(hex_lower(&[0xff]), "ff");
    assert_eq!(hex_lower(&[0xa5]), "a5");
}

#[test]
fn multi_byte_payload_renders_in_order() {
    assert_eq!(hex_lower(&[0xde, 0xad, 0xbe, 0xef]), "deadbeef");
    assert_eq!(hex_lower(&[0x01, 0x23, 0x45, 0x67, 0x89]), "0123456789");
}

#[test]
fn rendering_is_twice_the_length() {
    for n in 0..32usize {
        let payload = vec![0x42u8; n];
        assert_eq!(hex_lower(&payload).len(), 2 * n);
    }
}

#[test]
fn sixteen_bit_values_render_with_0x_prefix() {
    assert_eq!(format_hex16(0x1d6b), "0x1d6b");
    assert_eq!(format_hex16(0x8030), "0x8030");
    assert_eq!(format_hex16(0x0000), "0x0000");
    assert_eq!(format_hex16(0xffff), "0xffff");
    assert_eq!(format_hex16(0x0001), "0x0001");
}
