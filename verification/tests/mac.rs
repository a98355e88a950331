use lianli_daemon::mac::{parse_mac_str, wireless_device_id};

#[test]
fn address_is_parsed() {
    assert_eq!(
        parse_mac_str("01:23:45:67:89:AB"),
        Some([0x01, 0x23, 0x45, 0x67, 0x89, 0xab])
    );
    assert_eq!(
        parse_mac_str("de:ad:be:ef:00:ff"),
        Some([0xde, 0xad, 0xbe, 0xef, 0x00, 0xff])
    );
}

#[test]
fn short_and_padded_parts_are_numbers_too() {
    assert_eq!(parse_mac_str("1:2:3:4:5:6"), Some([1, 2, 3, 4, 5, 6]));
    assert_eq!(
        parse_mac_str("001:0000f:0:00:0a:00000000ff"),
        Some([1, 15, 0, 0, 10, 255])
    );
}

#[test]
fn leading_plus_is_accepted() {
    assert_eq!(parse_mac_str("+1:+A:2:3:4:+ff"), Some([1, 10, 2, 3, 4, 255]));
    assert_eq!(parse_mac_str("+:1:2:3:4:5"), None);
    assert_eq!(parse_mac_str("++1:1:2:3:4:5"), None);
    assert_eq!(parse_mac_str("-0:1:2:3:4:5"), None);
    assert_eq!(parse_mac_str("-1:1:2:3:4:5"), None);
}

#[test]
fn malformed_addresses_are_refused() {
    assert_eq!(parse_mac_str(""), None);
    assert_eq!(parse_mac_str(":::::"), None);
    assert_eq!(parse_mac_str("01:23:45:67:89"), None);
    assert_eq!(parse_mac_str("01:23:45:67:89:AB:CD"), None);
    assert_eq!(parse_mac_str("01:23:45:67:89:"), None);
    assert_eq!(parse_mac_str("01-23-45-67-89-AB"), None);
    assert_eq!(parse_mac_str("01:23:45:67:89:GG"), None);
    assert_eq!(parse_mac_str("01:23:45:67:89: A"), None);
    assert_eq!(parse_mac_str("01:23:45:67:89:A "), None);
    assert_eq!(parse_mac_str("01:23:45:67:89:\u{e9}"), None);
}

#[test]
fn numbers_above_a_byte_are_refused() {
    assert_eq!(parse_mac_str("100:0:0:0:0:0"), None);
    assert_eq!(parse_mac_str("0:0:0:0:0:fff"), None);
    assert_eq!(parse_mac_str("0:0:0:0:0:ffffffffffffffffffff"), None);
    assert_eq!(parse_mac_str("0:0:0:0:0:ff"), Some([0, 0, 0, 0, 0, 255]));
}

#[test]
fn parts_agree_with_the_standard_parser() {
    let parts = [
        "", "0", "00", "7", "a", "A", "1f", "fF", "ff", "100", "0ff", "+", "+f", "-1", "g", "0x1",
        " 1", "1 ", "+ff", "+100", "00000000000000001", "1_0",
    ];
    for part in parts {
        let expected = u8::from_str_radix(part, 16).ok();
        let parsed = parse_mac_str(&format!("1:2:3:4:5:{part}"));
        assert_eq!(parsed.map(|mac| mac[5]), expected, "{part:?}");
        let parsed = parse_mac_str(&format!("{part}:2:3:4:5:6"));
        assert_eq!(parsed.map(|mac| mac[0]), expected, "{part:?}");
    }
}

#[test]
fn device_id_is_written_in_lower_case() {
    assert_eq!(
        wireless_device_id(&[0x01, 0x23, 0xAB, 0xCD, 0x00, 0xFF]),
        "wireless:01:23:ab:cd:00:ff"
    );
}

#[test]
fn written_address_is_read_back() {
    for mac in [[0u8; 6], [255; 6], [1, 2, 3, 4, 5, 6], [0x9a, 0xa9, 0x0f, 0xf0, 0x7e, 0x10]] {
        let id = wireless_device_id(&mac);
        let text = format!(
            "wireless:{:02x}:{:02x}:{:02x}:{:02x}:{:02x}:{:02x}",
            mac[0], mac[1], mac[2], mac[3], mac[4], mac[5]
        );
        assert_eq!(id, text);
        assert_eq!(parse_mac_str(id.strip_prefix("wireless:").unwrap()), Some(mac));
    }
}

#[test]
fn device_ids_differ_where_the_addresses_do() {
    let a = wireless_device_id(&[1, 2, 3, 4, 5, 6]);
    let b = wireless_device_id(&[1, 2, 3, 4, 5, 7]);
    assert_ne!(a, b);
}

#[test]
fn letter_case_does_not_matter() {
    let texts = [
        "de:ad:be:ef:00:ff",
        "DE:ad:Be:eF:00:fF",
        "a:b:c:d:e:f",
        "1:2:3:4:5:g",
        "+a:+B:1:2:3:4",
    ];
    for text in texts {
        assert_eq!(parse_mac_str(text), parse_mac_str(&text.to_uppercase()));
        assert_eq!(parse_mac_str(text), parse_mac_str(&text.to_lowercase()));
    }
    let id = wireless_device_id(&[0xde, 0xad, 0xbe, 0xef, 0x00, 0xff]);
    let text = id.strip_prefix("wireless:").unwrap().to_uppercase();
    assert_eq!(parse_mac_str(&text), Some([0xde, 0xad, 0xbe, 0xef, 0x00, 0xff]));
}
