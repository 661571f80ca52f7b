use geocache::ip::{parse_ip, IpKey};

#[test]
fn parser_v4_simple() {
    assert_eq!(parse_ip("1.2.3.4"), Some(IpKey::V4(0x01020304)));
}

#[test]
fn parser_v4_bounds() {
    assert_eq!(parse_ip("0.0.0.0"), Some(IpKey::V4(0)));
    assert_eq!(parse_ip("255.255.255.255"), Some(IpKey::V4(0xFFFF_FFFF)));
    assert_eq!(parse_ip("127.0.0.1"), Some(IpKey::V4(0x7F00_0001)));
}

#[test]
fn parser_v4_rejects_octet_over_255() {
    assert_eq!(parse_ip("256.1.1.1"), None);
    assert_eq!(parse_ip("1.1.1.999"), None);
}

#[test]
fn parser_v4_rejects_leading_zero() {
    assert_eq!(parse_ip("01.2.3.4"), None);
    assert_eq!(parse_ip("1.2.3.04"), None);
}

#[test]
fn parser_v4_rejects_wrong_shape() {
    assert_eq!(parse_ip("1.2.3"), None);
    assert_eq!(parse_ip("1.2.3.4.5"), None);
    assert_eq!(parse_ip("1.2.3.4 "), None);
    assert_eq!(parse_ip(".1.2.3.4"), None);
    assert_eq!(parse_ip("1..2.3"), None);
}

#[test]
fn parser_rejects_junk() {
    assert_eq!(parse_ip(""), None);
    assert_eq!(parse_ip("not-an-ip"), None);
    assert_eq!(parse_ip("hello"), None);
    assert_eq!(parse_ip("1.2.3.4x"), None);
}

#[test]
fn parser_v6_loopback() {
    assert_eq!(parse_ip("::1"), Some(IpKey::V6(1)));
    assert_eq!(parse_ip("::"), Some(IpKey::V6(0)));
}

#[test]
fn parser_v6_full_eight_groups() {
    assert_eq!(
        parse_ip("1:2:3:4:5:6:7:8"),
        Some(IpKey::V6(0x0001_0002_0003_0004_0005_0006_0007_0008))
    );
    assert_eq!(
        parse_ip("ffff:ffff:ffff:ffff:ffff:ffff:ffff:ffff"),
        Some(IpKey::V6(u128::MAX))
    );
}

#[test]
fn parser_v6_elision() {
    assert_eq!(
        parse_ip("2001:db8::8a2e:370:7334"),
        Some(IpKey::V6(0x2001_0db8_0000_0000_0000_8a2e_0370_7334))
    );
    assert_eq!(
        parse_ip("1:2:3:4:5:6:7::"),
        Some(IpKey::V6(0x0001_0002_0003_0004_0005_0006_0007_0000))
    );
    assert_eq!(parse_ip("1::8"), Some(IpKey::V6(0x0001_0000_0000_0000_0000_0000_0000_0008)));
}

#[test]
fn parser_v6_embedded_v4() {
    assert_eq!(parse_ip("::ffff:1.2.3.4"), Some(IpKey::V6(0x0000_ffff_0102_0304)));
    assert_eq!(
        parse_ip("1:2:3:4:5:6:1.2.3.4"),
        Some(IpKey::V6(0x0001_0002_0003_0004_0005_0006_0102_0304))
    );
}

#[test]
fn parser_v6_hex_case_insensitive() {
    assert_eq!(parse_ip("ABCD::ef01"), parse_ip("abcd::EF01"));
    assert_eq!(parse_ip("aBcD::"), Some(IpKey::V6(0xABCD_0000_0000_0000_0000_0000_0000_0000)));
}

#[test]
fn parser_v6_rejects_bad_shapes() {
    assert_eq!(parse_ip(":::"), None);
    assert_eq!(parse_ip("1::2::3"), None);
    assert_eq!(parse_ip("::1:2:3:4:5:6:7:8"), None);
    assert_eq!(parse_ip("1:2:3:4:5:6:7:8:9"), None);
    assert_eq!(parse_ip("1:2:3:4:5:6:7"), None);
    assert_eq!(parse_ip("12345::"), None);
    assert_eq!(parse_ip("1:2:3:4:5:6:7:8::"), None);
    assert_eq!(parse_ip("1:"), None);
    assert_eq!(parse_ip(":1:2:3:4:5:6:7"), None);
    assert_eq!(parse_ip("g::1"), None);
    assert_eq!(parse_ip("1:2:3:4:5:6::1.2.3.4"), None);
}

#[test]
fn parser_v4_not_read_as_v6() {
    // a dotted quad is an IPv4 key, never a bare IPv6 one
    assert_eq!(parse_ip("9.9.9.9"), Some(IpKey::V4(0x0909_0909)));
}

#[test]
fn parser_distinguishes_families() {
    // the same 32 bits under the two families are different keys
    let v4 = parse_ip("1.2.3.4").unwrap();
    let v6 = parse_ip("::ffff:1.2.3.4").unwrap();
    assert_ne!(v4, v6);
}

#[test]
fn parser_rejects_overlong_text() {
    let long = "1111:2222:3333:4444:5555:6666:7777:8888:9999:aaaa";
    assert_eq!(parse_ip(long), None);
}
