use nullscan::address::hex_chars;
use nullscan::targets::IpAddress;

fn v6(groups: [u16; 8]) -> IpAddress {
    let mut a: u128 = 0;
    for g in groups {
        a = (a << 16) | g as u128;
    }
    IpAddress::V6(a)
}

#[test]
fn ipv4_text_is_dotted_decimal() {
    assert_eq!(IpAddress::V4(0x7f00_0001).to_text(), "127.0.0.1");
    assert_eq!(IpAddress::V4(0).to_text(), "0.0.0.0");
    assert_eq!(IpAddress::V4(u32::MAX).to_text(), "255.255.255.255");
    assert_eq!(IpAddress::V4(u32::from_be_bytes([10, 20, 30, 40])).to_text(), "10.20.30.40");
    assert_eq!(IpAddress::V4(u32::from_be_bytes([192, 168, 1, 200])).to_text(), "192.168.1.200");
}

#[test]
fn hexadecimal_groups() {
    let text = |n: u16| -> String { hex_chars(n).iter().collect() };
    assert_eq!(text(0), "0");
    assert_eq!(text(10), "a");
    assert_eq!(text(0xdb8), "db8");
    assert_eq!(text(0xffff), "ffff");
    assert_eq!(text(0x1000), "1000");
}

#[test]
fn ipv6_text_shortens_the_longest_run_of_zeros() {
    assert_eq!(v6([0, 0, 0, 0, 0, 0, 0, 0]).to_text(), "::");
    assert_eq!(v6([0, 0, 0, 0, 0, 0, 0, 1]).to_text(), "::1");
    assert_eq!(v6([0xfe80, 0, 0, 0, 0, 0, 0, 1]).to_text(), "fe80::1");
    assert_eq!(v6([0x2001, 0xdb8, 0, 0, 0, 0, 0, 0]).to_text(), "2001:db8::");
    assert_eq!(v6([0x2001, 0xdb8, 0, 1, 0, 0, 0, 1]).to_text(), "2001:db8:0:1::1");
    assert_eq!(v6([0x2001, 0xdb8, 0, 0, 1, 0, 0, 1]).to_text(), "2001:db8::1:0:0:1");
    assert_eq!(v6([1, 0, 2, 0, 3, 0, 4, 0]).to_text(), "1:0:2:0:3:0:4:0");
    assert_eq!(v6([1, 2, 3, 4, 5, 6, 7, 8]).to_text(), "1:2:3:4:5:6:7:8");
    assert_eq!(v6([0, 1, 0, 0, 2, 0, 0, 0]).to_text(), "0:1:0:0:2::");
    assert_eq!(v6([0xfd00, 0, 0, 0, 0, 0, 0, 0]).to_text(), "fd00::");
    assert_eq!(v6([0xffff, 0xffff, 0xffff, 0xffff, 0xffff, 0xffff, 0xffff, 0xffff]).to_text(),
        "ffff:ffff:ffff:ffff:ffff:ffff:ffff:ffff");
}

#[test]
fn ipv4_mapped_addresses_are_written_dotted() {
    assert_eq!(v6([0, 0, 0, 0, 0, 0xffff, 0xc0a8, 0x0101]).to_text(), "::ffff:192.168.1.1");
    assert_eq!(v6([0, 0, 0, 0, 0, 0xffff, 0, 0]).to_text(), "::ffff:0.0.0.0");
    // Not mapped: the groups before do not all vanish.
    assert_eq!(v6([0, 0, 0, 0, 1, 0xffff, 0xc0a8, 0x0101]).to_text(), "::1:ffff:c0a8:101");
    assert_eq!(v6([0, 0, 0, 0, 0, 0, 0xc0a8, 0x0101]).to_text(), "::c0a8:101");
}
