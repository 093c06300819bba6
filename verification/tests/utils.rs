use rsping::net::{Ipv4Address, MacAddress};
use rsping::utils::{
    first_ipv4_address, interface_validator, ip_address_validator, mac_address_validator,
    num_validator, parse_ipv4, parse_mac, parse_u64,
};

#[test]
fn numbers_parse() {
    assert_eq!(parse_u64("0"), Some(0));
    assert_eq!(parse_u64("123"), Some(123));
    assert_eq!(parse_u64("+7"), Some(7));
    assert_eq!(parse_u64("007"), Some(7));
    assert_eq!(parse_u64("18446744073709551615"), Some(u64::MAX));
}

#[test]
fn bad_numbers_do_not_parse() {
    assert_eq!(parse_u64(""), None);
    assert_eq!(parse_u64("+"), None);
    assert_eq!(parse_u64("-1"), None);
    assert_eq!(parse_u64("12a"), None);
    assert_eq!(parse_u64("1 2"), None);
    assert_eq!(parse_u64("18446744073709551616"), None);
    assert_eq!(parse_u64("99999999999999999999999999"), None);
}

#[test]
fn num_validator_reports() {
    assert_eq!(num_validator("10".to_string()), Ok(()));
    assert_eq!(
        num_validator("ten".to_string()),
        Err("value ten is not a number".to_string())
    );
}

#[test]
fn ipv4_addresses_parse() {
    assert_eq!(parse_ipv4("192.168.1.2"), Some(Ipv4Address(192, 168, 1, 2)));
    assert_eq!(parse_ipv4("0.0.0.0"), Some(Ipv4Address(0, 0, 0, 0)));
    assert_eq!(parse_ipv4("255.255.255.255"), Some(Ipv4Address(255, 255, 255, 255)));
    assert_eq!(parse_ipv4("1.22.3.44"), Some(Ipv4Address(1, 22, 3, 44)));
}

#[test]
fn bad_ipv4_addresses_do_not_parse() {
    assert_eq!(parse_ipv4(""), None);
    assert_eq!(parse_ipv4("1.2.3"), None);
    assert_eq!(parse_ipv4("1.2.3.4.5"), None);
    assert_eq!(parse_ipv4("256.1.1.1"), None);
    assert_eq!(parse_ipv4("01.2.3.4"), None);
    assert_eq!(parse_ipv4("1..2.3"), None);
    assert_eq!(parse_ipv4("1.2.3."), None);
    assert_eq!(parse_ipv4(".1.2.3"), None);
    assert_eq!(parse_ipv4("a.b.c.d"), None);
    assert_eq!(parse_ipv4("1.2.3.+4"), None);
}

#[test]
fn ip_validator_reports() {
    assert_eq!(ip_address_validator("10.0.0.1".to_string()), Ok(()));
    assert_eq!(
        ip_address_validator("10.0.0.300".to_string()),
        Err("bad IP address: 10.0.0.300".to_string())
    );
}

#[test]
fn mac_addresses_parse() {
    assert_eq!(
        parse_mac("00:0C:29:83:8C:20"),
        Some(MacAddress(0x00, 0x0C, 0x29, 0x83, 0x8C, 0x20))
    );
    assert_eq!(parse_mac("ff:ff:ff:ff:ff:ff"), Some(MacAddress::broadcast()));
    assert_eq!(parse_mac("0:1:2:3:4:5"), Some(MacAddress(0, 1, 2, 3, 4, 5)));
    assert_eq!(parse_mac("aA:bB:cC:dD:eE:fF"), Some(MacAddress(0xAA, 0xBB, 0xCC, 0xDD, 0xEE, 0xFF)));
    // Zero-padded and plus-signed components parse, as radix parsing takes them.
    assert_eq!(parse_mac("000:11:22:33:44:55"), Some(MacAddress(0, 0x11, 0x22, 0x33, 0x44, 0x55)));
    assert_eq!(parse_mac("0000ff:0:0:0:0:0"), Some(MacAddress(255, 0, 0, 0, 0, 0)));
    assert_eq!(parse_mac("+f:+0:0:0:0:0"), Some(MacAddress(15, 0, 0, 0, 0, 0)));
}

#[test]
fn bad_mac_addresses_do_not_parse() {
    assert_eq!(parse_mac(""), None);
    assert_eq!(parse_mac("00:11:22:33:44"), None);
    assert_eq!(parse_mac("00:11:22:33:44:55:66"), None);
    assert_eq!(parse_mac("00:11:22:33:44:"), None);
    assert_eq!(parse_mac("100:11:22:33:44:55"), None);
    assert_eq!(parse_mac("zz:11:22:33:44:55"), None);
    assert_eq!(parse_mac("00-11-22-33-44-55"), None);
    assert_eq!(parse_mac("+:11:22:33:44:55"), None);
    assert_eq!(parse_mac("++f:11:22:33:44:55"), None);
    assert_eq!(parse_mac("f+:11:22:33:44:55"), None);
    assert_eq!(parse_mac("-f:11:22:33:44:55"), None);
}

#[test]
fn mac_validator_reports() {
    assert_eq!(mac_address_validator("FF:FF:FF:FF:FF:FF".to_string()), Ok(()));
    assert_eq!(
        mac_address_validator("FF:FF".to_string()),
        Err("bad MAC address: FF:FF".to_string())
    );
}

#[test]
fn first_ipv4_entry_is_picked_in_order() {
    let networks = vec![
        None,
        Some(Ipv4Address(10, 0, 0, 1)),
        Some(Ipv4Address(192, 168, 1, 1)),
    ];
    assert_eq!(first_ipv4_address(&networks), Some(Ipv4Address(10, 0, 0, 1)));
}

#[test]
fn no_ipv4_entry_gives_none() {
    assert_eq!(first_ipv4_address(&vec![]), None);
    assert_eq!(first_ipv4_address(&vec![None, None]), None);
}

#[test]
fn unknown_interface_is_rejected() {
    assert_eq!(
        interface_validator("no-such-interface-here".to_string()),
        Err("interface no-such-interface-here does not exist".to_string())
    );
}
