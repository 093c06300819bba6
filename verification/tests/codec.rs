use rsping::codec::{
    encode_arp_message, encode_request, ArpMessage, ArpOperation, EthernetFrame,
};
use rsping::error::ErrorKind;
use rsping::net::{Ipv4Address, MacAddress};
use rsping::session::ARPPing;
use rsping::utils::{parse_ipv4, parse_mac};

#[test]
fn test_arp() {
    let source_ip = parse_ipv4("192.168.1.2").unwrap();
    let source_mac = parse_mac("00:0C:29:83:8C:20").unwrap();
    let target_ip = parse_ipv4("192.168.1.3").unwrap();
    let target_mac = parse_mac("00:0C:29:24:20:6F").unwrap();

    let arp_ether = ARPPing::build_ethernet(source_ip, source_mac, target_ip, target_mac).unwrap();
    let parsed = ARPPing::from_ethernet(&arp_ether).unwrap();

    assert_eq!(parsed.sender_ip, source_ip);
    assert_eq!(parsed.sender_mac, source_mac);
    assert_eq!(parsed.target_ip, target_ip);
    assert_eq!(parsed.target_mac, target_mac);
}

#[test]
fn request_round_trip_through_bytes() {
    let source_ip = Ipv4Address(10, 0, 0, 1);
    let source_mac = MacAddress(0x02, 0x42, 0xAC, 0x11, 0x00, 0x02);
    let target_ip = Ipv4Address(10, 0, 0, 2);
    let target_mac = MacAddress(0xFF, 0xFF, 0xFF, 0xFF, 0xFF, 0xFF);

    let frame = encode_request(source_ip, source_mac, target_ip, target_mac);
    let bytes = frame.encode();
    assert_eq!(bytes.len(), 42);

    let decoded = EthernetFrame::decode(&bytes).unwrap();
    assert_eq!(decoded.destination, target_mac);
    assert_eq!(decoded.source, source_mac);
    assert_eq!(decoded.ethertype, 0x0806);

    let message = ARPPing::from_ethernet(&decoded).unwrap();
    assert_eq!(message.operation, ArpOperation::Request);
    assert_eq!(message.sender_ip, source_ip);
    assert_eq!(message.sender_mac, source_mac);
    assert_eq!(message.target_ip, target_ip);
    assert_eq!(message.target_mac, target_mac);
}

#[test]
fn request_bytes_layout_is_exact() {
    let source_ip = Ipv4Address(192, 168, 1, 2);
    let source_mac = MacAddress(0x00, 0x0C, 0x29, 0x83, 0x8C, 0x20);
    let target_ip = Ipv4Address(192, 168, 1, 3);
    let target_mac = MacAddress(0x00, 0x0C, 0x29, 0x24, 0x20, 0x6F);

    let bytes = encode_request(source_ip, source_mac, target_ip, target_mac).encode();
    let expected: Vec<u8> = vec![
        // Ethernet: destination, source, ethertype ARP
        0x00, 0x0C, 0x29, 0x24, 0x20, 0x6F, 0x00, 0x0C, 0x29, 0x83, 0x8C, 0x20, 0x08, 0x06,
        // ARP: hardware type 1, protocol type IPv4, lengths 6 and 4, request
        0x00, 0x01, 0x08, 0x00, 0x06, 0x04, 0x00, 0x01,
        // sender MAC and IP, target MAC and IP
        0x00, 0x0C, 0x29, 0x83, 0x8C, 0x20, 192, 168, 1, 2, 0x00, 0x0C, 0x29, 0x24, 0x20, 0x6F,
        192, 168, 1, 3,
    ];
    assert_eq!(bytes, expected);
}

#[test]
fn ethertype_gate_rejects_non_arp() {
    let frame = EthernetFrame {
        destination: MacAddress(1, 2, 3, 4, 5, 6),
        source: MacAddress(6, 5, 4, 3, 2, 1),
        ethertype: 0x0800,
        payload: vec![0u8; 28],
    };
    assert_eq!(ARPPing::from_ethernet(&frame), Err(ErrorKind::ParsePacketError));
}

#[test]
fn undersized_payload_is_rejected() {
    let frame = EthernetFrame {
        destination: MacAddress(1, 2, 3, 4, 5, 6),
        source: MacAddress(6, 5, 4, 3, 2, 1),
        ethertype: 0x0806,
        payload: vec![0u8; 27],
    };
    assert_eq!(ARPPing::from_ethernet(&frame), Err(ErrorKind::ParsePacketError));
}

#[test]
fn undersized_frame_is_rejected() {
    let bytes: Vec<u8> = vec![0u8; 13];
    assert!(matches!(EthernetFrame::decode(&bytes), Err(ErrorKind::ParsePacketError)));
}

#[test]
fn frame_decode_keeps_payload() {
    let frame = EthernetFrame {
        destination: MacAddress(1, 2, 3, 4, 5, 6),
        source: MacAddress(6, 5, 4, 3, 2, 1),
        ethertype: 0x1234,
        payload: vec![9, 8, 7],
    };
    let bytes = frame.encode();
    assert_eq!(bytes.len(), 17);
    let back = EthernetFrame::decode(&bytes).unwrap();
    assert_eq!(back.destination, MacAddress(1, 2, 3, 4, 5, 6));
    assert_eq!(back.source, MacAddress(6, 5, 4, 3, 2, 1));
    assert_eq!(back.ethertype, 0x1234);
    assert_eq!(back.payload, vec![9, 8, 7]);
}

#[test]
fn operation_codes_survive_the_wire() {
    let mut message = ArpMessage {
        hardware_type: 1,
        protocol_type: 0x0800,
        hw_addr_len: 6,
        proto_addr_len: 4,
        operation: ArpOperation::Reply,
        sender_mac: MacAddress(1, 1, 1, 1, 1, 1),
        sender_ip: Ipv4Address(1, 1, 1, 1),
        target_mac: MacAddress(2, 2, 2, 2, 2, 2),
        target_ip: Ipv4Address(2, 2, 2, 2),
    };
    let reply_bytes = encode_arp_message(&message);
    assert_eq!(&reply_bytes[6..8], &[0x00, 0x02]);

    message.operation = ArpOperation::Other(0x1234);
    let other_bytes = encode_arp_message(&message);
    assert_eq!(&other_bytes[6..8], &[0x12, 0x34]);

    let frame = EthernetFrame {
        destination: MacAddress(0, 0, 0, 0, 0, 0),
        source: MacAddress(0, 0, 0, 0, 0, 0),
        ethertype: 0x0806,
        payload: other_bytes,
    };
    let parsed = ARPPing::from_ethernet(&frame).unwrap();
    assert_eq!(parsed.operation, ArpOperation::Other(0x1234));
}
