//! The frame codec: lays an ARP request out as a minimal Ethernet frame and
//! reads an ARP message back out of a received frame's bytes.
//!
//! All multi-byte fields are big-endian, as both Ethernet and ARP put them
//! on the wire.

use vstd::prelude::*;

use crate::error::ErrorKind;
use crate::net::Ipv4Address;
use crate::net::MacAddress;

verus! {

/// Bytes of an Ethernet header: destination, source, ethertype.
pub const ETHERNET_HEADER_LEN: usize = 14;

/// Bytes of an ARP message for Ethernet and IPv4 addresses.
pub const ARP_MESSAGE_LEN: usize = 28;

/// Bytes of a whole request frame: header plus ARP payload, no padding.
pub const MINIMUM_FRAME_LEN: usize = ETHERNET_HEADER_LEN + ARP_MESSAGE_LEN;

/// The ethertype that marks a frame's payload as an ARP message.
pub const ETHERTYPE_ARP: u16 = 0x0806;

/// The protocol type that marks the protocol addresses as IPv4.
pub const ETHERTYPE_IPV4: u16 = 0x0800;

/// The ARP hardware type for Ethernet.
pub const HARDWARE_TYPE_ETHERNET: u16 = 1;

/// Declared length of a hardware (MAC) address.
pub const HARDWARE_ADDRESS_LEN: u8 = 6;

/// Declared length of a protocol (IPv4) address.
pub const PROTOCOL_ADDRESS_LEN: u8 = 4;

/// Wire code of an ARP request.
pub const OPERATION_REQUEST_CODE: u16 = 1;

/// Wire code of an ARP reply.
pub const OPERATION_REPLY_CODE: u16 = 2;

/// The operation field of an ARP message. Codes other than request and
/// reply parse without error and are carried as they came; the canonical
/// codes always parse to their named variant.
#[derive(Clone, Copy, PartialEq, Eq, Structural, Debug)]
pub enum ArpOperation {
    Request,
    Reply,
    Other(u16),
}

impl ArpOperation {
    /// An operation is canonical when a named code is never hidden in `Other`.
    pub open spec fn wf(self) -> bool {
        self matches ArpOperation::Other(c) ==> c != OPERATION_REQUEST_CODE
            && c != OPERATION_REPLY_CODE
    }

    pub open spec fn spec_code(self) -> u16 {
        match self {
            ArpOperation::Request => OPERATION_REQUEST_CODE,
            ArpOperation::Reply => OPERATION_REPLY_CODE,
            ArpOperation::Other(c) => c,
        }
    }

    pub open spec fn spec_from_code(c: u16) -> ArpOperation {
        if c == OPERATION_REQUEST_CODE {
            ArpOperation::Request
        } else if c == OPERATION_REPLY_CODE {
            ArpOperation::Reply
        } else {
            ArpOperation::Other(c)
        }
    }

    /// The wire code of this operation.
    pub fn code(&self) -> (c: u16)
        ensures
            c == self.spec_code(),
    {
        match self {
            ArpOperation::Request => OPERATION_REQUEST_CODE,
            ArpOperation::Reply => OPERATION_REPLY_CODE,
            ArpOperation::Other(c) => *c,
        }
    }

    /// The operation a wire code stands for; always canonical.
    pub fn from_code(c: u16) -> (r: ArpOperation)
        ensures
            r == ArpOperation::spec_from_code(c),
            r.wf(),
    {
        if c == OPERATION_REQUEST_CODE {
            ArpOperation::Request
        } else if c == OPERATION_REPLY_CODE {
            ArpOperation::Reply
        } else {
            ArpOperation::Other(c)
        }
    }
}

/// A structured ARP message. The address length fields are carried as
/// parsed: a message whose declared lengths differ from 6 and 4 still
/// decodes, as long as it is long enough on the wire.
#[derive(Clone, Copy, PartialEq, Eq, Structural, Debug)]
pub struct ArpMessage {
    pub hardware_type: u16,
    pub protocol_type: u16,
    pub hw_addr_len: u8,
    pub proto_addr_len: u8,
    pub operation: ArpOperation,
    pub sender_mac: MacAddress,
    pub sender_ip: Ipv4Address,
    pub target_mac: MacAddress,
    pub target_ip: Ipv4Address,
}

impl ArpMessage {
    pub open spec fn wf(self) -> bool {
        self.operation.wf()
    }
}

/// An Ethernet frame: header fields plus the embedded payload. Its encoded
/// length is always the header length plus the payload length.
#[derive(Debug)]
pub struct EthernetFrame {
    pub destination: MacAddress,
    pub source: MacAddress,
    pub ethertype: u16,
    pub payload: Vec<u8>,
}

/// The big-endian 16-bit value two bytes spell.
pub open spec fn spec_be16(hi: u8, lo: u8) -> u16 {
    (hi as int * 256 + lo as int) as u16
}

/// The high byte of a 16-bit value written big-endian.
pub open spec fn spec_hi8(x: u16) -> u8 {
    (x as int / 256) as u8
}

/// The low byte of a 16-bit value written big-endian.
pub open spec fn spec_lo8(x: u16) -> u8 {
    (x as int % 256) as u8
}

pub proof fn lemma_be16_round_trip(x: u16)
    ensures
        spec_be16(spec_hi8(x), spec_lo8(x)) == x,
{
}

/// The 14 header bytes of a frame with these fields.
pub open spec fn spec_ethernet_header(dst: MacAddress, src: MacAddress, ethertype: u16) -> Seq<u8> {
    seq![
        dst.0, dst.1, dst.2, dst.3, dst.4, dst.5,
        src.0, src.1, src.2, src.3, src.4, src.5,
        spec_hi8(ethertype), spec_lo8(ethertype),
    ]
}

/// The 28 bytes of an ARP message.
pub open spec fn spec_arp_message_bytes(m: ArpMessage) -> Seq<u8> {
    seq![
        spec_hi8(m.hardware_type), spec_lo8(m.hardware_type),
        spec_hi8(m.protocol_type), spec_lo8(m.protocol_type),
        m.hw_addr_len, m.proto_addr_len,
        spec_hi8(m.operation.spec_code()), spec_lo8(m.operation.spec_code()),
        m.sender_mac.0, m.sender_mac.1, m.sender_mac.2,
        m.sender_mac.3, m.sender_mac.4, m.sender_mac.5,
        m.sender_ip.0, m.sender_ip.1, m.sender_ip.2, m.sender_ip.3,
        m.target_mac.0, m.target_mac.1, m.target_mac.2,
        m.target_mac.3, m.target_mac.4, m.target_mac.5,
        m.target_ip.0, m.target_ip.1, m.target_ip.2, m.target_ip.3,
    ]
}

/// The message 28 or more payload bytes spell.
pub open spec fn spec_parse_arp_message(p: Seq<u8>) -> ArpMessage {
    ArpMessage {
        hardware_type: spec_be16(p[0], p[1]),
        protocol_type: spec_be16(p[2], p[3]),
        hw_addr_len: p[4],
        proto_addr_len: p[5],
        operation: ArpOperation::spec_from_code(spec_be16(p[6], p[7])),
        sender_mac: MacAddress(p[8], p[9], p[10], p[11], p[12], p[13]),
        sender_ip: Ipv4Address(p[14], p[15], p[16], p[17]),
        target_mac: MacAddress(p[18], p[19], p[20], p[21], p[22], p[23]),
        target_ip: Ipv4Address(p[24], p[25], p[26], p[27]),
    }
}

/// The destination address named in a frame's first six bytes.
pub open spec fn spec_frame_destination(b: Seq<u8>) -> MacAddress {
    MacAddress(b[0], b[1], b[2], b[3], b[4], b[5])
}

/// The source address named in a frame's next six bytes.
pub open spec fn spec_frame_source(b: Seq<u8>) -> MacAddress {
    MacAddress(b[6], b[7], b[8], b[9], b[10], b[11])
}

/// The ethertype a frame's header declares.
pub open spec fn spec_frame_ethertype(b: Seq<u8>) -> u16 {
    spec_be16(b[12], b[13])
}

impl EthernetFrame {
    /// The bytes this frame puts on the wire.
    pub open spec fn spec_bytes(self) -> Seq<u8> {
        spec_ethernet_header(self.destination, self.source, self.ethertype) + self.payload@
    }

    /// Serialize the frame: header bytes, then the payload unchanged.
    pub fn encode(&self) -> (out: Vec<u8>)
        ensures
            out@ == self.spec_bytes(),
    {
        let mut out: Vec<u8> = Vec::new();
        out.push(self.destination.0);
        out.push(self.destination.1);
        out.push(self.destination.2);
        out.push(self.destination.3);
        out.push(self.destination.4);
        out.push(self.destination.5);
        out.push(self.source.0);
        out.push(self.source.1);
        out.push(self.source.2);
        out.push(self.source.3);
        out.push(self.source.4);
        out.push(self.source.5);
        out.push((self.ethertype / 256) as u8);
        out.push((self.ethertype % 256) as u8);
        proof {
            assert(out@ =~= spec_ethernet_header(self.destination, self.source, self.ethertype));
        }
        let mut i: usize = 0;
        while i < self.payload.len()
            invariant
                i <= self.payload.len(),
                out@ == spec_ethernet_header(self.destination, self.source, self.ethertype)
                    + self.payload@.take(i as int),
            decreases self.payload.len() - i,
        {
            out.push(self.payload[i]);
            i = i + 1;
            proof {
                assert(out@ =~= spec_ethernet_header(self.destination, self.source, self.ethertype)
                    + self.payload@.take(i as int));
            }
        }
        proof {
            assert(out@ =~= self.spec_bytes());
        }
        out
    }

    /// Split received bytes into header fields and payload. Fails exactly
    /// when the bytes cannot hold an Ethernet header.
    pub fn decode(bytes: &Vec<u8>) -> (r: Result<EthernetFrame, ErrorKind>)
        ensures
            r is Ok <==> bytes@.len() >= ETHERNET_HEADER_LEN,
            r matches Ok(f) ==> f.destination == spec_frame_destination(bytes@)
                && f.source == spec_frame_source(bytes@)
                && f.ethertype == spec_frame_ethertype(bytes@)
                && f.payload@ == bytes@.skip(ETHERNET_HEADER_LEN as int),
            r matches Err(k) ==> k == ErrorKind::ParsePacketError,
    {
        if bytes.len() < ETHERNET_HEADER_LEN {
            return Err(ErrorKind::ParsePacketError);
        }
        let mut payload: Vec<u8> = Vec::new();
        let mut i: usize = ETHERNET_HEADER_LEN;
        while i < bytes.len()
            invariant
                ETHERNET_HEADER_LEN <= i <= bytes@.len(),
                payload@ == bytes@.subrange(ETHERNET_HEADER_LEN as int, i as int),
            decreases bytes@.len() - i,
        {
            payload.push(bytes[i]);
            i = i + 1;
            proof {
                assert(payload@ =~= bytes@.subrange(ETHERNET_HEADER_LEN as int, i as int));
            }
        }
        proof {
            assert(payload@ =~= bytes@.skip(ETHERNET_HEADER_LEN as int));
        }
        Ok(EthernetFrame {
            destination: MacAddress(bytes[0], bytes[1], bytes[2], bytes[3], bytes[4], bytes[5]),
            source: MacAddress(bytes[6], bytes[7], bytes[8], bytes[9], bytes[10], bytes[11]),
            ethertype: be16(bytes[12], bytes[13]),
            payload,
        })
    }
}

/// The big-endian 16-bit value two bytes spell.
fn be16(hi: u8, lo: u8) -> (r: u16)
    ensures
        r == spec_be16(hi, lo),
{
    (hi as u16) * 256 + (lo as u16)
}

/// Serialize an ARP message into its 28 wire bytes.
pub fn encode_arp_message(m: &ArpMessage) -> (out: Vec<u8>)
    ensures
        out@ == spec_arp_message_bytes(*m),
{
    let mut out: Vec<u8> = Vec::new();
    let operation_code = m.operation.code();
    out.push((m.hardware_type / 256) as u8);
    out.push((m.hardware_type % 256) as u8);
    out.push((m.protocol_type / 256) as u8);
    out.push((m.protocol_type % 256) as u8);
    out.push(m.hw_addr_len);
    out.push(m.proto_addr_len);
    out.push((operation_code / 256) as u8);
    out.push((operation_code % 256) as u8);
    out.push(m.sender_mac.0);
    out.push(m.sender_mac.1);
    out.push(m.sender_mac.2);
    out.push(m.sender_mac.3);
    out.push(m.sender_mac.4);
    out.push(m.sender_mac.5);
    out.push(m.sender_ip.0);
    out.push(m.sender_ip.1);
    out.push(m.sender_ip.2);
    out.push(m.sender_ip.3);
    out.push(m.target_mac.0);
    out.push(m.target_mac.1);
    out.push(m.target_mac.2);
    out.push(m.target_mac.3);
    out.push(m.target_mac.4);
    out.push(m.target_mac.5);
    out.push(m.target_ip.0);
    out.push(m.target_ip.1);
    out.push(m.target_ip.2);
    out.push(m.target_ip.3);
    proof {
        assert(out@ =~= spec_arp_message_bytes(*m));
    }
    out
}

/// Parse 28 or more payload bytes as an ARP message. Fails exactly when the
/// payload is shorter than the minimum ARP message.
pub fn parse_arp_message(payload: &Vec<u8>) -> (r: Result<ArpMessage, ErrorKind>)
    ensures
        r is Ok <==> payload@.len() >= ARP_MESSAGE_LEN,
        r matches Ok(m) ==> m == spec_parse_arp_message(payload@) && m.wf(),
        r matches Err(k) ==> k == ErrorKind::ParsePacketError,
{
    if payload.len() < ARP_MESSAGE_LEN {
        return Err(ErrorKind::ParsePacketError);
    }
    Ok(ArpMessage {
        hardware_type: be16(payload[0], payload[1]),
        protocol_type: be16(payload[2], payload[3]),
        hw_addr_len: payload[4],
        proto_addr_len: payload[5],
        operation: ArpOperation::from_code(be16(payload[6], payload[7])),
        sender_mac: MacAddress(
            payload[8], payload[9], payload[10], payload[11], payload[12], payload[13],
        ),
        sender_ip: Ipv4Address(payload[14], payload[15], payload[16], payload[17]),
        target_mac: MacAddress(
            payload[18], payload[19], payload[20], payload[21], payload[22], payload[23],
        ),
        target_ip: Ipv4Address(payload[24], payload[25], payload[26], payload[27]),
    })
}

/// The ARP message a request carries: canonical types and lengths, the
/// probe's own addresses as sender, the probed addresses as target.
pub open spec fn spec_request_message(
    source_ip: Ipv4Address,
    source_mac: MacAddress,
    target_ip: Ipv4Address,
    target_mac: MacAddress,
) -> ArpMessage {
    ArpMessage {
        hardware_type: HARDWARE_TYPE_ETHERNET,
        protocol_type: ETHERTYPE_IPV4,
        hw_addr_len: HARDWARE_ADDRESS_LEN,
        proto_addr_len: PROTOCOL_ADDRESS_LEN,
        operation: ArpOperation::Request,
        sender_mac: source_mac,
        sender_ip: source_ip,
        target_mac: target_mac,
        target_ip: target_ip,
    }
}

/// The full wire image of a request frame.
pub open spec fn spec_request_frame_bytes(
    source_ip: Ipv4Address,
    source_mac: MacAddress,
    target_ip: Ipv4Address,
    target_mac: MacAddress,
) -> Seq<u8> {
    spec_ethernet_header(target_mac, source_mac, ETHERTYPE_ARP)
        + spec_arp_message_bytes(spec_request_message(source_ip, source_mac, target_ip, target_mac))
}

/// Build the request frame: an ARP request for `target_ip`, addressed to
/// `target_mac` (the destination placeholder, typically broadcast).
pub fn encode_request(
    source_ip: Ipv4Address,
    source_mac: MacAddress,
    target_ip: Ipv4Address,
    target_mac: MacAddress,
) -> (f: EthernetFrame)
    ensures
        f.destination == target_mac,
        f.source == source_mac,
        f.ethertype == ETHERTYPE_ARP,
        f.payload@ == spec_arp_message_bytes(
            spec_request_message(source_ip, source_mac, target_ip, target_mac),
        ),
        f.spec_bytes() == spec_request_frame_bytes(source_ip, source_mac, target_ip, target_mac),
{
    let message = ArpMessage {
        hardware_type: HARDWARE_TYPE_ETHERNET,
        protocol_type: ETHERTYPE_IPV4,
        hw_addr_len: HARDWARE_ADDRESS_LEN,
        proto_addr_len: PROTOCOL_ADDRESS_LEN,
        operation: ArpOperation::Request,
        sender_mac: source_mac,
        sender_ip: source_ip,
        target_mac,
        target_ip,
    };
    let payload = encode_arp_message(&message);
    EthernetFrame { destination: target_mac, source: source_mac, ethertype: ETHERTYPE_ARP, payload }
}

/// Read a frame's payload as an ARP message. Fails exactly when the frame's
/// ethertype is not ARP or the payload is shorter than the minimum ARP
/// message.
pub fn decode_arp(frame: &EthernetFrame) -> (r: Result<ArpMessage, ErrorKind>)
    ensures
        r is Ok <==> frame.ethertype == ETHERTYPE_ARP
            && frame.payload@.len() >= ARP_MESSAGE_LEN,
        r matches Ok(m) ==> m == spec_parse_arp_message(frame.payload@) && m.wf(),
        r matches Err(k) ==> k == ErrorKind::ParsePacketError,
{
    if frame.ethertype != ETHERTYPE_ARP {
        return Err(ErrorKind::ParsePacketError);
    }
    parse_arp_message(&frame.payload)
}

/// Round-trip law at the message level: parsing the bytes a canonical
/// message encodes to gives the message back.
pub proof fn lemma_arp_message_round_trip(m: ArpMessage)
    requires
        m.wf(),
    ensures
        spec_parse_arp_message(spec_arp_message_bytes(m)) == m,
{
    lemma_be16_round_trip(m.hardware_type);
    lemma_be16_round_trip(m.protocol_type);
    lemma_be16_round_trip(m.operation.spec_code());
}

/// Round-trip law at the frame level: a frame's wire image parses back to
/// the frame's own header fields and payload.
pub proof fn lemma_frame_round_trip(f: EthernetFrame)
    ensures
        f.spec_bytes().len() == ETHERNET_HEADER_LEN + f.payload@.len(),
        spec_frame_destination(f.spec_bytes()) == f.destination,
        spec_frame_source(f.spec_bytes()) == f.source,
        spec_frame_ethertype(f.spec_bytes()) == f.ethertype,
        f.spec_bytes().skip(ETHERNET_HEADER_LEN as int) == f.payload@,
{
    lemma_be16_round_trip(f.ethertype);
    assert(f.spec_bytes().skip(ETHERNET_HEADER_LEN as int) =~= f.payload@);
}

/// Round-trip law for the request codec: the wire image of a request built
/// from any four addresses carries the ARP ethertype and parses back to a
/// request message naming exactly those addresses.
pub proof fn lemma_request_round_trip(
    source_ip: Ipv4Address,
    source_mac: MacAddress,
    target_ip: Ipv4Address,
    target_mac: MacAddress,
)
    ensures
        ({
            let b = spec_request_frame_bytes(source_ip, source_mac, target_ip, target_mac);
            let m = spec_request_message(source_ip, source_mac, target_ip, target_mac);
            &&& b.len() == MINIMUM_FRAME_LEN
            &&& spec_frame_destination(b) == target_mac
            &&& spec_frame_source(b) == source_mac
            &&& spec_frame_ethertype(b) == ETHERTYPE_ARP
            &&& spec_parse_arp_message(b.skip(ETHERNET_HEADER_LEN as int)) == m
            &&& m.operation == ArpOperation::Request
            &&& m.sender_ip == source_ip
            &&& m.sender_mac == source_mac
            &&& m.target_ip == target_ip
            &&& m.target_mac == target_mac
        }),
{
    let b = spec_request_frame_bytes(source_ip, source_mac, target_ip, target_mac);
    let m = spec_request_message(source_ip, source_mac, target_ip, target_mac);
    lemma_be16_round_trip(ETHERTYPE_ARP);
    lemma_arp_message_round_trip(m);
    assert(b.skip(ETHERNET_HEADER_LEN as int) =~= spec_arp_message_bytes(m));
}

} // verus!
