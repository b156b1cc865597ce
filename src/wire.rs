//! On-wire layout of the headers the classifier reads, and the byte-order
//! helpers that turn header bytes into numbers.
use network_types::eth::{EthHdr, EtherType};
use network_types::ip::{IpProto, Ipv4Hdr};
use network_types::tcp::TcpHdr;
use vstd::prelude::*;

verus! {

/// Width of the Ethernet header.
pub const ETH_HDR_LEN: usize = 14;

/// Width of the fixed part of the IPv4 header (options are not read).
pub const IPV4_HDR_LEN: usize = 20;

/// Width of the fixed part of the TCP header (options are not read).
pub const TCP_HDR_LEN: usize = 20;

/// Relies on `network_types::eth::EthHdr::LEN`: the size of the `repr(C)`
/// Ethernet header, two 6-byte addresses and a 2-byte EtherType.
#[verifier::external_body]
pub(crate) fn eth_hdr_len() -> (r: usize)
    ensures
        r == ETH_HDR_LEN,
{
    EthHdr::LEN
}

/// Relies on `network_types::ip::Ipv4Hdr::LEN`: the size of the `repr(C)`
/// fixed IPv4 header, whose fields are all bytes or byte arrays.
#[verifier::external_body]
pub(crate) fn ipv4_hdr_len() -> (r: usize)
    ensures
        r == IPV4_HDR_LEN,
{
    Ipv4Hdr::LEN
}

/// Relies on `network_types::tcp::TcpHdr::LEN`: the size of the `repr(C)`
/// fixed TCP header, whose fields are all byte arrays.
#[verifier::external_body]
pub(crate) fn tcp_hdr_len() -> (r: usize)
    ensures
        r == TCP_HDR_LEN,
{
    TcpHdr::LEN
}

/// Relies on `network_types::eth::EthHdr::ether_type`: the field, read in
/// memory order from the two wire bytes, is `EtherType::Ipv4` exactly when
/// those bytes are `08 00`.
#[verifier::external_body]
pub(crate) fn ether_type_is_ipv4(hi: u8, lo: u8) -> (r: bool)
    ensures
        r == (hi == 0x08 && lo == 0x00),
{
    let hdr = EthHdr { dst_addr: [0; 6], src_addr: [0; 6], ether_type: u16::from_ne_bytes([hi, lo]) };
    match hdr.ether_type() {
        Ok(EtherType::Ipv4) => true,
        _ => false,
    }
}

/// Transport protocols the classifier tells apart.
#[derive(Clone, Copy, Debug, PartialEq, Eq, Structural)]
pub enum Transport {
    Tcp,
    Udp,
    Other,
}

/// IPv4 protocol number of TCP.
pub const PROTO_TCP: u8 = 6;

/// IPv4 protocol number of UDP.
pub const PROTO_UDP: u8 = 17;

/// The transport that an IPv4 protocol byte names.
pub open spec fn transport_of(proto: u8) -> Transport {
    if proto == PROTO_TCP {
        Transport::Tcp
    } else if proto == PROTO_UDP {
        Transport::Udp
    } else {
        Transport::Other
    }
}

/// Relies on `network_types::ip::Ipv4Hdr::proto`: the protocol byte decodes
/// to `IpProto::Tcp` exactly when it is 6 and to `IpProto::Udp` exactly when
/// it is 17.
#[verifier::external_body]
pub(crate) fn ipv4_transport(proto: u8) -> (r: Transport)
    ensures
        r == transport_of(proto),
{
    let z2 = [0u8; 2];
    let z4 = [0u8; 4];
    let hdr = Ipv4Hdr { vihl: 0, tos: 0, tot_len: z2, id: z2, frags: z2, ttl: 0, proto, check: z2, src_addr: z4, dst_addr: z4 };
    match hdr.proto() {
        Ok(IpProto::Tcp) => Transport::Tcp,
        Ok(IpProto::Udp) => Transport::Udp,
        _ => Transport::Other,
    }
}

/// Bit of the TCP flags byte that marks a SYN segment.
pub const TCP_FLAG_SYN: u8 = 0x02;

/// Whether the SYN bit is set in a TCP flags byte.
pub fn tcp_syn(flags: u8) -> (r: bool)
    ensures
        r == (flags & TCP_FLAG_SYN != 0),
{
    flags & TCP_FLAG_SYN != 0
}

/// A 16-bit number in network byte order.
pub open spec fn be_u16(b0: u8, b1: u8) -> u16 {
    (b0 as int * 0x100 + b1 as int) as u16
}

/// A 32-bit number in network byte order.
pub open spec fn be_u32(b0: u8, b1: u8, b2: u8, b3: u8) -> u32 {
    (b0 as int * 0x100_0000 + b1 as int * 0x1_0000 + b2 as int * 0x100 + b3 as int) as u32
}

/// Reads two bytes as a big-endian number.
pub fn u16_from_be(b0: u8, b1: u8) -> (r: u16)
    ensures
        r == be_u16(b0, b1),
        r as int == b0 as int * 0x100 + b1 as int,
{
    (b0 as u16) * 0x100 + (b1 as u16)
}

/// Reads four bytes as a big-endian number.
pub fn u32_from_be(b0: u8, b1: u8, b2: u8, b3: u8) -> (r: u32)
    ensures
        r == be_u32(b0, b1, b2, b3),
        r as int == b0 as int * 0x100_0000 + b1 as int * 0x1_0000 + b2 as int * 0x100 + b3 as int,
{
    (b0 as u32) * 0x100_0000 + (b1 as u32) * 0x1_0000 + (b2 as u32) * 0x100 + (b3 as u32)
}

} // verus!
