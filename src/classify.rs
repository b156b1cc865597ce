//! The frame classifier: a layered, bounds-checked decode of one frame and
//! the verdict it earns.
use crate::verdict::Verdict;
use crate::wire::{
    be_u16, be_u32, eth_hdr_len, ether_type_is_ipv4, ipv4_hdr_len, ipv4_transport, tcp_hdr_len,
    tcp_syn, transport_of, u16_from_be, u32_from_be, Transport, ETH_HDR_LEN, IPV4_HDR_LEN,
    PROTO_TCP, PROTO_UDP, TCP_FLAG_SYN, TCP_HDR_LEN,
};
use vstd::prelude::*;

verus! {

/// Why a frame could not be processed.
#[derive(Clone, Copy, Debug, PartialEq, Eq, Structural)]
pub enum Fault {
    /// A header's fixed part does not fit in what is left of the frame.
    OutOfBounds,
    /// The IPv4 payload is neither TCP nor UDP.
    UnsupportedProtocol,
}

/// The diagnostic emitted for a TCP SYN segment.
#[derive(Clone, Copy, Debug, PartialEq, Eq, Structural)]
pub struct SynRecord {
    /// IPv4 source address, in host order.
    pub src_addr: u32,
    /// TCP destination port, in host order.
    pub dst_port: u16,
}

impl SynRecord {
    /// The flag label that goes with the record.
    pub fn flag(&self) -> (r: &'static str)
        ensures
            r@ == "SYN"@,
    {
        "SYN"
    }
}

/// A verdict, and the diagnostic to emit with it, if any.
#[derive(Clone, Copy, Debug, PartialEq, Eq, Structural)]
pub struct Outcome {
    pub verdict: Verdict,
    pub diagnostic: Option<SynRecord>,
}

/// Offset of the EtherType within the Ethernet header.
pub const ETHER_TYPE_OFFSET: usize = 12;

/// Offset of the protocol byte within the IPv4 header.
pub const IPV4_PROTO_OFFSET: usize = 9;

/// Offset of the source address within the IPv4 header.
pub const IPV4_SRC_OFFSET: usize = 12;

/// Offset of the destination port within the TCP header.
pub const TCP_DST_PORT_OFFSET: usize = 2;

/// Offset of the flags byte within the TCP header.
pub const TCP_FLAGS_OFFSET: usize = 13;

/// Frame offset of the IPv4 header.
pub open spec fn ip_start() -> int {
    ETH_HDR_LEN as int
}

/// Frame offset of the TCP header.
pub open spec fn tcp_start() -> int {
    ETH_HDR_LEN + IPV4_HDR_LEN
}

/// Whether the frame's EtherType is IPv4 (the frame must hold an Ethernet header).
pub open spec fn carries_ipv4(f: Seq<u8>) -> bool {
    f[ETHER_TYPE_OFFSET as int] == 0x08 && f[ETHER_TYPE_OFFSET + 1] == 0x00
}

/// The IPv4 protocol byte (the frame must hold an IPv4 header).
pub open spec fn ip_proto(f: Seq<u8>) -> u8 {
    f[ip_start() + IPV4_PROTO_OFFSET]
}

/// The IPv4 source address (the frame must hold an IPv4 header).
pub open spec fn src_addr_of(f: Seq<u8>) -> u32 {
    let i = ip_start() + IPV4_SRC_OFFSET;
    be_u32(f[i], f[i + 1], f[i + 2], f[i + 3])
}

/// The TCP destination port (the frame must hold a TCP header).
pub open spec fn dst_port_of(f: Seq<u8>) -> u16 {
    let i = tcp_start() + TCP_DST_PORT_OFFSET;
    be_u16(f[i], f[i + 1])
}

/// Whether the TCP SYN flag is set (the frame must hold a TCP header).
pub open spec fn syn_of(f: Seq<u8>) -> bool {
    f[tcp_start() + TCP_FLAGS_OFFSET] & TCP_FLAG_SYN != 0
}

/// Pass the frame with no diagnostic.
pub open spec fn quiet_pass() -> Outcome {
    Outcome { verdict: Verdict::Pass, diagnostic: None }
}

/// The result of decoding a frame, layer by layer.
pub open spec fn decode(f: Seq<u8>) -> Result<Outcome, Fault> {
    if f.len() < ETH_HDR_LEN {
        Err(Fault::OutOfBounds)
    } else if !carries_ipv4(f) {
        Ok(quiet_pass())
    } else if f.len() < tcp_start() {
        Err(Fault::OutOfBounds)
    } else {
        match transport_of(ip_proto(f)) {
            Transport::Tcp => {
                if f.len() < tcp_start() + TCP_HDR_LEN {
                    Err(Fault::OutOfBounds)
                } else if syn_of(f) {
                    Ok(
                        Outcome {
                            verdict: Verdict::Pass,
                            diagnostic: Some(
                                SynRecord { src_addr: src_addr_of(f), dst_port: dst_port_of(f) },
                            ),
                        },
                    )
                } else {
                    Ok(quiet_pass())
                }
            },
            Transport::Udp => Ok(quiet_pass()),
            Transport::Other => Err(Fault::UnsupportedProtocol),
        }
    }
}

/// The outcome for a frame: a fault becomes the abort verdict, with no diagnostic.
pub open spec fn classify(f: Seq<u8>) -> Outcome {
    match decode(f) {
        Ok(o) => o,
        Err(_) => Outcome { verdict: Verdict::Aborted, diagnostic: None },
    }
}

/// The `len` bytes of `frame` from `offset` on, if they lie within it.
pub fn header_at(frame: &[u8], offset: usize, len: usize) -> (r: Result<&[u8], Fault>)
    ensures
        offset + len <= frame@.len() <==> r is Ok,
        r matches Ok(h) ==> h@ == frame@.subrange(offset as int, offset + len),
        r matches Err(e) ==> e == Fault::OutOfBounds,
{
    if offset > frame.len() || len > frame.len() - offset {
        return Err(Fault::OutOfBounds);
    }
    Ok(&frame[offset..offset + len])
}

/// Fault handler: processing of the frame ends, and every fault resolves
/// to the abort verdict.
pub fn panic(_fault: Fault) -> (r: Verdict)
    ensures
        r == Verdict::Aborted,
{
    Verdict::Aborted
}

/// Decodes the frame's headers and decides its verdict, or names the
/// fault that stopped the decode.
pub fn try_xdptest(frame: &[u8]) -> (r: Result<Outcome, Fault>)
    ensures
        r == decode(frame@),
{
    let eth = header_at(frame, 0, eth_hdr_len())?;
    if !ether_type_is_ipv4(eth[ETHER_TYPE_OFFSET], eth[ETHER_TYPE_OFFSET + 1]) {
        return Ok(Outcome { verdict: Verdict::Pass, diagnostic: None });
    }
    let ip = header_at(frame, eth_hdr_len(), ipv4_hdr_len())?;
    let src_addr = u32_from_be(
        ip[IPV4_SRC_OFFSET],
        ip[IPV4_SRC_OFFSET + 1],
        ip[IPV4_SRC_OFFSET + 2],
        ip[IPV4_SRC_OFFSET + 3],
    );
    let tcp = match ipv4_transport(ip[IPV4_PROTO_OFFSET]) {
        Transport::Tcp => header_at(frame, eth_hdr_len() + ipv4_hdr_len(), tcp_hdr_len())?,
        Transport::Udp => {
            return Ok(Outcome { verdict: Verdict::Pass, diagnostic: None });
        },
        Transport::Other => {
            return Err(Fault::UnsupportedProtocol);
        },
    };
    let dst_port = u16_from_be(tcp[TCP_DST_PORT_OFFSET], tcp[TCP_DST_PORT_OFFSET + 1]);
    if !tcp_syn(tcp[TCP_FLAGS_OFFSET]) {
        return Ok(Outcome { verdict: Verdict::Pass, diagnostic: None });
    }
    Ok(Outcome { verdict: Verdict::Pass, diagnostic: Some(SynRecord { src_addr, dst_port }) })
}

/// Whether the frame holds an Ethernet header that announces IPv4, and the
/// IPv4 header behind it with the given protocol byte.
pub open spec fn ipv4_with_proto(f: Seq<u8>, proto: u8) -> bool {
    &&& f.len() >= tcp_start()
    &&& carries_ipv4(f)
    &&& ip_proto(f) == proto
}

/// Classifies one frame: decodes it, and resolves a fault into the abort
/// verdict with no diagnostic.
pub fn xdptest(frame: &[u8]) -> (r: Outcome)
    ensures
        r == classify(frame@),
        r.verdict != Verdict::Drop,
        // a frame too short for an Ethernet header is aborted
        frame@.len() < ETH_HDR_LEN ==> r.verdict == Verdict::Aborted && r.diagnostic is None,
        // anything but IPv4 passes untouched
        frame@.len() >= ETH_HDR_LEN && !carries_ipv4(frame@) ==> r == quiet_pass(),
        // UDP passes untouched
        ipv4_with_proto(frame@, PROTO_UDP) ==> r == quiet_pass(),
        // TCP without SYN passes untouched
        ipv4_with_proto(frame@, PROTO_TCP) && frame@.len() >= tcp_start() + TCP_HDR_LEN && !syn_of(
            frame@,
        ) ==> r == quiet_pass(),
        // TCP SYN passes, with one record of the address (frame bytes 26..30)
        // and the port (frame bytes 36..38), both read in network byte order
        ipv4_with_proto(frame@, PROTO_TCP) && frame@.len() >= tcp_start() + TCP_HDR_LEN && syn_of(frame@)
            ==> {
            &&& r.verdict == Verdict::Pass
            &&& r.diagnostic is Some
            &&& r.diagnostic.unwrap().src_addr as int == frame@[26] * 0x100_0000 + frame@[27]
                * 0x1_0000 + frame@[28] * 0x100 + frame@[29]
            &&& r.diagnostic.unwrap().dst_port as int == frame@[36] * 0x100 + frame@[37]
        },
        // an IPv4 frame whose transport is neither TCP nor UDP, or that is
        // too short to say, is aborted
        frame@.len() >= ETH_HDR_LEN && carries_ipv4(frame@) && (frame@.len() < tcp_start() || (
        ip_proto(frame@) != PROTO_TCP && ip_proto(frame@) != PROTO_UDP)) ==> r.verdict == Verdict::Aborted,
{
    match try_xdptest(frame) {
        Ok(o) => o,
        Err(fault) => Outcome { verdict: panic(fault), diagnostic: None },
    }
}

/// Classification depends on the frame's bytes alone: the same bytes,
/// classified twice, give the same verdict and the same diagnostic.
pub proof fn classify_is_repeatable(first: Seq<u8>, second: Seq<u8>)
    requires
        first == second,
    ensures
        classify(first) == classify(second),
{
}

} // verus!
