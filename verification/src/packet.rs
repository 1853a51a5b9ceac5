//! Reading the Ethernet, IPv4, UDP and TCP headers at the front of a packet,
//! and what each XDP program makes of a packet.
//!
//! A packet is the byte sequence the kernel hands an XDP program, starting
//! with the Ethernet header. The IPv4 header is taken to have no options,
//! so the transport header starts right after its twenty bytes.

use vstd::prelude::*;
use network_types::ip::Ipv4Hdr;
use network_types::udp::UdpHdr;
use crate::shared::{
    read_u32, spec_uint, EfenceErrorCode, Tcp4EventRaw, Udp4Event, Udp4EventRaw,
};

verus! {

/// Length of the Ethernet header.
pub const ETH_HDR_LEN: usize = 14;

/// Length of an IPv4 header without options.
pub const IPV4_HDR_LEN: usize = 20;

/// Length of the UDP header.
pub const UDP_HDR_LEN: usize = 8;

/// Length of a TCP header without options.
pub const TCP_HDR_LEN: usize = 20;

/// IP protocol number of TCP.
pub const PROTO_TCP: u8 = 6;

/// IP protocol number of UDP.
pub const PROTO_UDP: u8 = 17;

/// The big-endian number in bytes `i..i+n` of the packet.
pub open spec fn be(p: Seq<u8>, i: int, n: nat) -> int {
    spec_uint(p, i, n, false)
}

/// The Ethernet header announces an IPv4 payload (EtherType 0x0800).
pub open spec fn is_ipv4_frame(p: Seq<u8>) -> bool {
    p[12] == 0x08 && p[13] == 0x00
}

/// The protocol numbers that network-types knows by name.
pub open spec fn ip_proto_known(proto: u8) -> bool {
    proto <= 144 || proto >= 253
}

/// The IPv4 protocol field.
pub open spec fn ip_proto(p: Seq<u8>) -> u8 {
    p[23]
}

/// The IPv4 source address.
pub open spec fn ip_src(p: Seq<u8>) -> u32 {
    be(p, 26, 4) as u32
}

/// The IPv4 destination address.
pub open spec fn ip_dst(p: Seq<u8>) -> u32 {
    be(p, 30, 4) as u32
}

/// The IPv4 header length in bytes: four times the IHL field.
pub open spec fn ip_hdr_len(p: Seq<u8>) -> int {
    (p[14] % 16) * 4
}

/// The IPv4 total length field.
pub open spec fn ip_tot_len(p: Seq<u8>) -> int {
    be(p, 16, 2)
}

/// The source port of the UDP or TCP header.
pub open spec fn l4_src_port(p: Seq<u8>) -> u16 {
    be(p, 34, 2) as u16
}

/// The destination port of the UDP or TCP header.
pub open spec fn l4_dst_port(p: Seq<u8>) -> u16 {
    be(p, 36, 2) as u16
}

/// The TCP header length in bytes: four times the data offset field.
pub open spec fn tcp_hdr_len(p: Seq<u8>) -> int {
    (p[46] / 16) * 4
}

/// The TCP ACK flag is set.
pub open spec fn tcp_ack(p: Seq<u8>) -> bool {
    (p[47] / 16) % 2 == 1
}

/// The TCP SYN flag is set.
pub open spec fn tcp_syn(p: Seq<u8>) -> bool {
    (p[47] / 2) % 2 == 1
}

/// The TCP FIN flag is set.
pub open spec fn tcp_fin(p: Seq<u8>) -> bool {
    p[47] % 2 == 1
}

/// The TCP RST flag is set.
pub open spec fn tcp_rst(p: Seq<u8>) -> bool {
    (p[47] / 4) % 2 == 1
}

/// A TCP segment that carries the ACK of a handshake: ACK set, SYN, FIN and
/// RST clear, and no payload behind the two headers.
///
/// A bare ACK in the middle of a connection (a window update, say) looks the
/// same on the wire; telling it apart would take per-connection state, which
/// the programs do not keep.
pub open spec fn is_handshake_ack(p: Seq<u8>) -> bool {
    &&& tcp_ack(p)
    &&& !tcp_syn(p)
    &&& !tcp_fin(p)
    &&& !tcp_rst(p)
    &&& ip_tot_len(p) == ip_hdr_len(p) + tcp_hdr_len(p)
}

// ---------------------------------------------------------------------------
// Header accessors of network-types
// ---------------------------------------------------------------------------

/// Calls `network_types::ip::Ipv4Hdr::proto` on the IPv4 header in `hdr`.
/// network-types accepts the protocol numbers that its `IpProto` enum names
/// (0 to 144 and 253 to 255) and hands the number back; others it refuses.
#[verifier::external_body]
fn ipv4_proto(hdr: &[u8]) -> (r: Option<u8>)
    requires
        hdr@.len() == 20,
    ensures
        r == (if ip_proto_known(hdr@[9]) { Some(hdr@[9]) } else { None::<u8> }),
{
    let h = Ipv4Hdr {
        vihl: hdr[0], tos: hdr[1], tot_len: [hdr[2], hdr[3]], id: [hdr[4], hdr[5]],
        frags: [hdr[6], hdr[7]], ttl: hdr[8], proto: hdr[9], check: [hdr[10], hdr[11]],
        src_addr: [hdr[12], hdr[13], hdr[14], hdr[15]],
        dst_addr: [hdr[16], hdr[17], hdr[18], hdr[19]],
    };
    h.proto().ok().map(u8::from)
}

/// Calls `network_types::ip::Ipv4Hdr::ihl`, which gives the header length in
/// bytes: the low four bits of the first byte, times four.
#[verifier::external_body]
fn ipv4_ihl(hdr: &[u8]) -> (r: u8)
    requires
        hdr@.len() == 20,
    ensures
        r == (hdr@[0] % 16) * 4,
{
    let h = Ipv4Hdr {
        vihl: hdr[0], tos: hdr[1], tot_len: [hdr[2], hdr[3]], id: [hdr[4], hdr[5]],
        frags: [hdr[6], hdr[7]], ttl: hdr[8], proto: hdr[9], check: [hdr[10], hdr[11]],
        src_addr: [hdr[12], hdr[13], hdr[14], hdr[15]],
        dst_addr: [hdr[16], hdr[17], hdr[18], hdr[19]],
    };
    h.ihl()
}

/// Calls `network_types::ip::Ipv4Hdr::tot_len`, which reads bytes 2 and 3
/// of the header as a big-endian number.
#[verifier::external_body]
fn ipv4_tot_len(hdr: &[u8]) -> (r: u16)
    requires
        hdr@.len() == 20,
    ensures
        r == hdr@[2] * 256 + hdr@[3],
{
    let h = Ipv4Hdr {
        vihl: hdr[0], tos: hdr[1], tot_len: [hdr[2], hdr[3]], id: [hdr[4], hdr[5]],
        frags: [hdr[6], hdr[7]], ttl: hdr[8], proto: hdr[9], check: [hdr[10], hdr[11]],
        src_addr: [hdr[12], hdr[13], hdr[14], hdr[15]],
        dst_addr: [hdr[16], hdr[17], hdr[18], hdr[19]],
    };
    h.tot_len()
}

/// Calls `network_types::udp::UdpHdr::src_port`, which reads bytes 0 and 1
/// of the header as a big-endian number.
#[verifier::external_body]
fn udp_src_port(hdr: &[u8]) -> (r: u16)
    requires
        hdr@.len() == 8,
    ensures
        r == hdr@[0] * 256 + hdr@[1],
{
    let h = UdpHdr {
        src: [hdr[0], hdr[1]], dst: [hdr[2], hdr[3]], len: [hdr[4], hdr[5]],
        check: [hdr[6], hdr[7]],
    };
    h.src_port()
}

/// Calls `network_types::udp::UdpHdr::dst_port`, which reads bytes 2 and 3
/// of the header as a big-endian number.
#[verifier::external_body]
fn udp_dst_port(hdr: &[u8]) -> (r: u16)
    requires
        hdr@.len() == 8,
    ensures
        r == hdr@[2] * 256 + hdr@[3],
{
    let h = UdpHdr {
        src: [hdr[0], hdr[1]], dst: [hdr[2], hdr[3]], len: [hdr[4], hdr[5]],
        check: [hdr[6], hdr[7]],
    };
    h.dst_port()
}

// ---------------------------------------------------------------------------
// Bounds and field reads
// ---------------------------------------------------------------------------

/// Checks that a header of `len` bytes at `offset` lies inside the packet,
/// and gives back the offset.
pub fn ptr_at(packet: &[u8], offset: usize, len: usize) -> (r: Result<usize, EfenceErrorCode>)
    requires
        offset + len <= usize::MAX,
    ensures
        r == (if offset + len > packet@.len() {
            Err(EfenceErrorCode::PacketTooSmall)
        } else {
            Ok(offset)
        }),
{
    if offset + len > packet.len() {
        return Err(EfenceErrorCode::PacketTooSmall);
    }
    Ok(offset)
}

proof fn lemma_be2(p: Seq<u8>, i: int)
    requires
        0 <= i,
        i + 2 <= p.len(),
    ensures
        be(p, i, 2) == p[i] * 256 + p[i + 1],
{
    reveal_with_fuel(spec_uint, 3);
}

/// Reads the IPv4 header's fields the programs look at: protocol (if
/// network-types knows it), source and destination.
pub(crate) fn read_ipv4(packet: &[u8]) -> (r: (Option<u8>, u32, u32))
    requires
        packet@.len() >= 34,
    ensures
        r.0 == (if ip_proto_known(ip_proto(packet@)) { Some(ip_proto(packet@)) } else { None::<u8> }),
        r.1 == ip_src(packet@),
        r.2 == ip_dst(packet@),
{
    let hdr = &packet[14..34];
    assert(hdr@[9] == packet@[23]);
    let proto = ipv4_proto(hdr);
    let src = read_u32(packet, 26, 4, false);
    let dst = read_u32(packet, 30, 4, false);
    (proto, src, dst)
}

/// Reads the UDP source and destination ports.
pub(crate) fn read_udp_ports(packet: &[u8]) -> (r: (u16, u16))
    requires
        packet@.len() >= 42,
    ensures
        r.0 == l4_src_port(packet@),
        r.1 == l4_dst_port(packet@),
{
    let hdr = &packet[34..42];
    assert(hdr@[0] == packet@[34] && hdr@[1] == packet@[35]);
    assert(hdr@[2] == packet@[36] && hdr@[3] == packet@[37]);
    proof {
        lemma_be2(packet@, 34);
        lemma_be2(packet@, 36);
    }
    (udp_src_port(hdr), udp_dst_port(hdr))
}

// ---------------------------------------------------------------------------
// The plain monitor program
// ---------------------------------------------------------------------------

/// What the plain monitor program makes of a packet: a UDP event for an
/// IPv4 UDP packet, nothing for other traffic, or why the packet could not
/// be read.
pub open spec fn spec_try_efence_ebpf(p: Seq<u8>) -> Result<Option<Udp4Event>, EfenceErrorCode> {
    if p.len() < 14 {
        Err(EfenceErrorCode::PacketTooSmall)
    } else if !is_ipv4_frame(p) {
        Ok(None)
    } else if p.len() < 34 {
        Err(EfenceErrorCode::PacketTooSmall)
    } else if !ip_proto_known(ip_proto(p)) {
        Err(EfenceErrorCode::InvalidProtocol)
    } else if ip_proto(p) == PROTO_UDP {
        if p.len() < 42 {
            Err(EfenceErrorCode::PacketTooSmall)
        } else {
            Ok(Some(Udp4Event {
                src: ip_src(p),
                dst: ip_dst(p),
                src_port: l4_src_port(p),
                dst_port: l4_dst_port(p),
                _pad: 0,
            }))
        }
    } else {
        Ok(None)
    }
}

/// Reads a packet for the plain monitor program: the UDP event to hand to
/// user space, if any.
pub fn try_efence_ebpf(packet: &[u8]) -> (r: Result<Option<Udp4Event>, EfenceErrorCode>)
    ensures
        r == spec_try_efence_ebpf(packet@),
{
    ptr_at(packet, 0, ETH_HDR_LEN)?;
    if !(packet[12] == 0x08 && packet[13] == 0x00) {
        return Ok(None);
    }
    ptr_at(packet, ETH_HDR_LEN, IPV4_HDR_LEN)?;
    let (proto, src, dst) = read_ipv4(packet);
    let proto = match proto {
        Some(p) => p,
        None => return Err(EfenceErrorCode::InvalidProtocol),
    };
    if proto == PROTO_UDP {
        ptr_at(packet, ETH_HDR_LEN + IPV4_HDR_LEN, UDP_HDR_LEN)?;
        let (src_port, dst_port) = read_udp_ports(packet);
        Ok(Some(Udp4Event::new(src, dst, src_port, dst_port)))
    } else {
        Ok(None)
    }
}


// ---------------------------------------------------------------------------
// The ingress monitor program
// ---------------------------------------------------------------------------

/// An event the ingress monitor hands to user space.
#[derive(Debug, Clone, Copy, PartialEq, Eq, Structural)]
pub enum MonitorEvent {
    Udp4(Udp4EventRaw),
    Tcp4(Tcp4EventRaw),
}

/// What the ingress monitor makes of a packet seen at boot-clock time `ts`:
/// an event for every IPv4 UDP packet and for the ACK that completes a TCP
/// handshake, nothing for other traffic, or why the packet could not be read.
pub open spec fn spec_try_efence_net_ingress_monitor(p: Seq<u8>, ts: u64) -> Result<Option<MonitorEvent>, EfenceErrorCode> {
    if p.len() < 14 {
        Err(EfenceErrorCode::PacketTooSmall)
    } else if !is_ipv4_frame(p) {
        Ok(None)
    } else if p.len() < 34 {
        Err(EfenceErrorCode::PacketTooSmall)
    } else if !ip_proto_known(ip_proto(p)) {
        Err(EfenceErrorCode::InvalidProtocol)
    } else if ip_proto(p) == PROTO_TCP {
        if p.len() < 54 {
            Err(EfenceErrorCode::PacketTooSmall)
        } else if is_handshake_ack(p) {
            Ok(Some(MonitorEvent::Tcp4(Tcp4EventRaw {
                src: ip_src(p),
                dst: ip_dst(p),
                src_port: l4_src_port(p),
                dst_port: l4_dst_port(p),
                timestamp: ts,
            })))
        } else {
            Ok(None)
        }
    } else if ip_proto(p) == PROTO_UDP {
        if p.len() < 42 {
            Err(EfenceErrorCode::PacketTooSmall)
        } else {
            Ok(Some(MonitorEvent::Udp4(Udp4EventRaw {
                src: ip_src(p),
                dst: ip_dst(p),
                src_port: l4_src_port(p),
                dst_port: l4_dst_port(p),
                timestamp: ts,
            })))
        }
    } else {
        Ok(None)
    }
}

/// Whether the TCP segment of a packet carries a handshake's ACK.
fn read_handshake_ack(packet: &[u8]) -> (r: bool)
    requires
        packet@.len() >= 54,
    ensures
        r == is_handshake_ack(packet@),
{
    let flags = packet[47];
    let ack = (flags / 16) % 2 == 1;
    let syn = (flags / 2) % 2 == 1;
    let fin = flags % 2 == 1;
    let rst = (flags / 4) % 2 == 1;
    if ack && !syn && !fin && !rst {
        let ip_hdr = &packet[14..34];
        assert(ip_hdr@[0] == packet@[14]);
        assert(ip_hdr@[2] == packet@[16] && ip_hdr@[3] == packet@[17]);
        proof {
            lemma_be2(packet@, 16);
        }
        let ip_hdr_len = ipv4_ihl(ip_hdr) as u16;
        let tcp_hdr_len = (packet[46] / 16) as u16 * 4;
        let ip_tot_len = ipv4_tot_len(ip_hdr);
        ip_tot_len == ip_hdr_len + tcp_hdr_len
    } else {
        false
    }
}

/// Reads a packet for the ingress monitor program, seen at boot-clock time
/// `tstamp`: the event to hand to user space, if any.
pub fn try_efence_net_ingress_monitor(packet: &[u8], tstamp: u64) -> (r: Result<Option<MonitorEvent>, EfenceErrorCode>)
    ensures
        r == spec_try_efence_net_ingress_monitor(packet@, tstamp),
{
    ptr_at(packet, 0, ETH_HDR_LEN)?;
    if !(packet[12] == 0x08 && packet[13] == 0x00) {
        return Ok(None);
    }
    ptr_at(packet, ETH_HDR_LEN, IPV4_HDR_LEN)?;
    let (proto, src, dst) = read_ipv4(packet);
    let proto = match proto {
        Some(p) => p,
        None => return Err(EfenceErrorCode::InvalidProtocol),
    };
    if proto == PROTO_TCP {
        ptr_at(packet, ETH_HDR_LEN + IPV4_HDR_LEN, TCP_HDR_LEN)?;
        if read_handshake_ack(packet) {
            let src_port = read_u32(packet, 34, 2, false) as u16;
            let dst_port = read_u32(packet, 36, 2, false) as u16;
            proof {
                lemma_be2(packet@, 34);
                lemma_be2(packet@, 36);
            }
            Ok(Some(MonitorEvent::Tcp4(Tcp4EventRaw::new(src, dst, src_port, dst_port, tstamp))))
        } else {
            Ok(None)
        }
    } else if proto == PROTO_UDP {
        ptr_at(packet, ETH_HDR_LEN + IPV4_HDR_LEN, UDP_HDR_LEN)?;
        let (src_port, dst_port) = read_udp_ports(packet);
        Ok(Some(MonitorEvent::Udp4(Udp4EventRaw::new(src, dst, src_port, dst_port, tstamp))))
    } else {
        Ok(None)
    }
}


// ---------------------------------------------------------------------------
// Laws
// ---------------------------------------------------------------------------

/// The plain monitor and the ingress monitor report the same UDP packets,
/// with the same addresses and ports; the ingress monitor adds the time.
pub proof fn lemma_monitors_agree_on_udp(p: Seq<u8>, ts: u64, e: Udp4Event)
    ensures
        (spec_try_efence_ebpf(p) == Ok::<Option<Udp4Event>, EfenceErrorCode>(Some(e)))
            <==> (spec_try_efence_net_ingress_monitor(p, ts) == Ok::<Option<MonitorEvent>, EfenceErrorCode>(
                Some(MonitorEvent::Udp4(Udp4EventRaw {
                    src: e.src,
                    dst: e.dst,
                    src_port: e.src_port,
                    dst_port: e.dst_port,
                    timestamp: ts,
                })),
            ) && e._pad == 0),
{
}

/// The ingress monitor reports a TCP segment only when it is the ACK that
/// completes a handshake: ACK set, SYN, FIN and RST clear, and no payload.
pub proof fn lemma_tcp_events_are_handshake_acks(p: Seq<u8>, ts: u64)
    ensures
        spec_try_efence_net_ingress_monitor(p, ts) matches Ok(Some(MonitorEvent::Tcp4(_))) ==> {
            &&& ip_proto(p) == PROTO_TCP
            &&& tcp_ack(p)
            &&& !tcp_syn(p)
            &&& !tcp_fin(p)
            &&& !tcp_rst(p)
            &&& ip_tot_len(p) == ip_hdr_len(p) + tcp_hdr_len(p)
        },
{
}

/// The big-endian number spelled by four packet bytes, written out.
pub open spec fn bytes_be32(p: Seq<u8>, i: int) -> int {
    p[i] * 16777216 + p[i + 1] * 65536 + p[i + 2] * 256 + p[i + 3]
}

/// The big-endian number spelled by two packet bytes, written out.
pub open spec fn bytes_be16(p: Seq<u8>, i: int) -> int {
    p[i] * 256 + p[i + 1]
}

pub proof fn lemma_be_fields(p: Seq<u8>)
    requires
        p.len() >= 38,
    ensures
        ip_src(p) as int == bytes_be32(p, 26),
        ip_dst(p) as int == bytes_be32(p, 30),
        l4_src_port(p) as int == bytes_be16(p, 34),
        l4_dst_port(p) as int == bytes_be16(p, 36),
        ip_tot_len(p) == bytes_be16(p, 16),
        0 <= bytes_be32(p, 26) < 0x1_0000_0000,
        0 <= bytes_be32(p, 30) < 0x1_0000_0000,
        0 <= bytes_be16(p, 34) < 0x1_0000,
        0 <= bytes_be16(p, 36) < 0x1_0000,
{
    reveal_with_fuel(spec_uint, 5);
}

/// Every IPv4 UDP packet long enough to hold its UDP header is reported by
/// both monitors, whatever its addresses: with its source and destination
/// address and port read from the packet, and by the ingress monitor with
/// the time it was seen.
pub proof fn lemma_udp_packets_are_reported(p: Seq<u8>, ts: u64)
    requires
        p.len() >= 42,
        p[12] == 0x08,
        p[13] == 0x00,
        p[23] == 17,
    ensures
        spec_try_efence_ebpf(p) matches Ok(Some(e)) && {
            &&& e.src as int == bytes_be32(p, 26)
            &&& e.dst as int == bytes_be32(p, 30)
            &&& e.src_port as int == bytes_be16(p, 34)
            &&& e.dst_port as int == bytes_be16(p, 36)
            &&& e._pad == 0
        },
        spec_try_efence_net_ingress_monitor(p, ts) matches Ok(Some(MonitorEvent::Udp4(e))) && {
            &&& e.src as int == bytes_be32(p, 26)
            &&& e.dst as int == bytes_be32(p, 30)
            &&& e.src_port as int == bytes_be16(p, 34)
            &&& e.dst_port as int == bytes_be16(p, 36)
            &&& e.timestamp == ts
        },
{
    lemma_be_fields(p);
}

/// Every ACK that completes a TCP handshake (ACK set, SYN, FIN and RST
/// clear, total length equal to the two header lengths) in an IPv4 packet
/// long enough for its TCP header is reported by the ingress monitor, with
/// its addresses and ports read from the packet and the time it was seen.
pub proof fn lemma_handshake_acks_are_reported(p: Seq<u8>, ts: u64)
    requires
        p.len() >= 54,
        p[12] == 0x08,
        p[13] == 0x00,
        p[23] == 6,
        (p[47] / 16) % 2 == 1,
        p[47] % 2 == 0,
        (p[47] / 2) % 2 == 0,
        (p[47] / 4) % 2 == 0,
        bytes_be16(p, 16) == (p[14] % 16) * 4 + (p[46] / 16) * 4,
    ensures
        spec_try_efence_net_ingress_monitor(p, ts) matches Ok(Some(MonitorEvent::Tcp4(e))) && {
            &&& e.src as int == bytes_be32(p, 26)
            &&& e.dst as int == bytes_be32(p, 30)
            &&& e.src_port as int == bytes_be16(p, 34)
            &&& e.dst_port as int == bytes_be16(p, 36)
            &&& e.timestamp == ts
        },
{
    lemma_be_fields(p);
}

/// Whatever the ingress monitor reports carries the time the packet was
/// seen and the packet's own addresses and ports.
pub proof fn lemma_monitor_event_fields(p: Seq<u8>, ts: u64)
    ensures
        spec_try_efence_net_ingress_monitor(p, ts) matches Ok(Some(MonitorEvent::Tcp4(e))) ==> {
            &&& p.len() >= 54
            &&& e.src as int == bytes_be32(p, 26)
            &&& e.dst as int == bytes_be32(p, 30)
            &&& e.src_port as int == bytes_be16(p, 34)
            &&& e.dst_port as int == bytes_be16(p, 36)
            &&& e.timestamp == ts
        },
        spec_try_efence_net_ingress_monitor(p, ts) matches Ok(Some(MonitorEvent::Udp4(e))) ==> {
            &&& p.len() >= 42
            &&& e.src as int == bytes_be32(p, 26)
            &&& e.dst as int == bytes_be32(p, 30)
            &&& e.src_port as int == bytes_be16(p, 34)
            &&& e.dst_port as int == bytes_be16(p, 36)
            &&& e.timestamp == ts
        },
{
    if p.len() >= 42 {
        lemma_be_fields(p);
    }
}

/// Frames that do not carry IPv4 (bytes 12 and 13 other than 08 00) are
/// ignored by both monitors, without an error. An error comes only for a
/// frame shorter than its Ethernet header, or for an IPv4 frame that is cut
/// short of the headers read or carries a protocol number network-types
/// does not know; a short frame gives `PacketTooSmall`, an unknown protocol
/// `InvalidProtocol`.
pub proof fn lemma_monitors_refuse_only_unreadable_ipv4(p: Seq<u8>, ts: u64)
    ensures
        p.len() >= 14 && !(p[12] == 0x08 && p[13] == 0x00) ==> {
            &&& spec_try_efence_ebpf(p) == Ok::<Option<Udp4Event>, EfenceErrorCode>(None)
            &&& spec_try_efence_net_ingress_monitor(p, ts) == Ok::<Option<MonitorEvent>, EfenceErrorCode>(None)
        },
        spec_try_efence_ebpf(p) == Err::<Option<Udp4Event>, EfenceErrorCode>(EfenceErrorCode::PacketTooSmall)
            ==> p.len() < 14 || (p[12] == 0x08 && p[13] == 0x00 && p.len() < 42),
        spec_try_efence_ebpf(p) == Err::<Option<Udp4Event>, EfenceErrorCode>(EfenceErrorCode::InvalidProtocol)
            ==> p.len() >= 34 && p[12] == 0x08 && p[13] == 0x00 && 144 < p[23] < 253,
        spec_try_efence_net_ingress_monitor(p, ts) == Err::<Option<MonitorEvent>, EfenceErrorCode>(EfenceErrorCode::PacketTooSmall)
            ==> p.len() < 14 || (p[12] == 0x08 && p[13] == 0x00 && p.len() < 54),
        spec_try_efence_net_ingress_monitor(p, ts) == Err::<Option<MonitorEvent>, EfenceErrorCode>(EfenceErrorCode::InvalidProtocol)
            ==> p.len() >= 34 && p[12] == 0x08 && p[13] == 0x00 && 144 < p[23] < 253,
{
}

/// Stand-in for the XDP programs' panic handler, under its name.
///
/// The handler itself spins forever, so a program that panics hands the
/// kernel no verdict; it lives, with the license section, in the
/// kernel-side shell. A verified function must return, so this one cannot
/// diverge: it gives back the verdict such a program produces, which is
/// none. The functions of this library never panic.
pub fn panic() -> (verdict: Option<u32>)
    ensures
        verdict is None,
{
    None
}

} // verus!
