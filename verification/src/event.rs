//! Events as the user-space tools report them.

use vstd::prelude::*;
use crate::shared::{Tcp4EventRaw, Udp4EventRaw};

verus! {

/// An IPv4 address, held as the big-endian number of its four bytes.
#[derive(Debug, Clone, Copy, PartialEq, Eq, Structural)]
pub struct Ipv4Address {
    pub bits: u32,
}

impl Ipv4Address {
    /// The address whose four bytes, most significant first, spell `bits`.
    pub fn from_bits(bits: u32) -> (a: Ipv4Address)
        ensures
            a.bits == bits,
    {
        Ipv4Address { bits }
    }
}

/// Represents a UDP event: a UDP packet that came in, and the boot-clock
/// time in nanoseconds at which it was seen.
#[derive(Debug, Clone, Copy, PartialEq, Eq, Structural)]
pub struct Udp4Event {
    pub src: Ipv4Address,
    pub dst: Ipv4Address,
    pub src_port: u16,
    pub dst_port: u16,
    pub timestamp: u64,
}

impl Udp4Event {
    pub fn new(
        src: Ipv4Address,
        dst: Ipv4Address,
        src_port: u16,
        dst_port: u16,
        timestamp: u64,
    ) -> (e: Self)
        ensures
            e == (Udp4Event { src, dst, src_port, dst_port, timestamp }),
    {
        Udp4Event { src, dst, src_port, dst_port, timestamp }
    }
}

impl vstd::std_specs::convert::FromSpecImpl<Udp4EventRaw> for Udp4Event {
    open spec fn obeys_from_spec() -> bool {
        true
    }

    open spec fn from_spec(raw: Udp4EventRaw) -> Udp4Event {
        Udp4Event {
            src: Ipv4Address { bits: raw.src },
            dst: Ipv4Address { bits: raw.dst },
            src_port: raw.src_port,
            dst_port: raw.dst_port,
            timestamp: raw.timestamp,
        }
    }
}

/// The event reported for a record of the ingress monitor.
impl From<Udp4EventRaw> for Udp4Event {
    fn from(raw: Udp4EventRaw) -> (e: Udp4Event)
        ensures
            e.src.bits == raw.src,
            e.dst.bits == raw.dst,
            e.src_port == raw.src_port,
            e.dst_port == raw.dst_port,
            e.timestamp == raw.timestamp,
    {
        Udp4Event {
            src: Ipv4Address::from_bits(raw.src),
            dst: Ipv4Address::from_bits(raw.dst),
            src_port: raw.src_port,
            dst_port: raw.dst_port,
            timestamp: raw.timestamp,
        }
    }
}

/// Represents a TCP event.
///
/// To eliminate the noise, only the TCP ACK packet of a handshake is traced,
/// hence each `Tcp4Event` represents an established TCP connection.
#[derive(Debug, Clone, Copy, PartialEq, Eq, Structural)]
pub struct Tcp4Event {
    pub src: Ipv4Address,
    pub dst: Ipv4Address,
    pub src_port: u16,
    pub dst_port: u16,
    pub timestamp: u64,
}

impl Tcp4Event {
    pub fn new(
        src: Ipv4Address,
        dst: Ipv4Address,
        src_port: u16,
        dst_port: u16,
        timestamp: u64,
    ) -> (e: Self)
        ensures
            e == (Tcp4Event { src, dst, src_port, dst_port, timestamp }),
    {
        Tcp4Event { src, dst, src_port, dst_port, timestamp }
    }
}

impl vstd::std_specs::convert::FromSpecImpl<Tcp4EventRaw> for Tcp4Event {
    open spec fn obeys_from_spec() -> bool {
        true
    }

    open spec fn from_spec(raw: Tcp4EventRaw) -> Tcp4Event {
        Tcp4Event {
            src: Ipv4Address { bits: raw.src },
            dst: Ipv4Address { bits: raw.dst },
            src_port: raw.src_port,
            dst_port: raw.dst_port,
            timestamp: raw.timestamp,
        }
    }
}

/// The event reported for a record of the ingress monitor.
impl From<Tcp4EventRaw> for Tcp4Event {
    fn from(raw: Tcp4EventRaw) -> (e: Tcp4Event)
        ensures
            e.src.bits == raw.src,
            e.dst.bits == raw.dst,
            e.src_port == raw.src_port,
            e.dst_port == raw.dst_port,
            e.timestamp == raw.timestamp,
    {
        Tcp4Event {
            src: Ipv4Address::from_bits(raw.src),
            dst: Ipv4Address::from_bits(raw.dst),
            src_port: raw.src_port,
            dst_port: raw.dst_port,
            timestamp: raw.timestamp,
        }
    }
}

/// An event of the ingress monitor, as the tools report it.
#[derive(Debug, Clone, Copy, PartialEq, Eq, Structural)]
pub enum EfenceEvent {
    Udp4Ingress(Udp4Event),
    Tcp4Ingress(Tcp4Event),
}

} // verus!
