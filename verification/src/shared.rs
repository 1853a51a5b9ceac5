//! Types and constants shared by the XDP programs and the user-space tools,
//! and the decoding of the event records that the programs hand over.

use vstd::prelude::*;

verus! {

/// Byte size of the UDP event ring buffer handed to the kernel as
/// `max_entries`: a power of two and a multiple of the page size.
pub const UDP4_EVENTS_RING_BUF_SIZE: usize = 16384;

/// Policy action: let the packet through.
pub const ACTION_PASS: u32 = 0;

/// Policy action: drop the packet.
pub const ACTION_DROP: u32 = 1;

/// Source port of a port rule that applies to every source port.
pub const PORT_ANY: u16 = 0;

/// The kernel's `XDP_DROP` verdict.
pub const XDP_DROP: u32 = 1;

/// The kernel's `XDP_PASS` verdict.
pub const XDP_PASS: u32 = 2;

/// Why an XDP program could not read a packet.
#[derive(Debug, Clone, Copy, PartialEq, Eq, Structural)]
pub enum EfenceErrorCode {
    PacketTooSmall,
    InvalidProtocol,
}

/// The text by which an error code is shown.
pub open spec fn error_code_text(code: EfenceErrorCode) -> Seq<char> {
    match code {
        EfenceErrorCode::PacketTooSmall => "packet too small"@,
        EfenceErrorCode::InvalidProtocol => "invalid protocol"@,
    }
}

impl EfenceErrorCode {
    /// The error code as it is shown to users.
    pub fn to_string(&self) -> (s: String)
        ensures
            s@ == error_code_text(*self),
    {
        match self {
            EfenceErrorCode::PacketTooSmall => "packet too small".to_string(),
            EfenceErrorCode::InvalidProtocol => "invalid protocol".to_string(),
        }
    }
}

/// A UDP packet seen by the plain monitor program: addresses and ports as
/// numbers, with four bytes of padding that are always zero.
#[derive(Debug, Clone, Copy, PartialEq, Eq, Structural)]
pub struct Udp4Event {
    pub src: u32,
    pub dst: u32,
    pub src_port: u16,
    pub dst_port: u16,
    pub _pad: u32,
}

impl Udp4Event {
    pub fn new(src: u32, dst: u32, src_port: u16, dst_port: u16) -> (e: Self)
        ensures
            e == (Udp4Event { src, dst, src_port, dst_port, _pad: 0 }),
    {
        Udp4Event { src, dst, src_port, dst_port, _pad: 0 }
    }
}

/// A UDP packet seen by the ingress monitor, with the boot-clock time in
/// nanoseconds at which it was seen.
#[derive(Debug, Clone, Copy, PartialEq, Eq, Structural)]
pub struct Udp4EventRaw {
    pub src: u32,
    pub dst: u32,
    pub src_port: u16,
    pub dst_port: u16,
    pub timestamp: u64,
}

impl Udp4EventRaw {
    pub fn new(src: u32, dst: u32, src_port: u16, dst_port: u16, timestamp: u64) -> (e: Self)
        ensures
            e == (Udp4EventRaw { src, dst, src_port, dst_port, timestamp }),
    {
        Udp4EventRaw { src, dst, src_port, dst_port, timestamp }
    }
}

/// The ACK that completes a TCP handshake, seen by the ingress monitor,
/// with the boot-clock time in nanoseconds at which it was seen.
#[derive(Debug, Clone, Copy, PartialEq, Eq, Structural)]
pub struct Tcp4EventRaw {
    pub src: u32,
    pub dst: u32,
    pub src_port: u16,
    pub dst_port: u16,
    pub timestamp: u64,
}

impl Tcp4EventRaw {
    pub fn new(src: u32, dst: u32, src_port: u16, dst_port: u16, timestamp: u64) -> (e: Self)
        ensures
            e == (Tcp4EventRaw { src, dst, src_port, dst_port, timestamp }),
    {
        Tcp4EventRaw { src, dst, src_port, dst_port, timestamp }
    }
}

/// An IPv4 prefix: an address (as the big-endian number of its four bytes)
/// and how many of its leading bits count.
#[derive(Debug, Clone, Copy, PartialEq, Eq, Structural)]
pub struct Ipv4Cidr {
    pub addr: u32,
    pub prefix_len: u8,
}

/// The key of a port rule: the prefix that matched and a source port
/// ([`PORT_ANY`] for every port).
#[derive(Debug, Clone, Copy, PartialEq, Eq, Structural)]
pub struct PrefixPort {
    pub prefix: Ipv4Cidr,
    pub port: u16,
}

impl PrefixPort {
    pub fn new(prefix: Ipv4Cidr, port: u16) -> (k: Self)
        ensures
            k == (PrefixPort { prefix, port }),
    {
        PrefixPort { prefix, port }
    }
}

/// A record handed over by a ring buffer did not have the size of the event
/// it should hold.
#[derive(Debug, Clone, Copy, PartialEq, Eq, Structural)]
pub struct EventSizeError {
    pub got: usize,
    pub expected: usize,
}

/// The number that bytes `i..i+n` of `b` spell with the first byte least
/// significant (`little`) or most significant.
pub open spec fn spec_uint(b: Seq<u8>, i: int, n: nat, little: bool) -> int
    decreases n,
{
    if n == 0 {
        0
    } else if little {
        b[i] + 256 * spec_uint(b, i + 1, (n - 1) as nat, little)
    } else {
        spec_uint(b, i, (n - 1) as nat, little) * 256 + b[i + n - 1]
    }
}

/// Calls `u16::from_ne_bytes`. std reads the two bytes in the machine's own
/// byte order, so the result is their little-endian or their big-endian
/// reading; which one, the machine decides, and nothing here says which.
#[verifier::external_body]
fn u16_from_ne_bytes(b: [u8; 2]) -> (r: u16)
    ensures
        r == b[0] + 256 * b[1] || r == 256 * b[0] + b[1],
{
    u16::from_ne_bytes(b)
}

/// Whether this machine stores integers least significant byte first.
fn machine_is_little_endian() -> bool {
    u16_from_ne_bytes([1, 0]) == 1
}

proof fn lemma_uint_bounds(b: Seq<u8>, i: int, n: nat, little: bool)
    requires
        0 <= i,
        i + n <= b.len(),
        n <= 8,
    ensures
        0 <= spec_uint(b, i, n, little) < pow256(n),
    decreases n,
{
    if n > 0 {
        lemma_uint_bounds(b, i + 1, (n - 1) as nat, little);
        lemma_uint_bounds(b, i, (n - 1) as nat, little);
        assert(b[i] < 256);
        assert(b[i + n - 1] < 256);
        assert(pow256(n) == 256 * pow256((n - 1) as nat));
        let lo = spec_uint(b, i + 1, (n - 1) as nat, little);
        let hi = spec_uint(b, i, (n - 1) as nat, little);
        let p = pow256((n - 1) as nat);
        assert(b[i] + 256 * lo < 256 * p) by (nonlinear_arith)
            requires 0 <= b[i] < 256, 0 <= lo < p;
        assert(hi * 256 + b[i + n - 1] < 256 * p) by (nonlinear_arith)
            requires 0 <= b[i + n - 1] < 256, 0 <= hi < p;
    }
}

pub open spec fn pow256(n: nat) -> int
    decreases n,
{
    if n == 0 { 1 } else { 256 * pow256((n - 1) as nat) }
}

/// Reads the `n`-byte unsigned number at `i` in the given byte order.
fn read_uint(b: &[u8], i: usize, n: usize, little: bool) -> (r: u64)
    requires
        i + n <= b@.len(),
        n <= 8,
    ensures
        r == spec_uint(b@, i as int, n as nat, little),
{
    let len: usize = b.len();
    assert(i + n <= len);
    let end: usize = i + n;
    let mut k: usize = 0;
    let mut acc: u64 = 0;
    while k < n
        invariant
            k <= n,
            end == i + n,
            i + n <= b@.len(),
            n <= 8,
            little ==> acc == spec_uint(b@, (i + n - k) as int, k as nat, little),
            !little ==> acc == spec_uint(b@, i as int, k as nat, little),
        decreases n - k,
    {
        proof {
            lemma_uint_bounds(b@, (i + n - k) as int, k as nat, little);
            lemma_uint_bounds(b@, i as int, k as nat, little);
            lemma_pow256_bound(k as nat);
        }
        if little {
            let byte = b[end - k - 1] as u64;
            assert(acc < pow256(k as nat));
            assert(byte + 256 * acc < 256 * pow256(k as nat)) by (nonlinear_arith)
                requires byte < 256, acc < pow256(k as nat);
            acc = byte + 256 * acc;
        } else {
            let byte = b[i + k] as u64;
            assert(acc * 256 + byte < 256 * pow256(k as nat)) by (nonlinear_arith)
                requires byte < 256, acc < pow256(k as nat);
            acc = acc * 256 + byte;
        }
        k = k + 1;
    }
    acc
}

proof fn lemma_pow256_bound(n: nat)
    requires
        n < 8,
    ensures
        256 * pow256(n) <= u64::MAX + 1,
{
    reveal_with_fuel(pow256, 9);
    assert(pow256(0) == 1);
    assert(pow256(7) == 72057594037927936);
}


/// Reads the `n`-byte number at `i` (`n` at most 4) as a `u32`.
pub(crate) fn read_u32(b: &[u8], i: usize, n: usize, little: bool) -> (r: u32)
    requires
        i + n <= b@.len(),
        n <= 4,
    ensures
        r == spec_uint(b@, i as int, n as nat, little),
{
    proof {
        lemma_uint_bounds(b@, i as int, n as nat, little);
        reveal_with_fuel(pow256, 5);
    }
    read_uint(b, i, n, little) as u32
}

/// Size in bytes of a [`Udp4Event`] record.
pub const UDP4_EVENT_SIZE: usize = 16;

/// Size in bytes of a [`Udp4EventRaw`] or [`Tcp4EventRaw`] record.
pub const EVENT_RAW_SIZE: usize = 24;

/// A [`Udp4Event`] record read in the given byte order: addresses at bytes
/// 0 and 4, ports at 8 and 10, and four bytes of padding.
pub open spec fn spec_parse_udp4_event(b: Seq<u8>, little: bool) -> Result<Udp4Event, EventSizeError> {
    if b.len() != 16 {
        Err(EventSizeError { got: b.len() as usize, expected: 16 })
    } else {
        Ok(Udp4Event {
            src: spec_uint(b, 0, 4, little) as u32,
            dst: spec_uint(b, 4, 4, little) as u32,
            src_port: spec_uint(b, 8, 2, little) as u16,
            dst_port: spec_uint(b, 10, 2, little) as u16,
            _pad: 0,
        })
    }
}

/// The fields of a [`Udp4EventRaw`] or [`Tcp4EventRaw`] record read in the
/// given byte order: addresses at bytes 0 and 4, ports at 8 and 10, four
/// bytes of padding and the timestamp at 16.
pub open spec fn spec_raw_fields(b: Seq<u8>, little: bool) -> (u32, u32, u16, u16, u64) {
    (
        spec_uint(b, 0, 4, little) as u32,
        spec_uint(b, 4, 4, little) as u32,
        spec_uint(b, 8, 2, little) as u16,
        spec_uint(b, 10, 2, little) as u16,
        spec_uint(b, 16, 8, little) as u64,
    )
}

pub open spec fn spec_parse_udp4_event_raw(b: Seq<u8>, little: bool) -> Result<Udp4EventRaw, EventSizeError> {
    if b.len() != 24 {
        Err(EventSizeError { got: b.len() as usize, expected: 24 })
    } else {
        let f = spec_raw_fields(b, little);
        Ok(Udp4EventRaw { src: f.0, dst: f.1, src_port: f.2, dst_port: f.3, timestamp: f.4 })
    }
}

pub open spec fn spec_parse_tcp4_event_raw(b: Seq<u8>, little: bool) -> Result<Tcp4EventRaw, EventSizeError> {
    if b.len() != 24 {
        Err(EventSizeError { got: b.len() as usize, expected: 24 })
    } else {
        let f = spec_raw_fields(b, little);
        Ok(Tcp4EventRaw { src: f.0, dst: f.1, src_port: f.2, dst_port: f.3, timestamp: f.4 })
    }
}

/// Reads the fields of a raw event record; see [`spec_raw_fields`].
fn read_raw_fields(b: &[u8], little: bool) -> (r: (u32, u32, u16, u16, u64))
    requires
        b@.len() == 24,
    ensures
        r == spec_raw_fields(b@, little),
{
    let src = read_u32(b, 0, 4, little);
    let dst = read_u32(b, 4, 4, little);
    let src_port = read_u32(b, 8, 2, little) as u16;
    let dst_port = read_u32(b, 10, 2, little) as u16;
    let timestamp = read_uint(b, 16, 8, little);
    proof {
        lemma_uint_bounds(b@, 8, 2, little);
        lemma_uint_bounds(b@, 10, 2, little);
        reveal_with_fuel(pow256, 3);
    }
    (src, dst, src_port, dst_port, timestamp)
}

/// Decodes a [`Udp4Event`] record whose integers are stored in the given
/// byte order; a record of another size than [`UDP4_EVENT_SIZE`] is refused.
pub fn parse_udp4_event_in(bytes: &[u8], little_endian: bool) -> (r: Result<Udp4Event, EventSizeError>)
    ensures
        r == spec_parse_udp4_event(bytes@, little_endian),
{
    if bytes.len() != UDP4_EVENT_SIZE {
        return Err(EventSizeError { got: bytes.len(), expected: UDP4_EVENT_SIZE });
    }
    let src = read_u32(bytes, 0, 4, little_endian);
    let dst = read_u32(bytes, 4, 4, little_endian);
    let src_port = read_u32(bytes, 8, 2, little_endian);
    let dst_port = read_u32(bytes, 10, 2, little_endian);
    proof {
        lemma_uint_bounds(bytes@, 8, 2, little_endian);
        lemma_uint_bounds(bytes@, 10, 2, little_endian);
        reveal_with_fuel(pow256, 3);
    }
    Ok(Udp4Event::new(src, dst, src_port as u16, dst_port as u16))
}

/// Decodes a [`Udp4Event`] record written by an XDP program on this machine,
/// in the machine's own byte order.
pub fn parse_udp4_event(bytes: &[u8]) -> (r: Result<Udp4Event, EventSizeError>)
    ensures
        r == spec_parse_udp4_event(bytes@, true) || r == spec_parse_udp4_event(bytes@, false),
{
    parse_udp4_event_in(bytes, machine_is_little_endian())
}

impl Udp4EventRaw {
    /// Decodes a record whose integers are stored in the given byte order;
    /// a record of another size than [`EVENT_RAW_SIZE`] is refused.
    pub fn parse_in(bytes: &[u8], little_endian: bool) -> (r: Result<Udp4EventRaw, EventSizeError>)
        ensures
            r == spec_parse_udp4_event_raw(bytes@, little_endian),
    {
        if bytes.len() != EVENT_RAW_SIZE {
            return Err(EventSizeError { got: bytes.len(), expected: EVENT_RAW_SIZE });
        }
        let (src, dst, src_port, dst_port, timestamp) = read_raw_fields(bytes, little_endian);
        Ok(Udp4EventRaw::new(src, dst, src_port, dst_port, timestamp))
    }

    /// Decodes a record written by an XDP program on this machine, in the
    /// machine's own byte order.
    pub fn parse(bytes: &[u8]) -> (r: Result<Udp4EventRaw, EventSizeError>)
        ensures
            r == spec_parse_udp4_event_raw(bytes@, true)
                || r == spec_parse_udp4_event_raw(bytes@, false),
    {
        Udp4EventRaw::parse_in(bytes, machine_is_little_endian())
    }
}

impl Tcp4EventRaw {
    /// Decodes a record whose integers are stored in the given byte order;
    /// a record of another size than [`EVENT_RAW_SIZE`] is refused.
    pub fn parse_in(bytes: &[u8], little_endian: bool) -> (r: Result<Tcp4EventRaw, EventSizeError>)
        ensures
            r == spec_parse_tcp4_event_raw(bytes@, little_endian),
    {
        if bytes.len() != EVENT_RAW_SIZE {
            return Err(EventSizeError { got: bytes.len(), expected: EVENT_RAW_SIZE });
        }
        let (src, dst, src_port, dst_port, timestamp) = read_raw_fields(bytes, little_endian);
        Ok(Tcp4EventRaw::new(src, dst, src_port, dst_port, timestamp))
    }

    /// Decodes a record written by an XDP program on this machine, in the
    /// machine's own byte order.
    pub fn parse(bytes: &[u8]) -> (r: Result<Tcp4EventRaw, EventSizeError>)
        ensures
            r == spec_parse_tcp4_event_raw(bytes@, true)
                || r == spec_parse_tcp4_event_raw(bytes@, false),
    {
        Tcp4EventRaw::parse_in(bytes, machine_is_little_endian())
    }
}

} // verus!
