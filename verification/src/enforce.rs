//! The ingress enforcement program: which verdict a UDP packet gets.
//!
//! The program consults three kernel maps in turn:
//!
//! 1. the interface's LPM trie (no trie: the packet passes);
//! 2. a longest-prefix match of the source address in that trie (no match:
//!    the interface's default action);
//! 3. the action of `(matched prefix, source port)`, failing that of
//!    `(matched prefix, PORT_ANY)`;
//! 4. failing both, the interface's default action, which is "pass" where
//!    the interface has none.
//!
//! The maps live in the kernel, so the decisions are a step function: given
//! the step the program is at and what the map answered, [`decide`] gives
//! the next lookup to make or the verdict. [`lemma_decide_follows_policy`]
//! states that running the steps against any maps gives the verdict the
//! four rules above prescribe.

use vstd::prelude::*;
use crate::packet::{
    bytes_be16, bytes_be32, lemma_be_fields,
    spec_try_efence_net_ingress_monitor, MonitorEvent, ip_proto, ip_proto_known, ip_src, is_ipv4_frame, l4_src_port, ptr_at, read_ipv4,
    read_udp_ports, ETH_HDR_LEN, IPV4_HDR_LEN, PROTO_UDP, UDP_HDR_LEN,
};
use crate::shared::{
    EfenceErrorCode, Ipv4Cidr, PrefixPort, ACTION_DROP, ACTION_PASS, PORT_ANY, XDP_DROP, XDP_PASS,
};

verus! {

/// The verdict for a policy action: drop for [`ACTION_DROP`], pass for
/// anything else.
pub open spec fn spec_action_to_xdp(action: u32) -> u32 {
    if action == ACTION_DROP { XDP_DROP } else { XDP_PASS }
}

/// Turns a policy action into an XDP verdict.
pub fn action_to_xdp(action: u32) -> (verdict: u32)
    ensures
        verdict == spec_action_to_xdp(action),
{
    if action == ACTION_DROP {
        XDP_DROP
    } else {
        XDP_PASS
    }
}

/// The verdict of an interface's default action, given what the default
/// action map holds for the interface: pass where it holds nothing.
pub open spec fn spec_iface_default_action(found: Option<u32>) -> u32 {
    match found {
        Some(a) => spec_action_to_xdp(a),
        None => spec_action_to_xdp(ACTION_PASS),
    }
}

/// The verdict of an interface's default action, given what the default
/// action map holds for the interface.
pub fn iface_default_action(found: Option<u32>) -> (verdict: u32)
    ensures
        verdict == spec_iface_default_action(found),
{
    let action = match found {
        Some(a) => a,
        None => ACTION_PASS,
    };
    action_to_xdp(action)
}

/// A UDP packet to decide on: the interface it came in on, its source
/// address (the big-endian number of its bytes) and source port.
#[derive(Debug, Clone, Copy, PartialEq, Eq, Structural)]
pub struct ApplyRequest {
    pub ifindex: u32,
    pub src_ip: u32,
    pub src_port: u16,
}

/// Where the decision stands: the next map lookup to make, or the verdict.
#[derive(Debug, Clone, Copy, PartialEq, Eq, Structural)]
pub enum ApplyStep {
    /// Look up the interface's LPM trie.
    LookupIfaceTrie,
    /// Match the source address against the interface's trie.
    LookupPrefix,
    /// Look up the action of the matched prefix and the source port.
    LookupExactPort(Ipv4Cidr),
    /// Look up the action of the matched prefix and [`PORT_ANY`].
    LookupAnyPort(Ipv4Cidr),
    /// Look up the interface's default action.
    LookupIfaceDefault,
    /// Decided.
    Verdict(u32),
}

/// What a map answered to a lookup.
#[derive(Debug, Clone, Copy, PartialEq, Eq, Structural)]
pub enum MapAnswer {
    /// Whether the interface has a trie.
    Trie(bool),
    /// The longest prefix in the trie that holds the source address.
    Prefix(Option<Ipv4Cidr>),
    /// The action stored under the key looked up.
    Action(Option<u32>),
}

/// The answer has the kind that the step's lookup gives.
pub open spec fn answer_fits(step: ApplyStep, answer: MapAnswer) -> bool {
    match step {
        ApplyStep::LookupIfaceTrie => answer is Trie,
        ApplyStep::LookupPrefix => answer is Prefix,
        ApplyStep::LookupExactPort(_) => answer is Action,
        ApplyStep::LookupAnyPort(_) => answer is Action,
        ApplyStep::LookupIfaceDefault => answer is Action,
        ApplyStep::Verdict(_) => false,
    }
}

/// The step after `step` once its lookup gave `answer`.
pub open spec fn spec_decide(step: ApplyStep, answer: MapAnswer) -> ApplyStep {
    match (step, answer) {
        (ApplyStep::LookupIfaceTrie, MapAnswer::Trie(found)) => {
            if found { ApplyStep::LookupPrefix } else { ApplyStep::Verdict(XDP_PASS) }
        },
        (ApplyStep::LookupPrefix, MapAnswer::Prefix(matched)) => match matched {
            Some(p) => ApplyStep::LookupExactPort(p),
            None => ApplyStep::LookupIfaceDefault,
        },
        (ApplyStep::LookupExactPort(p), MapAnswer::Action(found)) => match found {
            Some(a) => ApplyStep::Verdict(spec_action_to_xdp(a)),
            None => ApplyStep::LookupAnyPort(p),
        },
        (ApplyStep::LookupAnyPort(p), MapAnswer::Action(found)) => match found {
            Some(a) => ApplyStep::Verdict(spec_action_to_xdp(a)),
            None => ApplyStep::LookupIfaceDefault,
        },
        (ApplyStep::LookupIfaceDefault, MapAnswer::Action(found)) => {
            ApplyStep::Verdict(spec_iface_default_action(found))
        },
        _ => step,
    }
}

/// Takes the decision one step further: from the lookup the program made
/// and what the map answered, the next lookup or the verdict.
pub fn decide(step: ApplyStep, answer: MapAnswer) -> (next: ApplyStep)
    requires
        answer_fits(step, answer),
    ensures
        next == spec_decide(step, answer),
{
    match (step, answer) {
        (ApplyStep::LookupIfaceTrie, MapAnswer::Trie(found)) => {
            if found {
                ApplyStep::LookupPrefix
            } else {
                ApplyStep::Verdict(XDP_PASS)
            }
        },
        (ApplyStep::LookupPrefix, MapAnswer::Prefix(matched)) => match matched {
            Some(p) => ApplyStep::LookupExactPort(p),
            None => ApplyStep::LookupIfaceDefault,
        },
        (ApplyStep::LookupExactPort(p), MapAnswer::Action(found)) => match found {
            Some(a) => ApplyStep::Verdict(action_to_xdp(a)),
            None => ApplyStep::LookupAnyPort(p),
        },
        (ApplyStep::LookupAnyPort(_), MapAnswer::Action(found)) => match found {
            Some(a) => ApplyStep::Verdict(action_to_xdp(a)),
            None => ApplyStep::LookupIfaceDefault,
        },
        (ApplyStep::LookupIfaceDefault, MapAnswer::Action(found)) => {
            ApplyStep::Verdict(iface_default_action(found))
        },
        _ => step,
    }
}

/// The key of the port-action lookup that a step asks for: the matched
/// prefix with the packet's source port, or with [`PORT_ANY`].
pub open spec fn spec_port_key(step: ApplyStep, req: ApplyRequest) -> PrefixPort {
    match step {
        ApplyStep::LookupExactPort(p) => PrefixPort { prefix: p, port: req.src_port },
        ApplyStep::LookupAnyPort(p) => PrefixPort { prefix: p, port: PORT_ANY },
        _ => arbitrary(),
    }
}

impl ApplyStep {
    /// The key to look up in the port-action map at this step.
    pub fn port_key(&self, req: &ApplyRequest) -> (key: PrefixPort)
        requires
            *self is LookupExactPort || *self is LookupAnyPort,
        ensures
            key == spec_port_key(*self, *req),
    {
        match self {
            ApplyStep::LookupExactPort(p) => PrefixPort::new(*p, req.src_port),
            ApplyStep::LookupAnyPort(p) => PrefixPort::new(*p, PORT_ANY),
            _ => PrefixPort::new(Ipv4Cidr { addr: 0, prefix_len: 0 }, 0),
        }
    }
}


/// What the enforcement program makes of a packet arriving on interface
/// `ifindex`: an IPv4 UDP packet goes to the policy, other traffic passes
/// (`None`), and a packet that cannot be read is refused with the reason.
pub open spec fn spec_try_efence_net_ingress_apply(p: Seq<u8>, ifindex: u32) -> Result<Option<ApplyRequest>, EfenceErrorCode> {
    if p.len() < 14 {
        Err(EfenceErrorCode::PacketTooSmall)
    } else if !is_ipv4_frame(p) {
        Ok(None)
    } else if p.len() < 34 {
        Err(EfenceErrorCode::PacketTooSmall)
    } else if !ip_proto_known(ip_proto(p)) {
        Err(EfenceErrorCode::InvalidProtocol)
    } else if ip_proto(p) != PROTO_UDP {
        Ok(None)
    } else if p.len() < 42 {
        Err(EfenceErrorCode::PacketTooSmall)
    } else {
        Ok(Some(ApplyRequest { ifindex, src_ip: ip_src(p), src_port: l4_src_port(p) }))
    }
}

/// Reads a packet for the enforcement program: the UDP packet to decide on,
/// or `None` when the packet is not IPv4 UDP and passes.
pub fn try_efence_net_ingress_apply(packet: &[u8], ifindex: u32) -> (r: Result<Option<ApplyRequest>, EfenceErrorCode>)
    ensures
        r == spec_try_efence_net_ingress_apply(packet@, ifindex),
{
    ptr_at(packet, 0, ETH_HDR_LEN)?;
    if !(packet[12] == 0x08 && packet[13] == 0x00) {
        return Ok(None);
    }
    ptr_at(packet, ETH_HDR_LEN, IPV4_HDR_LEN)?;
    let (proto, src_ip, _dst) = read_ipv4(packet);
    let proto = match proto {
        Some(p) => p,
        None => return Err(EfenceErrorCode::InvalidProtocol),
    };
    if proto != PROTO_UDP {
        return Ok(None);
    }
    ptr_at(packet, ETH_HDR_LEN + IPV4_HDR_LEN, UDP_HDR_LEN)?;
    let (src_port, _dst_port) = read_udp_ports(packet);
    Ok(Some(ApplyRequest { ifindex, src_ip, src_port }))
}

// ---------------------------------------------------------------------------
// The policy the steps carry out
// ---------------------------------------------------------------------------

/// The verdict the policy prescribes for a request, given the contents of
/// the maps: whether an interface has a trie, the longest prefix of an
/// interface's trie that holds an address, the action stored under a
/// prefix and port, and an interface's default action.
pub open spec fn spec_policy_verdict(
    has_trie: spec_fn(u32) -> bool,
    longest_prefix: spec_fn(u32, u32) -> Option<Ipv4Cidr>,
    port_action: spec_fn(PrefixPort) -> Option<u32>,
    iface_default: spec_fn(u32) -> Option<u32>,
    req: ApplyRequest,
) -> u32 {
    if !has_trie(req.ifindex) {
        XDP_PASS
    } else {
        match longest_prefix(req.ifindex, req.src_ip) {
            None => spec_iface_default_action(iface_default(req.ifindex)),
            Some(p) => match port_action(PrefixPort { prefix: p, port: req.src_port }) {
                Some(a) => spec_action_to_xdp(a),
                None => match port_action(PrefixPort { prefix: p, port: PORT_ANY }) {
                    Some(a) => spec_action_to_xdp(a),
                    None => spec_iface_default_action(iface_default(req.ifindex)),
                },
            },
        }
    }
}

/// What maps with the given contents answer to the lookup of `step`.
pub open spec fn spec_map_answer(
    has_trie: spec_fn(u32) -> bool,
    longest_prefix: spec_fn(u32, u32) -> Option<Ipv4Cidr>,
    port_action: spec_fn(PrefixPort) -> Option<u32>,
    iface_default: spec_fn(u32) -> Option<u32>,
    req: ApplyRequest,
    step: ApplyStep,
) -> MapAnswer {
    match step {
        ApplyStep::LookupIfaceTrie => MapAnswer::Trie(has_trie(req.ifindex)),
        ApplyStep::LookupPrefix => MapAnswer::Prefix(longest_prefix(req.ifindex, req.src_ip)),
        ApplyStep::LookupExactPort(_) => MapAnswer::Action(port_action(spec_port_key(step, req))),
        ApplyStep::LookupAnyPort(_) => MapAnswer::Action(port_action(spec_port_key(step, req))),
        ApplyStep::LookupIfaceDefault => MapAnswer::Action(iface_default(req.ifindex)),
        ApplyStep::Verdict(_) => MapAnswer::Trie(false),
    }
}

/// The step reached from `step` after at most `n` lookups answered by maps
/// with the given contents.
pub open spec fn spec_run(
    has_trie: spec_fn(u32) -> bool,
    longest_prefix: spec_fn(u32, u32) -> Option<Ipv4Cidr>,
    port_action: spec_fn(PrefixPort) -> Option<u32>,
    iface_default: spec_fn(u32) -> Option<u32>,
    req: ApplyRequest,
    step: ApplyStep,
    n: nat,
) -> ApplyStep
    decreases n,
{
    if n == 0 || step is Verdict {
        step
    } else {
        let answer = spec_map_answer(has_trie, longest_prefix, port_action, iface_default, req, step);
        spec_run(has_trie, longest_prefix, port_action, iface_default, req, spec_decide(step, answer), (n - 1) as nat)
    }
}

/// Starting from the trie lookup and answering each lookup from the maps'
/// contents, the steps reach a verdict within five lookups, that verdict is
/// the one the policy prescribes, and every answer along the way has the
/// kind its step asks for.
pub proof fn lemma_decide_follows_policy(
    has_trie: spec_fn(u32) -> bool,
    longest_prefix: spec_fn(u32, u32) -> Option<Ipv4Cidr>,
    port_action: spec_fn(PrefixPort) -> Option<u32>,
    iface_default: spec_fn(u32) -> Option<u32>,
    req: ApplyRequest,
)
    ensures
        spec_run(has_trie, longest_prefix, port_action, iface_default, req, ApplyStep::LookupIfaceTrie, 5)
            == ApplyStep::Verdict(spec_policy_verdict(has_trie, longest_prefix, port_action, iface_default, req)),
        forall|step: ApplyStep| !(step is Verdict) ==> answer_fits(
            step,
            #[trigger] spec_map_answer(has_trie, longest_prefix, port_action, iface_default, req, step),
        ),
{
    reveal_with_fuel(spec_run, 6);
}


/// Whatever the maps hold, the policy's verdict is pass or drop.
pub proof fn lemma_verdict_is_pass_or_drop(
    has_trie: spec_fn(u32) -> bool,
    longest_prefix: spec_fn(u32, u32) -> Option<Ipv4Cidr>,
    port_action: spec_fn(PrefixPort) -> Option<u32>,
    iface_default: spec_fn(u32) -> Option<u32>,
    req: ApplyRequest,
)
    ensures
        spec_policy_verdict(has_trie, longest_prefix, port_action, iface_default, req) == XDP_PASS
            || spec_policy_verdict(has_trie, longest_prefix, port_action, iface_default, req) == XDP_DROP,
{
}

/// The enforcement program decides on exactly the packets that the ingress
/// monitor reports as UDP events, by their source address and port.
pub proof fn lemma_apply_decides_on_monitored_udp(p: Seq<u8>, ifindex: u32, ts: u64)
    ensures
        (spec_try_efence_net_ingress_apply(p, ifindex) matches Ok(Some(req)) && req.ifindex == ifindex)
            <==> (spec_try_efence_net_ingress_monitor(p, ts) matches Ok(Some(MonitorEvent::Udp4(_)))),
        spec_try_efence_net_ingress_apply(p, ifindex) matches Ok(Some(req)) ==> (
            spec_try_efence_net_ingress_monitor(p, ts) matches Ok(Some(MonitorEvent::Udp4(e)))
                && e.src == req.src_ip && e.src_port == req.src_port),
{
}


/// Every IPv4 UDP packet long enough to hold its UDP header goes to the
/// policy, whatever its destination: the request carries the interface it
/// came in on and the source address and port read from the packet.
pub proof fn lemma_udp_packets_go_to_policy(p: Seq<u8>, ifindex: u32)
    requires
        p.len() >= 42,
        p[12] == 0x08,
        p[13] == 0x00,
        p[23] == 17,
    ensures
        spec_try_efence_net_ingress_apply(p, ifindex) matches Ok(Some(req)) && {
            &&& req.ifindex == ifindex
            &&& req.src_ip as int == bytes_be32(p, 26)
            &&& req.src_port as int == bytes_be16(p, 34)
        },
{
    lemma_be_fields(p);
}

/// Only UDP over IPv4 goes to the policy; other frames pass without an
/// error, and an error comes only for a frame shorter than its Ethernet
/// header, or for an IPv4 frame cut short of the headers read
/// (`PacketTooSmall`) or carrying a protocol number network-types does not
/// know (`InvalidProtocol`).
pub proof fn lemma_apply_refuses_only_unreadable_ipv4(p: Seq<u8>, ifindex: u32)
    ensures
        spec_try_efence_net_ingress_apply(p, ifindex) matches Ok(Some(_)) ==> {
            &&& p.len() >= 42
            &&& p[12] == 0x08 && p[13] == 0x00
            &&& p[23] == 17
        },
        p.len() >= 14 && !(p[12] == 0x08 && p[13] == 0x00)
            ==> spec_try_efence_net_ingress_apply(p, ifindex) == Ok::<Option<ApplyRequest>, EfenceErrorCode>(None),
        p.len() >= 34 && p[12] == 0x08 && p[13] == 0x00 && p[23] != 17 && (p[23] <= 144 || p[23] >= 253)
            ==> spec_try_efence_net_ingress_apply(p, ifindex) == Ok::<Option<ApplyRequest>, EfenceErrorCode>(None),
        spec_try_efence_net_ingress_apply(p, ifindex) == Err::<Option<ApplyRequest>, EfenceErrorCode>(EfenceErrorCode::PacketTooSmall)
            ==> p.len() < 14 || (p[12] == 0x08 && p[13] == 0x00 && p.len() < 42),
        spec_try_efence_net_ingress_apply(p, ifindex) == Err::<Option<ApplyRequest>, EfenceErrorCode>(EfenceErrorCode::InvalidProtocol)
            ==> p.len() >= 34 && p[12] == 0x08 && p[13] == 0x00 && 144 < p[23] < 253,
{
}

} // verus!
