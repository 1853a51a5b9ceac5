use std::collections::HashMap;

use efence::packet::{try_efence_net_ingress_monitor, MonitorEvent};

use efence::enforce::{
    action_to_xdp, decide, iface_default_action, try_efence_net_ingress_apply, ApplyRequest,
    ApplyStep, MapAnswer,
};
use efence::shared::{
    EfenceErrorCode, Ipv4Cidr, PrefixPort, ACTION_DROP, ACTION_PASS, PORT_ANY, XDP_DROP, XDP_PASS,
};

#[test]
fn verdict_constants_are_the_kernels() {
    assert_eq!(XDP_PASS, aya_ebpf::bindings::xdp_action::XDP_PASS);
    assert_eq!(XDP_DROP, aya_ebpf::bindings::xdp_action::XDP_DROP);
}

#[test]
fn actions_map_to_verdicts() {
    assert_eq!(action_to_xdp(ACTION_DROP), XDP_DROP);
    assert_eq!(action_to_xdp(ACTION_PASS), XDP_PASS);
    assert_eq!(action_to_xdp(42), XDP_PASS);
}

#[test]
fn default_action_passes_when_missing() {
    assert_eq!(iface_default_action(None), XDP_PASS);
    assert_eq!(iface_default_action(Some(ACTION_DROP)), XDP_DROP);
    assert_eq!(iface_default_action(Some(ACTION_PASS)), XDP_PASS);
}

fn cidr(a: [u8; 4], len: u8) -> Ipv4Cidr {
    Ipv4Cidr { addr: u32::from_be_bytes(a), prefix_len: len }
}

#[test]
fn decide_steps() {
    let p = cidr([10, 0, 0, 0], 8);
    assert_eq!(decide(ApplyStep::LookupIfaceTrie, MapAnswer::Trie(false)), ApplyStep::Verdict(XDP_PASS));
    assert_eq!(decide(ApplyStep::LookupIfaceTrie, MapAnswer::Trie(true)), ApplyStep::LookupPrefix);
    assert_eq!(decide(ApplyStep::LookupPrefix, MapAnswer::Prefix(None)), ApplyStep::LookupIfaceDefault);
    assert_eq!(decide(ApplyStep::LookupPrefix, MapAnswer::Prefix(Some(p))), ApplyStep::LookupExactPort(p));
    assert_eq!(decide(ApplyStep::LookupExactPort(p), MapAnswer::Action(Some(ACTION_DROP))), ApplyStep::Verdict(XDP_DROP));
    assert_eq!(decide(ApplyStep::LookupExactPort(p), MapAnswer::Action(None)), ApplyStep::LookupAnyPort(p));
    assert_eq!(decide(ApplyStep::LookupAnyPort(p), MapAnswer::Action(Some(ACTION_PASS))), ApplyStep::Verdict(XDP_PASS));
    assert_eq!(decide(ApplyStep::LookupAnyPort(p), MapAnswer::Action(None)), ApplyStep::LookupIfaceDefault);
    assert_eq!(decide(ApplyStep::LookupIfaceDefault, MapAnswer::Action(Some(ACTION_DROP))), ApplyStep::Verdict(XDP_DROP));
    assert_eq!(decide(ApplyStep::LookupIfaceDefault, MapAnswer::Action(None)), ApplyStep::Verdict(XDP_PASS));
}

#[test]
fn port_keys() {
    let p = cidr([192, 168, 0, 0], 16);
    let req = ApplyRequest { ifindex: 2, src_ip: 0xC0A8_0101, src_port: 53 };
    assert_eq!(ApplyStep::LookupExactPort(p).port_key(&req), PrefixPort { prefix: p, port: 53 });
    assert_eq!(ApplyStep::LookupAnyPort(p).port_key(&req), PrefixPort { prefix: p, port: PORT_ANY });
}

/// Maps as the kernel would hold them: per interface a list of prefixes
/// (longest match wins), port actions and default actions.
struct Maps {
    tries: HashMap<u32, Vec<Ipv4Cidr>>,
    port_actions: Vec<(PrefixPort, u32)>,
    defaults: HashMap<u32, u32>,
}

impl Maps {
    fn longest_prefix(&self, ifindex: u32, ip: u32) -> Option<Ipv4Cidr> {
        let trie = self.tries.get(&ifindex)?;
        trie.iter()
            .filter(|c| {
                let shift = 32 - c.prefix_len as u32;
                c.prefix_len == 0 || (ip as u64 >> shift) == (c.addr as u64 >> shift)
            })
            .max_by_key(|c| c.prefix_len)
            .copied()
    }

    fn port_action(&self, key: PrefixPort) -> Option<u32> {
        self.port_actions.iter().find(|(k, _)| *k == key).map(|(_, a)| *a)
    }

    /// Runs the steps as the XDP program does, counting the lookups.
    fn verdict(&self, req: ApplyRequest) -> (u32, usize) {
        let mut step = ApplyStep::LookupIfaceTrie;
        let mut lookups = 0;
        loop {
            let answer = match step {
                ApplyStep::Verdict(v) => return (v, lookups),
                ApplyStep::LookupIfaceTrie => MapAnswer::Trie(self.tries.contains_key(&req.ifindex)),
                ApplyStep::LookupPrefix => MapAnswer::Prefix(self.longest_prefix(req.ifindex, req.src_ip)),
                ApplyStep::LookupExactPort(_) | ApplyStep::LookupAnyPort(_) => {
                    MapAnswer::Action(self.port_action(step.port_key(&req)))
                }
                ApplyStep::LookupIfaceDefault => MapAnswer::Action(self.defaults.get(&req.ifindex).copied()),
            };
            lookups += 1;
            step = decide(step, answer);
        }
    }
}

fn sample_maps() -> Maps {
    let net10 = cidr([10, 0, 0, 0], 8);
    let net10_1 = cidr([10, 1, 0, 0], 16);
    Maps {
        tries: HashMap::from([(2, vec![net10, net10_1]), (3, vec![net10])]),
        port_actions: vec![
            (PrefixPort { prefix: net10, port: PORT_ANY }, ACTION_DROP),
            (PrefixPort { prefix: net10_1, port: 53 }, ACTION_PASS),
            (PrefixPort { prefix: net10_1, port: 123 }, ACTION_DROP),
        ],
        defaults: HashMap::from([(2, ACTION_DROP)]),
    }
}

fn req(ifindex: u32, ip: [u8; 4], port: u16) -> ApplyRequest {
    ApplyRequest { ifindex, src_ip: u32::from_be_bytes(ip), src_port: port }
}

#[test]
fn interface_without_policy_passes() {
    assert_eq!(sample_maps().verdict(req(7, [10, 0, 0, 1], 53)), (XDP_PASS, 1));
}

#[test]
fn no_matching_prefix_takes_the_interface_default() {
    let maps = sample_maps();
    assert_eq!(maps.verdict(req(2, [192, 168, 0, 1], 53)), (XDP_DROP, 3));
    // Interface 3 has no default: pass.
    assert_eq!(maps.verdict(req(3, [192, 168, 0, 1], 53)), (XDP_PASS, 3));
}

#[test]
fn exact_port_rule_of_the_longest_prefix_wins() {
    let maps = sample_maps();
    assert_eq!(maps.verdict(req(2, [10, 1, 2, 3], 53)), (XDP_PASS, 3));
    assert_eq!(maps.verdict(req(2, [10, 1, 2, 3], 123)), (XDP_DROP, 3));
}

#[test]
fn any_port_rule_is_the_fallback() {
    let maps = sample_maps();
    assert_eq!(maps.verdict(req(2, [10, 2, 0, 1], 8080)), (XDP_DROP, 4));
}

#[test]
fn longest_prefix_without_port_rule_falls_to_default() {
    let maps = sample_maps();
    // 10.1/16 matches but has neither port 8080 nor an any-port rule.
    assert_eq!(maps.verdict(req(2, [10, 1, 0, 9], 8080)), (XDP_DROP, 5));
    let mut passing = sample_maps();
    passing.defaults.clear();
    assert_eq!(passing.verdict(req(2, [10, 1, 0, 9], 8080)), (XDP_PASS, 5));
}

#[test]
fn verdict_is_always_pass_or_drop() {
    let maps = sample_maps();
    for ifindex in [1, 2, 3] {
        for ip in [[10, 1, 0, 1], [10, 3, 3, 3], [8, 8, 8, 8]] {
            for port in [0, 53, 123, 9999] {
                let (v, n) = maps.verdict(req(ifindex, ip, port));
                assert!(v == XDP_PASS || v == XDP_DROP);
                assert!(n <= 5);
            }
        }
    }
}

fn udp_packet(src: [u8; 4], src_port: u16) -> Vec<u8> {
    let mut p = vec![0u8; 12];
    p.extend_from_slice(&[0x08, 0x00, 0x45, 0, 0, 28, 0, 0, 0, 0, 64, 17, 0, 0]);
    p.extend_from_slice(&src);
    p.extend_from_slice(&[10, 0, 0, 1]);
    p.extend_from_slice(&src_port.to_be_bytes());
    p.extend_from_slice(&[0, 53, 0, 8, 0, 0]);
    p
}

#[test]
fn apply_reads_udp_source() {
    let p = udp_packet([10, 1, 2, 3], 0x1234);
    assert_eq!(
        try_efence_net_ingress_apply(&p, 4),
        Ok(Some(ApplyRequest { ifindex: 4, src_ip: 0x0A01_0203, src_port: 0x1234 }))
    );
}

#[test]
fn apply_lets_other_traffic_pass() {
    let mut p = udp_packet([10, 1, 2, 3], 53);
    p[23] = 6;
    assert_eq!(try_efence_net_ingress_apply(&p, 4), Ok(None));
    let mut arp = udp_packet([10, 1, 2, 3], 53);
    arp[13] = 0x06;
    assert_eq!(try_efence_net_ingress_apply(&arp, 4), Ok(None));
}

#[test]
fn apply_refuses_unreadable_packets() {
    let p = udp_packet([10, 1, 2, 3], 53);
    assert_eq!(try_efence_net_ingress_apply(&p[..41], 4), Err(EfenceErrorCode::PacketTooSmall));
    assert_eq!(try_efence_net_ingress_apply(&p[..20], 4), Err(EfenceErrorCode::PacketTooSmall));
    assert_eq!(try_efence_net_ingress_apply(&p[..5], 4), Err(EfenceErrorCode::PacketTooSmall));
    let mut bad = p.clone();
    bad[23] = 200;
    assert_eq!(try_efence_net_ingress_apply(&bad, 4), Err(EfenceErrorCode::InvalidProtocol));
}

#[test]
fn apply_decides_on_what_the_monitor_reports() {
    let p = udp_packet([10, 7, 7, 7], 6000);
    let req = try_efence_net_ingress_apply(&p, 9).unwrap().unwrap();
    match try_efence_net_ingress_monitor(&p, 1).unwrap().unwrap() {
        MonitorEvent::Udp4(e) => {
            assert_eq!(e.src, req.src_ip);
            assert_eq!(e.src_port, req.src_port);
        }
        other => panic!("unexpected {other:?}"),
    }
    let mut tcp = p.clone();
    tcp[23] = 6;
    assert_eq!(try_efence_net_ingress_apply(&tcp, 9), Ok(None));
}
