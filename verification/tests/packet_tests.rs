use efence::packet::{
    ptr_at, try_efence_ebpf, try_efence_net_ingress_monitor, MonitorEvent,
};
use efence::shared::{EfenceErrorCode, Tcp4EventRaw, Udp4Event, Udp4EventRaw};

const ETHERTYPE_IPV4: [u8; 2] = [0x08, 0x00];
const ETHERTYPE_ARP: [u8; 2] = [0x08, 0x06];

fn ethernet(ether_type: [u8; 2]) -> Vec<u8> {
    let mut p = vec![0x11, 0x22, 0x33, 0x44, 0x55, 0x66, 0xaa, 0xbb, 0xcc, 0xdd, 0xee, 0xff];
    p.extend_from_slice(&ether_type);
    p
}

fn ipv4(p: &mut Vec<u8>, vihl: u8, tot_len: u16, proto: u8, src: [u8; 4], dst: [u8; 4]) {
    p.push(vihl);
    p.push(0);
    p.extend_from_slice(&tot_len.to_be_bytes());
    p.extend_from_slice(&[0x12, 0x34, 0x40, 0x00, 64, proto, 0xbe, 0xef]);
    p.extend_from_slice(&src);
    p.extend_from_slice(&dst);
}

fn udp_packet(src: [u8; 4], dst: [u8; 4], src_port: u16, dst_port: u16) -> Vec<u8> {
    let mut p = ethernet(ETHERTYPE_IPV4);
    ipv4(&mut p, 0x45, 20 + 8 + 4, 17, src, dst);
    p.extend_from_slice(&src_port.to_be_bytes());
    p.extend_from_slice(&dst_port.to_be_bytes());
    p.extend_from_slice(&[0, 12, 0, 0]);
    p.extend_from_slice(b"ping");
    p
}

fn tcp_packet(doff: u8, flags: u8, payload: &[u8]) -> Vec<u8> {
    let mut p = ethernet(ETHERTYPE_IPV4);
    let tcp_len = doff as u16 * 4;
    ipv4(&mut p, 0x45, 20 + tcp_len + payload.len() as u16, 6, [10, 1, 2, 3], [10, 9, 8, 7]);
    p.extend_from_slice(&40000u16.to_be_bytes());
    p.extend_from_slice(&443u16.to_be_bytes());
    p.extend_from_slice(&[0, 0, 0, 1, 0, 0, 0, 2]);
    p.push(doff << 4);
    p.push(flags);
    p.extend_from_slice(&[0xff, 0xff, 0, 0, 0, 0]);
    for _ in 20..tcp_len {
        p.push(1);
    }
    p.extend_from_slice(payload);
    p
}

const TCP_ACK: u8 = 0x10;
const TCP_SYN: u8 = 0x02;

#[test]
fn ptr_at_checks_the_header_fits() {
    let p = [0u8; 34];
    assert_eq!(ptr_at(&p, 14, 20), Ok(14));
    assert_eq!(ptr_at(&p, 34, 0), Ok(34));
    assert_eq!(ptr_at(&p, 14, 21), Err(EfenceErrorCode::PacketTooSmall));
}

#[test]
fn plain_monitor_reports_udp() {
    let p = udp_packet([192, 168, 1, 10], [10, 0, 0, 1], 5353, 53);
    assert_eq!(
        try_efence_ebpf(&p),
        Ok(Some(Udp4Event { src: 0xC0A8_010A, dst: 0x0A00_0001, src_port: 5353, dst_port: 53, _pad: 0 }))
    );
}

#[test]
fn plain_monitor_reads_ports_big_endian() {
    // Ports whose two bytes differ tell a byte swap from a correct read.
    let p = udp_packet([1, 2, 3, 4], [5, 6, 7, 8], 0x1234, 0xabcd);
    let e = try_efence_ebpf(&p).unwrap().unwrap();
    assert_eq!(e.src_port, 0x1234);
    assert_eq!(e.dst_port, 0xabcd);
    assert_eq!(e.src, 0x0102_0304);
    assert_eq!(e.dst, 0x0506_0708);
}

#[test]
fn plain_monitor_ignores_other_ethertypes() {
    let mut p = ethernet(ETHERTYPE_ARP);
    assert_eq!(try_efence_ebpf(&p), Ok(None));
    p.extend_from_slice(&[0u8; 40]);
    assert_eq!(try_efence_ebpf(&p), Ok(None));
}

#[test]
fn plain_monitor_ignores_tcp() {
    let p = tcp_packet(5, TCP_ACK, &[]);
    assert_eq!(try_efence_ebpf(&p), Ok(None));
}

#[test]
fn plain_monitor_refuses_short_packets() {
    assert_eq!(try_efence_ebpf(&[0u8; 13]), Err(EfenceErrorCode::PacketTooSmall));
    let mut p = ethernet(ETHERTYPE_IPV4);
    p.extend_from_slice(&[0x45; 19]);
    assert_eq!(try_efence_ebpf(&p), Err(EfenceErrorCode::PacketTooSmall));
    let udp = udp_packet([1, 1, 1, 1], [2, 2, 2, 2], 1, 2);
    assert_eq!(try_efence_ebpf(&udp[..41]), Err(EfenceErrorCode::PacketTooSmall));
    assert!(try_efence_ebpf(&udp[..42]).unwrap().is_some());
}

#[test]
fn plain_monitor_refuses_unknown_protocols() {
    for proto in [145u8, 200, 252] {
        let mut p = ethernet(ETHERTYPE_IPV4);
        ipv4(&mut p, 0x45, 20, proto, [1, 1, 1, 1], [2, 2, 2, 2]);
        assert_eq!(try_efence_ebpf(&p), Err(EfenceErrorCode::InvalidProtocol), "proto {proto}");
    }
    for proto in [0u8, 1, 144, 253, 255] {
        let mut p = ethernet(ETHERTYPE_IPV4);
        ipv4(&mut p, 0x45, 20, proto, [1, 1, 1, 1], [2, 2, 2, 2]);
        assert_eq!(try_efence_ebpf(&p), Ok(None), "proto {proto}");
    }
}

#[test]
fn ingress_monitor_reports_udp_with_time() {
    let p = udp_packet([192, 168, 1, 10], [10, 0, 0, 1], 5353, 53);
    assert_eq!(
        try_efence_net_ingress_monitor(&p, 123_456_789),
        Ok(Some(MonitorEvent::Udp4(Udp4EventRaw {
            src: 0xC0A8_010A,
            dst: 0x0A00_0001,
            src_port: 5353,
            dst_port: 53,
            timestamp: 123_456_789,
        })))
    );
}

#[test]
fn ingress_monitor_reports_handshake_ack() {
    let p = tcp_packet(5, TCP_ACK, &[]);
    assert_eq!(
        try_efence_net_ingress_monitor(&p, 7),
        Ok(Some(MonitorEvent::Tcp4(Tcp4EventRaw {
            src: 0x0A01_0203,
            dst: 0x0A09_0807,
            src_port: 40000,
            dst_port: 443,
            timestamp: 7,
        })))
    );
}

#[test]
fn ingress_monitor_counts_tcp_options_in_the_header_length() {
    let p = tcp_packet(8, TCP_ACK, &[]);
    assert!(matches!(try_efence_net_ingress_monitor(&p, 0), Ok(Some(MonitorEvent::Tcp4(_)))));
}

#[test]
fn ingress_monitor_counts_ip_options_in_the_header_length() {
    // IHL 6: the total length must count a 24-byte IPv4 header.
    let mut p = tcp_packet(5, TCP_ACK, &[]);
    p[14] = 0x46;
    p[16..18].copy_from_slice(&44u16.to_be_bytes());
    assert!(matches!(try_efence_net_ingress_monitor(&p, 0), Ok(Some(MonitorEvent::Tcp4(_)))));
    p[16..18].copy_from_slice(&40u16.to_be_bytes());
    assert_eq!(try_efence_net_ingress_monitor(&p, 0), Ok(None));
}

#[test]
fn ingress_monitor_ignores_other_tcp_segments() {
    let data = tcp_packet(5, TCP_ACK | 0x08, b"GET /");
    assert_eq!(try_efence_net_ingress_monitor(&data, 0), Ok(None));
    let syn = tcp_packet(5, TCP_SYN, &[]);
    assert_eq!(try_efence_net_ingress_monitor(&syn, 0), Ok(None));
    let syn_ack = tcp_packet(5, TCP_SYN | TCP_ACK, &[]);
    assert_eq!(try_efence_net_ingress_monitor(&syn_ack, 0), Ok(None));
    let rst = tcp_packet(5, 0x04, &[]);
    assert_eq!(try_efence_net_ingress_monitor(&rst, 0), Ok(None));
}

#[test]
fn ingress_monitor_ignores_connection_teardown() {
    let fin_ack = tcp_packet(5, 0x01 | TCP_ACK, &[]);
    assert_eq!(fin_ack[47], 0x11);
    assert_eq!(try_efence_net_ingress_monitor(&fin_ack, 0), Ok(None));
    let rst_ack = tcp_packet(5, 0x04 | TCP_ACK, &[]);
    assert_eq!(try_efence_net_ingress_monitor(&rst_ack, 0), Ok(None));
    // A connection-closing FIN|ACK from 10.0.0.1:12345 to 10.0.0.2:80 with no
    // payload gives no event; the same segment with only ACK set gives one.
    let mut p = vec![0u8; 12];
    p.extend_from_slice(&[0x08, 0x00]);
    p.extend_from_slice(&[0x45, 0, 0, 40, 0, 0, 0, 0, 64, 6, 0, 0, 10, 0, 0, 1, 10, 0, 0, 2]);
    p.extend_from_slice(&[0x30, 0x39, 0, 80, 0, 0, 0, 0, 0, 0, 0, 0, 0x50, 0x11, 0, 0, 0, 0, 0, 0]);
    assert_eq!(try_efence_net_ingress_monitor(&p, 0), Ok(None));
    p[47] = 0x10;
    assert!(matches!(try_efence_net_ingress_monitor(&p, 0), Ok(Some(MonitorEvent::Tcp4(_)))));
}

#[test]
fn ingress_monitor_refuses_truncated_tcp() {
    let p = tcp_packet(5, TCP_ACK, &[]);
    assert_eq!(try_efence_net_ingress_monitor(&p[..53], 0), Err(EfenceErrorCode::PacketTooSmall));
}

#[test]
fn ingress_monitor_refuses_unknown_protocols_and_short_frames() {
    let mut p = ethernet(ETHERTYPE_IPV4);
    ipv4(&mut p, 0x45, 20, 150, [1, 1, 1, 1], [2, 2, 2, 2]);
    assert_eq!(try_efence_net_ingress_monitor(&p, 0), Err(EfenceErrorCode::InvalidProtocol));
    assert_eq!(try_efence_net_ingress_monitor(&p[..10], 0), Err(EfenceErrorCode::PacketTooSmall));
    assert_eq!(try_efence_net_ingress_monitor(&ethernet(ETHERTYPE_ARP), 0), Ok(None));
    let mut icmp = ethernet(ETHERTYPE_IPV4);
    ipv4(&mut icmp, 0x45, 20, 1, [1, 1, 1, 1], [2, 2, 2, 2]);
    assert_eq!(try_efence_net_ingress_monitor(&icmp, 0), Ok(None));
}

#[test]
fn both_monitors_agree_on_udp() {
    let p = udp_packet([172, 16, 0, 1], [172, 16, 0, 2], 4000, 5000);
    let plain = try_efence_ebpf(&p).unwrap().unwrap();
    match try_efence_net_ingress_monitor(&p, 99).unwrap().unwrap() {
        MonitorEvent::Udp4(raw) => {
            assert_eq!((raw.src, raw.dst, raw.src_port, raw.dst_port), (plain.src, plain.dst, plain.src_port, plain.dst_port));
            assert_eq!(raw.timestamp, 99);
        }
        other => panic!("unexpected {other:?}"),
    }
}

#[test]
fn panic_handler_gives_no_verdict() {
    assert_eq!(efence::packet::panic(), None);
}
