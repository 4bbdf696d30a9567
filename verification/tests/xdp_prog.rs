use xdpstats::ctx::Context;
use xdpstats::fib::{do_fib_lookup, fib_lookup_params, FibLookup, AF_INET};
use xdpstats::protocol::Protocol;
use xdpstats::stats::{StatType, StatVal};
use xdpstats::tx::do_tx_swap;
use xdpstats::xdp::{
    do_tx, exit_prog, is_tx, xdp_stats, xdp_stats_drop_simple, xdp_stats_drop_simple_stats,
    xdp_stats_pass_simple, xdp_stats_pass_simple_stats, XdpFeatures, XDP_ABORTED, XDP_DROP,
    XDP_PASS, XDP_REDIRECT, XDP_TX,
};

/// An Ethernet + IPv4 + UDP packet with a valid IPv4 header checksum.
fn udp_packet(dport: u16) -> Vec<u8> {
    let mut p = vec![
        1, 2, 3, 4, 5, 6, 10, 11, 12, 13, 14, 15, 8, 0, // Ethernet
        0x45, 0, 0, 28, 0, 1, 0, 0, 64, 17, 175, 23, 192, 168, 1, 10, 10, 0, 0, 7, // IPv4
        48, 57, 0, 0, 0, 8, 0x12, 0x34, // UDP
    ];
    p[36] = (dport >> 8) as u8;
    p[37] = (dport & 0xff) as u8;
    p
}

fn fresh_stats() -> Vec<StatVal> {
    vec![StatVal { pkt: 0, byt: 0 }; 5]
}

fn no_fib() -> FibLookup {
    FibLookup { ret: -1, smac: [0; 6], dmac: [0; 6] }
}

fn plain() -> XdpFeatures {
    XdpFeatures { afxdp: false, tx: false, tx_fib: false }
}

fn counted(stats: &[StatVal], t: StatType) -> (u64, u64) {
    let s = stats[u32::from(t) as usize];
    (s.pkt, s.byt)
}

#[test]
fn xdp_short_packet_is_bad() {
    let mut p = vec![0u8; 10];
    let mut st = fresh_stats();
    assert_eq!(xdp_stats(&mut p, &plain(), &mut st, 3, 7, &no_fib(), None).action, XDP_ABORTED);
    assert_eq!(counted(&st, StatType::BAD), (1, 10));
}

#[test]
fn xdp_non_ipv4_passes() {
    let mut p = udp_packet(8080);
    p[12] = 0x86;
    p[13] = 0xdd;
    let mut st = fresh_stats();
    assert_eq!(xdp_stats(&mut p, &plain(), &mut st, 3, 7, &no_fib(), None).action, XDP_PASS);
    assert_eq!(counted(&st, StatType::PASS), (1, 42));
}

#[test]
fn xdp_truncated_ip_is_bad() {
    let mut p = udp_packet(8080);
    p.truncate(30);
    let mut st = fresh_stats();
    assert_eq!(xdp_stats(&mut p, &plain(), &mut st, 3, 7, &no_fib(), None).action, XDP_ABORTED);
    assert_eq!(counted(&st, StatType::BAD), (1, 30));
}

#[test]
fn xdp_other_protocol_passes() {
    let mut p = udp_packet(8080);
    p[23] = 6;
    let mut st = fresh_stats();
    assert_eq!(xdp_stats(&mut p, &plain(), &mut st, 3, 7, &no_fib(), None).action, XDP_PASS);
    assert_eq!(counted(&st, StatType::PASS), (1, 42));
}

#[test]
fn xdp_truncated_udp_is_bad() {
    let mut p = udp_packet(8080);
    p.truncate(40);
    let mut st = fresh_stats();
    assert_eq!(xdp_stats(&mut p, &plain(), &mut st, 3, 7, &no_fib(), None).action, XDP_ABORTED);
    assert_eq!(counted(&st, StatType::BAD), (1, 40));
}

#[test]
fn xdp_other_port_passes() {
    let mut p = udp_packet(53);
    let mut st = fresh_stats();
    assert_eq!(xdp_stats(&mut p, &plain(), &mut st, 3, 7, &no_fib(), None).action, XDP_PASS);
    assert_eq!(counted(&st, StatType::PASS), (1, 42));
}

#[test]
fn xdp_match_is_dropped_and_counted() {
    let mut p = udp_packet(8080);
    let before = p.clone();
    let mut st = fresh_stats();
    let v = xdp_stats(&mut p, &plain(), &mut st, 3, 7, &no_fib(), None);
    assert_eq!(v.action, XDP_DROP);
    assert!(v.fib_request.is_none());
    assert_eq!(v.xsk_queue, None);
    assert_eq!(counted(&st, StatType::MATCH), (1, 42));
    assert_eq!(p, before);
    // A second packet adds to the same counter.
    assert_eq!(xdp_stats(&mut p, &plain(), &mut st, 3, 7, &no_fib(), None).action, XDP_DROP);
    assert_eq!(counted(&st, StatType::MATCH), (2, 84));
}

#[test]
fn xdp_match_tx_swaps_and_keeps_checksums() {
    let mut p = udp_packet(8080);
    let mut st = fresh_stats();
    let f = XdpFeatures { afxdp: false, tx: true, tx_fib: false };
    assert_eq!(xdp_stats(&mut p, &f, &mut st, 3, 7, &no_fib(), None).action, XDP_TX);
    assert_eq!(counted(&st, StatType::MATCH), (1, 42));
    let expected: Vec<u8> = vec![
        10, 11, 12, 13, 14, 15, 1, 2, 3, 4, 5, 6, 8, 0, 69, 0, 0, 28, 0, 1, 0, 0, 64, 17, 175,
        23, 10, 0, 0, 7, 192, 168, 1, 10, 31, 144, 48, 57, 0, 8, 18, 52,
    ];
    assert_eq!(p, expected);
}

#[test]
fn xdp_tx_fib_failure_drops() {
    let mut p = udp_packet(8080);
    let before = p.clone();
    let mut st = fresh_stats();
    let f = XdpFeatures { afxdp: false, tx: true, tx_fib: true };
    assert_eq!(xdp_stats(&mut p, &f, &mut st, 3, 7, &no_fib(), None).action, XDP_DROP);
    assert_eq!(counted(&st, StatType::DROP), (1, 42));
    assert_eq!(p, before);
}

#[test]
fn xdp_tx_fib_success_rewrites_macs() {
    let mut p = udp_packet(8080);
    let mut st = fresh_stats();
    let f = XdpFeatures { afxdp: false, tx: true, tx_fib: true };
    let fib = FibLookup { ret: 0, smac: [0xa; 6], dmac: [0xb; 6] };
    let v = xdp_stats(&mut p, &f, &mut st, 3, 7, &fib, None);
    assert_eq!(v.action, XDP_TX);
    let request = v.fib_request.expect("a FIB request");
    assert_eq!(request.family, AF_INET);
    assert_eq!(request.ifindex, 3);
    assert_eq!(request.tot_len, 42);
    assert_eq!(request.dport, 8080);
    assert_eq!(request.smac, [10, 11, 12, 13, 14, 15]);
    assert_eq!(request.dmac, [1, 2, 3, 4, 5, 6]);
    assert_eq!(v.xsk_queue, None);
    assert_eq!(&p[0..6], &[0xb; 6]);
    assert_eq!(&p[6..12], &[0xa; 6]);
    assert_eq!(&p[12..], &udp_packet(8080)[12..]);
    assert_eq!(counted(&st, StatType::MATCH), (1, 42));
}

#[test]
fn xdp_afxdp_redirect_is_not_counted() {
    let mut p = udp_packet(8080);
    let mut st = fresh_stats();
    let f = XdpFeatures { afxdp: true, tx: false, tx_fib: false };
    let v = xdp_stats(&mut p, &f, &mut st, 3, 7, &no_fib(), Some(XDP_REDIRECT));
    assert_eq!(v.action, XDP_REDIRECT);
    assert_eq!(v.xsk_queue, Some(7));
    assert!(v.fib_request.is_none());
    assert_eq!(st, fresh_stats());
}

#[test]
fn xdp_afxdp_redirect_failure_is_error() {
    let mut p = udp_packet(8080);
    let mut st = fresh_stats();
    let f = XdpFeatures { afxdp: true, tx: false, tx_fib: false };
    assert_eq!(xdp_stats(&mut p, &f, &mut st, 3, 7, &no_fib(), None).action, XDP_DROP);
    assert_eq!(counted(&st, StatType::ERROR), (1, 42));
}

#[test]
fn xdp_afxdp_tx_fib_failure_drops() {
    let mut p = udp_packet(8080);
    let mut st = fresh_stats();
    let f = XdpFeatures { afxdp: true, tx: true, tx_fib: true };
    let v = xdp_stats(&mut p, &f, &mut st, 3, 7, &no_fib(), Some(XDP_REDIRECT));
    assert_eq!(v.action, XDP_DROP);
    assert_eq!(v.xsk_queue, None);
    assert_eq!(v.fib_request.map(|r| r.ifindex), Some(3));
    assert_eq!(counted(&st, StatType::DROP), (1, 42));
}

#[test]
fn simple_programs() {
    let p = udp_packet(8080);
    let mut st = fresh_stats();
    assert_eq!(xdp_stats_pass_simple(&p), XDP_PASS);
    assert_eq!(xdp_stats_drop_simple(&p), XDP_DROP);
    assert_eq!(xdp_stats_pass_simple_stats(&p, &mut st), XDP_PASS);
    assert_eq!(xdp_stats_drop_simple_stats(&p, &mut st), XDP_DROP);
    assert_eq!(counted(&st, StatType::PASS), (1, 42));
    assert_eq!(counted(&st, StatType::DROP), (1, 42));
}

#[test]
fn packet_length_is_kept_in_16_bits() {
    let p = vec![0u8; 70000];
    let mut st = fresh_stats();
    xdp_stats_pass_simple_stats(&p, &mut st);
    assert_eq!(counted(&st, StatType::PASS), (1, 70000 - 65536));
}

#[test]
fn exit_prog_counts_and_returns() {
    let mut st = fresh_stats();
    assert_eq!(exit_prog(&mut st, 100, StatType::ERROR, XDP_ABORTED), XDP_ABORTED);
    assert_eq!(counted(&st, StatType::ERROR), (1, 100));
    // STATCNT is not a slot of the map: nothing is counted.
    assert_eq!(exit_prog(&mut st, 100, StatType::STATCNT, XDP_PASS), XDP_PASS);
    assert_eq!(st.iter().map(|s| s.pkt).sum::<u64>(), 1);
}

#[test]
fn is_tx_follows_feature() {
    assert_eq!(is_tx(&XdpFeatures { afxdp: false, tx: true, tx_fib: false }), 1);
    assert_eq!(is_tx(&plain()), 0);
}

#[test]
fn do_tx_twice_restores_packet() {
    let orig = udp_packet(8080);
    let mut p = orig.clone();
    let ctx = Context { eth: 0, iph: 14, proto: Protocol::Udp(34) };
    let (code, request) = do_tx(&ctx, &mut p, 42, 3, &plain(), &no_fib());
    assert_eq!(code, 0);
    assert!(request.is_none());
    assert_ne!(p, orig);
    assert_eq!(do_tx_swap(&ctx, &mut p), 0);
    assert_eq!(p, orig);
}

#[test]
fn do_tx_recomputes_ip_checksum() {
    let mut p = udp_packet(8080);
    p[24] = 0;
    p[25] = 0;
    let ctx = Context { eth: 0, iph: 14, proto: Protocol::Udp(34) };
    do_tx_swap(&ctx, &mut p);
    assert_eq!((p[24], p[25]), (175, 23));
}

#[test]
fn fib_params_and_lookup() {
    let mut p = udp_packet(8080);
    let ctx = Context { eth: 0, iph: 14, proto: Protocol::Udp(34) };
    let params = fib_lookup_params(&ctx, &p, 42, 3);
    assert_eq!(params.family, AF_INET);
    assert_eq!(params.l4_protocol, 17);
    assert_eq!(params.sport, 12345);
    assert_eq!(params.dport, 8080);
    assert_eq!(params.ifindex, 3);
    assert_eq!(params.smac, [10, 11, 12, 13, 14, 15]);
    assert_eq!(params.dmac, [1, 2, 3, 4, 5, 6]);
    assert_eq!(params.tot_len, 42);
    assert_eq!(params.ipv4_src, 0xC0A8_010A);
    assert_eq!(params.ipv4_dst, 0x0A00_0007);
    assert_eq!(params.tbid, 0);
    let before = p.clone();
    let (verdict, request) = do_fib_lookup(&ctx, &mut p, 42, 3, &no_fib());
    assert_eq!(verdict, XDP_DROP);
    assert_eq!(request.ifindex, params.ifindex);
    assert_eq!(request.tot_len, params.tot_len);
    assert_eq!(request.sport, params.sport);
    assert_eq!(request.dport, params.dport);
    assert_eq!(request.smac, params.smac);
    assert_eq!(request.dmac, params.dmac);
    assert_eq!(request.ipv4_src, params.ipv4_src);
    assert_eq!(request.ipv4_dst, params.ipv4_dst);
    assert_eq!(p, before);
}
