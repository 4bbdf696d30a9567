//! The XDP program: parse a packet, decide its fate and count it.
use vstd::prelude::*;

use crate::config::{TARGET_PORT, TARGET_PROTOCOL};
use crate::ctx::Context;
use crate::fib::{
    do_fib_lookup, fib_rewritten, is_fib_request, FibLookup, FibParams, BPF_FIB_LKUP_RET_SUCCESS,
};
use crate::protocol::Protocol;
use crate::stats::{bumped, inc_stats, stat_key, stats_after, StatType, StatVal};
use crate::tx::{do_tx_swap, tx_rewritten};
use crate::wire::{
    truncate_u16, widen_u16, ETH_HDR_LEN, ETH_TYPE_IPV4_HI, ETH_TYPE_IPV4_LO, ETH_TYPE_OFF,
    ICMP_HDR_LEN, IPPROTO_ICMP, IPPROTO_TCP, IPPROTO_UDP, IPV4_HDR_LEN, IPV4_PROTO_OFF,
    TCP_HDR_LEN, UDP_HDR_LEN,
};

verus! {

/// XDP verdicts.
pub const XDP_ABORTED: u32 = 0;
pub const XDP_DROP: u32 = 1;
pub const XDP_PASS: u32 = 2;
pub const XDP_TX: u32 = 3;
pub const XDP_REDIRECT: u32 = 4;

/// The program's build options: forward matched packets to AF_XDP sockets,
/// send matched packets back out (`tx`), and route them through a FIB lookup
/// instead of swapping addresses (`tx_fib`).
#[derive(Clone, Copy, Debug, PartialEq, Eq, Structural)]
pub struct XdpFeatures {
    pub afxdp: bool,
    pub tx: bool,
    pub tx_fib: bool,
}

/// Whether matched packets are sent back out: 1 when `tx` is on, else 0.
pub fn is_tx(features: &XdpFeatures) -> (r: u8)
    ensures
        r == (if features.tx { 1u8 } else { 0u8 }),
{
    if features.tx {
        1
    } else {
        0
    }
}

/// Counts the packet under `stats_type` and returns the verdict `ret`.
pub fn exit_prog(stats: &mut [StatVal], pkt_len: u16, stats_type: StatType, ret: u32) -> (r: u32)
    ensures
        r == ret,
        final(stats)@ == stats_after(old(stats)@, stats_type, pkt_len as u64),
{
    inc_stats(stats, stats_type, widen_u16(pkt_len));
    ret
}

/// Passes every packet.
pub fn xdp_stats_pass_simple(_pkt: &[u8]) -> (r: u32)
    ensures
        r == XDP_PASS,
{
    XDP_PASS
}

/// Drops every packet.
pub fn xdp_stats_drop_simple(_pkt: &[u8]) -> (r: u32)
    ensures
        r == XDP_DROP,
{
    XDP_DROP
}

/// Passes every packet, counting it as passed.
pub fn xdp_stats_pass_simple_stats(pkt: &[u8], stats: &mut [StatVal]) -> (r: u32)
    ensures
        r == XDP_PASS,
        final(stats)@ == stats_after(old(stats)@, StatType::PASS, (pkt@.len() % 0x10000) as u64),
{
    let pkt_len = truncate_u16(pkt.len());
    inc_stats(stats, StatType::PASS, widen_u16(pkt_len));
    XDP_PASS
}

/// Drops every packet, counting it as dropped.
pub fn xdp_stats_drop_simple_stats(pkt: &[u8], stats: &mut [StatVal]) -> (r: u32)
    ensures
        r == XDP_DROP,
        final(stats)@ == stats_after(old(stats)@, StatType::DROP, (pkt@.len() % 0x10000) as u64),
{
    let pkt_len = truncate_u16(pkt.len());
    inc_stats(stats, StatType::DROP, widen_u16(pkt_len));
    XDP_DROP
}


/// The return code of the transmit-back step and the packet it leaves: a FIB
/// lookup when `tx_fib` is on (1 when the lookup fails), otherwise the
/// address and port swap.
pub open spec fn tx_outcome(p: Seq<u8>, ctx: Context, features: XdpFeatures, fib: FibLookup) -> (
    u8,
    Seq<u8>,
) {
    if features.tx_fib {
        if fib.ret == BPF_FIB_LKUP_RET_SUCCESS {
            (0, fib_rewritten(p, ctx.eth as int, fib))
        } else {
            (1, p)
        }
    } else {
        (0, tx_rewritten(p, ctx))
    }
}

/// Rewrites a matched packet of `pkt_len` bytes, received on interface
/// `ifindex`, so that it is sent back out. With `tx_fib` the MAC addresses
/// come from the FIB lookup's outcome `fib`, a failed lookup gives 1, and the
/// request handed to the lookup is returned beside the code; otherwise
/// addresses and ports are swapped and no lookup is made. The code is 0 when
/// the packet is ready to go out.
pub fn do_tx(
    ctx: &Context,
    pkt: &mut [u8],
    pkt_len: u16,
    ifindex: u32,
    features: &XdpFeatures,
    fib: &FibLookup,
) -> (r: (u8, Option<FibParams>))
    requires
        ctx.wf(old(pkt).len()),
    ensures
        (r.0, final(pkt)@) == tx_outcome(old(pkt)@, *ctx, *features, *fib),
        r.1 is Some == features.tx_fib,
        r.1 matches Some(q) ==> is_fib_request(q, old(pkt)@, *ctx, pkt_len, ifindex),
{
    if features.tx_fib {
        let (verdict, request) = do_fib_lookup(ctx, pkt, pkt_len, ifindex, fib);
        if verdict == XDP_TX {
            (0, Some(request))
        } else {
            (1, Some(request))
        }
    } else {
        (do_tx_swap(ctx, pkt), None)
    }
}

/// The verdict of the XDP program for a packet, with the requests it hands
/// to the kernel's helpers: the FIB lookup request (when it routes the
/// packet) and the receive queue whose AF_XDP socket it redirects to.
#[derive(Clone, Copy, Debug)]
pub struct XdpVerdict {
    pub action: u32,
    pub fib_request: Option<FibParams>,
    pub xsk_queue: Option<u32>,
}

/// A verdict that hands nothing to the kernel's helpers.
fn plain_verdict(action: u32) -> (r: XdpVerdict)
    ensures
        r.action == action,
        r.fib_request is None,
        r.xsk_queue is None,
{
    XdpVerdict { action, fib_request: None, xsk_queue: None }
}

/// What parsing makes of a packet: malformed, not for this program, or
/// matched with its parsed headers.
pub enum ParseOutcome {
    Bad,
    Pass,
    Matched(Context),
}

/// The transport header of a matched protocol lies after the Ethernet and
/// IPv4 headers.
pub open spec fn l4_off() -> usize {
    (ETH_HDR_LEN + IPV4_HDR_LEN) as usize
}

/// Applies the destination-port filter to a parsed packet.
pub open spec fn port_filter(p: Seq<u8>, proto: Protocol) -> ParseOutcome {
    match proto.dst_port(p) {
        Some(port) => if TARGET_PORT != 0 && port != TARGET_PORT {
            ParseOutcome::Pass
        } else {
            ParseOutcome::Matched(Context { eth: 0, iph: ETH_HDR_LEN, proto })
        },
        None => ParseOutcome::Matched(Context { eth: 0, iph: ETH_HDR_LEN, proto }),
    }
}

/// How the program parses a packet: too short for a header it needs is
/// malformed; not IPv4, or not the target protocol, or not the target port
/// is for the kernel's network stack.
pub open spec fn parse_packet(p: Seq<u8>) -> ParseOutcome {
    if p.len() < ETH_HDR_LEN {
        ParseOutcome::Bad
    } else if !(p[ETH_TYPE_OFF as int] == ETH_TYPE_IPV4_HI && p[ETH_TYPE_OFF + 1] == ETH_TYPE_IPV4_LO) {
        ParseOutcome::Pass
    } else if p.len() < ETH_HDR_LEN + IPV4_HDR_LEN {
        ParseOutcome::Bad
    } else if p[ETH_HDR_LEN + IPV4_PROTO_OFF] != TARGET_PROTOCOL {
        ParseOutcome::Pass
    } else {
        let proto = p[ETH_HDR_LEN + IPV4_PROTO_OFF];
        if proto == IPPROTO_TCP {
            if p.len() < l4_off() + TCP_HDR_LEN {
                ParseOutcome::Bad
            } else {
                port_filter(p, Protocol::Tcp(l4_off()))
            }
        } else if proto == IPPROTO_UDP {
            if p.len() < l4_off() + UDP_HDR_LEN {
                ParseOutcome::Bad
            } else {
                port_filter(p, Protocol::Udp(l4_off()))
            }
        } else if proto == IPPROTO_ICMP {
            if p.len() < l4_off() + ICMP_HDR_LEN {
                ParseOutcome::Bad
            } else {
                port_filter(p, Protocol::new_spec(proto, l4_off()))
            }
        } else {
            ParseOutcome::Pass
        }
    }
}

/// The verdict, the statistic counted (none when the packet is handed to an
/// AF_XDP socket) and the packet left, for packet `p` under `features`, where
/// `fib` is the outcome of the FIB lookup and `xsk_redirect` that of the
/// redirect to the AF_XDP socket of the packet's receive queue (`None` when
/// the redirect fails).
pub open spec fn xdp_outcome(
    p: Seq<u8>,
    features: XdpFeatures,
    fib: FibLookup,
    xsk_redirect: Option<u32>,
) -> (u32, Option<StatType>, Seq<u8>) {
    match parse_packet(p) {
        ParseOutcome::Bad => (XDP_ABORTED, Some(StatType::BAD), p),
        ParseOutcome::Pass => (XDP_PASS, Some(StatType::PASS), p),
        ParseOutcome::Matched(ctx) => {
            let (tx_ret, tx_pkt) = tx_outcome(p, ctx, features, fib);
            if features.afxdp {
                if features.tx && tx_ret != 0 {
                    (XDP_DROP, Some(StatType::DROP), tx_pkt)
                } else {
                    let q = if features.tx {
                        tx_pkt
                    } else {
                        p
                    };
                    match xsk_redirect {
                        Some(ret) => (ret, None, q),
                        None => (XDP_DROP, Some(StatType::ERROR), q),
                    }
                }
            } else if features.tx {
                if tx_ret != 0 {
                    (XDP_DROP, Some(StatType::DROP), tx_pkt)
                } else {
                    (XDP_TX, Some(StatType::MATCH), tx_pkt)
                }
            } else {
                (XDP_DROP, Some(StatType::MATCH), p)
            }
        },
    }
}

/// The statistics map after `stat` (if any) was counted for a packet of
/// `len` bytes, whose length the program keeps in 16 bits.
pub open spec fn counted_for(map: Seq<StatVal>, stat: Option<StatType>, len: nat) -> Seq<StatVal> {
    match stat {
        Some(t) => stats_after(map, t, (len % 0x10000) as u64),
        None => map,
    }
}

/// Whether the program asks the FIB for a route for packet `p`: a matched
/// packet sent back out with `tx_fib`.
pub open spec fn fib_asked(p: Seq<u8>, features: XdpFeatures) -> bool {
    parse_packet(p) is Matched && features.tx && features.tx_fib
}

/// The receive queue whose AF_XDP socket the program redirects packet `p`
/// to, when it does: a matched packet with `afxdp`, once any send-back
/// rewrite succeeded.
pub open spec fn xsk_queue_for(
    p: Seq<u8>,
    features: XdpFeatures,
    fib: FibLookup,
    rx_queue: u32,
) -> Option<u32> {
    match parse_packet(p) {
        ParseOutcome::Matched(ctx) => if features.afxdp && !(features.tx && tx_outcome(
            p,
            ctx,
            features,
            fib,
        ).0 != 0) {
            Some(rx_queue)
        } else {
            None
        },
        _ => None,
    }
}

/// The number of slots of the statistics map: one per counted kind.
pub const STATS_MAP_SLOTS: usize = 5;

/// The main XDP program, for a packet received on interface `ifindex` and
/// receive queue `rx_queue`, counting into the current CPU's slots of the
/// statistics map. Malformed packets are aborted and counted as bad; packets
/// that are not IPv4, not of the target protocol or not for the target port
/// go to the network stack and are counted as passed. Matched packets are
/// redirected to an AF_XDP socket, sent back out, or dropped and counted as
/// matched, depending on `features`. `fib` is the outcome of the FIB lookup
/// for the returned request and `xsk_redirect` that of the redirect to the
/// returned queue (`None` when it fails).
pub fn xdp_stats(
    pkt: &mut [u8],
    features: &XdpFeatures,
    stats: &mut [StatVal],
    ifindex: u32,
    rx_queue: u32,
    fib: &FibLookup,
    xsk_redirect: Option<u32>,
) -> (r: XdpVerdict)
    requires
        old(stats)@.len() == STATS_MAP_SLOTS,
    ensures
        ({
            let (action, stat, p) = xdp_outcome(old(pkt)@, *features, *fib, xsk_redirect);
            &&& r.action == action
            &&& final(pkt)@ == p
            &&& final(stats)@ == counted_for(old(stats)@, stat, old(pkt)@.len())
        }),
        r.fib_request is Some == fib_asked(old(pkt)@, *features),
        r.fib_request matches Some(q) ==> parse_packet(old(pkt)@) matches ParseOutcome::Matched(
            ctx,
        ) && is_fib_request(q, old(pkt)@, ctx, (old(pkt)@.len() % 0x10000) as u16, ifindex),
        r.xsk_queue == xsk_queue_for(old(pkt)@, *features, *fib, rx_queue),
        // The same decisions, read off the packet's bytes: Ethernet header
        // (14 bytes, EtherType at 12), IPv4 header without options (20 bytes,
        // protocol at byte 23 of the packet), then a UDP (17, 8 bytes), TCP
        // (6, 20 bytes) or ICMP (1, 8 bytes) header; TCP and UDP carry the
        // destination port at bytes 36..38. Counter slots: 0 passed, 1
        // dropped, 2 bad, 3 matched, 4 error.
        ({
            let p = old(pkt)@;
            let m = old(stats)@;
            let len = (p.len() % 0x10000) as u64;
            let bumped_at = |s: int|
                m.update(
                    s,
                    StatVal { pkt: m[s].pkt.wrapping_add(1), byt: m[s].byt.wrapping_add(len) },
                );
            let ipv4 = p.len() >= 14 && p[12] == 0x08 && p[13] == 0x00;
            let proto = p[23];
            let known = proto == 17 || proto == 6 || proto == 1;
            let short = (proto == 17 && p.len() < 42) || (proto == 6 && p.len() < 54) || (proto
                == 1 && p.len() < 42);
            let has_ports = proto == 17 || proto == 6;
            let dport = p[36] * 0x100 + p[37];
            let port_ok = !has_ports || TARGET_PORT == 0 || dport == TARGET_PORT;
            let candidate = ipv4 && p.len() >= 34 && proto == TARGET_PROTOCOL && known && !short;
            let matched = candidate && port_ok;
            let passed = r.action == XDP_PASS && final(stats)@ == bumped_at(0) && final(pkt)@
                == p && r.fib_request is None && r.xsk_queue is None;
            let bad = r.action == XDP_ABORTED && final(stats)@ == bumped_at(2) && final(pkt)@
                == p && r.fib_request is None && r.xsk_queue is None;
            &&& p.len() < 14 ==> bad
            &&& p.len() >= 14 && !ipv4 ==> passed
            &&& ipv4 && p.len() < 34 ==> bad
            &&& ipv4 && p.len() >= 34 && proto != TARGET_PROTOCOL ==> passed
            &&& ipv4 && p.len() >= 34 && proto == TARGET_PROTOCOL && !known ==> passed
            &&& ipv4 && p.len() >= 34 && proto == TARGET_PROTOCOL && known && short ==> bad
            &&& candidate && !port_ok ==> passed
            &&& matched ==> final(stats)@[0] == m[0] && final(stats)@[2] == m[2]
            &&& matched && !features.afxdp ==> r.action == XDP_DROP || r.action == XDP_TX
            &&& matched && !features.afxdp && !features.tx ==> r.action == XDP_DROP
                && final(stats)@ == bumped_at(3) && final(pkt)@ == p
            &&& matched && !features.afxdp && features.tx && !features.tx_fib ==> r.action
                == XDP_TX && final(stats)@ == bumped_at(3)
            &&& matched && features.afxdp && !features.tx ==> final(pkt)@ == p && r.xsk_queue
                == Some(rx_queue) && (xsk_redirect matches Some(ret) ==> r.action == ret
                && final(stats)@ == m) && (xsk_redirect is None ==> r.action == XDP_DROP
                && final(stats)@ == bumped_at(4))
        }),
{
    // The packet length, as the program keeps it.
    let pkt_len = truncate_u16(pkt.len());
    // Ethernet header.
    if pkt.len() < ETH_HDR_LEN {
        return plain_verdict(exit_prog(stats, pkt_len, StatType::BAD, XDP_ABORTED));
    }
    // Anything but IPv4 goes to the network stack.
    if !(pkt[ETH_TYPE_OFF] == ETH_TYPE_IPV4_HI && pkt[ETH_TYPE_OFF + 1] == ETH_TYPE_IPV4_LO) {
        return plain_verdict(exit_prog(stats, pkt_len, StatType::PASS, XDP_PASS));
    }
    // IPv4 header.
    if pkt.len() < ETH_HDR_LEN + IPV4_HDR_LEN {
        return plain_verdict(exit_prog(stats, pkt_len, StatType::BAD, XDP_ABORTED));
    }
    let proto = pkt[ETH_HDR_LEN + IPV4_PROTO_OFF];
    if proto != TARGET_PROTOCOL {
        return plain_verdict(exit_prog(stats, pkt_len, StatType::PASS, XDP_PASS));
    }
    // Transport header.
    let l4 = ETH_HDR_LEN + IPV4_HDR_LEN;
    if proto == IPPROTO_TCP {
        if pkt.len() < l4 + TCP_HDR_LEN {
            return plain_verdict(exit_prog(stats, pkt_len, StatType::BAD, XDP_ABORTED));
        }
    } else if proto == IPPROTO_UDP {
        if pkt.len() < l4 + UDP_HDR_LEN {
            return plain_verdict(exit_prog(stats, pkt_len, StatType::BAD, XDP_ABORTED));
        }
    } else if proto == IPPROTO_ICMP {
        if pkt.len() < l4 + ICMP_HDR_LEN {
            return plain_verdict(exit_prog(stats, pkt_len, StatType::BAD, XDP_ABORTED));
        }
    } else {
        return plain_verdict(exit_prog(stats, pkt_len, StatType::PASS, XDP_PASS));
    }
    let ctx = Context { eth: 0, iph: ETH_HDR_LEN, proto: Protocol::new(proto, l4) };
    // Destination port filter.
    if TARGET_PORT != 0 {
        if let Some(port) = ctx.proto.get_dst_port(pkt) {
            if port != TARGET_PORT {
                return plain_verdict(exit_prog(stats, pkt_len, StatType::PASS, XDP_PASS));
            }
        }
    }
    if features.afxdp {
        let mut fib_request = None;
        if features.tx {
            let (code, request) = do_tx(&ctx, pkt, pkt_len, ifindex, features, fib);
            fib_request = request;
            if code != 0 {
                let action = exit_prog(stats, pkt_len, StatType::DROP, XDP_DROP);
                return XdpVerdict { action, fib_request, xsk_queue: None };
            }
        }
        // Counted by the AF_XDP socket that takes the packet.
        let action = match xsk_redirect {
            Some(ret) => ret,
            None => exit_prog(stats, pkt_len, StatType::ERROR, XDP_DROP),
        };
        XdpVerdict { action, fib_request, xsk_queue: Some(rx_queue) }
    } else if features.tx {
        let (code, fib_request) = do_tx(&ctx, pkt, pkt_len, ifindex, features, fib);
        if code != 0 {
            let action = exit_prog(stats, pkt_len, StatType::DROP, XDP_DROP);
            return XdpVerdict { action, fib_request, xsk_queue: None };
        }
        let action = exit_prog(stats, pkt_len, StatType::MATCH, XDP_TX);
        XdpVerdict { action, fib_request, xsk_queue: None }
    } else {
        plain_verdict(exit_prog(stats, pkt_len, StatType::MATCH, XDP_DROP))
    }
}

/// Every packet is counted under exactly one statistic, except a matched
/// packet handed to an AF_XDP socket, which that socket counts.
pub proof fn lemma_every_packet_counted(
    p: Seq<u8>,
    features: XdpFeatures,
    fib: FibLookup,
    xsk_redirect: Option<u32>,
)
    ensures
        xdp_outcome(p, features, fib, xsk_redirect).1 is None ==> features.afxdp
            && xsk_redirect is Some && parse_packet(p) is Matched,
{
}

/// In the statistics map, which has a slot for each of the five counted
/// kinds, every packet bumps exactly one slot by one packet and its length
/// (kept in 16 bits), and leaves the others as they are; the one exception is
/// a matched packet handed to an AF_XDP socket, which changes no slot.
pub proof fn lemma_counted_once(
    p: Seq<u8>,
    features: XdpFeatures,
    fib: FibLookup,
    xsk_redirect: Option<u32>,
    map: Seq<StatVal>,
)
    requires
        map.len() == STATS_MAP_SLOTS,
    ensures
        match xdp_outcome(p, features, fib, xsk_redirect).1 {
            Some(t) => {
                &&& stat_key(t) < STATS_MAP_SLOTS
                &&& counted_for(map, Some(t), p.len()) == map.update(
                    stat_key(t) as int,
                    bumped(map[stat_key(t) as int], (p.len() % 0x10000) as u64),
                )
            },
            None => {
                &&& counted_for(map, None, p.len()) == map
                &&& features.afxdp
                &&& xsk_redirect is Some
            },
        },
{
}

/// Only matched packets that are sent back out are rewritten; every other
/// packet leaves the program as it came.
pub proof fn lemma_only_transmitted_packets_change(
    p: Seq<u8>,
    features: XdpFeatures,
    fib: FibLookup,
    xsk_redirect: Option<u32>,
)
    ensures
        !(parse_packet(p) is Matched && features.tx) ==> xdp_outcome(p, features, fib, xsk_redirect).2
            == p,
{
}

/// The verdict agrees with the statistic: aborted packets are counted as bad,
/// passed ones as passed, and a packet sent back out as matched.
pub proof fn lemma_verdict_matches_statistic(
    p: Seq<u8>,
    features: XdpFeatures,
    fib: FibLookup,
    xsk_redirect: Option<u32>,
)
    ensures
        ({
            let (action, stat, _) = xdp_outcome(p, features, fib, xsk_redirect);
            &&& stat == Some(StatType::BAD) <==> action == XDP_ABORTED && stat is Some
            &&& stat == Some(StatType::PASS) <==> action == XDP_PASS && stat is Some
            &&& action == XDP_TX && stat is Some ==> stat == Some(StatType::MATCH)
        }),
{
}

} // verus!
