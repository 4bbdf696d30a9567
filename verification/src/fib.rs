//! Routing-table (FIB) lookup for the transmit path: the lookup parameters a
//! packet gives, and the rewrite a successful lookup asks for.
use vstd::prelude::*;

use crate::ctx::Context;
use crate::protocol::Protocol;
use crate::wire::{
    be32_word, read_be32, ETH_ALEN, ETH_DST_OFF, ETH_SRC_OFF, IPV4_DST_OFF, IPV4_PROTO_OFF,
    IPV4_SRC_OFF, IPV4_TOS_OFF,
};
use crate::xdp::{XDP_DROP, XDP_TX};

verus! {

/// Address family of an IPv4 lookup.
pub const AF_INET: u8 = 2;
/// Address family of an IPv6 lookup.
pub const AF_INET6: u8 = 10;
/// Return code of a successful FIB lookup.
pub const BPF_FIB_LKUP_RET_SUCCESS: i64 = 0;

/// The parameters of a FIB lookup for an IPv4 packet.
#[derive(Clone, Copy, Debug)]
pub struct FibParams {
    pub family: u8,
    pub l4_protocol: u8,
    pub sport: u16,
    pub dport: u16,
    pub ifindex: u32,
    pub smac: [u8; 6],
    pub dmac: [u8; 6],
    pub tot_len: u16,
    pub tos: u8,
    pub ipv4_src: u32,
    pub ipv4_dst: u32,
    pub tbid: u32,
}

/// What a FIB lookup gave back: its return code and the source and
/// destination MAC addresses it filled in.
#[derive(Clone, Copy, Debug)]
pub struct FibLookup {
    pub ret: i64,
    pub smac: [u8; 6],
    pub dmac: [u8; 6],
}

/// The six bytes at `off` as a MAC address.
fn mac_at(pkt: &[u8], off: usize) -> (r: [u8; 6])
    requires
        off + 6 <= pkt.len(),
    ensures
        r@ == pkt@.subrange(off as int, off + 6),
{
    let r = [pkt[off], pkt[off + 1], pkt[off + 2], pkt[off + 3], pkt[off + 4], pkt[off + 5]];
    assert(r@ =~= pkt@.subrange(off as int, off + 6));
    r
}

/// Writes a MAC address at `off`.
fn put_mac(pkt: &mut [u8], off: usize, mac: &[u8; 6])
    requires
        off + 6 <= old(pkt).len(),
    ensures
        final(pkt)@ == old(pkt)@.subrange(0, off as int) + mac@ + old(pkt)@.subrange(
            off + 6,
            old(pkt)@.len() as int,
        ),
{
    let ghost p0 = pkt@;
    let mut i: usize = 0;
    while i < 6
        invariant
            i <= 6,
            off + 6 <= pkt.len(),
            pkt@.len() == p0.len(),
            forall|k: int| 0 <= k < p0.len() ==> #[trigger] pkt@[k] == if off <= k < off + i {
                mac@[k - off]
            } else {
                p0[k]
            },
        decreases 6 - i,
    {
        pkt[off + i] = mac[i];
        i = i + 1;
    }
    assert(pkt@ =~= p0.subrange(0, off as int) + mac@ + p0.subrange(off + 6, p0.len() as int));
}

/// Whether `r` is the lookup request for the IPv4 packet `p` that `ctx`
/// points at, received on interface `ifindex`, of `len` bytes in all: an IPv4
/// lookup for the packet's transport protocol, ports (0 when the transport
/// has none), MAC addresses, type of service and addresses (host byte order),
/// in the main table.
pub open spec fn is_fib_request(r: FibParams, p: Seq<u8>, ctx: Context, len: u16, ifindex: u32) -> bool {
    &&& r.family == AF_INET
    &&& r.l4_protocol == p[ctx.iph + IPV4_PROTO_OFF]
    &&& r.sport == (match ctx.proto.src_port(p) {
        Some(port) => port,
        None => 0,
    })
    &&& r.dport == (match ctx.proto.dst_port(p) {
        Some(port) => port,
        None => 0,
    })
    &&& r.ifindex == ifindex
    &&& r.smac@ == p.subrange(ctx.eth + ETH_SRC_OFF, ctx.eth + ETH_SRC_OFF + ETH_ALEN)
    &&& r.dmac@ == p.subrange(ctx.eth + ETH_DST_OFF, ctx.eth + ETH_DST_OFF + ETH_ALEN)
    &&& r.tot_len == len
    &&& r.tos == p[ctx.iph + IPV4_TOS_OFF]
    &&& r.ipv4_src == be32_word(p, ctx.iph + IPV4_SRC_OFF)
    &&& r.ipv4_dst == be32_word(p, ctx.iph + IPV4_DST_OFF)
    &&& r.tbid == 0
}

/// What a lookup request holds, field by field, in terms of the packet's
/// bytes: an IPv4 (`AF_INET`, 2) lookup in the main table (0) for the IPv4
/// header's protocol (byte 9), type of service (byte 1) and addresses
/// (bytes 12..16 and 16..20, read big-endian), the transport's ports (the
/// first two big-endian words of a TCP or UDP header, 0 otherwise), the
/// Ethernet header's source (bytes 6..12) and destination (bytes 0..6)
/// MAC addresses, the packet's length and the receiving interface.
pub proof fn lemma_fib_request_fields(r: FibParams, p: Seq<u8>, ctx: Context, len: u16, ifindex: u32)
    requires
        p.len() <= usize::MAX,
        ctx.wf(p.len() as usize),
        is_fib_request(r, p, ctx, len, ifindex),
    ensures
        r.family == 2,
        r.tbid == 0,
        r.ifindex == ifindex,
        r.tot_len == len,
        r.l4_protocol == p[ctx.iph + 9],
        r.tos == p[ctx.iph + 1],
        r.ipv4_src == p[ctx.iph + 12] * 0x100_0000 + p[ctx.iph + 13] * 0x1_0000 + p[ctx.iph + 14]
            * 0x100 + p[ctx.iph + 15],
        r.ipv4_dst == p[ctx.iph + 16] * 0x100_0000 + p[ctx.iph + 17] * 0x1_0000 + p[ctx.iph + 18]
            * 0x100 + p[ctx.iph + 19],
        forall|k: int| 0 <= k < 6 ==> #[trigger] r.smac[k] == p[ctx.eth + 6 + k],
        forall|k: int| 0 <= k < 6 ==> #[trigger] r.dmac[k] == p[ctx.eth + k],
        match ctx.proto {
            Protocol::Tcp(o) => r.sport == p[o as int] * 0x100 + p[o + 1] && r.dport == p[o + 2]
                * 0x100 + p[o + 3],
            Protocol::Udp(o) => r.sport == p[o as int] * 0x100 + p[o + 1] && r.dport == p[o + 2]
                * 0x100 + p[o + 3],
            _ => r.sport == 0 && r.dport == 0,
        },
{
    assert forall|k: int| 0 <= k < 6 implies #[trigger] r.smac[k] == p[ctx.eth + 6 + k] by {
        assert(r.smac@[k] == p.subrange(ctx.eth + 6, ctx.eth + 12)[k]);
    }
    assert forall|k: int| 0 <= k < 6 implies #[trigger] r.dmac[k] == p[ctx.eth + k] by {
        assert(r.dmac@[k] == p.subrange(ctx.eth as int, ctx.eth + 6)[k]);
    }
}

/// Builds the lookup request for the IPv4 packet `ctx` points at, received
/// on interface `ifindex`, of `len` bytes in all.
pub fn fib_lookup_params(ctx: &Context, pkt: &[u8], len: u16, ifindex: u32) -> (r: FibParams)
    requires
        ctx.wf(pkt.len()),
    ensures
        is_fib_request(r, pkt@, *ctx, len, ifindex),
        r.tos == pkt@[ctx.iph + 1],
        r.l4_protocol == pkt@[ctx.iph + 9],
        r.ifindex == ifindex,
        r.tot_len == len,
{
    let sport = match ctx.proto.get_src_port(pkt) {
        Some(p) => p,
        None => 0,
    };
    let dport = match ctx.proto.get_dst_port(pkt) {
        Some(p) => p,
        None => 0,
    };
    FibParams {
        family: AF_INET,
        l4_protocol: pkt[ctx.iph + IPV4_PROTO_OFF],
        sport,
        dport,
        ifindex,
        smac: mac_at(pkt, ctx.eth + ETH_SRC_OFF),
        dmac: mac_at(pkt, ctx.eth + ETH_DST_OFF),
        tot_len: len,
        tos: pkt[ctx.iph + IPV4_TOS_OFF],
        ipv4_src: read_be32(pkt, ctx.iph + IPV4_SRC_OFF),
        ipv4_dst: read_be32(pkt, ctx.iph + IPV4_DST_OFF),
        tbid: 0,
    }
}

/// Packet `p` with the MAC addresses a successful lookup gave written into
/// its Ethernet header.
pub open spec fn fib_rewritten(p: Seq<u8>, eth: int, lookup: FibLookup) -> Seq<u8> {
    let p1 = p.subrange(0, eth + ETH_SRC_OFF) + lookup.smac@ + p.subrange(
        eth + ETH_SRC_OFF + ETH_ALEN,
        p.len() as int,
    );
    p1.subrange(0, eth + ETH_DST_OFF) + lookup.dmac@ + p1.subrange(
        eth + ETH_DST_OFF + ETH_ALEN,
        p1.len() as int,
    )
}

/// The FIB lookup step of the transmit path: builds the request the lookup
/// helper is handed (returned beside the verdict) and applies the helper's
/// outcome `lookup`. On success the Ethernet header takes the MAC addresses
/// the lookup gave and the packet is to be transmitted (`XDP_TX`); otherwise
/// the packet is left as it is and dropped (`XDP_DROP`).
pub fn do_fib_lookup(
    ctx: &Context,
    pkt: &mut [u8],
    len: u16,
    ifindex: u32,
    lookup: &FibLookup,
) -> (r: (u32, FibParams))
    requires
        ctx.wf(old(pkt).len()),
    ensures
        is_fib_request(r.1, old(pkt)@, *ctx, len, ifindex),
        lookup.ret == BPF_FIB_LKUP_RET_SUCCESS ==> r.0 == XDP_TX && final(pkt)@ == fib_rewritten(
            old(pkt)@,
            ctx.eth as int,
            *lookup,
        ),
        lookup.ret != BPF_FIB_LKUP_RET_SUCCESS ==> r.0 == XDP_DROP && final(pkt)@ == old(pkt)@,
        final(pkt)@.len() == old(pkt)@.len(),
        lookup.ret == 0 ==> forall|k: int|
            0 <= k < 6 ==> #[trigger] final(pkt)@[ctx.eth + k] == lookup.dmac[k]
                && final(pkt)@[ctx.eth + 6 + k] == lookup.smac[k],
        forall|k: int|
            0 <= k < old(pkt)@.len() && !(ctx.eth <= k < ctx.eth + 12) ==> #[trigger] final(pkt)@[k]
                == old(pkt)@[k],
{
    let request = fib_lookup_params(ctx, pkt, len, ifindex);
    if lookup.ret == BPF_FIB_LKUP_RET_SUCCESS {
        put_mac(pkt, ctx.eth + ETH_SRC_OFF, &lookup.smac);
        put_mac(pkt, ctx.eth + ETH_DST_OFF, &lookup.dmac);
        return (XDP_TX, request);
    }
    (XDP_DROP, request)
}

} // verus!
