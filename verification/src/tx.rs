//! Sending a packet back: exchanging addresses and ports and fixing up the
//! checksums.
use vstd::prelude::*;

use crate::csum::{
    be_words, checksum_of, csum_calc_ip, ipv4_csum_ok, lemma_csum_update_u32_undo,
    lemma_ipv4_csum_verifies,
};
use crate::ctx::Context;
use crate::protocol::Protocol;
use crate::wire::{
    be16_word, be32_word, lemma_put_be16_same, put_be16, read_be32, swap_bytes_at, swapped,
    ETH_ALEN, ETH_DST_OFF, ETH_SRC_OFF, IPV4_CHECK_OFF, IPV4_DST_OFF, IPV4_SRC_OFF,
};

verus! {

/// Packet `p` after the transmit-back rewrite of the headers `ctx` points at:
/// MAC addresses, IPv4 addresses and transport ports exchanged, the
/// transport checksum updated for the address exchange, and the IPv4 header
/// checksum recomputed.
pub open spec fn tx_rewritten(p: Seq<u8>, ctx: Context) -> Seq<u8> {
    let eth = ctx.eth as int;
    let iph = ctx.iph as int;
    let old_src = be32_word(p, iph + IPV4_SRC_OFF);
    let old_dst = be32_word(p, iph + IPV4_DST_OFF);
    let p1 = swapped(p, eth + ETH_SRC_OFF, eth + ETH_DST_OFF, ETH_ALEN as int);
    let p2 = swapped(p1, iph + IPV4_SRC_OFF, iph + IPV4_DST_OFF, 4);
    let p3 = ctx.proto.ports_swapped(p2);
    let p4 = ctx.proto.csum_fixed(p3, old_src, old_dst);
    let p5 = p4.update(iph + IPV4_CHECK_OFF, 0).update(iph + IPV4_CHECK_OFF + 1, 0);
    put_be16(p5, iph + IPV4_CHECK_OFF, checksum_of(be_words(p5, iph, 10)) as u16)
}

/// Rewrites the packet to go back where it came from: swaps the MAC
/// addresses, the IPv4 addresses and the TCP/UDP ports, updates the
/// transport checksum for the address swap and recomputes the IPv4 header
/// checksum. Returns `0`: the rewrite cannot fail.
///
/// Afterwards the IPv4 header checksum verifies, every address and port pair
/// is exchanged, and a transport checksum other than `0xFFFF` is unchanged
/// (exchanging two addresses leaves the one's-complement sum it covers
/// unchanged).
#[verifier::rlimit(50)]
pub fn do_tx_swap(ctx: &Context, pkt: &mut [u8]) -> (r: u8)
    requires
        ctx.wf(old(pkt).len()),
    ensures
        r == 0,
        final(pkt)@ == tx_rewritten(old(pkt)@, *ctx),
        ipv4_csum_ok(final(pkt)@, ctx.iph as int),
        final(pkt)@.subrange(ctx.eth + ETH_DST_OFF, ctx.eth + ETH_DST_OFF + ETH_ALEN) == old(
            pkt,
        )@.subrange(ctx.eth + ETH_SRC_OFF, ctx.eth + ETH_SRC_OFF + ETH_ALEN),
        final(pkt)@.subrange(ctx.eth + ETH_SRC_OFF, ctx.eth + ETH_SRC_OFF + ETH_ALEN) == old(
            pkt,
        )@.subrange(ctx.eth + ETH_DST_OFF, ctx.eth + ETH_DST_OFF + ETH_ALEN),
        final(pkt)@.subrange(ctx.iph + IPV4_DST_OFF, ctx.iph + IPV4_DST_OFF + 4) == old(
            pkt,
        )@.subrange(ctx.iph + IPV4_SRC_OFF, ctx.iph + IPV4_SRC_OFF + 4),
        final(pkt)@.subrange(ctx.iph + IPV4_SRC_OFF, ctx.iph + IPV4_SRC_OFF + 4) == old(
            pkt,
        )@.subrange(ctx.iph + IPV4_DST_OFF, ctx.iph + IPV4_DST_OFF + 4),
        ctx.proto.is_l4() ==> ctx.proto.src_port(final(pkt)@) == ctx.proto.dst_port(old(pkt)@)
            && ctx.proto.dst_port(final(pkt)@) == ctx.proto.src_port(old(pkt)@),
        ctx.proto.is_l4() && be16_word(old(pkt)@, ctx.proto.check_off()) != 0xFFFF
            ==> be16_word(final(pkt)@, ctx.proto.check_off()) == be16_word(
            old(pkt)@,
            ctx.proto.check_off(),
        ),
        final(pkt)@.len() == old(pkt)@.len(),
        forall|k: int|
            0 <= k < old(pkt)@.len() && !(ctx.eth <= k < ctx.eth + 12) && !(ctx.iph + 10 <= k
                < ctx.iph + 20) && !(ctx.proto matches Protocol::Udp(o) && (o <= k < o + 4 || o
                + 6 <= k < o + 8)) && !(ctx.proto matches Protocol::Tcp(o) && (o <= k < o + 4 || o
                + 16 <= k < o + 18)) ==> #[trigger] final(pkt)@[k] == old(pkt)@[k],
{
    let ghost p0 = pkt@;
    let eth = ctx.eth;
    let iph = ctx.iph;
    // Store the old addresses for the checksum update.
    let old_src = read_be32(pkt, iph + IPV4_SRC_OFF);
    let old_dst = read_be32(pkt, iph + IPV4_DST_OFF);
    // Swap everything: MAC addresses, IP addresses and ports.
    swap_bytes_at(pkt, eth + ETH_SRC_OFF, eth + ETH_DST_OFF, ETH_ALEN);
    let ghost p1 = pkt@;
    swap_bytes_at(pkt, iph + IPV4_SRC_OFF, iph + IPV4_DST_OFF, 4);
    let ghost p2 = pkt@;
    ctx.proto.swap_ports(pkt);
    let ghost p3 = pkt@;
    // Transport checksum update, then the IPv4 header checksum.
    ctx.proto.calc_csum(pkt, old_src, old_dst);
    let ghost p4 = pkt@;
    // The checksum comes in network byte order and is stored as it is.
    let csum = csum_calc_ip(pkt, iph);
    let ghost p5 = pkt@;
    let ghost c = checksum_of(be_words(p5, iph as int, 10)) as u16;
    pkt[iph + IPV4_CHECK_OFF] = csum[0];
    pkt[iph + IPV4_CHECK_OFF + 1] = csum[1];
    proof {
        assert forall|k: int|
            0 <= k < p0.len() && !(ctx.eth <= k < ctx.eth + 12) && !(ctx.iph + 10 <= k < ctx.iph
                + 20) && !(ctx.proto matches Protocol::Udp(o) && (o <= k < o + 4 || o + 6 <= k < o
                + 8)) && !(ctx.proto matches Protocol::Tcp(o) && (o <= k < o + 4 || o + 16 <= k < o
                + 18)) implies #[trigger] pkt@[k] == p0[k] by {
            assert(p1[k] == p0[k]);
            assert(p2[k] == p1[k]);
            assert(p3[k] == p2[k]);
            assert(p4[k] == p3[k]);
            assert(p5[k] == p4[k]);
        }
        assert(pkt@ =~= put_be16(p5, iph + IPV4_CHECK_OFF, c));
        lemma_ipv4_csum_verifies(p5, iph as int, c);
        if ctx.proto.is_l4() {
            let co = ctx.proto.check_off();
            let c = be16_word(p0, co);
            assert(be16_word(p3, co) == c);
            if c != 0xFFFF {
                lemma_csum_update_u32_undo(c, old_src, old_dst);
                lemma_put_be16_same(p3, co);
                assert(p4 == p3);
            }
        }
        assert(pkt@.subrange(eth + ETH_DST_OFF, eth + ETH_DST_OFF + ETH_ALEN) =~= p0.subrange(
            eth + ETH_SRC_OFF,
            eth + ETH_SRC_OFF + ETH_ALEN,
        ));
        assert(pkt@.subrange(eth + ETH_SRC_OFF, eth + ETH_SRC_OFF + ETH_ALEN) =~= p0.subrange(
            eth + ETH_DST_OFF,
            eth + ETH_DST_OFF + ETH_ALEN,
        ));
        assert(pkt@.subrange(iph + IPV4_DST_OFF, iph + IPV4_DST_OFF + 4) =~= p0.subrange(
            iph + IPV4_SRC_OFF,
            iph + IPV4_SRC_OFF + 4,
        ));
        assert(pkt@.subrange(iph + IPV4_SRC_OFF, iph + IPV4_SRC_OFF + 4) =~= p0.subrange(
            iph + IPV4_DST_OFF,
            iph + IPV4_DST_OFF + 4,
        ));
    }
    0
}


/// The IPv4 header at `iph` carries the checksum `csum_calc_ip` computes for
/// it (a header that verifies carries it, except when its other words sum
/// to a multiple of `0xFFFF`, where either zero may stand).
pub open spec fn ipv4_check_canonical(p: Seq<u8>, iph: int) -> bool {
    be16_word(p, iph + IPV4_CHECK_OFF) == checksum_of(
        be_words(p.update(iph + IPV4_CHECK_OFF, 0).update(iph + IPV4_CHECK_OFF + 1, 0), iph, 10),
    )
}

/// Packet `p` with the swaps of the transmit-back rewrite applied, before
/// any checksum is touched.
pub open spec fn tx_swapped_only(p: Seq<u8>, ctx: Context) -> Seq<u8> {
    let eth = ctx.eth as int;
    let iph = ctx.iph as int;
    let p1 = swapped(p, eth + ETH_SRC_OFF, eth + ETH_DST_OFF, ETH_ALEN as int);
    let p2 = swapped(p1, iph + IPV4_SRC_OFF, iph + IPV4_DST_OFF, 4);
    ctx.proto.ports_swapped(p2)
}

/// When the transport checksum is not `0xFFFF`, the rewrite is the swaps
/// followed by recomputing the IPv4 header checksum.
proof fn lemma_tx_rewritten_shape(p: Seq<u8>, ctx: Context)
    requires
        p.len() <= usize::MAX,
        ctx.wf(p.len() as usize),
        ctx.proto.is_l4() ==> be16_word(p, ctx.proto.check_off()) != 0xFFFF,
    ensures
        ({
            let iph = ctx.iph as int;
            let p3 = tx_swapped_only(p, ctx);
            let p5 = p3.update(iph + IPV4_CHECK_OFF, 0).update(iph + IPV4_CHECK_OFF + 1, 0);
            &&& tx_rewritten(p, ctx) == put_be16(
                p5,
                iph + IPV4_CHECK_OFF,
                checksum_of(be_words(p5, iph, 10)) as u16,
            )
            &&& ctx.proto.is_l4() ==> be16_word(p3, ctx.proto.check_off()) == be16_word(
                p,
                ctx.proto.check_off(),
            )
        }),
{
    let iph = ctx.iph as int;
    let p3 = tx_swapped_only(p, ctx);
    let old_src = be32_word(p, iph + IPV4_SRC_OFF);
    let old_dst = be32_word(p, iph + IPV4_DST_OFF);
    if ctx.proto.is_l4() {
        let co = ctx.proto.check_off();
        let c = be16_word(p, co);
        assert(be16_word(p3, co) == c);
        lemma_csum_update_u32_undo(c, old_src, old_dst);
        lemma_put_be16_same(p3, co);
        assert(ctx.proto.csum_fixed(p3, old_src, old_dst) == p3);
    }
}

/// Sending a packet back twice gives the packet it was, when its IPv4 header
/// carries the computed checksum and its transport checksum is not `0xFFFF`.
pub proof fn lemma_tx_twice(p: Seq<u8>, ctx: Context)
    requires
        p.len() <= usize::MAX,
        ctx.wf(p.len() as usize),
        ipv4_check_canonical(p, ctx.iph as int),
        ctx.proto.is_l4() ==> be16_word(p, ctx.proto.check_off()) != 0xFFFF,
    ensures
        tx_rewritten(tx_rewritten(p, ctx), ctx) == p,
{
    let iph = ctx.iph as int;
    let ci = iph + IPV4_CHECK_OFF;
    lemma_tx_rewritten_shape(p, ctx);
    let q = tx_rewritten(p, ctx);
    let p3 = tx_swapped_only(p, ctx);
    let p5 = p3.update(ci, 0).update(ci + 1, 0);
    let r1 = checksum_of(be_words(p5, iph, 10)) as u16;
    assert(q == put_be16(p5, ci, r1));
    assert(q.len() == p.len());
    if ctx.proto.is_l4() {
        assert(be16_word(q, ctx.proto.check_off()) == be16_word(p3, ctx.proto.check_off()));
    }
    lemma_tx_rewritten_shape(q, ctx);
    let q3 = tx_swapped_only(q, ctx);
    let q5 = q3.update(ci, 0).update(ci + 1, 0);
    let pz = p.update(ci, 0).update(ci + 1, 0);
    assert(q5 =~= pz);
    lemma_put_be16_same(p, ci);
    assert(put_be16(pz, ci, be16_word(p, ci)) =~= put_be16(p, ci, be16_word(p, ci)));
}

} // verus!
