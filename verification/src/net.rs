//! Swapping of source and destination addresses and ports, used to send a
//! packet back where it came from.
use vstd::prelude::*;

verus! {

/// `a` with its first `n` bytes replaced by the first `n` bytes of `b`.
pub open spec fn take_prefix(a: Seq<u8>, b: Seq<u8>, n: int) -> Seq<u8> {
    b.take(n) + a.skip(n)
}

/// Exchanges the first `n` bytes of `src` and `dst`; the rest of each is kept.
fn swap_prefix(src: &mut [u8], dst: &mut [u8], n: usize)
    requires
        n <= old(src)@.len(),
        n <= old(dst)@.len(),
    ensures
        final(src)@ == take_prefix(old(src)@, old(dst)@, n as int),
        final(dst)@ == take_prefix(old(dst)@, old(src)@, n as int),
{
    let ghost s0 = src@;
    let ghost d0 = dst@;
    let mut i: usize = 0;
    while i < n
        invariant
            i <= n,
            n <= s0.len(),
            n <= d0.len(),
            src@.len() == s0.len(),
            dst@.len() == d0.len(),
            forall|k: int| 0 <= k < i ==> #[trigger] src@[k] == d0[k],
            forall|k: int| 0 <= k < i ==> #[trigger] dst@[k] == s0[k],
            forall|k: int| i <= k < s0.len() ==> #[trigger] src@[k] == s0[k],
            forall|k: int| i <= k < d0.len() ==> #[trigger] dst@[k] == d0[k],
        decreases n - i,
    {
        let tmp = src[i];
        src[i] = dst[i];
        dst[i] = tmp;
        i = i + 1;
    }
    assert(src@ =~= take_prefix(s0, d0, n as int));
    assert(dst@ =~= take_prefix(d0, s0, n as int));
}

/// Swaps the source and destination MAC addresses (6 bytes each).
pub fn swap_eth(src: &mut [u8], dst: &mut [u8])
    requires
        6 <= old(src)@.len(),
        6 <= old(dst)@.len(),
    ensures
        final(src)@ == take_prefix(old(src)@, old(dst)@, 6),
        final(dst)@ == take_prefix(old(dst)@, old(src)@, 6),
        final(src)@.len() == old(src)@.len(),
        final(dst)@.len() == old(dst)@.len(),
        forall|k: int| 0 <= k < 6 ==> #[trigger] final(src)@[k] == old(dst)@[k],
        forall|k: int| 0 <= k < 6 ==> #[trigger] final(dst)@[k] == old(src)@[k],
        forall|k: int| 6 <= k < old(src)@.len() ==> #[trigger] final(src)@[k] == old(src)@[k],
        forall|k: int| 6 <= k < old(dst)@.len() ==> #[trigger] final(dst)@[k] == old(dst)@[k],
{
    swap_prefix(src, dst, 6);
}

/// Swaps the source and destination IPv4 addresses (4 bytes each).
pub fn swap_ip(src: &mut [u8], dst: &mut [u8])
    requires
        4 <= old(src)@.len(),
        4 <= old(dst)@.len(),
    ensures
        final(src)@ == take_prefix(old(src)@, old(dst)@, 4),
        final(dst)@ == take_prefix(old(dst)@, old(src)@, 4),
        final(src)@.len() == old(src)@.len(),
        final(dst)@.len() == old(dst)@.len(),
        forall|k: int| 0 <= k < 4 ==> #[trigger] final(src)@[k] == old(dst)@[k],
        forall|k: int| 0 <= k < 4 ==> #[trigger] final(dst)@[k] == old(src)@[k],
        forall|k: int| 4 <= k < old(src)@.len() ==> #[trigger] final(src)@[k] == old(src)@[k],
        forall|k: int| 4 <= k < old(dst)@.len() ==> #[trigger] final(dst)@[k] == old(dst)@[k],
{
    swap_prefix(src, dst, 4);
}

/// Swaps the source and destination TCP/UDP ports (2 bytes each).
pub fn swap_port(src: &mut [u8], dst: &mut [u8])
    requires
        2 <= old(src)@.len(),
        2 <= old(dst)@.len(),
    ensures
        final(src)@ == take_prefix(old(src)@, old(dst)@, 2),
        final(dst)@ == take_prefix(old(dst)@, old(src)@, 2),
        final(src)@.len() == old(src)@.len(),
        final(dst)@.len() == old(dst)@.len(),
        forall|k: int| 0 <= k < 2 ==> #[trigger] final(src)@[k] == old(dst)@[k],
        forall|k: int| 0 <= k < 2 ==> #[trigger] final(dst)@[k] == old(src)@[k],
        forall|k: int| 2 <= k < old(src)@.len() ==> #[trigger] final(src)@[k] == old(src)@[k],
        forall|k: int| 2 <= k < old(dst)@.len() ==> #[trigger] final(dst)@[k] == old(dst)@[k],
{
    swap_prefix(src, dst, 2);
}

/// Swapping twice gives both buffers back: the swaps are their own inverse.
pub proof fn lemma_swap_twice(src: Seq<u8>, dst: Seq<u8>, n: int)
    requires
        0 <= n <= src.len(),
        n <= dst.len(),
    ensures
        take_prefix(take_prefix(src, dst, n), take_prefix(dst, src, n), n) == src,
        take_prefix(take_prefix(dst, src, n), take_prefix(src, dst, n), n) == dst,
{
    assert(take_prefix(take_prefix(src, dst, n), take_prefix(dst, src, n), n) =~= src);
    assert(take_prefix(take_prefix(dst, src, n), take_prefix(src, dst, n), n) =~= dst);
}

} // verus!
