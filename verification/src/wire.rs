//! Wire layout of the headers the XDP program reads: Ethernet, IPv4, TCP, UDP
//! and ICMPv4, with big-endian field access on a packet buffer.
use vstd::prelude::*;

verus! {

/// Length of an Ethernet header: destination MAC, source MAC, EtherType.
pub const ETH_HDR_LEN: usize = 14;
/// Offset of the destination MAC address in the Ethernet header.
pub const ETH_DST_OFF: usize = 0;
/// Offset of the source MAC address in the Ethernet header.
pub const ETH_SRC_OFF: usize = 6;
/// Offset of the EtherType in the Ethernet header.
pub const ETH_TYPE_OFF: usize = 12;
/// Length of a MAC address.
pub const ETH_ALEN: usize = 6;
/// The two EtherType bytes that announce an IPv4 payload (0x0800).
pub const ETH_TYPE_IPV4_HI: u8 = 0x08;
pub const ETH_TYPE_IPV4_LO: u8 = 0x00;

/// Length of an IPv4 header without options.
pub const IPV4_HDR_LEN: usize = 20;
/// Offsets of IPv4 header fields.
pub const IPV4_TOS_OFF: usize = 1;
pub const IPV4_PROTO_OFF: usize = 9;
pub const IPV4_CHECK_OFF: usize = 10;
pub const IPV4_SRC_OFF: usize = 12;
pub const IPV4_DST_OFF: usize = 16;

/// Length of a TCP header without options, and the offset of its checksum.
pub const TCP_HDR_LEN: usize = 20;
pub const TCP_CHECK_OFF: usize = 16;
/// Length of a UDP header, and the offset of its checksum.
pub const UDP_HDR_LEN: usize = 8;
pub const UDP_CHECK_OFF: usize = 6;
/// Length of an ICMPv4 header.
pub const ICMP_HDR_LEN: usize = 8;
/// Offsets of the source and destination ports in TCP and UDP headers.
pub const L4_SRC_PORT_OFF: usize = 0;
pub const L4_DST_PORT_OFF: usize = 2;

/// IANA protocol numbers.
pub const IPPROTO_ICMP: u8 = 1;
pub const IPPROTO_TCP: u8 = 6;
pub const IPPROTO_UDP: u8 = 17;

/// The big-endian 16-bit value at `off`.
pub open spec fn be16_at(b: Seq<u8>, off: int) -> nat {
    (b[off] * 0x100 + b[off + 1]) as nat
}

/// The big-endian 16-bit value at `off`, as a `u16`.
pub open spec fn be16_word(b: Seq<u8>, off: int) -> u16 {
    be16_at(b, off) as u16
}

/// An offset, as an integer.
pub open spec fn offset(x: usize) -> int {
    x as int
}

/// The big-endian 32-bit value at `off`.
pub open spec fn be32_at(b: Seq<u8>, off: int) -> nat {
    (be16_at(b, off) * 0x10000 + be16_at(b, off + 2)) as nat
}

/// `b` with the big-endian encoding of `v` written at `off`.
pub open spec fn put_be16(b: Seq<u8>, off: int, v: u16) -> Seq<u8> {
    b.update(off, (v / 0x100) as u8).update(off + 1, (v % 0x100) as u8)
}

/// Reads the big-endian 16-bit value at `off`.
pub fn read_be16(b: &[u8], off: usize) -> (r: u16)
    requires
        off + 2 <= b@.len(),
    ensures
        r == be16_at(b@, off as int),
{
    (b[off] as u16) * 0x100 + (b[off + 1] as u16)
}

/// Reads the big-endian 32-bit value at `off`.
pub fn read_be32(b: &[u8], off: usize) -> (r: u32)
    requires
        off + 4 <= b.len(),
    ensures
        r == be32_at(b@, off as int),
{
    let hi = read_be16(b, off) as u32;
    let lo = read_be16(b, off + 2) as u32;
    hi * 0x10000 + lo
}

/// Writes `v` big-endian at `off`.
pub fn write_be16(b: &mut [u8], off: usize, v: u16)
    requires
        off + 2 <= old(b)@.len(),
    ensures
        final(b)@ == put_be16(old(b)@, off as int, v),
        be16_at(final(b)@, off as int) == v,
{
    let hi = (v / 0x100) as u8;
    let lo = (v % 0x100) as u8;
    b[off] = hi;
    b[off + 1] = lo;
}

/// Exchanges the `n` bytes at `a` with the `n` bytes at `c`; the two ranges
/// do not overlap.
pub fn swap_bytes_at(b: &mut [u8], a: usize, c: usize, n: usize)
    requires
        a + n <= c || c + n <= a,
        a + n <= old(b)@.len(),
        c + n <= old(b)@.len(),
    ensures
        final(b)@ == swapped(old(b)@, a as int, c as int, n as int),
{
    let ghost b0 = b@;
    let mut i: usize = 0;
    while i < n
        invariant
            0 <= i <= n,
            a + n <= c || c + n <= a,
            a + n <= b0.len(),
            c + n <= b0.len(),
            b@.len() == b0.len(),
            forall|k: int|
                0 <= k < b0.len() ==> #[trigger] b@[k] == if a <= k < a + i {
                    b0[k - a + c]
                } else if c <= k < c + i {
                    b0[k - c + a]
                } else {
                    b0[k]
                },
        decreases n - i,
    {
        let tmp = b[a + i];
        b[a + i] = b[c + i];
        b[c + i] = tmp;
        i = i + 1;
    }
    assert(b@ =~= swapped(b0, a as int, c as int, n as int));
}

/// `b` with the `n` bytes at `a` and the `n` bytes at `c` exchanged.
pub open spec fn swapped(b: Seq<u8>, a: int, c: int, n: int) -> Seq<u8> {
    Seq::new(
        b.len(),
        |k: int|
            if a <= k < a + n {
                b[k - a + c]
            } else if c <= k < c + n {
                b[k - c + a]
            } else {
                b[k]
            },
    )
}

/// The low 16 bits of a length, as the program's `u16` packet length keeps it.
pub fn truncate_u16(n: usize) -> (r: u16)
    ensures
        r == n % 0x10000,
{
    (n % 0x10000) as u16
}

/// A 16-bit value widened to 64 bits.
pub fn widen_u16(x: u16) -> (r: u64)
    ensures
        r == x,
{
    x as u64
}

/// The big-endian 32-bit value at `off`, as a `u32`.
pub open spec fn be32_word(b: Seq<u8>, off: int) -> u32 {
    be32_at(b, off) as u32
}

/// Writing back the value already stored leaves the bytes as they are.
pub proof fn lemma_put_be16_same(b: Seq<u8>, off: int)
    requires
        0 <= off,
        off + 2 <= b.len(),
    ensures
        put_be16(b, off, be16_word(b, off)) == b,
{
    let v = be16_word(b, off);
    assert(v == b[off] * 0x100 + b[off + 1]);
    assert(v / 0x100 == b[off]);
    assert(v % 0x100 == b[off + 1]);
    assert(put_be16(b, off, v) =~= b);
}

} // verus!
