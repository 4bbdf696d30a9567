//! Internet (one's-complement) checksum arithmetic.
use vstd::prelude::*;

use crate::wire::{be16_at, put_be16, read_be16, IPV4_CHECK_OFF, IPV4_HDR_LEN};

verus! {

/// The 16-bit one's-complement value of a non-negative sum: the sum folded
/// with end-around carry. It is `0` only for a zero sum and otherwise lies in
/// `1..=0xFFFF`, congruent to the sum modulo `0xFFFF`.
pub open spec fn ones_fold(s: nat) -> nat {
    if s == 0 {
        0
    } else {
        ((s - 1) as nat % 0xFFFF + 1) as nat
    }
}

/// One end-around-carry step: the low 16 bits plus the carried-out high part.
pub open spec fn fold16_step(x: int) -> int {
    x % 0x10000 + x / 0x10000
}

/// A folding step keeps the value modulo `0xFFFF`, keeps zero and non-zero
/// apart, and shrinks large values.
pub proof fn lemma_fold16_step(x: int)
    requires
        0 <= x,
    ensures
        fold16_step(x) % 0xFFFF == x % 0xFFFF,
        0 <= fold16_step(x) <= x,
        (fold16_step(x) == 0) == (x == 0),
        x < 0x1_0000_0000 ==> fold16_step(x) <= 0x1FFFE,
        x <= 0x1FFFE ==> fold16_step(x) <= 0xFFFF,
{
    let q = x / 0x10000;
    let r = x % 0x10000;
    assert(x == 0x10000 * q + r);
    assert(fold16_step(x) == q + r);
    assert((q + r) + 0xFFFF * q == x);
    assert((q + r) % 0xFFFF == x % 0xFFFF) by {
        vstd::arithmetic::div_mod::lemma_mod_multiples_vanish(q, q + r, 0xFFFF);
    }
}

/// The value of `ones_fold` is the unique non-zero 16-bit value congruent to
/// the sum.
pub proof fn lemma_ones_fold_unique(s: nat, f: int)
    requires
        s > 0,
        1 <= f <= 0xFFFF,
        f % 0xFFFF == s % 0xFFFF,
    ensures
        ones_fold(s) == f,
{
    let a = (s - 1) as int;
    assert((f - 1) % 0xFFFF == a % 0xFFFF) by {
        vstd::arithmetic::div_mod::lemma_mod_sub_multiples_vanish(s as int, 0xFFFF);
    }
    assert((f - 1) % 0xFFFF == f - 1) by {
        vstd::arithmetic::div_mod::lemma_small_mod((f - 1) as nat, 0xFFFF);
    }
}

/// Two folding steps reduce every sum below 2^32 to its one's-complement value.
pub proof fn lemma_fold_twice(x: int)
    requires
        0 <= x < 0x1_0000_0000,
    ensures
        fold16_step(fold16_step(x)) == ones_fold(x as nat),
        fold16_step(fold16_step(x)) <= 0xFFFF,
{
    lemma_fold16_step(x);
    let f1 = fold16_step(x);
    lemma_fold16_step(f1);
    let f2 = fold16_step(f1);
    if x > 0 {
        lemma_ones_fold_unique(x as nat, f2);
    }
}

/// Folds a 64-bit checksum accumulator into 16 bits by adding the carries
/// back in twice, then keeping the low 16 bits.
///
/// Every accumulator below 2^32 comes out as its one's-complement value.
pub fn fold_csum(csum: u64) -> (r: u16)
    ensures
        r as int == fold16_step(fold16_step(csum as int)) % 0x10000,
        csum <= u32::MAX ==> r == ones_fold(csum as nat),
{
    let mut csum = csum;
    let c0 = csum;
    assert((c0 & 0xffff) == c0 % 0x10000 && (c0 >> 16) == c0 / 0x10000) by (bit_vector);
    csum = (csum & 0xffff) + (csum >> 16);
    let c1 = csum;
    assert((c1 & 0xffff) == c1 % 0x10000 && (c1 >> 16) == c1 / 0x10000) by (bit_vector);
    csum = (csum & 0xffff) + (csum >> 16);
    let c2 = csum;
    assert((c2 as u16) == c2 % 0x10000) by (bit_vector);
    proof {
        if c0 <= u32::MAX {
            lemma_fold_twice(c0 as int);
        }
    }
    csum as u16
}

/// Folds a 32-bit accumulator twice, giving its one's-complement value.
fn fold_u32(csum: u32) -> (r: u16)
    ensures
        r == ones_fold(csum as nat),
{
    let mut csum = csum;
    let c0 = csum;
    assert((c0 & 0xffff) == c0 % 0x10000 && (c0 >> 16) == c0 / 0x10000) by (bit_vector);
    proof {
        lemma_fold_twice(c0 as int);
    }
    csum = (csum & 0xffff) + (csum >> 16);
    let c1 = csum;
    assert((c1 & 0xffff) == c1 % 0x10000 && (c1 >> 16) == c1 / 0x10000) by (bit_vector);
    csum = (csum & 0xffff) + (csum >> 16);
    csum as u16
}

/// RFC 1624 incremental update of a checksum `c` after one 16-bit word of the
/// covered data changed from `old` to `new`: `~(~c + ~old + new)` in
/// one's-complement arithmetic.
pub open spec fn csum_after_u16(c: u16, old: u16, new: u16) -> nat {
    (0xFFFF - ones_fold(((0xFFFF - c) + (0xFFFF - old) + new) as nat)) as nat
}

/// The high and low 16-bit halves of a 32-bit field.
pub open spec fn hi16(v: u32) -> nat {
    (v / 0x10000) as nat
}

pub open spec fn lo16(v: u32) -> nat {
    (v % 0x10000) as nat
}

/// RFC 1624 incremental update of a checksum `c` after a 32-bit field made of
/// two 16-bit words changed from `old` to `new`.
pub open spec fn csum_after_u32(c: u16, old: u32, new: u32) -> nat {
    (0xFFFF - ones_fold(
        ((0xFFFF - c) + (0xFFFF - hi16(old)) + (0xFFFF - lo16(old)) + hi16(new) + lo16(new)) as nat,
    )) as nat
}

/// `csum_after_u32`, as a 16-bit value.
pub open spec fn csum_after_u32_word(c: u16, old: u32, new: u32) -> u16 {
    csum_after_u32(c, old, new) as u16
}

/// Incrementally updates a checksum after changing a 16-bit field (e.g. a
/// port) from `old_val` to `new_val`.
pub fn csum_update_u16(old_csum: u16, old_val: u16, new_val: u16) -> (r: u16)
    ensures
        r == csum_after_u16(old_csum, old_val, new_val),
{
    assert(!old_csum == 0xFFFF - old_csum && !old_val == 0xFFFF - old_val) by (bit_vector);
    let mut csum: u32 = (!old_csum) as u32;
    csum += (!old_val) as u32;
    csum += new_val as u32;
    let f = fold_u32(csum);
    assert(!f == 0xFFFF - f) by (bit_vector);
    !f
}

/// Incrementally updates a checksum after changing a 32-bit field (e.g. an
/// IPv4 address) from `old_val` to `new_val`, treating each value as two
/// 16-bit halves: the 16-bit complements of the old halves and the new halves
/// are added to the complemented checksum, so the 32-bit accumulator never
/// overflows.
pub fn csum_update_u32(old_csum: u16, old_val: u32, new_val: u32) -> (r: u16)
    ensures
        r == csum_after_u32(old_csum, old_val, new_val),
{
    let old_hi = (old_val >> 16) as u16;
    let old_lo = (old_val & 0xffff) as u16;
    let new_hi = (new_val >> 16) as u16;
    let new_lo = (new_val & 0xffff) as u16;
    assert(old_hi == old_val / 0x10000 && old_lo == old_val % 0x10000) by (bit_vector)
        requires
            old_hi == (old_val >> 16) as u16,
            old_lo == (old_val & 0xffff) as u16,
    ;
    assert(new_hi == new_val / 0x10000 && new_lo == new_val % 0x10000) by (bit_vector)
        requires
            new_hi == (new_val >> 16) as u16,
            new_lo == (new_val & 0xffff) as u16,
    ;
    assert(!old_csum == 0xFFFF - old_csum && !old_hi == 0xFFFF - old_hi && !old_lo == 0xFFFF
        - old_lo) by (bit_vector);
    let mut csum: u32 = (!old_csum) as u32;
    csum += (!old_hi) as u32;
    csum += (!old_lo) as u32;
    csum += new_hi as u32;
    csum += new_lo as u32;
    let f = fold_u32(csum);
    assert(!f == 0xFFFF - f) by (bit_vector);
    !f
}


/// `ones_fold` keeps a sum's value modulo `0xFFFF` and stays within 16 bits.
pub proof fn lemma_ones_fold_congruent(s: nat)
    ensures
        ones_fold(s) % 0xFFFF == s % 0xFFFF,
        ones_fold(s) <= 0xFFFF,
        s > 0 ==> ones_fold(s) >= 1,
{
    if s > 0 {
        let a = (s - 1) as int;
        let q = a / 0xFFFF;
        let m = a % 0xFFFF;
        assert(a == 0xFFFF * q + m);
        assert((m + 1) % 0xFFFF == (s as int) % 0xFFFF) by {
            vstd::arithmetic::div_mod::lemma_mod_multiples_vanish(q, m + 1, 0xFFFF);
        }
    }
}

/// Adding the same amount to two values congruent modulo `0xFFFF` keeps them
/// congruent.
pub proof fn lemma_congruent_add(x: int, y: int, z: int)
    requires
        x % 0xFFFF == y % 0xFFFF,
    ensures
        (x + z) % 0xFFFF == (y + z) % 0xFFFF,
{
    vstd::arithmetic::div_mod::lemma_add_mod_noop(x, z, 0xFFFF);
    vstd::arithmetic::div_mod::lemma_add_mod_noop(y, z, 0xFFFF);
}

/// Undoing a 16-bit change restores the checksum: updating `c` for a change
/// from `a` to `b` and then for the change back from `b` to `a` gives `c` again,
/// for every checksum other than `0xFFFF` (the second representation of zero,
/// which comes back as `0`).
pub proof fn lemma_csum_update_u16_undo(c: u16, a: u16, b: u16)
    requires
        c != 0xFFFF,
    ensures
        csum_after_u16(csum_after_u16(c, a, b) as u16, b, a) == c,
{
    let t1 = ((0xFFFF - c) + (0xFFFF - a) + b) as nat;
    lemma_ones_fold_congruent(t1);
    let f1 = ones_fold(t1);
    let r1 = csum_after_u16(c, a, b);
    assert(r1 == 0xFFFF - f1);
    let t2 = ((0xFFFF - r1) + (0xFFFF - b) + a) as nat;
    assert(t2 == f1 + (0xFFFF - b) + a);
    assert(t2 % 0xFFFF == (0xFFFF - c) % 0xFFFF) by {
        lemma_congruent_add(f1 as int, t1 as int, (0xFFFF - b) + a);
    }
    lemma_ones_fold_unique(t2, 0xFFFF - c);
}


/// Undoing a 32-bit change restores the checksum, for every checksum other
/// than `0xFFFF`.
pub proof fn lemma_csum_update_u32_undo(c: u16, a: u32, b: u32)
    requires
        c != 0xFFFF,
    ensures
        csum_after_u32(csum_after_u32(c, a, b) as u16, b, a) == c,
{
    let t1 = ((0xFFFF - c) + (0xFFFF - hi16(a)) + (0xFFFF - lo16(a)) + hi16(b) + lo16(b)) as nat;
    lemma_ones_fold_congruent(t1);
    let f1 = ones_fold(t1);
    let r1 = csum_after_u32(c, a, b);
    assert(r1 == 0xFFFF - f1);
    let t2 = ((0xFFFF - r1) + (0xFFFF - hi16(b)) + (0xFFFF - lo16(b)) + hi16(a) + lo16(a)) as nat;
    assert(t2 == f1 + ((0xFFFF - hi16(b)) + (0xFFFF - lo16(b)) + hi16(a) + lo16(a)));
    assert(t2 % 0xFFFF == (0xFFFF - c + 2 * 0xFFFF + 0xFFFF) % 0xFFFF) by {
        lemma_congruent_add(
            f1 as int,
            t1 as int,
            (0xFFFF - hi16(b)) + (0xFFFF - lo16(b)) + hi16(a) + lo16(a),
        );
    }
    assert((0xFFFF - c + 3 * 0xFFFF) % 0xFFFF == (0xFFFF - c) % 0xFFFF) by {
        vstd::arithmetic::div_mod::lemma_mod_multiples_vanish(3, 0xFFFF - c, 0xFFFF);
    }
    lemma_ones_fold_unique(t2, 0xFFFF - c);
}

/// A 32-bit update is two 16-bit updates: updating `c` for a 32-bit field
/// changed from `a` to `b` gives the same checksum as updating it first for
/// the high 16-bit word and then for the low one.
pub proof fn lemma_csum_update_u32_is_two_u16(c: u16, a: u32, b: u32)
    ensures
        csum_after_u32(c, a, b) == csum_after_u16(
            csum_after_u16(c, hi16(a) as u16, hi16(b) as u16) as u16,
            lo16(a) as u16,
            lo16(b) as u16,
        ),
{
    assert(hi16(a) < 0x10000 && hi16(b) < 0x10000);
    let t1 = ((0xFFFF - c) + (0xFFFF - hi16(a)) + hi16(b)) as nat;
    lemma_ones_fold_congruent(t1);
    let f1 = ones_fold(t1);
    let d = (0xFFFF - lo16(a)) + lo16(b);
    let t = ((0xFFFF - c) + (0xFFFF - hi16(a)) + (0xFFFF - lo16(a)) + hi16(b) + lo16(b)) as nat;
    let t2 = (f1 + d) as nat;
    assert(t == t1 + d);
    assert(t2 % 0xFFFF == t % 0xFFFF) by {
        lemma_congruent_add(f1 as int, t1 as int, d);
    }
    if t > 0 {
        assert(t2 > 0);
        lemma_ones_fold_congruent(t2);
        lemma_ones_fold_unique(t, ones_fold(t2) as int);
    }
}

/// The plain sum of a sequence of 16-bit words.
pub open spec fn word_sum(ws: Seq<u16>) -> nat
    decreases ws.len(),
{
    if ws.len() == 0 {
        0
    } else {
        word_sum(ws.drop_last()) + ws.last() as nat
    }
}

/// The Internet checksum of a sequence of 16-bit words: the complement of
/// their one's-complement sum.
pub open spec fn checksum_of(ws: Seq<u16>) -> nat {
    (0xFFFF - ones_fold(word_sum(ws))) as nat
}

/// Replacing one word changes the sum by the difference of the two words.
pub proof fn lemma_word_sum_update(ws: Seq<u16>, i: int, v: u16)
    requires
        0 <= i < ws.len(),
    ensures
        word_sum(ws.update(i, v)) + ws[i] == word_sum(ws) + v,
    decreases ws.len(),
{
    let us = ws.update(i, v);
    if i == ws.len() - 1 {
        assert(us.drop_last() == ws.drop_last());
    } else {
        lemma_word_sum_update(ws.drop_last(), i, v);
        assert(us.drop_last() == ws.drop_last().update(i, v));
    }
}

/// Shared step of the two recomputation laws: folding `F + d`, where `F` is
/// the folded old sum, agrees with folding the new sum `S'` whenever `S' > 0`
/// and `S + d` differs from `S'` by a multiple of `0xFFFF`.
proof fn lemma_refold(s_old: nat, d: int, s_new: nat, k: int)
    requires
        s_new > 0,
        k >= 0,
        s_old + d == s_new + 0xFFFF * k,
        ones_fold(s_old) + d > 0,
    ensures
        ones_fold((ones_fold(s_old) + d) as nat) == ones_fold(s_new),
{
    lemma_ones_fold_congruent(s_old);
    lemma_ones_fold_congruent(s_new);
    let t = ones_fold(s_old) + d;
    lemma_congruent_add(ones_fold(s_old) as int, s_old as int, d);
    vstd::arithmetic::div_mod::lemma_mod_multiples_vanish(k, s_new as int, 0xFFFF);
    lemma_ones_fold_unique(t as nat, ones_fold(s_new) as int);
}

/// The incremental 16-bit update agrees with recomputing the checksum of the
/// changed data from scratch (RFC 1624), unless the changed data sums to zero,
/// where the two differ only in the representation of zero.
pub proof fn lemma_csum_update_u16_recompute(ws: Seq<u16>, i: int, v: u16)
    requires
        0 <= i < ws.len(),
        word_sum(ws.update(i, v)) > 0,
    ensures
        csum_after_u16(checksum_of(ws) as u16, ws[i], v) == checksum_of(ws.update(i, v)),
{
    lemma_word_sum_update(ws, i, v);
    let s = word_sum(ws);
    let s2 = word_sum(ws.update(i, v));
    lemma_ones_fold_congruent(s);
    let c = checksum_of(ws);
    assert(0xFFFF - c == ones_fold(s));
    let d = (0xFFFF - ws[i]) + v;
    if ones_fold(s) + d == 0 {
        assert(s == 0) by {
            lemma_ones_fold_congruent(s);
        }
        lemma_word_sum_zero(ws, i);
    }
    lemma_refold(s, d, s2, 1);
}

/// A zero sum means every word is zero.
pub proof fn lemma_word_sum_zero(ws: Seq<u16>, i: int)
    requires
        word_sum(ws) == 0,
        0 <= i < ws.len(),
    ensures
        ws[i] == 0,
    decreases ws.len(),
{
    if i < ws.len() - 1 {
        lemma_word_sum_zero(ws.drop_last(), i);
    }
}

/// The incremental 32-bit update agrees with recomputing the checksum after
/// the two words `i` and `i + 1` (the high and low halves of a 32-bit field)
/// are replaced by the halves of `v`, unless the changed data sums to zero.
pub proof fn lemma_csum_update_u32_recompute(ws: Seq<u16>, i: int, v: u32)
    requires
        0 <= i,
        i + 1 < ws.len(),
        word_sum(ws.update(i, hi16(v) as u16).update(i + 1, lo16(v) as u16)) > 0,
    ensures
        csum_after_u32(checksum_of(ws) as u16, (ws[i] * 0x10000 + ws[i + 1]) as u32, v)
            == checksum_of(ws.update(i, hi16(v) as u16).update(i + 1, lo16(v) as u16)),
{
    let old = (ws[i] * 0x10000 + ws[i + 1]) as u32;
    assert(hi16(old) == ws[i] && lo16(old) == ws[i + 1]) by {
        vstd::arithmetic::div_mod::lemma_fundamental_div_mod_converse(
            ws[i] * 0x10000 + ws[i + 1],
            0x10000,
            ws[i] as int,
            ws[i + 1] as int,
        );
    }
    let w1 = ws.update(i, hi16(v) as u16);
    let w2 = w1.update(i + 1, lo16(v) as u16);
    lemma_word_sum_update(ws, i, hi16(v) as u16);
    lemma_word_sum_update(w1, i + 1, lo16(v) as u16);
    let s = word_sum(ws);
    let s2 = word_sum(w2);
    lemma_ones_fold_congruent(s);
    let d = (0xFFFF - hi16(old)) + (0xFFFF - lo16(old)) + hi16(v) + lo16(v);
    if ones_fold(s) + d == 0 {
        lemma_ones_fold_congruent(s);
        lemma_word_sum_zero(ws, i);
    }
    assert(s + d == s2 + 0xFFFF * 2);
    lemma_refold(s, d, s2, 2);
}


/// The `n` big-endian 16-bit words of `b` starting at `off`.
pub open spec fn be_words(b: Seq<u8>, off: int, n: nat) -> Seq<u16> {
    Seq::new(n, |k: int| be16_at(b, off + 2 * k) as u16)
}

/// Whether the IPv4 header at `off` carries a correct header checksum: the
/// one's-complement sum of its ten words, check field included, is all ones.
pub open spec fn ipv4_csum_ok(b: Seq<u8>, off: int) -> bool {
    ones_fold(word_sum(be_words(b, off, 10))) == 0xFFFF
}

proof fn lemma_be_words_step(b: Seq<u8>, off: int, k: nat)
    requires
        0 <= off,
        off + 2 * k + 2 <= b.len(),
    ensures
        word_sum(be_words(b, off, k + 1)) == word_sum(be_words(b, off, k)) + be16_at(
            b,
            off + 2 * k,
        ),
{
    assert(be_words(b, off, k + 1).drop_last() =~= be_words(b, off, k));
    assert(b[off + 2 * k] * 0x100 + b[off + 2 * k + 1] <= 0xFFFF);
}

/// The two bytes of a 16-bit value in network byte order (big-endian).
pub open spec fn network_order(v: nat) -> Seq<u8> {
    seq![(v / 0x100) as u8, (v % 0x100) as u8]
}

/// Calculates the IPv4 header checksum of the header at offset `iph` and
/// returns it in network byte order: the check field is cleared first, then
/// the complement of the one's-complement sum of the header's ten 16-bit
/// words is returned as its two big-endian bytes. Stored as they are in the
/// check field, they make the header verify.
pub fn csum_calc_ip(pkt: &mut [u8], iph: usize) -> (r: [u8; 2])
    requires
        iph + IPV4_HDR_LEN <= old(pkt).len(),
    ensures
        final(pkt)@ == old(pkt)@.update(iph + IPV4_CHECK_OFF, 0).update(
            iph + IPV4_CHECK_OFF + 1,
            0,
        ),
        r@ == network_order(checksum_of(be_words(final(pkt)@, iph as int, 10))),
{
    pkt[iph + IPV4_CHECK_OFF] = 0;
    pkt[iph + IPV4_CHECK_OFF + 1] = 0;
    let mut sum: u32 = 0;
    let mut k: usize = 0;
    while k < 10
        invariant
            k <= 10,
            iph + IPV4_HDR_LEN <= pkt.len(),
            sum == word_sum(be_words(pkt@, iph as int, k as nat)),
            sum <= k * 0xFFFF,
        decreases 10 - k,
    {
        proof {
            lemma_be_words_step(pkt@, iph as int, k as nat);
        }
        let w = read_be16(pkt, iph + 2 * k);
        sum = sum + w as u32;
        k = k + 1;
    }
    let f = fold_csum(sum as u64);
    assert(!f == 0xFFFF - f) by (bit_vector);
    let c = !f;
    let r = [(c / 0x100) as u8, (c % 0x100) as u8];
    assert(r@ =~= network_order(c as nat));
    r
}

/// Writing the calculated checksum into the cleared check field makes the
/// IPv4 header verify.
pub proof fn lemma_ipv4_csum_verifies(b: Seq<u8>, iph: int, r: u16)
    requires
        0 <= iph,
        iph + 20 <= b.len(),
        b[iph + 10] == 0,
        b[iph + 11] == 0,
        r == checksum_of(be_words(b, iph, 10)),
    ensures
        ipv4_csum_ok(put_be16(b, iph + 10, r), iph),
{
    let b2 = put_be16(b, iph + 10, r);
    let ws = be_words(b, iph, 10);
    assert(ws[5] == 0);
    assert(r / 0x100 * 0x100 + r % 0x100 == r);
    assert(be_words(b2, iph, 10) =~= ws.update(5, r));
    lemma_word_sum_update(ws, 5, r);
    let s = word_sum(ws);
    lemma_ones_fold_congruent(s);
    let s2 = s + r;
    assert(s2 == s + 0xFFFF - ones_fold(s));
    assert(s2 > 0);
    assert(s2 % 0xFFFF == 0xFFFFint % 0xFFFF) by {
        lemma_congruent_add(s as int, ones_fold(s) as int, 0xFFFF - ones_fold(s));
    }
    lemma_ones_fold_unique(s2 as nat, 0xFFFF);
}

} // verus!
