//! Statistic kinds, per-CPU counters and the user-space bookkeeping of totals
//! and per-second rates.
use vstd::prelude::*;

use std::collections::HashMap;
use std::time::Instant;

verus! {

broadcast use vstd::std_specs::hash::group_hash_axioms;

/// What happened to a packet, as counted in the statistics map.
#[derive(Debug, Clone, Copy, Eq, Hash, PartialEq, Structural)]
pub enum StatType {
    PASS,
    DROP,
    BAD,
    MATCH,
    ERROR,
    /// Number of statistic kinds; the size of the statistics map.
    STATCNT,
}

/// The key of a statistic kind in the statistics map.
pub open spec fn stat_key(t: StatType) -> u32 {
    match t {
        StatType::PASS => 0,
        StatType::DROP => 1,
        StatType::BAD => 2,
        StatType::MATCH => 3,
        StatType::ERROR => 4,
        StatType::STATCNT => 5,
    }
}

impl From<StatType> for u32 {
    fn from(stat_type: StatType) -> (r: u32) {
        match stat_type {
            StatType::PASS => 0,
            StatType::DROP => 1,
            StatType::BAD => 2,
            StatType::MATCH => 3,
            StatType::ERROR => 4,
            StatType::STATCNT => 5,
        }
    }
}

impl vstd::std_specs::convert::FromSpecImpl<StatType> for u32 {
    open spec fn obeys_from_spec() -> bool {
        true
    }

    open spec fn from_spec(stat_type: StatType) -> u32 {
        stat_key(stat_type)
    }
}

/// The key of a statistic kind, as `u32::from` gives it.
pub fn stat_index(stat_type: StatType) -> (r: u32)
    ensures
        r == stat_key(stat_type),
{
    u32::from(stat_type)
}

impl StatType {
    /// Every statistic kind that is counted, in map order (`STATCNT` is not a
    /// kind of its own).
    pub fn all() -> (r: [StatType; 5])
        ensures
            r@ == seq![StatType::PASS, StatType::DROP, StatType::BAD, StatType::MATCH, StatType::ERROR],
    {
        let r = [StatType::PASS, StatType::DROP, StatType::BAD, StatType::MATCH, StatType::ERROR];
        assert(r@ =~= seq![StatType::PASS, StatType::DROP, StatType::BAD, StatType::MATCH, StatType::ERROR]);
        r
    }
}

/// A packet count and a byte count.
#[derive(Copy, Debug, Clone, PartialEq, Eq, Structural)]
pub struct StatVal {
    pub pkt: u64,
    pub byt: u64,
}

impl Default for StatVal {
    fn default() -> (r: StatVal)
        ensures
            r == zero_stat(),
    {
        StatVal { pkt: 0, byt: 0 }
    }
}

/// The empty counter.
pub open spec fn zero_stat() -> StatVal {
    StatVal { pkt: 0, byt: 0 }
}

/// The counter for `t` after one more packet of `length` bytes, wrapping at
/// 2^64 as the kernel-side counters do.
pub open spec fn bumped(v: StatVal, length: u64) -> StatVal {
    StatVal { pkt: v.pkt.wrapping_add(1), byt: v.byt.wrapping_add(length) }
}

/// The statistics map slots after one packet of `length` bytes was counted
/// under `t`; a kind outside the map leaves the slots as they are.
pub open spec fn stats_after(map: Seq<StatVal>, t: StatType, length: u64) -> Seq<StatVal> {
    if stat_key(t) < map.len() {
        map.update(stat_key(t) as int, bumped(map[stat_key(t) as int], length))
    } else {
        map
    }
}

/// Counts one packet of `length` bytes under `stats_type` in the statistics
/// map slots of the current CPU. A kind outside the map (such as `STATCNT`)
/// is not counted.
pub fn inc_stats(map: &mut [StatVal], stats_type: StatType, length: u64)
    ensures
        final(map)@ == stats_after(old(map)@, stats_type, length),
        final(map)@.len() == old(map)@.len(),
        forall|i: int|
            0 <= i < old(map)@.len() && i != stat_key(stats_type) ==> #[trigger] final(map)@[i]
                == old(map)@[i],
        stat_key(stats_type) < old(map)@.len() ==> {
            let k = stat_key(stats_type) as int;
            &&& final(map)@[k].pkt as int == (old(map)@[k].pkt + 1) % 0x1_0000_0000_0000_0000
            &&& final(map)@[k].byt as int == (old(map)@[k].byt + length) % 0x1_0000_0000_0000_0000
        },
{
    let key = stat_index(stats_type) as usize;
    if key >= map.len() {
        return ;
    }
    let cur = map[key];
    map[key] = StatVal { pkt: cur.pkt.wrapping_add(1), byt: cur.byt.wrapping_add(length) };
}

/// The sum of the packet counts of a sequence of counters.
pub open spec fn pkt_sum(vals: Seq<StatVal>) -> nat
    decreases vals.len(),
{
    if vals.len() == 0 {
        0
    } else {
        pkt_sum(vals.drop_last()) + vals.last().pkt as nat
    }
}

/// The sum of the byte counts of a sequence of counters.
pub open spec fn byt_sum(vals: Seq<StatVal>) -> nat
    decreases vals.len(),
{
    if vals.len() == 0 {
        0
    } else {
        byt_sum(vals.drop_last()) + vals.last().byt as nat
    }
}

/// The growth of a counter: what was added since the snapshot, or 0 when the
/// counter went back (it was reset).
pub proof fn lemma_stat_delta(raw: StatVal, prev: StatVal)
    ensures
        raw.pkt >= prev.pkt ==> stat_delta(raw, prev).pkt + prev.pkt == raw.pkt,
        raw.pkt < prev.pkt ==> stat_delta(raw, prev).pkt == 0,
        raw.byt >= prev.byt ==> stat_delta(raw, prev).byt + prev.byt == raw.byt,
        raw.byt < prev.byt ==> stat_delta(raw, prev).byt == 0,
{
}

/// Totals add up: the total of two runs of counters one after the other is
/// the sum of their totals, and no counters total to zero.
pub proof fn lemma_sums_concat(a: Seq<StatVal>, b: Seq<StatVal>)
    ensures
        pkt_sum(a + b) == pkt_sum(a) + pkt_sum(b),
        byt_sum(a + b) == byt_sum(a) + byt_sum(b),
        pkt_sum(Seq::<StatVal>::empty()) == 0,
        byt_sum(Seq::<StatVal>::empty()) == 0,
    decreases b.len(),
{
    if b.len() > 0 {
        lemma_sums_concat(a, b.drop_last());
        assert((a + b).drop_last() =~= a + b.drop_last());
        assert((a + b).last() == b.last());
        assert(pkt_sum(a + b) == pkt_sum((a + b).drop_last()) + (a + b).last().pkt);
        assert(byt_sum(a + b) == byt_sum((a + b).drop_last()) + (a + b).last().byt);
    } else {
        assert(a + b =~= a);
    }
}

/// A single counter totals to its own counts.
pub proof fn lemma_sums_single(v: StatVal)
    ensures
        pkt_sum(seq![v]) == v.pkt,
        byt_sum(seq![v]) == v.byt,
{
    let e = Seq::<StatVal>::empty();
    assert(seq![v].drop_last() =~= e);
    assert(pkt_sum(e) == 0 && byt_sum(e) == 0);
    assert(pkt_sum(seq![v]) == pkt_sum(e) + v.pkt);
    assert(byt_sum(seq![v]) == byt_sum(e) + v.byt);
}

proof fn lemma_sums_monotone(vals: Seq<StatVal>, i: int, j: int)
    requires
        0 <= i <= j <= vals.len(),
    ensures
        pkt_sum(vals.take(i)) <= pkt_sum(vals.take(j)),
        byt_sum(vals.take(i)) <= byt_sum(vals.take(j)),
    decreases j - i,
{
    if i < j {
        lemma_sums_monotone(vals, i, j - 1);
        assert(vals.take(j).drop_last() =~= vals.take(j - 1));
    }
}

/// Whether the per-CPU counters of one statistic kind can be added up
/// without overflowing 64 bits.
pub fn pkt_sum_fits(vals: &[StatVal]) -> (r: bool)
    ensures
        r == (pkt_sum(vals@) <= u64::MAX && byt_sum(vals@) <= u64::MAX),
{
    let mut pkt: u64 = 0;
    let mut byt: u64 = 0;
    let mut i: usize = 0;
    while i < vals.len()
        invariant
            i <= vals@.len(),
            pkt == pkt_sum(vals@.take(i as int)),
            byt == byt_sum(vals@.take(i as int)),
        decreases vals@.len() - i,
    {
        proof {
            assert(vals@.take(i + 1).drop_last() =~= vals@.take(i as int));
            lemma_sums_monotone(vals@, i + 1, vals@.len() as int);
            assert(vals@.take(vals@.len() as int) =~= vals@);
        }
        let p = pkt.checked_add(vals[i].pkt);
        let b = byt.checked_add(vals[i].byt);
        match (p, b) {
            (Some(p), Some(b)) => {
                pkt = p;
                byt = b;
            },
            _ => {
                return false;
            },
        }
        i = i + 1;
    }
    assert(vals@.take(vals@.len() as int) =~= vals@);
    true
}

/// Adds up the per-CPU counters of one statistic kind into a total.
pub fn sum_cpu_stats(vals: &[StatVal]) -> (r: StatVal)
    requires
        pkt_sum(vals@) <= u64::MAX,
        byt_sum(vals@) <= u64::MAX,
    ensures
        r.pkt == pkt_sum(vals@),
        r.byt == byt_sum(vals@),
{
    let mut ret = StatVal { pkt: 0, byt: 0 };
    let mut i: usize = 0;
    while i < vals.len()
        invariant
            i <= vals@.len(),
            pkt_sum(vals@) <= u64::MAX,
            byt_sum(vals@) <= u64::MAX,
            ret.pkt == pkt_sum(vals@.take(i as int)),
            ret.byt == byt_sum(vals@.take(i as int)),
        decreases vals@.len() - i,
    {
        proof {
            lemma_sums_monotone(vals@, i + 1, vals@.len() as int);
            assert(vals@.take(vals@.len() as int) =~= vals@);
            assert(vals@.take(i + 1).drop_last() =~= vals@.take(i as int));
        }
        ret.pkt = ret.pkt + vals[i].pkt;
        ret.byt = ret.byt + vals[i].byt;
        i = i + 1;
    }
    assert(vals@.take(vals@.len() as int) =~= vals@);
    ret
}

/// The change from `prev` to `cur`, for counters that only grow.
pub fn get_stats_rel(cur: StatVal, prev: StatVal) -> (r: StatVal)
    requires
        prev.pkt <= cur.pkt,
        prev.byt <= cur.byt,
    ensures
        r.pkt + prev.pkt == cur.pkt,
        r.byt + prev.byt == cur.byt,
{
    StatVal { pkt: cur.pkt - prev.pkt, byt: cur.byt - prev.byt }
}

/// The counter for one CPU after one more packet of `length` bytes.
pub open spec fn counted(v: StatVal, length: u64) -> StatVal {
    StatVal { pkt: (v.pkt + 1) as u64, byt: (v.byt + length) as u64 }
}

/// Counts one packet of `length` bytes in the slot of CPU `core_id` among the
/// per-CPU counters of one statistic kind. Returns `false`, changing
/// nothing, when there is no slot for that CPU.
pub fn inc_cpu_slot(vals: &mut Vec<StatVal>, core_id: u32, length: u64) -> (found: bool)
    requires
        core_id < old(vals)@.len() ==> old(vals)@[core_id as int].pkt < u64::MAX,
        core_id < old(vals)@.len() ==> old(vals)@[core_id as int].byt + length <= u64::MAX,
    ensures
        found == (core_id < old(vals)@.len()),
        found ==> final(vals)@ == old(vals)@.update(
            core_id as int,
            counted(old(vals)@[core_id as int], length),
        ),
        !found ==> final(vals)@ == old(vals)@,
        final(vals)@.len() == old(vals)@.len(),
        found ==> final(vals)@[core_id as int].pkt == old(vals)@[core_id as int].pkt + 1,
        found ==> final(vals)@[core_id as int].byt == old(vals)@[core_id as int].byt + length,
        forall|i: int|
            0 <= i < old(vals)@.len() && i != core_id ==> #[trigger] final(vals)@[i] == old(
                vals,
            )@[i],
{
    let idx = core_id as usize;
    if idx >= vals.len() {
        return false;
    }
    let cur = vals[idx];
    vals.set(idx, StatVal { pkt: cur.pkt + 1, byt: cur.byt + length });
    true
}

/// The displayed value of one statistic kind and the last raw total it was
/// computed from.
#[derive(Copy, Debug, Clone, PartialEq, Eq, Structural)]
pub struct StatEntry {
    pub cur: StatVal,
    pub prev: StatVal,
}

impl Default for StatEntry {
    fn default() -> (r: StatEntry)
        ensures
            r == zero_entry(),
    {
        StatEntry { cur: StatVal { pkt: 0, byt: 0 }, prev: StatVal { pkt: 0, byt: 0 } }
    }
}

/// An entry with both counters empty.
pub open spec fn zero_entry() -> StatEntry {
    StatEntry { cur: zero_stat(), prev: zero_stat() }
}

/// The growth of a raw total since the previous snapshot, never negative.
pub open spec fn stat_delta(raw: StatVal, prev: StatVal) -> StatVal {
    StatVal {
        pkt: if raw.pkt >= prev.pkt { (raw.pkt - prev.pkt) as u64 } else { 0 },
        byt: if raw.byt >= prev.byt { (raw.byt - prev.byt) as u64 } else { 0 },
    }
}

impl StatEntry {
    /// Takes a new raw total: returns its growth since the previous snapshot
    /// (saturating at zero) and remembers it as the new snapshot.
    pub fn advance(&mut self, raw: StatVal) -> (delta: StatVal)
        ensures
            delta == stat_delta(raw, old(self).prev),
            *final(self) == (StatEntry { cur: old(self).cur, prev: raw }),
            raw.pkt >= old(self).prev.pkt ==> delta.pkt + old(self).prev.pkt == raw.pkt,
            raw.pkt < old(self).prev.pkt ==> delta.pkt == 0,
            raw.byt >= old(self).prev.byt ==> delta.byt + old(self).prev.byt == raw.byt,
            raw.byt < old(self).prev.byt ==> delta.byt == 0,
    {
        let delta = StatVal {
            pkt: raw.pkt.saturating_sub(self.prev.pkt),
            byt: raw.byt.saturating_sub(self.prev.byt),
        };
        self.prev = raw;
        delta
    }
}


/// The moment a clock reading was taken; carried through, never inspected.
#[verifier::external_type_specification]
#[verifier::external_body]
pub struct ExInstant(Instant);

/// Reads the monotonic clock (`std::time::Instant::now`). Nothing is claimed
/// of the reading: it depends on when the call is made.
#[verifier::external_body]
fn instant_now() -> Instant {
    Instant::now()
}

/// The displayed statistics: one entry per statistic kind, keyed by
/// `stat_key`, and the moment the per-second rates were last refreshed.
pub struct Stats {
    pub entry: HashMap<u32, StatEntry>,
    pub last_update: Instant,
}

impl Default for Stats {
    /// No entries yet; the clock starts now.
    fn default() -> (r: Stats)
        ensures
            r.entry@ == Map::<u32, StatEntry>::empty(),
    {
        Stats { entry: HashMap::new(), last_update: instant_now() }
    }
}

/// `m` with fresh, empty entries under the keys `0..n`, inserted in order.
pub open spec fn with_fresh_entries(m: Map<u32, StatEntry>, n: nat) -> Map<u32, StatEntry>
    decreases n,
{
    if n == 0 {
        m
    } else {
        with_fresh_entries(m, (n - 1) as nat).insert((n - 1) as u32, zero_entry())
    }
}

impl Stats {
    /// Gives `stat_type` a fresh, empty entry.
    pub fn init_entry(&mut self, stat_type: StatType)
        ensures
            final(self).last_update == old(self).last_update,
            final(self).entry@ == old(self).entry@.insert(stat_key(stat_type), zero_entry()),
    {
        self.entry.insert(stat_index(stat_type), StatEntry::default());
    }

    /// Gives every counted statistic kind a fresh, empty entry.
    pub fn init_entries(&mut self)
        ensures
            final(self).last_update == old(self).last_update,
            final(self).entry@ == old(self).entry@.insert(0, zero_entry()).insert(1, zero_entry()).insert(2, zero_entry()).insert(
                3,
                zero_entry(),
            ).insert(4, zero_entry()),
    {
        let all = StatType::all();
        let ghost m0 = self.entry@;
        let mut i: usize = 0;
        while i < 5
            invariant
                i <= 5,
                all@ == seq![StatType::PASS, StatType::DROP, StatType::BAD, StatType::MATCH, StatType::ERROR],
                self.last_update == old(self).last_update,
                self.entry@ == with_fresh_entries(m0, i as nat),
            decreases 5 - i,
        {
            self.init_entry(all[i]);
            i = i + 1;
        }
        assert(with_fresh_entries(m0, 5) == m0.insert(0, zero_entry()).insert(1, zero_entry()).insert(
            2,
            zero_entry(),
        ).insert(3, zero_entry()).insert(4, zero_entry())) by {
            reveal_with_fuel(with_fresh_entries, 6);
        }
    }

    /// The displayed value of `stat_type`, or an empty counter when the kind
    /// has no entry.
    pub fn cur_or_default(&self, stat_type: StatType) -> (r: StatVal)
        ensures
            r == (if self.entry@.contains_key(stat_key(stat_type)) {
                self.entry@[stat_key(stat_type)].cur
            } else {
                zero_stat()
            }),
    {
        let key = stat_index(stat_type);
        match self.entry.get(&key) {
            Some(e) => e.cur,
            None => StatVal::default(),
        }
    }

    /// Shows `val` as the current value of `stat_type`, when the kind has an
    /// entry; a kind without an entry is left out.
    pub fn set_cur(&mut self, stat_type: StatType, val: StatVal)
        ensures
            final(self).last_update == old(self).last_update,
            old(self).entry@.contains_key(stat_key(stat_type)) ==> final(self).entry@ == old(self).entry@.insert(
                stat_key(stat_type),
                StatEntry { cur: val, prev: old(self).entry@[stat_key(stat_type)].prev },
            ),
            !old(self).entry@.contains_key(stat_key(stat_type)) ==> final(self).entry@ == old(self).entry@,
    {
        let key = stat_index(stat_type);
        let found = match self.entry.get(&key) {
            Some(e) => Some(*e),
            None => None,
        };
        if let Some(e) = found {
            self.entry.insert(key, StatEntry { cur: val, prev: e.prev });
        }
    }

    /// Takes a new raw total of `stat_type`: returns its growth since the
    /// entry's snapshot and makes it the new snapshot. `None`, changing
    /// nothing, when the kind has no entry.
    pub fn advance(&mut self, stat_type: StatType, raw: StatVal) -> (delta: Option<StatVal>)
        ensures
            final(self).last_update == old(self).last_update,
            old(self).entry@.contains_key(stat_key(stat_type)) ==> {
                let e = old(self).entry@[stat_key(stat_type)];
                &&& delta == Some(stat_delta(raw, e.prev))
                &&& final(self).entry@ == old(self).entry@.insert(
                    stat_key(stat_type),
                    StatEntry { cur: e.cur, prev: raw },
                )
            },
            !old(self).entry@.contains_key(stat_key(stat_type)) ==> delta is None,
            !old(self).entry@.contains_key(stat_key(stat_type)) ==> final(self).entry@ == old(self).entry@,
    {
        let key = stat_index(stat_type);
        let found = match self.entry.get(&key) {
            Some(e) => Some(*e),
            None => None,
        };
        match found {
            Some(e) => {
                let mut e2 = e;
                let d = e2.advance(raw);
                self.entry.insert(key, e2);
                Some(d)
            },
            None => None,
        }
    }
}

} // verus!
