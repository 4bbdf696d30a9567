use xdpstats::stats::{
    get_stats_rel, inc_cpu_slot, inc_stats, stat_index, sum_cpu_stats, StatEntry, StatType,
    StatVal, Stats,
};

#[test]
fn stat_type_keys() {
    assert_eq!(u32::from(StatType::PASS), 0);
    assert_eq!(u32::from(StatType::DROP), 1);
    assert_eq!(u32::from(StatType::BAD), 2);
    assert_eq!(u32::from(StatType::MATCH), 3);
    assert_eq!(u32::from(StatType::ERROR), 4);
    assert_eq!(u32::from(StatType::STATCNT), 5);
    assert_eq!(stat_index(StatType::MATCH), 3);
    let all = StatType::all();
    assert_eq!(all.len(), 5);
    assert_eq!(all[4], StatType::ERROR);
}

#[test]
fn inc_stats_wraps() {
    let mut m = vec![StatVal { pkt: u64::MAX, byt: u64::MAX - 1 }; 5];
    inc_stats(&mut m, StatType::DROP, 3);
    assert_eq!(m[1], StatVal { pkt: 0, byt: 1 });
    assert_eq!(m[0], StatVal { pkt: u64::MAX, byt: u64::MAX - 1 });
}

#[test]
fn sum_cpu_stats_adds_up() {
    let v = vec![StatVal { pkt: 1, byt: 10 }, StatVal { pkt: 2, byt: 20 }, StatVal { pkt: 3, byt: 30 }];
    assert_eq!(sum_cpu_stats(&v), StatVal { pkt: 6, byt: 60 });
    assert_eq!(sum_cpu_stats(&[]), StatVal::default());
}

#[test]
fn get_stats_rel_is_the_difference() {
    let cur = StatVal { pkt: 10, byt: 1000 };
    let prev = StatVal { pkt: 4, byt: 400 };
    let rel = get_stats_rel(cur, prev);
    assert_eq!(rel, StatVal { pkt: 6, byt: 600 });
    assert_eq!(rel.pkt + prev.pkt, cur.pkt);
}

#[test]
fn inc_cpu_slot_counts_one_cpu() {
    let mut v = vec![StatVal::default(); 4];
    assert!(inc_cpu_slot(&mut v, 2, 1500));
    assert_eq!(v[2], StatVal { pkt: 1, byt: 1500 });
    assert!(!inc_cpu_slot(&mut v, 4, 1500));
    assert_eq!(v.iter().map(|s| s.pkt).sum::<u64>(), 1);
}

#[test]
fn stats_entries() {
    let mut s = Stats::default();
    assert!(s.entry.is_empty());
    assert_eq!(s.cur_or_default(StatType::PASS), StatVal::default());
    assert_eq!(s.advance(StatType::PASS, StatVal { pkt: 5, byt: 50 }), None);
    s.set_cur(StatType::PASS, StatVal { pkt: 1, byt: 1 });
    assert!(s.entry.is_empty());
    s.init_entries();
    assert_eq!(s.entry.len(), 5);
    assert_eq!(s.entry[&3], StatEntry::default());
    s.set_cur(StatType::MATCH, StatVal { pkt: 7, byt: 70 });
    assert_eq!(s.cur_or_default(StatType::MATCH), StatVal { pkt: 7, byt: 70 });
    assert_eq!(s.advance(StatType::MATCH, StatVal { pkt: 5, byt: 50 }), Some(StatVal { pkt: 5, byt: 50 }));
    assert_eq!(s.advance(StatType::MATCH, StatVal { pkt: 8, byt: 40 }), Some(StatVal { pkt: 3, byt: 0 }));
    assert_eq!(s.entry[&3].prev, StatVal { pkt: 8, byt: 40 });
    assert_eq!(s.entry[&3].cur, StatVal { pkt: 7, byt: 70 });
}

#[test]
fn stat_entry_advance_saturates() {
    let mut e = StatEntry::default();
    assert_eq!(e.advance(StatVal { pkt: 3, byt: 30 }), StatVal { pkt: 3, byt: 30 });
    assert_eq!(e.advance(StatVal { pkt: 1, byt: 31 }), StatVal { pkt: 0, byt: 1 });
    assert_eq!(e.prev, StatVal { pkt: 1, byt: 31 });
}
