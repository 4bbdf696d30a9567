use xdpstats::afxdp::{
    count_completed, count_enqueued, process_packet, refill_step, rx_frame_outcome, socket_count,
    split_frames, Action,
};
use xdpstats::stats::StatType;
use xdpstats::watch::ViewMode;

#[test]
fn process_packet_by_feature() {
    assert_eq!(process_packet(&[1, 2, 3], true), Action::Tx);
    assert_eq!(process_packet(&[1, 2, 3], false), Action::Drop);
}

#[test]
fn frames_split() {
    assert_eq!(split_frames(4096, 64), 2048);
    assert_eq!(split_frames(100, 64), 100);
    assert_eq!(split_frames(400, 64), 200);
    assert_eq!(split_frames(200, 64), 128);
}

#[test]
fn rx_outcomes() {
    assert_eq!(rx_frame_outcome(Action::Tx, true), (StatType::MATCH, false));
    assert_eq!(rx_frame_outcome(Action::Tx, false), (StatType::DROP, true));
    assert_eq!(rx_frame_outcome(Action::Drop, true), (StatType::MATCH, true));
}

#[test]
fn tx_accounting() {
    assert_eq!(count_enqueued(0, 64), (1, false));
    assert_eq!(count_enqueued(63, 64), (64, true));
    assert_eq!(count_completed(10, 4), 6);
    assert_eq!(count_completed(3, 4), 0);
}

#[test]
fn sockets_per_cpu() {
    assert_eq!(socket_count(0, 8), 8);
    assert_eq!(socket_count(2, 8), 2);
}

#[test]
fn view_modes_differ() {
    assert_ne!(ViewMode::Packets, ViewMode::Bytes);
}

#[test]
fn refill_offers_each_frame_once() {
    // Ten free frames; the ring takes 4, then 3, then is full.
    assert_eq!(refill_step(10, 0, 4), (4, true));
    assert_eq!(refill_step(10, 4, 3), (7, true));
    assert_eq!(refill_step(10, 7, 0), (7, false));
    // Everything taken in one go.
    assert_eq!(refill_step(5, 0, 5), (5, false));
    // The last frames taken end the offering.
    assert_eq!(refill_step(5, 3, 2), (5, false));
}
