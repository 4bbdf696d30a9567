//! Options of the live watch view.
use vstd::prelude::*;

verus! {

/// How many samples of history the watch view keeps per statistic.
pub const HISTORY_LEN: usize = 60;

/// What the watch view charts: packet or byte counts.
#[derive(Clone, Copy, Debug, PartialEq, Eq, Structural)]
pub enum ViewMode {
    Packets,
    Bytes,
}

} // verus!
