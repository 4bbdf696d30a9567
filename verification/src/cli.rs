//! Command-line options and log levels.
use vstd::prelude::*;

use crate::text::{comma_pieces, split_trimmed, trimmed};

verus! {

/// How much gets logged, from the most verbose level to the least.
#[derive(Clone, Copy, Debug, PartialEq, Eq, Hash, Structural)]
pub enum LogLevel {
    Trace,
    Debug,
    Info,
    Warn,
    Error,
    Fatal,
}

/// The position of a level in verbosity order.
pub open spec fn level_rank(l: LogLevel) -> u8 {
    match l {
        LogLevel::Trace => 0,
        LogLevel::Debug => 1,
        LogLevel::Info => 2,
        LogLevel::Warn => 3,
        LogLevel::Error => 4,
        LogLevel::Fatal => 5,
    }
}

/// The levels rank from the most verbose to the least: `Trace`, `Debug`,
/// `Info`, `Warn`, `Error`, `Fatal`, each strictly above the one before.
pub proof fn lemma_level_order()
    ensures
        level_rank(LogLevel::Trace) < level_rank(LogLevel::Debug),
        level_rank(LogLevel::Debug) < level_rank(LogLevel::Info),
        level_rank(LogLevel::Info) < level_rank(LogLevel::Warn),
        level_rank(LogLevel::Warn) < level_rank(LogLevel::Error),
        level_rank(LogLevel::Error) < level_rank(LogLevel::Fatal),
{
}

/// Two levels with the same rank are the same level.
pub proof fn lemma_level_rank_injective(a: LogLevel, b: LogLevel)
    ensures
        level_rank(a) == level_rank(b) <==> a == b,
{
}

impl Default for LogLevel {
    /// `Info` is the default level.
    fn default() -> (r: LogLevel)
        ensures
            r == LogLevel::Info,
    {
        LogLevel::Info
    }
}

impl LogLevel {
    /// The level's position in verbosity order.
    pub fn rank(&self) -> (r: u8)
        ensures
            r == level_rank(*self),
    {
        match self {
            LogLevel::Trace => 0,
            LogLevel::Debug => 1,
            LogLevel::Info => 2,
            LogLevel::Warn => 3,
            LogLevel::Error => 4,
            LogLevel::Fatal => 5,
        }
    }

    /// The level's name as it appears in a log line.
    pub fn as_str(&self) -> (r: &'static str)
        ensures
            r@ == level_name(*self),
    {
        match self {
            LogLevel::Trace => "TRACE",
            LogLevel::Debug => "DEBUG",
            LogLevel::Info => "INFO",
            LogLevel::Warn => "WARN",
            LogLevel::Error => "ERROR",
            LogLevel::Fatal => "FATAL",
        }
    }
}

/// The name of a level in a log line.
pub open spec fn level_name(l: LogLevel) -> Seq<char> {
    match l {
        LogLevel::Trace => "TRACE"@,
        LogLevel::Debug => "DEBUG"@,
        LogLevel::Info => "INFO"@,
        LogLevel::Warn => "WARN"@,
        LogLevel::Error => "ERROR"@,
        LogLevel::Fatal => "FATAL"@,
    }
}

/// The program's command-line options.
#[derive(Debug, Clone)]
pub struct CliOpts {
    pub log_level: LogLevel,
    pub list: bool,
    pub backlog: usize,
    pub iface: String,
    pub duration: u64,
    pub afxdp: bool,
    pub afxdp_num_socks: u32,
    pub afxdp_batch_size: u32,
    pub afxdp_rx_q_size: u32,
    pub afxdp_tx_q_size: u32,
    pub afxdp_cq_size: u32,
    pub afxdp_frame_size: u32,
    pub afxdp_frame_count: u32,
    pub afxdp_need_wakeup: bool,
    pub afxdp_zero_copy: bool,
    pub afxdp_shared_umem: bool,
    pub afxdp_queue_id: Option<u16>,
    pub afxdp_poll_ms_timeout: i32,
    pub afxdp_fq_size: u32,
    pub watch: bool,
    pub skb: bool,
    pub offload: bool,
    pub replace: bool,
    pub per_sec: bool,
    pub sec_name: String,
}

impl CliOpts {
    /// The interfaces named by the `iface` option: the comma-separated names,
    /// each with surrounding whitespace removed.
    pub fn get_ifaces(&self) -> (r: Vec<String>)
        ensures
            r@.len() == comma_pieces(self.iface@).len(),
            forall|k: int|
                0 <= k < r@.len() ==> #[trigger] r@[k]@ == trimmed(comma_pieces(self.iface@)[k]),
    {
        split_trimmed(self.iface.as_str())
    }

    /// Whether a run that has lasted `elapsed_secs` seconds is over: the
    /// `duration` option gives its length in seconds, and 0 runs it until it
    /// is stopped.
    pub fn duration_over(&self, elapsed_secs: u64) -> (r: bool)
        ensures
            r == (self.duration > 0 && elapsed_secs >= self.duration),
    {
        self.duration > 0 && elapsed_secs >= self.duration
    }
}

} // verus!
