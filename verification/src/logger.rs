//! Log-level filtering, log-line formatting and the bounded buffer of recent
//! lines shown in watch mode.
use vstd::prelude::*;

use std::collections::VecDeque;
use std::sync::{Arc, Mutex};

use crate::cli::{level_name, level_rank, LogLevel};

verus! {

/// Default number of log lines kept for watch mode.
pub const BACKLOG_DEFAULT_SZ: usize = 200;

/// A lock; carried through, never inspected here.
#[verifier::external_type_specification]
#[verifier::external_body]
#[verifier::reject_recursive_types(T)]
pub struct ExMutex<T: ?Sized>(Mutex<T>);

/// The shared buffer of recent log lines.
pub type LogBuffer = Arc<Mutex<VecDeque<String>>>;

/// The logger: the least severe level that is logged, the buffer of recent
/// lines (in watch mode) and how many lines it keeps.
#[derive(Clone)]
pub struct LoggerBase {
    pub log_level: LogLevel,
    pub buffer: Option<LogBuffer>,
    pub backlog: usize,
}

pub type Logger = LoggerBase;

impl Default for LoggerBase {
    /// Logs at the default level, without a buffer.
    fn default() -> (r: LoggerBase)
        ensures
            r.log_level == LogLevel::Info,
            r.buffer is None,
            r.backlog == 0,
    {
        LoggerBase { log_level: LogLevel::Info, buffer: None, backlog: 0 }
    }
}

/// The text of a log line at `level` with message `msg`: `[LEVEL] msg`.
pub open spec fn log_line_text(level: LogLevel, msg: Seq<char>) -> Seq<char> {
    "["@ + level_name(level) + "] "@ + msg
}

impl LoggerBase {
    /// A logger with the given level, buffer and backlog.
    pub fn new(log_level: LogLevel, buffer: Option<LogBuffer>, backlog: usize) -> (r: Self)
        ensures
            r.log_level == log_level,
            r.buffer == buffer,
            r.backlog == backlog,
    {
        Self { log_level, buffer, backlog }
    }

    /// Whether a message at `req_level` is logged: it must be at least as
    /// severe as the logger's level.
    pub fn enabled(&self, req_level: LogLevel) -> (r: bool)
        ensures
            r == (level_rank(req_level) >= level_rank(self.log_level)),
            req_level == self.log_level ==> r,
            req_level == LogLevel::Fatal ==> r,
            self.log_level == LogLevel::Trace ==> r,
            self.log_level == LogLevel::Info ==> (r <==> !(req_level == LogLevel::Trace
                || req_level == LogLevel::Debug)),
            self.log_level == LogLevel::Debug ==> (r <==> req_level != LogLevel::Trace),
    {
        !(req_level.rank() < self.log_level.rank())
    }

    /// The line to log for a message at `req_level`, or `None` when the level
    /// is filtered out.
    pub fn log_line(&self, req_level: LogLevel, msg: &str) -> (r: Option<String>)
        ensures
            level_rank(req_level) < level_rank(self.log_level) ==> r is None,
            level_rank(req_level) >= level_rank(self.log_level) ==> r is Some && r->0@
                == log_line_text(req_level, msg@),
    {
        if !self.enabled(req_level) {
            return None;
        }
        Some(format_line(req_level, msg))
    }
}

/// Formats a log line: `[LEVEL] msg`.
pub fn format_line(level: LogLevel, msg: &str) -> (r: String)
    ensures
        r@ == log_line_text(level, msg@),
{
    let mut line = String::from_str("[");
    line.append(level.as_str());
    line.append("] ");
    line.append(msg);
    line
}

/// The buffer after `line` was added: when it already holds `backlog` lines
/// or more, its oldest line makes room first.
pub open spec fn pushed_bounded(buf: Seq<String>, backlog: nat, line: String) -> Seq<String> {
    if buf.len() >= backlog && buf.len() > 0 {
        buf.drop_first().push(line)
    } else {
        buf.push(line)
    }
}

/// Appends a log line to the buffer, dropping the oldest line first when the
/// buffer holds `backlog` lines or more.
pub fn push_bounded(buf: &mut VecDeque<String>, backlog: usize, line: String)
    ensures
        final(buf)@ == pushed_bounded(old(buf)@, backlog as nat, line),
        final(buf)@.len() > 0 && final(buf)@.last() == line,
        old(buf)@.len() < backlog || old(buf)@.len() == 0 ==> final(buf)@ == old(buf)@.push(line),
        old(buf)@.len() >= backlog && old(buf)@.len() > 0 ==> final(buf)@.len() == old(buf)@.len()
            && final(buf)@.subrange(0, old(buf)@.len() - 1) == old(buf)@.subrange(
            1,
            old(buf)@.len() as int,
        ),
{
    if buf.len() >= backlog {
        let _ = buf.pop_front();
    }
    buf.push_back(line);
    proof {
        if old(buf)@.len() >= backlog && old(buf)@.len() > 0 {
            assert(old(buf)@.subrange(1, old(buf)@.len() as int) =~= old(buf)@.drop_first());
            assert(buf@.subrange(0, old(buf)@.len() - 1) =~= old(buf)@.subrange(
                1,
                old(buf)@.len() as int,
            ));
        }
    }
}

/// The buffer never holds more than `backlog` lines (one, when `backlog` is
/// zero), and its last line is the newest.
pub proof fn lemma_push_bounded_keeps_bound(buf: Seq<String>, backlog: nat, line: String)
    requires
        buf.len() <= if backlog == 0 {
            1
        } else {
            backlog
        },
    ensures
        pushed_bounded(buf, backlog, line).len() <= if backlog == 0 {
            1
        } else {
            backlog
        },
        pushed_bounded(buf, backlog, line).last() == line,
{
}

} // verus!
