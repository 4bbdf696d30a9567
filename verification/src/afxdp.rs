//! AF_XDP socket options and the bookkeeping of the socket's frames.
use vstd::prelude::*;

use crate::cli::CliOpts;
use crate::stats::StatType;
use crate::text::{comma_pieces, first_piece};

verus! {

/// What to do with a packet received on an AF_XDP socket.
#[derive(Clone, Copy, Debug, PartialEq, Eq, Structural)]
pub enum Action {
    Drop,
    Tx,
}

/// Decides what to do with a received packet: send it back out when the
/// program was built to transmit (`tx`), drop it otherwise.
pub fn process_packet(_pkt: &[u8], tx: bool) -> (r: Action)
    ensures
        r == (if tx {
            Action::Tx
        } else {
            Action::Drop
        }),
{
    if tx {
        return Action::Tx;
    }
    Action::Drop
}

/// The options of the AF_XDP sockets.
#[derive(Debug, Clone)]
pub struct AfXdpOpts {
    pub iface: String,
    pub queue_id: Option<u16>,
    pub batch_size: u32,
    pub need_wakeup: bool,
    pub zero_copy: bool,
    pub shared_umem: bool,
    pub poll_ms_timeout: i32,
    pub rx_q_size: u32,
    pub tx_q_size: u32,
    pub cq_size: u32,
    pub fq_size: u32,
    pub frame_size: u32,
    pub frame_count: u32,
}

impl Default for AfXdpOpts {
    fn default() -> (r: AfXdpOpts)
        ensures
            r.iface@ == Seq::<char>::empty(),
            r.queue_id is None,
            r.batch_size == 64,
            !r.need_wakeup,
            r.zero_copy,
            !r.shared_umem,
            r.poll_ms_timeout == 100,
            r.rx_q_size == 2048,
            r.tx_q_size == 2048,
            r.cq_size == 2048,
            r.fq_size == 2048,
            r.frame_size == 2048,
            r.frame_count == 4096,
    {
        Self {
            iface: String::new(),
            queue_id: None,
            batch_size: 64,
            need_wakeup: false,
            zero_copy: true,
            shared_umem: false,
            poll_ms_timeout: 100,
            rx_q_size: 2048,
            tx_q_size: 2048,
            cq_size: 2048,
            fq_size: 2048,
            frame_size: 2048,
            frame_count: 4096,
        }
    }
}

impl AfXdpOpts {
    /// The AF_XDP options given on the command line; the interface is the
    /// first of the comma-separated `iface` list, as written.
    pub fn from_cli(opts: &CliOpts) -> (r: AfXdpOpts)
        ensures
            r.iface@ == comma_pieces(opts.iface@)[0],
            r.batch_size == opts.afxdp_batch_size,
            r.need_wakeup == opts.afxdp_need_wakeup,
            r.zero_copy == opts.afxdp_zero_copy,
            r.shared_umem == opts.afxdp_shared_umem,
            r.poll_ms_timeout == opts.afxdp_poll_ms_timeout,
            r.queue_id == opts.afxdp_queue_id,
            r.rx_q_size == opts.afxdp_rx_q_size,
            r.tx_q_size == opts.afxdp_tx_q_size,
            r.cq_size == opts.afxdp_cq_size,
            r.fq_size == opts.afxdp_fq_size,
            r.frame_size == opts.afxdp_frame_size,
            r.frame_count == opts.afxdp_frame_count,
    {
        Self {
            iface: first_piece(opts.iface.as_str()),
            batch_size: opts.afxdp_batch_size,
            need_wakeup: opts.afxdp_need_wakeup,
            zero_copy: opts.afxdp_zero_copy,
            shared_umem: opts.afxdp_shared_umem,
            poll_ms_timeout: opts.afxdp_poll_ms_timeout,
            queue_id: opts.afxdp_queue_id,
            rx_q_size: opts.afxdp_rx_q_size,
            tx_q_size: opts.afxdp_tx_q_size,
            cq_size: opts.afxdp_cq_size,
            fq_size: opts.afxdp_fq_size,
            frame_size: opts.afxdp_frame_size,
            frame_count: opts.afxdp_frame_count,
        }
    }
}

/// The configuration of one AF_XDP socket.
#[derive(Debug, Clone)]
pub struct XskTxConfig {
    pub if_name: String,
    pub queue_id: u16,
    pub rx_q_size: u32,
    pub tx_q_size: u32,
    pub cq_size: u32,
    pub fq_size: u32,
    pub frame_size: u32,
    pub frame_count: u32,
    pub batch_size: usize,
    pub need_wakeup: bool,
    pub zero_copy: bool,
    pub shared_umem: bool,
    pub poll_ms_timeout: i32,
}

impl XskTxConfig {
    /// The socket configuration the AF_XDP options give; the interface name
    /// is left empty and the queue defaults to 0.
    pub fn from_opts(opts: &AfXdpOpts) -> (r: XskTxConfig)
        ensures
            r.if_name@ == Seq::<char>::empty(),
            r.queue_id == (match opts.queue_id {
                Some(q) => q,
                None => 0,
            }),
            r.rx_q_size == opts.rx_q_size,
            r.tx_q_size == opts.tx_q_size,
            r.cq_size == opts.cq_size,
            r.fq_size == opts.fq_size,
            r.frame_size == opts.frame_size,
            r.frame_count == opts.frame_count,
            r.batch_size == opts.batch_size,
            r.need_wakeup == opts.need_wakeup,
            r.zero_copy == opts.zero_copy,
            r.shared_umem == opts.shared_umem,
            r.poll_ms_timeout == opts.poll_ms_timeout,
    {
        Self {
            if_name: String::new(),
            queue_id: opts.queue_id.unwrap_or(0),
            rx_q_size: opts.rx_q_size,
            tx_q_size: opts.tx_q_size,
            cq_size: opts.cq_size,
            fq_size: opts.fq_size,
            frame_size: opts.frame_size,
            frame_count: opts.frame_count,
            batch_size: opts.batch_size as usize,
            need_wakeup: opts.need_wakeup,
            zero_copy: opts.zero_copy,
            shared_umem: opts.shared_umem,
            poll_ms_timeout: opts.poll_ms_timeout,
        }
    }

    /// The configuration of the socket that worker `_thread_id` opens on
    /// `iface`: the queue given on the command line, or queue 0 when none was
    /// given. The worker's number does not choose the queue: every worker
    /// binds the same one, as the `--queue-id` option documents, so
    /// `_thread_id` is unused.
    pub fn for_thread(opts: &CliOpts, _thread_id: u32, iface: &str, shared_umem: bool) -> (r:
        XskTxConfig)
        ensures
            r.if_name@ == iface@,
            r.queue_id == (match opts.afxdp_queue_id {
                Some(q) => q,
                None => 0,
            }),
            r.rx_q_size == opts.afxdp_rx_q_size,
            r.tx_q_size == opts.afxdp_tx_q_size,
            r.cq_size == opts.afxdp_cq_size,
            r.fq_size == opts.afxdp_fq_size,
            r.frame_size == opts.afxdp_frame_size,
            r.frame_count == opts.afxdp_frame_count,
            r.batch_size == opts.afxdp_batch_size,
            r.need_wakeup == opts.afxdp_need_wakeup,
            r.zero_copy == opts.afxdp_zero_copy,
            r.shared_umem == shared_umem,
            r.poll_ms_timeout == opts.afxdp_poll_ms_timeout,
    {
        Self {
            if_name: String::from_str(iface),
            queue_id: opts.afxdp_queue_id.unwrap_or(0),
            rx_q_size: opts.afxdp_rx_q_size,
            tx_q_size: opts.afxdp_tx_q_size,
            cq_size: opts.afxdp_cq_size,
            fq_size: opts.afxdp_fq_size,
            frame_size: opts.afxdp_frame_size,
            frame_count: opts.afxdp_frame_count,
            batch_size: opts.afxdp_batch_size as usize,
            need_wakeup: opts.afxdp_need_wakeup,
            zero_copy: opts.afxdp_zero_copy,
            shared_umem,
            poll_ms_timeout: opts.afxdp_poll_ms_timeout,
        }
    }
}

/// How many AF_XDP sockets to open: the number asked for, or one per CPU
/// when none was asked for.
pub fn socket_count(requested: u32, cpus: usize) -> (r: u32)
    ensures
        r == (if requested == 0 {
            cpus as u32
        } else {
            requested
        }),
{
    if requested == 0 {
        cpus as u32
    } else {
        requested
    }
}

/// How many of a UMEM's `total` frames are set aside for sending: half of
/// them, but at least two batches, and never more than there are.
pub fn split_frames(total: usize, batch_size: usize) -> (tx_count: usize)
    requires
        batch_size * 2 <= usize::MAX,
    ensures
        tx_count as int == (if total / 2 >= batch_size * 2 {
            (total / 2) as int
        } else if batch_size * 2 <= total {
            batch_size * 2
        } else {
            total as int
        }),
        tx_count <= total,
{
    let half = total / 2;
    let two_batches = batch_size * 2;
    let at_least = if half >= two_batches {
        half
    } else {
        two_batches
    };
    if at_least <= total {
        at_least
    } else {
        total
    }
}

/// What becomes of a received frame: the statistic it is counted under and
/// whether the frame goes back to the fill queue for reception. A frame that
/// is queued for sending stays with the send path.
pub fn rx_frame_outcome(action: Action, enqueued: bool) -> (r: (StatType, bool))
    ensures
        r == (match action {
            Action::Tx => if enqueued {
                (StatType::MATCH, false)
            } else {
                (StatType::DROP, true)
            },
            Action::Drop => (StatType::MATCH, true),
        }),
{
    match action {
        Action::Tx => if enqueued {
            (StatType::MATCH, false)
        } else {
            (StatType::DROP, true)
        },
        Action::Drop => (StatType::MATCH, true),
    }
}

/// One step of handing the free receive frames back to the fill ring.
/// `taken` of the `free_len` free frames were accepted so far, and the ring
/// has just accepted `accepted` more of those offered from `taken` on.
/// Returns how many are taken now and whether to offer the rest. The next
/// offer starts after every frame already accepted, so no frame is handed
/// over twice; the offering stops once every frame is taken or the ring
/// accepts none (it is full, and the rest wait for the next receive). The
/// frames taken leave the free list and the others stay in it.
pub fn refill_step(free_len: usize, taken: usize, accepted: usize) -> (r: (usize, bool))
    requires
        taken <= free_len,
        accepted <= free_len - taken,
    ensures
        r.0 == taken + accepted,
        r.0 <= free_len,
        r.1 == (accepted > 0 && r.0 < free_len),
{
    let now = taken + accepted;
    (now, accepted > 0 && now < free_len)
}

/// Counts one more frame in flight on the send ring. Returns the new count
/// and whether the completion queue should be drained now (a full batch is
/// in flight).
pub fn count_enqueued(outstanding: u32, batch_size: usize) -> (r: (u32, bool))
    requires
        outstanding < u32::MAX,
    ensures
        r.0 == outstanding + 1,
        r.1 == (r.0 >= batch_size as u32),
{
    let n = outstanding + 1;
    let batch = batch_size as u32;
    (n, n >= batch)
}

/// The frames still in flight after `completed` of them completed; never
/// below zero.
pub fn count_completed(outstanding: u32, completed: usize) -> (r: u32)
    ensures
        r == (if outstanding >= completed as u32 {
            (outstanding - completed as u32) as u32
        } else {
            0
        }),
{
    outstanding.saturating_sub(completed as u32)
}

} // verus!
