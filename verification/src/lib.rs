//! Verified packet-processing logic of the XDP statistics tool: one's-complement
//! checksums, header rewriting for transmit-back, the XDP verdict, per-CPU
//! statistics accounting, AF_XDP bookkeeping and option handling.
pub mod config;
pub mod csum;
pub mod wire;
pub mod net;
pub mod stats;
pub mod protocol;
pub mod ctx;
pub mod tx;
pub mod fib;
pub mod xdp;
pub mod text;
pub mod cli;
pub mod logger;
pub mod afxdp;
pub mod watch;
pub mod attach;
