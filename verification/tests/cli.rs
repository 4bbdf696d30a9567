use xdpstats::afxdp::{AfXdpOpts, XskTxConfig};
use xdpstats::cli::{CliOpts, LogLevel};

fn opts(iface: &str) -> CliOpts {
    CliOpts {
        log_level: LogLevel::Info,
        list: false,
        backlog: 200,
        iface: iface.to_string(),
        duration: 0,
        afxdp: false,
        afxdp_num_socks: 0,
        afxdp_batch_size: 64,
        afxdp_rx_q_size: 2048,
        afxdp_tx_q_size: 2048,
        afxdp_cq_size: 2048,
        afxdp_frame_size: 2048,
        afxdp_frame_count: 4096,
        afxdp_need_wakeup: false,
        afxdp_zero_copy: true,
        afxdp_shared_umem: false,
        afxdp_queue_id: None,
        afxdp_poll_ms_timeout: 100,
        afxdp_fq_size: 2048,
        watch: false,
        skb: false,
        offload: false,
        replace: false,
        per_sec: false,
        sec_name: "xdp_stats".to_string(),
    }
}

#[test]
fn get_ifaces_splits_and_trims() {
    assert_eq!(opts("eth0").get_ifaces(), vec!["eth0".to_string()]);
    assert_eq!(
        opts(" eth0 ,eth1,\tens3\n").get_ifaces(),
        vec!["eth0".to_string(), "eth1".to_string(), "ens3".to_string()]
    );
    assert_eq!(opts("").get_ifaces(), vec!["".to_string()]);
    assert_eq!(opts("a,,b,").get_ifaces(), vec!["a", "", "b", ""]);
    assert_eq!(opts("\u{a0}wlan0\u{3000}").get_ifaces(), vec!["wlan0"]);
}

#[test]
fn afxdp_opts_from_cli_takes_first_iface_untrimmed() {
    let mut o = opts(" eth0 ,eth1");
    o.afxdp_queue_id = Some(3);
    o.afxdp_batch_size = 32;
    let a = AfXdpOpts::from_cli(&o);
    assert_eq!(a.iface, " eth0 ");
    assert_eq!(a.queue_id, Some(3));
    assert_eq!(a.batch_size, 32);
    assert_eq!(AfXdpOpts::from_cli(&opts("lo")).iface, "lo");
}

#[test]
fn afxdp_opts_default() {
    let d = AfXdpOpts::default();
    assert_eq!(d.iface, "");
    assert_eq!(d.queue_id, None);
    assert_eq!(d.batch_size, 64);
    assert!(d.zero_copy);
    assert_eq!(d.frame_count, 4096);
    assert_eq!(d.poll_ms_timeout, 100);
}

#[test]
fn xsk_config_from_opts_and_for_thread() {
    let c = XskTxConfig::from_opts(&AfXdpOpts::default());
    assert_eq!(c.if_name, "");
    assert_eq!(c.queue_id, 0);
    assert_eq!(c.batch_size, 64);
    let mut o = opts("eth0");
    let t = XskTxConfig::for_thread(&o, 70000, "eth0", true);
    assert_eq!(t.queue_id, 0);
    assert_eq!(t.if_name, "eth0");
    assert!(t.shared_umem);
    o.afxdp_queue_id = Some(9);
    assert_eq!(XskTxConfig::for_thread(&o, 2, "eth0", false).queue_id, 9);
}

#[test]
fn log_level_order_and_names() {
    assert!(LogLevel::Trace.rank() < LogLevel::Fatal.rank());
    assert_eq!(LogLevel::Warn.as_str(), "WARN");
    assert_eq!(LogLevel::default(), LogLevel::Info);
}

#[test]
fn whitespace_agrees_with_std_on_every_char() {
    for u in 0..=0x10FFFFu32 {
        if let Some(c) = char::from_u32(u) {
            assert_eq!(xdpstats::text::char_is_whitespace(c), c.is_whitespace(), "U+{u:04X}");
        }
    }
}

#[test]
fn duration_zero_runs_forever() {
    let mut o = opts("eth0");
    assert!(!o.duration_over(0));
    assert!(!o.duration_over(1_000_000));
    o.duration = 10;
    assert!(!o.duration_over(9));
    assert!(o.duration_over(10));
    assert!(o.duration_over(11));
}
