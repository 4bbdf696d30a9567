use xdpstats::protocol::Protocol;

fn tcp_segment() -> Vec<u8> {
    // Ports 80 -> 443, checksum 0xABCD at offset 16.
    let mut s = vec![0u8; 20];
    s[0] = 0;
    s[1] = 80;
    s[2] = 0x01;
    s[3] = 0xbb;
    s[16] = 0xab;
    s[17] = 0xcd;
    s
}

#[test]
fn protocol_new_by_number() {
    assert_eq!(Protocol::new(6, 34), Protocol::Tcp(34));
    assert_eq!(Protocol::new(17, 34), Protocol::Udp(34));
    assert_eq!(Protocol::new(1, 34), Protocol::Icmp);
    assert_eq!(Protocol::new(47, 34), Protocol::Icmp);
}

#[test]
fn protocol_ports() {
    let s = tcp_segment();
    let p = Protocol::Tcp(0);
    assert_eq!(p.get_src_port(&s), Some(80));
    assert_eq!(p.get_dst_port(&s), Some(443));
    assert_eq!(Protocol::Icmp.get_src_port(&s), None);
    assert_eq!(Protocol::Icmp.get_dst_port(&s), None);
}

#[test]
fn protocol_swap_ports() {
    let mut s = tcp_segment();
    Protocol::Tcp(0).swap_ports(&mut s);
    assert_eq!(Protocol::Tcp(0).get_src_port(&s), Some(443));
    assert_eq!(Protocol::Tcp(0).get_dst_port(&s), Some(80));
    let before = s.clone();
    Protocol::Icmp.swap_ports(&mut s);
    assert_eq!(s, before);
}

#[test]
fn protocol_calc_csum_after_address_swap_keeps_checksum() {
    let mut s = tcp_segment();
    Protocol::Tcp(0).calc_csum(&mut s, 0xC0A8_0001, 0x0A00_0002);
    assert_eq!((s[16], s[17]), (0xab, 0xcd));
    // The all-ones checksum comes back as the other zero.
    s[16] = 0xff;
    s[17] = 0xff;
    Protocol::Tcp(0).calc_csum(&mut s, 0xC0A8_0001, 0x0A00_0002);
    assert_eq!((s[16], s[17]), (0, 0));
}
