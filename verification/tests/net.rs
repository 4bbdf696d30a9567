use xdpstats::net::{swap_eth, swap_ip, swap_port};

#[test]
fn swap_eth_exchanges_six_bytes() {
    let mut a = vec![1, 2, 3, 4, 5, 6, 99];
    let mut b = vec![7, 8, 9, 10, 11, 12];
    swap_eth(&mut a, &mut b);
    assert_eq!(a, vec![7, 8, 9, 10, 11, 12, 99]);
    assert_eq!(b, vec![1, 2, 3, 4, 5, 6]);
    swap_eth(&mut a, &mut b);
    assert_eq!(a, vec![1, 2, 3, 4, 5, 6, 99]);
    assert_eq!(b, vec![7, 8, 9, 10, 11, 12]);
}

#[test]
fn swap_ip_exchanges_four_bytes() {
    let mut a = [192, 168, 0, 1];
    let mut b = [10, 0, 0, 2, 7];
    swap_ip(&mut a, &mut b);
    assert_eq!(a, [10, 0, 0, 2]);
    assert_eq!(b, [192, 168, 0, 1, 7]);
}

#[test]
fn swap_port_exchanges_two_bytes() {
    let mut a = [0x1f, 0x90];
    let mut b = [0x00, 0x35];
    swap_port(&mut a, &mut b);
    assert_eq!(a, [0x00, 0x35]);
    assert_eq!(b, [0x1f, 0x90]);
}
