use xdpstats::csum::{csum_calc_ip, csum_update_u16, csum_update_u32, fold_csum};

#[test]
fn fold_csum_adds_carries() {
    assert_eq!(fold_csum(0x1234_5678), 0x68ac);
    assert_eq!(fold_csum(0xffff_ffff), 0xffff);
    assert_eq!(fold_csum(0), 0);
    assert_eq!(fold_csum(0x1_0000_0000_0001), 1);
}

#[test]
fn csum_update_u16_rfc1624_example() {
    // RFC 1624, section 4: the update must give 0x0000, not 0xFFFF.
    assert_eq!(csum_update_u16(0xDD2F, 0x5555, 0x3285), 0x0000);
    assert_eq!(csum_update_u16(0x1234, 0x0050, 0x1F90), 0xf2f3);
}

#[test]
fn csum_update_u32_undo_restores() {
    let a = 0xC0A8_0001;
    let b = 0x0A00_0002;
    let c1 = csum_update_u32(0xBEEF, a, b);
    assert_eq!(c1, 0x7597);
    assert_eq!(csum_update_u32(c1, b, a), 0xBEEF);
}

#[test]
fn csum_update_u16_undo_restores() {
    let c1 = csum_update_u16(0x1234, 0x0050, 0x1F90);
    assert_eq!(csum_update_u16(c1, 0x1F90, 0x0050), 0x1234);
}

#[test]
fn csum_calc_ip_known_header() {
    let mut hdr = vec![
        0x45, 0x00, 0x00, 0x73, 0x00, 0x00, 0x40, 0x00, 0x40, 0x11, 0xb8, 0x61, 0xc0, 0xa8,
        0x00, 0x01, 0xc0, 0xa8, 0x00, 0xc7,
    ];
    let c = csum_calc_ip(&mut hdr, 0);
    assert_eq!(c, [0xb8, 0x61]);
    assert_eq!(hdr[10], 0);
    assert_eq!(hdr[11], 0);
}

fn header() -> Vec<u8> {
    vec![
        0x45, 0x00, 0x00, 0x73, 0x00, 0x00, 0x40, 0x00, 0x40, 0x11, 0xb8, 0x61, 0xc0, 0xa8,
        0x00, 0x01, 0xc0, 0xa8, 0x00, 0xc7,
    ]
}

#[test]
fn incremental_u16_update_matches_recomputation() {
    let mut h = header();
    let c = u16::from_be_bytes(csum_calc_ip(&mut h, 0));
    // Decrement the TTL: the word at offset 8 goes from 0x4011 to 0x3f11.
    h[8] = 0x3f;
    let recomputed = u16::from_be_bytes(csum_calc_ip(&mut h, 0));
    assert_eq!(csum_update_u16(c, 0x4011, 0x3f11), recomputed);
}

#[test]
fn incremental_u32_update_matches_recomputation() {
    let mut h = header();
    let c = u16::from_be_bytes(csum_calc_ip(&mut h, 0));
    // Rewrite the source address 192.168.0.1 as 10.1.2.3.
    h[12..16].copy_from_slice(&[10, 1, 2, 3]);
    let recomputed = u16::from_be_bytes(csum_calc_ip(&mut h, 0));
    assert_eq!(csum_update_u32(c, 0xC0A8_0001, 0x0A01_0203), recomputed);
}

#[test]
fn written_checksum_verifies() {
    let mut h = header();
    let c = csum_calc_ip(&mut h, 0);
    h[10] = c[0];
    h[11] = c[1];
    let sum: u32 = (0..10).map(|k| (h[2 * k] as u32) << 8 | h[2 * k + 1] as u32).sum();
    assert_eq!(fold_csum(sum as u64), 0xffff);
}

#[test]
fn csum_update_u32_equals_two_u16_updates() {
    let cases: [(u16, u32, u32); 4] = [
        (0xAF17, 0xC0A8_010A, 0x0A00_0007),
        (0x0000, 0xFFFF_FFFF, 0x0000_0000),
        (0xFFFF, 0xFFFF_FFFF, 0x0000_0000),
        (0x1234, 0x0001_0002, 0xFFFE_FFFD),
    ];
    for (c, a, b) in cases {
        let two = csum_update_u16(
            csum_update_u16(c, (a >> 16) as u16, (b >> 16) as u16),
            (a & 0xffff) as u16,
            (b & 0xffff) as u16,
        );
        assert_eq!(csum_update_u32(c, a, b), two);
    }
}
