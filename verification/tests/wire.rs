use network_types::eth::{EthHdr, EtherType};
use network_types::icmp::Icmpv4Hdr;
use network_types::ip::{IpProto, Ipv4Hdr};
use network_types::tcp::TcpHdr;
use network_types::udp::UdpHdr;
use xdpstats::config::TARGET_PROTOCOL;
use xdpstats::wire::{
    read_be16, read_be32, truncate_u16, widen_u16, write_be16, ETH_HDR_LEN, ETH_TYPE_IPV4_HI,
    ETH_TYPE_IPV4_LO, ICMP_HDR_LEN, IPPROTO_ICMP, IPPROTO_TCP, IPPROTO_UDP, IPV4_HDR_LEN,
    TCP_HDR_LEN, UDP_HDR_LEN,
};

#[test]
fn header_sizes_match_network_types() {
    assert_eq!(ETH_HDR_LEN, EthHdr::LEN);
    assert_eq!(IPV4_HDR_LEN, Ipv4Hdr::LEN);
    assert_eq!(TCP_HDR_LEN, TcpHdr::LEN);
    assert_eq!(UDP_HDR_LEN, UdpHdr::LEN);
    assert_eq!(ICMP_HDR_LEN, Icmpv4Hdr::LEN);
}

#[test]
fn protocol_numbers_match_network_types() {
    assert_eq!(IPPROTO_TCP, IpProto::Tcp as u8);
    assert_eq!(IPPROTO_UDP, IpProto::Udp as u8);
    assert_eq!(IPPROTO_ICMP, IpProto::Icmp as u8);
    assert_eq!(TARGET_PROTOCOL, IpProto::Udp as u8);
    let hdr = EthHdr {
        dst_addr: [0; 6],
        src_addr: [0; 6],
        ether_type: u16::from_ne_bytes([ETH_TYPE_IPV4_HI, ETH_TYPE_IPV4_LO]),
    };
    assert!(matches!(hdr.ether_type(), Ok(EtherType::Ipv4)));
}

#[test]
fn big_endian_access() {
    let mut b = vec![0x12, 0x34, 0x56, 0x78];
    assert_eq!(read_be16(&b, 0), 0x1234);
    assert_eq!(read_be32(&b, 0), 0x1234_5678);
    write_be16(&mut b, 2, 0xabcd);
    assert_eq!(b, vec![0x12, 0x34, 0xab, 0xcd]);
    assert_eq!(truncate_u16(65537), 1);
    assert_eq!(widen_u16(0xffff), 0xffff);
}
