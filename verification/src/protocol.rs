//! The transport protocol of a packet and the header fields it exposes.
use vstd::prelude::*;

use crate::csum::{csum_after_u32_word, csum_update_u32};
use crate::wire::{
    be16_word, offset, put_be16, read_be16, swap_bytes_at, swapped, write_be16, IPPROTO_TCP, IPPROTO_UDP,
    L4_DST_PORT_OFF, L4_SRC_PORT_OFF, TCP_CHECK_OFF, TCP_HDR_LEN, UDP_CHECK_OFF, UDP_HDR_LEN,
};

verus! {

/// The transport protocol of a packet, with the offset of its header in the
/// packet for TCP and UDP.
#[derive(Clone, Copy, Debug, PartialEq, Eq, Structural)]
pub enum Protocol {
    Tcp(usize),
    Udp(usize),
    Icmp,
}

impl Protocol {
    /// The protocol's header lies within a packet of `len` bytes.
    pub open spec fn fits(self, len: usize) -> bool {
        match self {
            Protocol::Tcp(off) => off + TCP_HDR_LEN <= len,
            Protocol::Udp(off) => off + UDP_HDR_LEN <= len,
            Protocol::Icmp => true,
        }
    }

    /// TCP or UDP: a transport header with ports and a checksum.
    pub open spec fn is_l4(self) -> bool {
        !(self is Icmp)
    }

    /// The offset of the header's checksum, for TCP and UDP.
    pub open spec fn check_off(self) -> int {
        match self {
            Protocol::Tcp(off) => off + TCP_CHECK_OFF,
            Protocol::Udp(off) => off + UDP_CHECK_OFF,
            Protocol::Icmp => 0,
        }
    }

    /// The offset of the header, for TCP and UDP.
    pub open spec fn hdr_off(self) -> int {
        match self {
            Protocol::Tcp(off) => offset(off),
            Protocol::Udp(off) => offset(off),
            Protocol::Icmp => 0,
        }
    }

    /// The source port in packet `p`, for TCP and UDP.
    pub open spec fn src_port(self, p: Seq<u8>) -> Option<u16> {
        match self {
            Protocol::Icmp => None,
            _ => Some(be16_word(p, self.hdr_off() + L4_SRC_PORT_OFF)),
        }
    }

    /// The destination port in packet `p`, for TCP and UDP.
    pub open spec fn dst_port(self, p: Seq<u8>) -> Option<u16> {
        match self {
            Protocol::Icmp => None,
            _ => Some(be16_word(p, self.hdr_off() + L4_DST_PORT_OFF)),
        }
    }

    /// Packet `p` with the ports of a TCP or UDP header exchanged.
    pub open spec fn ports_swapped(self, p: Seq<u8>) -> Seq<u8> {
        match self {
            Protocol::Icmp => p,
            _ => swapped(p, self.hdr_off() + L4_SRC_PORT_OFF, self.hdr_off() + L4_DST_PORT_OFF, 2),
        }
    }

    /// Packet `p` with the TCP or UDP checksum updated for the IPv4 source
    /// `old_src` and destination `old_dst` having been exchanged.
    pub open spec fn csum_fixed(self, p: Seq<u8>, old_src: u32, old_dst: u32) -> Seq<u8> {
        match self {
            Protocol::Icmp => p,
            _ => {
                let c = be16_word(p, self.check_off());
                let c1 = csum_after_u32_word(c, old_src, old_dst);
                let c2 = csum_after_u32_word(c1, old_dst, old_src);
                put_be16(p, self.check_off(), c2)
            },
        }
    }

    /// The protocol for IP protocol number `proto` with its header at `data`.
    pub open spec fn new_spec(proto: u8, data: usize) -> Protocol {
        if proto == IPPROTO_TCP {
            Protocol::Tcp(data)
        } else if proto == IPPROTO_UDP {
            Protocol::Udp(data)
        } else {
            Protocol::Icmp
        }
    }

    /// Builds the protocol from its IP protocol number and the offset of the
    /// transport header. Anything but TCP and UDP counts as ICMP.
    pub fn new(proto: u8, data: usize) -> (r: Protocol)
        ensures
            r == Protocol::new_spec(proto, data),
            proto == 6 ==> r == Protocol::Tcp(data),
            proto == 17 ==> r == Protocol::Udp(data),
            proto != 6 && proto != 17 ==> !r.is_l4(),
    {
        if proto == IPPROTO_TCP {
            Protocol::Tcp(data)
        } else if proto == IPPROTO_UDP {
            Protocol::Udp(data)
        } else {
            Protocol::Icmp
        }
    }

    /// The source port, for TCP and UDP; `None` for ICMP.
    pub fn get_src_port(&self, pkt: &[u8]) -> (r: Option<u16>)
        requires
            self.fits(pkt.len()),
        ensures
            r == self.src_port(pkt@),
            match *self {
                Protocol::Tcp(o) => r matches Some(v) && v == pkt@[o + 0] * 0x100 + pkt@[o + 1],
                Protocol::Udp(o) => r matches Some(v) && v == pkt@[o + 0] * 0x100 + pkt@[o + 1],
                _ => r is None,
            },
    {
        match self {
            Protocol::Tcp(off) => Some(read_be16(pkt, *off + L4_SRC_PORT_OFF)),
            Protocol::Udp(off) => Some(read_be16(pkt, *off + L4_SRC_PORT_OFF)),
            Protocol::Icmp => None,
        }
    }

    /// The destination port, for TCP and UDP; `None` for ICMP.
    pub fn get_dst_port(&self, pkt: &[u8]) -> (r: Option<u16>)
        requires
            self.fits(pkt.len()),
        ensures
            r == self.dst_port(pkt@),
            match *self {
                Protocol::Tcp(o) => r matches Some(v) && v == pkt@[o + 2] * 0x100 + pkt@[o + 3],
                Protocol::Udp(o) => r matches Some(v) && v == pkt@[o + 2] * 0x100 + pkt@[o + 3],
                _ => r is None,
            },
    {
        match self {
            Protocol::Tcp(off) => Some(read_be16(pkt, *off + L4_DST_PORT_OFF)),
            Protocol::Udp(off) => Some(read_be16(pkt, *off + L4_DST_PORT_OFF)),
            Protocol::Icmp => None,
        }
    }

    /// Exchanges the source and destination ports of a TCP or UDP header.
    pub fn swap_ports(&self, pkt: &mut [u8])
        requires
            self.fits(old(pkt).len()),
        ensures
            final(pkt)@ == self.ports_swapped(old(pkt)@),
            final(pkt)@.len() == old(pkt)@.len(),
            forall|k: int|
                0 <= k < old(pkt)@.len() && !(*self matches Protocol::Tcp(o) && (o <= k < o + 4))
                    && !(*self matches Protocol::Udp(o) && (o <= k < o + 4)) ==> #[trigger] final(pkt)@[k]
                    == old(pkt)@[k],
            self.is_l4() ==> {
                let o = self.hdr_off();
                &&& final(pkt)@[o] == old(pkt)@[o + 2]
                &&& final(pkt)@[o + 1] == old(pkt)@[o + 3]
                &&& final(pkt)@[o + 2] == old(pkt)@[o]
                &&& final(pkt)@[o + 3] == old(pkt)@[o + 1]
            },
    {
        match self {
            Protocol::Tcp(off) => swap_bytes_at(pkt, *off + L4_SRC_PORT_OFF, *off + L4_DST_PORT_OFF, 2),
            Protocol::Udp(off) => swap_bytes_at(pkt, *off + L4_SRC_PORT_OFF, *off + L4_DST_PORT_OFF, 2),
            Protocol::Icmp => {},
        }
    }

    /// Updates the TCP or UDP checksum after the IPv4 source address
    /// `old_src_ip` and destination address `old_dst_ip` (host byte order)
    /// were exchanged.
    pub fn calc_csum(&self, pkt: &mut [u8], old_src_ip: u32, old_dst_ip: u32)
        requires
            self.fits(old(pkt).len()),
        ensures
            final(pkt)@ == self.csum_fixed(old(pkt)@, old_src_ip, old_dst_ip),
    {
        let check = match self {
            Protocol::Tcp(off) => *off + TCP_CHECK_OFF,
            Protocol::Udp(off) => *off + UDP_CHECK_OFF,
            Protocol::Icmp => {
                return ;
            },
        };
        let old_csum = read_be16(pkt, check);
        let csum = csum_update_u32(old_csum, old_src_ip, old_dst_ip);
        let csum = csum_update_u32(csum, old_dst_ip, old_src_ip);
        write_be16(pkt, check, csum);
    }
}

} // verus!
