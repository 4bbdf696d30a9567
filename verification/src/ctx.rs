//! Where the parsed headers of a packet lie.
use vstd::prelude::*;

use crate::protocol::Protocol;
use crate::wire::{ETH_HDR_LEN, IPV4_HDR_LEN};

verus! {

/// The parsed packet: offsets of the Ethernet and IPv4 headers and the
/// transport protocol with its header offset.
#[derive(Clone, Copy, Debug, PartialEq, Eq, Structural)]
pub struct Context {
    pub eth: usize,
    pub iph: usize,
    pub proto: Protocol,
}

impl Context {
    /// The headers lie in order, without overlap, within a packet of `len`
    /// bytes.
    pub open spec fn wf(self, len: usize) -> bool {
        &&& self.eth + ETH_HDR_LEN <= self.iph
        &&& self.iph + IPV4_HDR_LEN <= len
        &&& self.proto.fits(len)
        &&& self.proto.is_l4() ==> self.proto.hdr_off() >= self.iph + IPV4_HDR_LEN
    }
}

} // verus!
