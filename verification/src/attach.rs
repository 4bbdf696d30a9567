//! How the XDP program is attached to an interface.
use vstd::prelude::*;

verus! {

/// The attach mode: the generic (SKB) path, hardware offload, or the
/// kernel's default (the driver path where the driver supports it).
#[derive(Clone, Copy, Debug, PartialEq, Eq, Structural)]
pub enum AttachMode {
    Skb,
    Hw,
    Default,
}

/// The attach mode and whether an already attached program is replaced.
#[derive(Clone, Copy, Debug, PartialEq, Eq, Structural)]
pub struct AttachFlags {
    pub mode: AttachMode,
    pub replace: bool,
}

/// The attach flags the options ask for: SKB mode or offload when exactly one
/// of them is set, the default mode otherwise.
pub fn attach_mode(skb: bool, offload: bool, replace: bool) -> (r: AttachFlags)
    ensures
        r.mode == (if skb && !offload {
            AttachMode::Skb
        } else if !skb && offload {
            AttachMode::Hw
        } else {
            AttachMode::Default
        }),
        r.replace == replace,
{
    let mode = match (skb, offload) {
        (true, false) => AttachMode::Skb,
        (false, true) => AttachMode::Hw,
        _ => AttachMode::Default,
    };
    AttachFlags { mode, replace }
}

} // verus!
