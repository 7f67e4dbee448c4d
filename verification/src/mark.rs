//! Routing-mark propagation.
//!
//! The firewall may attach a packet-routing mark to the inbound socket
//! when it redirects a connection.  If such a mark is present it must be
//! applied to the outbound socket before that socket connects, so that
//! egress routing policy treats both legs alike.  A missing mark, or a
//! platform without the option, is not an error: the outbound socket then
//! uses default routing.  A mark read as zero counts as absent, since zero
//! is the kernel's "no mark" value.

use vstd::prelude::*;

verus! {

/// The mark that must be applied to the outbound socket, given what the
/// inbound socket's mark option read returned (`None` when the platform
/// lacks the option or the read failed).
pub open spec fn spec_propagated_mark(raw: Option<u32>) -> Option<u32> {
    match raw {
        Some(m) => if m != 0 { Some(m) } else { None },
        None => None,
    }
}

/// Filters a raw mark read into the mark to propagate: present and
/// nonzero marks pass through, everything else degrades to "no mark".
pub fn mark_to_propagate(raw: Option<u32>) -> (m: Option<u32>)
    ensures
        m == spec_propagated_mark(raw),
{
    match raw {
        Some(v) => if v != 0 { Some(v) } else { None },
        None => None,
    }
}

} // verus!
