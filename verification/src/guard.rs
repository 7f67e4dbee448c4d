//! The loop guard.
//!
//! A connection whose resolved destination equals the listener's own
//! local address was not redirected to a distinct upstream: relaying it
//! would connect the relay back to itself.  Such a connection is rejected
//! before any outbound connect attempt; the relay closes the inbound
//! socket and emits a warning event.

use vstd::prelude::*;

use crate::addr::SocketAddress;

verus! {

/// Whether a connection may proceed to the outbound connect.
#[derive(Clone, Copy, PartialEq, Eq, Structural, Debug)]
pub enum GuardDecision {
    Allow,
    Reject,
}

/// Rejects exactly when the resolved destination equals the inbound
/// socket's own local address.
pub fn check_loop(local: SocketAddress, dest: SocketAddress) -> (d: GuardDecision)
    ensures
        d is Reject <==> dest == local,
        d is Allow <==> dest != local,
{
    if dest == local {
        GuardDecision::Reject
    } else {
        GuardDecision::Allow
    }
}

} // verus!
