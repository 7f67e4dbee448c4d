//! Error kinds and their blast radius.
//!
//! Every failure of the relay is one of these kinds, and the propagation
//! policy is fixed: per-connection failures are caught at the relay
//! engine and become a logged closure event, a transfer failure ends
//! only the direction that hit it, and only a listener-level failure
//! ends the whole process.

use vstd::prelude::*;

verus! {

/// What failed.
#[derive(Clone, Copy, PartialEq, Eq, Structural, Debug)]
pub enum RelayError {
    /// The original destination could not be read from the kernel.
    Resolution,
    /// The outbound connect was refused, unreachable or timed out.
    Connect,
    /// A socket option could not be applied; `hard` means the socket
    /// itself was unusable, not merely the option.
    SocketOption { hard: bool },
    /// A read or write failed mid-relay.
    Transfer,
    /// The listener's accept failed.
    Accept,
}

/// Whether this error ends the whole process: only a listener-level
/// accept failure does.
pub fn fatal_to_process(e: RelayError) -> (r: bool)
    ensures
        r <==> e is Accept,
{
    matches!(e, RelayError::Accept)
}

/// Whether this error ends its whole connection: a failed resolution or
/// outbound connect always does, a socket option failure only when the
/// socket itself was unusable.  A transfer error does not — it ends
/// only the direction that hit it, and the sibling direction still
/// attempts a graceful half-close.
pub fn fatal_to_connection(e: RelayError) -> (r: bool)
    ensures
        r <==> (e is Resolution || e is Connect || (e matches RelayError::SocketOption {
            hard,
        } && hard)),
{
    match e {
        RelayError::Resolution => true,
        RelayError::Connect => true,
        RelayError::SocketOption { hard } => hard,
        RelayError::Transfer => false,
        RelayError::Accept => false,
    }
}

impl RelayError {
    /// A short name for event reporting.
    pub fn name(&self) -> (s: &'static str)
        ensures
            s@ == spec_error_name(*self),
    {
        match self {
            RelayError::Resolution => "resolution error",
            RelayError::Connect => "connect error",
            RelayError::SocketOption { .. } => "socket option error",
            RelayError::Transfer => "transfer error",
            RelayError::Accept => "accept error",
        }
    }
}

/// The short name each error kind reports under.
pub open spec fn spec_error_name(e: RelayError) -> Seq<char> {
    match e {
        RelayError::Resolution => "resolution error"@,
        RelayError::Connect => "connect error"@,
        RelayError::SocketOption { .. } => "socket option error"@,
        RelayError::Transfer => "transfer error"@,
        RelayError::Accept => "accept error"@,
    }
}

} // verus!
