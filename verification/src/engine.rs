//! The per-connection relay engine.
//!
//! One `Connection` value owns the lifecycle of one accepted connection:
//! it is driven from `Accepted` through destination resolution, the loop
//! guard, outbound connect and socket configuration into the relaying
//! phase, and finally to `Closed` or `Failed`.  The engine itself decides;
//! the surrounding program performs each decided action on the real
//! sockets and reports its outcome back as the next event.
//!
//! The transition relation is `spec_step`; the executable `step` follows
//! it exactly.  An event that is not expected in the current state leaves
//! the connection unchanged, so the engine can never be driven into an
//! unintended transition by a stray event.

use vstd::prelude::*;

use crate::addr::SocketAddress;
use crate::guard::{check_loop, GuardDecision};
use crate::mark::{mark_to_propagate, spec_propagated_mark};

verus! {

/// Lifecycle states of one relayed connection.
#[derive(Clone, Copy, PartialEq, Eq, Structural, Debug)]
pub enum ConnState {
    Accepted,
    Resolving,
    Guarding,
    Connecting,
    Configuring,
    Relaying,
    Closing,
    Closed,
    Failed,
}

/// Why the relaying phase of a connection ended.
#[derive(Clone, Copy, PartialEq, Eq, Structural, Debug)]
pub enum CloseReason {
    ByPeer,
    TransferError,
    IdleTimeout,
}

/// Outcomes of the operations the surrounding program performs, fed back
/// into the engine.
#[derive(Clone, Copy, PartialEq, Eq, Structural, Debug)]
pub enum ConnEvent {
    /// Start work on a freshly accepted connection.
    Begin,
    /// The kernel's NAT record gave the original destination.
    Resolved { dest: SocketAddress },
    /// The original destination could not be read.
    ResolutionFailed,
    /// Run the loop guard on the resolved destination.
    RunGuard,
    /// The outbound connect succeeded.
    Connected,
    /// The outbound connect failed (refused, unreachable, timed out).
    ConnectFailed,
    /// Socket options were applied; `hard_error` means a socket was
    /// unusable (option failures alone are reported but non-fatal).
    Configured { hard_error: bool },
    /// Both transfer directions have finished.
    TransferDone { to_server: u64, to_client: u64, reason: CloseReason },
    /// Both socket handles have been released.
    SocketsReleased,
}

/// What the surrounding program must do next with the real sockets.
#[derive(Clone, Copy, PartialEq, Eq, Structural, Debug)]
pub enum ConnAction {
    /// Read the original destination from the inbound socket.
    Resolve,
    /// Emit the "connection incoming" event for this destination.
    EmitIncoming { dest: SocketAddress },
    /// Emit the resolution-failure event; the connection is failed.
    ReportResolutionFailure,
    /// Close the inbound socket and emit the loop-rejection warning;
    /// no outbound connect may be attempted.
    RejectLoop { dest: SocketAddress },
    /// Create an outbound socket of `dest`'s family, apply
    /// `outbound_mark` to it if present, then connect it to `dest`.
    Connect { dest: SocketAddress, outbound_mark: Option<u32> },
    /// Emit the connect-failure event; the connection is failed.
    ReportConnectFailure,
    /// Apply no-delay and keepalive to both sockets.
    Configure,
    /// Emit the socket-failure event; the connection is failed.
    ReportSocketFailure,
    /// Start the bidirectional transfer.
    StartRelay,
    /// Release both socket handles.
    ReleaseSockets,
    /// Emit the closure event with the final byte counts.
    EmitClosed { to_server: u64, to_client: u64 },
    /// Nothing: the event was not expected in the current state.
    Nothing,
}

/// The engine's view of one connection.
#[derive(Clone, Copy, PartialEq, Eq, Structural, Debug)]
pub struct Connection {
    /// The inbound socket's own local address (the listener's bound
    /// address as seen by this connection).  Never changes.
    pub local: SocketAddress,
    /// The client's address, kept for event reporting.  Never changes.
    pub peer: SocketAddress,
    /// The routing mark to propagate to the outbound socket, already
    /// filtered (absent or zero marks degrade to `None`).  Never changes.
    pub mark: Option<u32>,
    /// The resolved original destination, once resolution succeeded.
    pub dest: Option<SocketAddress>,
    /// Where in its lifecycle the connection stands.
    pub state: ConnState,
    /// Bytes moved client -> server, recorded when the transfer ends.
    pub bytes_to_server: u64,
    /// Bytes moved server -> client, recorded when the transfer ends.
    pub bytes_to_client: u64,
    /// Why the transfer ended, once it has.
    pub close_reason: Option<CloseReason>,
}

impl Connection {
    /// Well-formedness: a connection is guarded only after resolution
    /// succeeded, and past the guard only towards a destination that is
    /// not the listener itself.
    pub open spec fn wf(self) -> bool {
        &&& (self.state is Guarding ==> self.dest is Some)
        &&& ((self.state is Connecting || self.state is Configuring || self.state is Relaying)
            ==> (self.dest matches Some(d) && d != self.local))
    }

    /// A fresh connection, just accepted: the raw mark read from the
    /// inbound socket is filtered here, before anything else happens.
    pub fn new(local: SocketAddress, peer: SocketAddress, raw_mark: Option<u32>) -> (c: Connection)
        ensures
            c.local == local,
            c.peer == peer,
            c.mark == spec_propagated_mark(raw_mark),
            c.dest is None,
            c.state is Accepted,
            c.bytes_to_server == 0,
            c.bytes_to_client == 0,
            c.close_reason is None,
            c.wf(),
    {
        Connection {
            local,
            peer,
            mark: mark_to_propagate(raw_mark),
            dest: None,
            state: ConnState::Accepted,
            bytes_to_server: 0,
            bytes_to_client: 0,
            close_reason: None,
        }
    }

    /// Advances the connection by one event; returns the action the
    /// surrounding program must now perform.
    pub fn step(&mut self, ev: ConnEvent) -> (a: ConnAction)
        ensures
            *final(self) == spec_step(*old(self), ev).0,
            a == spec_step(*old(self), ev).1,
    {
        match (self.state, ev) {
            (ConnState::Accepted, ConnEvent::Begin) => {
                self.state = ConnState::Resolving;
                ConnAction::Resolve
            }
            (ConnState::Resolving, ConnEvent::Resolved { dest }) => {
                self.dest = Some(dest);
                self.state = ConnState::Guarding;
                ConnAction::EmitIncoming { dest }
            }
            (ConnState::Resolving, ConnEvent::ResolutionFailed) => {
                self.state = ConnState::Failed;
                ConnAction::ReportResolutionFailure
            }
            (ConnState::Guarding, ConnEvent::RunGuard) => {
                match self.dest {
                    Some(d) => {
                        match check_loop(self.local, d) {
                            GuardDecision::Reject => {
                                self.state = ConnState::Closing;
                                ConnAction::RejectLoop { dest: d }
                            }
                            GuardDecision::Allow => {
                                self.state = ConnState::Connecting;
                                ConnAction::Connect { dest: d, outbound_mark: self.mark }
                            }
                        }
                    }
                    None => ConnAction::Nothing,
                }
            }
            (ConnState::Connecting, ConnEvent::Connected) => {
                self.state = ConnState::Configuring;
                ConnAction::Configure
            }
            (ConnState::Connecting, ConnEvent::ConnectFailed) => {
                self.state = ConnState::Failed;
                ConnAction::ReportConnectFailure
            }
            (ConnState::Configuring, ConnEvent::Configured { hard_error }) => {
                if hard_error {
                    self.state = ConnState::Failed;
                    ConnAction::ReportSocketFailure
                } else {
                    self.state = ConnState::Relaying;
                    ConnAction::StartRelay
                }
            }
            (ConnState::Relaying, ConnEvent::TransferDone { to_server, to_client, reason }) => {
                self.bytes_to_server = to_server;
                self.bytes_to_client = to_client;
                self.close_reason = Some(reason);
                self.state = ConnState::Closing;
                ConnAction::ReleaseSockets
            }
            (ConnState::Closing, ConnEvent::SocketsReleased) => {
                self.state = ConnState::Closed;
                ConnAction::EmitClosed {
                    to_server: self.bytes_to_server,
                    to_client: self.bytes_to_client,
                }
            }
            _ => ConnAction::Nothing,
        }
    }
}

/// The transition relation: next connection and action for one event.
pub open spec fn spec_step(c: Connection, ev: ConnEvent) -> (Connection, ConnAction) {
    match (c.state, ev) {
        (ConnState::Accepted, ConnEvent::Begin) => (
            Connection { state: ConnState::Resolving, ..c },
            ConnAction::Resolve,
        ),
        (ConnState::Resolving, ConnEvent::Resolved { dest }) => (
            Connection { dest: Some(dest), state: ConnState::Guarding, ..c },
            ConnAction::EmitIncoming { dest },
        ),
        (ConnState::Resolving, ConnEvent::ResolutionFailed) => (
            Connection { state: ConnState::Failed, ..c },
            ConnAction::ReportResolutionFailure,
        ),
        (ConnState::Guarding, ConnEvent::RunGuard) => {
            match c.dest {
                Some(d) => {
                    if d == c.local {
                        (
                            Connection { state: ConnState::Closing, ..c },
                            ConnAction::RejectLoop { dest: d },
                        )
                    } else {
                        (
                            Connection { state: ConnState::Connecting, ..c },
                            ConnAction::Connect { dest: d, outbound_mark: c.mark },
                        )
                    }
                }
                None => (c, ConnAction::Nothing),
            }
        }
        (ConnState::Connecting, ConnEvent::Connected) => (
            Connection { state: ConnState::Configuring, ..c },
            ConnAction::Configure,
        ),
        (ConnState::Connecting, ConnEvent::ConnectFailed) => (
            Connection { state: ConnState::Failed, ..c },
            ConnAction::ReportConnectFailure,
        ),
        (ConnState::Configuring, ConnEvent::Configured { hard_error }) => {
            if hard_error {
                (Connection { state: ConnState::Failed, ..c }, ConnAction::ReportSocketFailure)
            } else {
                (Connection { state: ConnState::Relaying, ..c }, ConnAction::StartRelay)
            }
        }
        (ConnState::Relaying, ConnEvent::TransferDone { to_server, to_client, reason }) => (
            Connection {
                bytes_to_server: to_server,
                bytes_to_client: to_client,
                close_reason: Some(reason),
                state: ConnState::Closing,
                ..c
            },
            ConnAction::ReleaseSockets,
        ),
        (ConnState::Closing, ConnEvent::SocketsReleased) => (
            Connection { state: ConnState::Closed, ..c },
            ConnAction::EmitClosed { to_server: c.bytes_to_server, to_client: c.bytes_to_client },
        ),
        _ => (c, ConnAction::Nothing),
    }
}

/// The connection after a whole sequence of events.
pub open spec fn spec_run(c: Connection, evs: Seq<ConnEvent>) -> Connection
    decreases evs.len(),
{
    if evs.len() == 0 {
        c
    } else {
        spec_run(spec_step(c, evs[0]).0, evs.drop_first())
    }
}

/// The actions produced along a whole sequence of events, in order.
pub open spec fn spec_actions(c: Connection, evs: Seq<ConnEvent>) -> Seq<ConnAction>
    decreases evs.len(),
{
    if evs.len() == 0 {
        Seq::empty()
    } else {
        seq![spec_step(c, evs[0]).1] + spec_actions(spec_step(c, evs[0]).0, evs.drop_first())
    }
}

/// One step never changes who the connection is: its listener-side
/// address, its peer and its routing mark are fixed at acceptance.
pub proof fn lemma_step_keeps_identity(c: Connection, ev: ConnEvent)
    ensures
        spec_step(c, ev).0.local == c.local,
        spec_step(c, ev).0.peer == c.peer,
        spec_step(c, ev).0.mark == c.mark,
{
}

/// One step preserves well-formedness.
pub proof fn lemma_step_preserves_wf(c: Connection, ev: ConnEvent)
    requires
        c.wf(),
    ensures
        spec_step(c, ev).0.wf(),
{
}

/// A connect action is only ever issued from the guarding state, towards
/// the stored resolved destination, and never towards the listener's own
/// address; the mark it carries is the connection's propagated mark.
pub proof fn lemma_connect_is_guarded(c: Connection, ev: ConnEvent)
    requires
        c.wf(),
    ensures
        (spec_step(c, ev).1 matches ConnAction::Connect { dest, outbound_mark } ==> {
            &&& c.state is Guarding
            &&& c.dest == Some(dest)
            &&& dest != c.local
            &&& outbound_mark == c.mark
        }),
{
}

/// Law: a destination equal to the listener's own address is always
/// rejected at the guard — the connection moves to closing, the inbound
/// socket is closed with a warning, and no connect action is issued.
pub proof fn lemma_loop_is_rejected(c: Connection)
    requires
        c.state is Guarding,
        c.dest == Some(c.local),
    ensures
        spec_step(c, ConnEvent::RunGuard).0.state is Closing,
        spec_step(c, ConnEvent::RunGuard).1 == (ConnAction::RejectLoop { dest: c.local }),
{
}

/// Law: the closure event reports exactly the byte counts the finished
/// transfer delivered — a relaying connection told that its transfer
/// moved `to_server` and `to_client` bytes releases its sockets and
/// then emits a closure event carrying those very counts.
pub proof fn lemma_closure_reports_transfer(
    c: Connection,
    to_server: u64,
    to_client: u64,
    reason: CloseReason,
)
    requires
        c.state is Relaying,
    ensures
        ({
            let done = ConnEvent::TransferDone { to_server, to_client, reason };
            let closing = spec_step(c, done).0;
            &&& spec_step(c, done).1 == ConnAction::ReleaseSockets
            &&& closing.state is Closing
            &&& closing.close_reason == Some(reason)
            &&& spec_step(closing, ConnEvent::SocketsReleased).0.state is Closed
            &&& spec_step(closing, ConnEvent::SocketsReleased).1 == (ConnAction::EmitClosed {
                to_server,
                to_client,
            })
        }),
{
}

/// Law: well-formedness holds along any event sequence.  In particular
/// a connection is relaying only with a successfully resolved
/// destination that differs from the listener's own address: it enters
/// transfer only after resolution succeeded and the loop guard passed.
pub proof fn lemma_run_preserves_wf(c: Connection, evs: Seq<ConnEvent>)
    requires
        c.wf(),
    ensures
        spec_run(c, evs).wf(),
    decreases evs.len(),
{
    if evs.len() > 0 {
        lemma_step_preserves_wf(c, evs[0]);
        lemma_run_preserves_wf(spec_step(c, evs[0]).0, evs.drop_first());
    }
}

/// Law: along any event sequence whatsoever, a well-formed connection
/// never issues a connect action towards the listener's own address.  A
/// connection whose resolved destination equals the listener's bound
/// address is therefore rejected before any outbound connect attempt.
pub proof fn lemma_no_connect_to_self(c: Connection, evs: Seq<ConnEvent>)
    requires
        c.wf(),
    ensures
        forall|i: int|
            0 <= i < spec_actions(c, evs).len()
                ==> (#[trigger] spec_actions(c, evs)[i] matches ConnAction::Connect { dest, .. }
                    ==> dest != c.local),
    decreases evs.len(),
{
    if evs.len() == 0 {
    } else {
        let stepped = spec_step(c, evs[0]);
        lemma_connect_is_guarded(c, evs[0]);
        lemma_step_preserves_wf(c, evs[0]);
        lemma_step_keeps_identity(c, evs[0]);
        lemma_no_connect_to_self(stepped.0, evs.drop_first());
        assert(spec_actions(c, evs) == seq![stepped.1] + spec_actions(stepped.0, evs.drop_first()));
        assert forall|i: int|
            0 <= i < spec_actions(c, evs).len() implies (#[trigger] spec_actions(c, evs)[i]
            matches ConnAction::Connect { dest, .. } ==> dest != c.local) by {
            if i > 0 {
                assert(spec_actions(c, evs)[i] == spec_actions(stepped.0, evs.drop_first())[i - 1]);
            }
        }
    }
}

} // verus!
