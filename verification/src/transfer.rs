//! The bidirectional transfer machinery.
//!
//! Each connection in the relaying phase has two directions, client to
//! server and server to client.  Each direction is driven by what its
//! read side observed: data, end-of-stream, an I/O error, or the idle
//! cancellation.  The two directions are independent — stepping one
//! never touches the other — except that both report their byte counts
//! to the shared idle/stats coordinator.
//!
//! On read end-of-stream a direction performs a half-close: it shuts
//! down only the write side of its destination socket and finishes,
//! while the opposite direction keeps transferring until it too ends.

use vstd::prelude::*;

use crate::coordinator::{spec_coord_step, CoordEvent, IdleCoordinator};
use crate::engine::{CloseReason, ConnEvent};

verus! {

/// Where a direction stands.
#[derive(Clone, Copy, PartialEq, Eq, Structural, Debug)]
pub enum DirPhase {
    /// Reading from its source socket and forwarding.
    Forwarding,
    /// Done, with the reason its transfer ended.
    Finished { reason: CloseReason },
}

/// What a direction's read side observed.
#[derive(Clone, Copy, PartialEq, Eq, Structural, Debug)]
pub enum DirEvent {
    /// `n` bytes were read from the source socket.
    Data { n: u64 },
    /// The source socket reached end-of-stream.
    Eof,
    /// Reading from the source socket failed.
    ReadError,
    /// Writing to the destination socket failed.
    WriteError,
    /// The idle-timeout cancellation was observed.
    Cancelled,
}

/// What the surrounding program must do with this direction's sockets.
#[derive(Clone, Copy, PartialEq, Eq, Structural, Debug)]
pub enum DirAction {
    /// Write the `n` bytes just read to the destination socket, in the
    /// order they were read.
    Forward { n: u64 },
    /// Half-close: shut down the write side of the destination socket,
    /// leaving its read side (the opposite direction) untouched.
    ShutdownPeerWrite,
    /// Nothing; the direction is finished.
    Nothing,
}

/// One direction of a relay: its phase and how many bytes it moved.
#[derive(Clone, Copy, PartialEq, Eq, Structural, Debug)]
pub struct Direction {
    pub phase: DirPhase,
    pub bytes: u64,
}

/// Which direction of the session an event belongs to.
#[derive(Clone, Copy, PartialEq, Eq, Structural, Debug)]
pub enum Side {
    ClientToServer,
    ServerToClient,
}

/// How one event advances one direction.  Data keeps it forwarding and
/// counts the bytes; end-of-stream finishes it through a half-close;
/// errors and the idle cancellation finish it with their own reasons.
/// A finished direction ignores further events.
pub open spec fn spec_dir_step(d: Direction, ev: DirEvent) -> (Direction, DirAction) {
    match (d.phase, ev) {
        (DirPhase::Forwarding, DirEvent::Data { n }) => (
            Direction { phase: DirPhase::Forwarding, bytes: (d.bytes + n) as u64 },
            DirAction::Forward { n },
        ),
        (DirPhase::Forwarding, DirEvent::Eof) => (
            Direction { phase: DirPhase::Finished { reason: CloseReason::ByPeer }, ..d },
            DirAction::ShutdownPeerWrite,
        ),
        (DirPhase::Forwarding, DirEvent::ReadError) => (
            Direction { phase: DirPhase::Finished { reason: CloseReason::TransferError }, ..d },
            DirAction::Nothing,
        ),
        (DirPhase::Forwarding, DirEvent::WriteError) => (
            Direction { phase: DirPhase::Finished { reason: CloseReason::TransferError }, ..d },
            DirAction::Nothing,
        ),
        (DirPhase::Forwarding, DirEvent::Cancelled) => (
            Direction { phase: DirPhase::Finished { reason: CloseReason::IdleTimeout }, ..d },
            DirAction::ShutdownPeerWrite,
        ),
        (DirPhase::Finished { .. }, _) => (d, DirAction::Nothing),
    }
}

/// The live transfer state of one connection: both directions and the
/// shared idle/stats coordinator.
#[derive(Clone, Copy, PartialEq, Eq, Structural, Debug)]
pub struct RelaySession {
    pub client_to_server: Direction,
    pub server_to_client: Direction,
    pub coord: IdleCoordinator,
}

/// How one directional event advances the whole session: the named
/// direction steps, the other is left exactly as it was, and the
/// coordinator sees the byte count of a data event at time `at`.
pub open spec fn spec_session_step(s: RelaySession, side: Side, ev: DirEvent, at: u64) -> (
    RelaySession,
    DirAction,
) {
    let dir = match side {
        Side::ClientToServer => s.client_to_server,
        Side::ServerToClient => s.server_to_client,
    };
    let stepped = spec_dir_step(dir, ev);
    let coord = match (dir.phase, ev) {
        (DirPhase::Forwarding, DirEvent::Data { n }) => spec_coord_step(
            s.coord,
            CoordEvent::Report { n, at },
        ),
        _ => s.coord,
    };
    let session = match side {
        Side::ClientToServer => RelaySession { client_to_server: stepped.0, coord, ..s },
        Side::ServerToClient => RelaySession { server_to_client: stepped.0, coord, ..s },
    };
    (session, stepped.1)
}

impl RelaySession {
    /// The session invariant: the coordinator's aggregate is exactly
    /// the sum of the bytes the two directions have moved.
    pub open spec fn inv(self) -> bool {
        self.coord.total == self.client_to_server.bytes + self.server_to_client.bytes
    }

    /// A fresh session: nothing moved yet, watchdog armed from `now`
    /// with the given idle window.
    pub fn new(timeout: u64, now: u64) -> (s: RelaySession)
        ensures
            s.inv(),
            s.client_to_server == (Direction { phase: DirPhase::Forwarding, bytes: 0 }),
            s.server_to_client == (Direction { phase: DirPhase::Forwarding, bytes: 0 }),
            s.coord.timeout == timeout,
            s.coord.total == 0,
            s.coord.last_activity == now,
            !s.coord.cancelled,
    {
        RelaySession {
            client_to_server: Direction { phase: DirPhase::Forwarding, bytes: 0 },
            server_to_client: Direction { phase: DirPhase::Forwarding, bytes: 0 },
            coord: IdleCoordinator::new(timeout, now),
        }
    }

    /// Advances one direction by what its read side observed at time
    /// `at`; the opposite direction is untouched.  Data is reported to
    /// the coordinator as it moves, so idle detection is responsive.
    pub fn step(&mut self, side: Side, ev: DirEvent, at: u64) -> (a: DirAction)
        requires
            old(self).inv(),
            at >= old(self).coord.last_activity,
            (ev matches DirEvent::Data { n } ==> old(self).coord.total + n <= u64::MAX),
        ensures
            final(self).inv(),
            *final(self) == spec_session_step(*old(self), side, ev, at).0,
            a == spec_session_step(*old(self), side, ev, at).1,
    {
        let forwarding = match side {
            Side::ClientToServer => matches!(self.client_to_server.phase, DirPhase::Forwarding),
            Side::ServerToClient => matches!(self.server_to_client.phase, DirPhase::Forwarding),
        };
        if forwarding {
            match ev {
                DirEvent::Data { n } => {
                    self.coord.report(n, at);
                    match side {
                        Side::ClientToServer => {
                            self.client_to_server.bytes = self.client_to_server.bytes + n;
                        }
                        Side::ServerToClient => {
                            self.server_to_client.bytes = self.server_to_client.bytes + n;
                        }
                    }
                    DirAction::Forward { n }
                }
                DirEvent::Eof => {
                    self.set_phase(side, DirPhase::Finished { reason: CloseReason::ByPeer });
                    DirAction::ShutdownPeerWrite
                }
                DirEvent::ReadError => {
                    self.set_phase(side, DirPhase::Finished { reason: CloseReason::TransferError });
                    DirAction::Nothing
                }
                DirEvent::WriteError => {
                    self.set_phase(side, DirPhase::Finished { reason: CloseReason::TransferError });
                    DirAction::Nothing
                }
                DirEvent::Cancelled => {
                    self.set_phase(side, DirPhase::Finished { reason: CloseReason::IdleTimeout });
                    DirAction::ShutdownPeerWrite
                }
            }
        } else {
            DirAction::Nothing
        }
    }

    /// Sets the phase of the named direction, leaving the other alone.
    fn set_phase(&mut self, side: Side, phase: DirPhase)
        ensures
            final(self).coord == old(self).coord,
            (side is ClientToServer ==> final(self).client_to_server == (Direction {
                phase,
                ..old(self).client_to_server
            }) && final(self).server_to_client == old(self).server_to_client),
            (side is ServerToClient ==> final(self).server_to_client == (Direction {
                phase,
                ..old(self).server_to_client
            }) && final(self).client_to_server == old(self).client_to_server),
    {
        match side {
            Side::ClientToServer => self.client_to_server.phase = phase,
            Side::ServerToClient => self.server_to_client.phase = phase,
        }
    }

    /// Checks the shared idle watchdog at time `now`; returns true
    /// exactly when the cancellation broadcast must fire now, in which
    /// case the surrounding program delivers `Cancelled` to both
    /// directions.
    pub fn poll_idle(&mut self, now: u64) -> (fire: bool)
        requires
            old(self).inv(),
            now >= old(self).coord.last_activity,
        ensures
            final(self).inv(),
            final(self).client_to_server == old(self).client_to_server,
            final(self).server_to_client == old(self).server_to_client,
            final(self).coord == spec_coord_step(old(self).coord, CoordEvent::Poll { at: now }),
            fire == (!old(self).coord.cancelled && now - old(self).coord.last_activity > old(
                self,
            ).coord.timeout),
    {
        self.coord.poll(now)
    }

    /// Whether both directions have finished, so the connection may
    /// move on to closing.
    pub fn finished(&self) -> (b: bool)
        ensures
            b == (self.client_to_server.phase is Finished
                && self.server_to_client.phase is Finished),
    {
        let a = match self.client_to_server.phase {
            DirPhase::Finished { .. } => true,
            DirPhase::Forwarding => false,
        };
        let b = match self.server_to_client.phase {
            DirPhase::Finished { .. } => true,
            DirPhase::Forwarding => false,
        };
        a && b
    }

    /// The aggregate byte total the closure event reports.
    pub fn total_bytes(&self) -> (n: u64)
        ensures
            n == self.coord.total,
    {
        self.coord.total
    }

    /// Why the connection closed, once both directions have finished:
    /// the idle timeout wins over a transfer error, which wins over a
    /// plain close by peer.
    pub fn close_reason(&self) -> (r: CloseReason)
        ensures
            r == spec_close_reason(self.client_to_server.phase, self.server_to_client.phase),
    {
        let timeout_phase = DirPhase::Finished { reason: CloseReason::IdleTimeout };
        let error_phase = DirPhase::Finished { reason: CloseReason::TransferError };
        if self.client_to_server.phase == timeout_phase || self.server_to_client.phase
            == timeout_phase {
            CloseReason::IdleTimeout
        } else if self.client_to_server.phase == error_phase || self.server_to_client.phase
            == error_phase {
            CloseReason::TransferError
        } else {
            CloseReason::ByPeer
        }
    }

    /// The event that reports this finished transfer to the connection
    /// engine: both directions' byte counts and the closure reason.
    pub fn transfer_done_event(&self) -> (ev: ConnEvent)
        ensures
            ev == (ConnEvent::TransferDone {
                to_server: self.client_to_server.bytes,
                to_client: self.server_to_client.bytes,
                reason: spec_close_reason(self.client_to_server.phase, self.server_to_client.phase),
            }),
    {
        ConnEvent::TransferDone {
            to_server: self.client_to_server.bytes,
            to_client: self.server_to_client.bytes,
            reason: self.close_reason(),
        }
    }
}

/// The closure reason of a session whose directions ended in the given
/// phases: a timed-out direction means the relay closed the connection,
/// an erroring one means a transfer failure, and otherwise the peers
/// closed it themselves.
pub open spec fn spec_close_reason(a: DirPhase, b: DirPhase) -> CloseReason {
    if a == (DirPhase::Finished { reason: CloseReason::IdleTimeout }) || b == (DirPhase::Finished {
        reason: CloseReason::IdleTimeout,
    }) {
        CloseReason::IdleTimeout
    } else if a == (DirPhase::Finished { reason: CloseReason::TransferError }) || b
        == (DirPhase::Finished { reason: CloseReason::TransferError }) {
        CloseReason::TransferError
    } else {
        CloseReason::ByPeer
    }
}

/// Law: the coordinator's aggregate equals the sum of the bytes counted
/// by the two directions — what the closure event reports is exactly
/// what moved through the relay, both ends together.
pub proof fn lemma_reported_total_matches_directions(s: RelaySession)
    requires
        s.inv(),
    ensures
        s.coord.total == s.client_to_server.bytes + s.server_to_client.bytes,
{
}

/// Law: one session step preserves the invariant (no byte is counted
/// twice and none is dropped), provided the aggregate still fits.
pub proof fn lemma_session_step_preserves_inv(s: RelaySession, side: Side, ev: DirEvent, at: u64)
    requires
        s.inv(),
        (ev matches DirEvent::Data { n } ==> s.coord.total + n <= u64::MAX),
    ensures
        spec_session_step(s, side, ev, at).0.inv(),
{
}

/// Law (half-close propagation): when a forwarding direction sees read
/// end-of-stream, the session orders a shutdown of only the write side
/// of that direction's destination socket, the direction finishes as
/// closed-by-peer, and the opposite direction is left exactly as it
/// was — if it was forwarding, it continues transferring.
pub proof fn lemma_half_close_propagates(s: RelaySession, side: Side, at: u64)
    requires
        (match side {
            Side::ClientToServer => s.client_to_server.phase is Forwarding,
            Side::ServerToClient => s.server_to_client.phase is Forwarding,
        }),
    ensures
        spec_session_step(s, side, DirEvent::Eof, at).1 == DirAction::ShutdownPeerWrite,
        (match side {
            Side::ClientToServer => {
                &&& spec_session_step(s, side, DirEvent::Eof, at).0.client_to_server.phase
                    == (DirPhase::Finished { reason: CloseReason::ByPeer })
                &&& spec_session_step(s, side, DirEvent::Eof, at).0.server_to_client
                    == s.server_to_client
            }
            Side::ServerToClient => {
                &&& spec_session_step(s, side, DirEvent::Eof, at).0.server_to_client.phase
                    == (DirPhase::Finished { reason: CloseReason::ByPeer })
                &&& spec_session_step(s, side, DirEvent::Eof, at).0.client_to_server
                    == s.client_to_server
            }
        }),
        spec_session_step(s, side, DirEvent::Eof, at).0.coord == s.coord,
{
}

/// Law: stepping one direction never changes the other direction's
/// state, whatever the event — the two directions are independent but
/// for the shared coordinator.
pub proof fn lemma_directions_independent(s: RelaySession, side: Side, ev: DirEvent, at: u64)
    ensures
        (side is ClientToServer ==> spec_session_step(s, side, ev, at).0.server_to_client
            == s.server_to_client),
        (side is ServerToClient ==> spec_session_step(s, side, ev, at).0.client_to_server
            == s.client_to_server),
{
}

} // verus!
