use tcp_relay::addr::SocketAddress;
use tcp_relay::engine::{CloseReason, ConnAction, ConnEvent, ConnState, Connection};
use tcp_relay::error::{fatal_to_connection, fatal_to_process, RelayError};

fn listener() -> SocketAddress {
    SocketAddress::v4(127, 0, 0, 1, 1080)
}

fn client() -> SocketAddress {
    SocketAddress::v4(192, 0, 2, 10, 52000)
}

fn upstream() -> SocketAddress {
    SocketAddress::v4(203, 0, 113, 5, 443)
}

/// End-to-end lifecycle: resolve 203.0.113.5:443, connect, relay
/// "ping" one way and "pong" the other, and close reporting 4 bytes in
/// each direction.
#[test]
fn relayed_connection_runs_to_closed() {
    let mut c = Connection::new(listener(), client(), Some(3));

    assert_eq!(c.step(ConnEvent::Begin), ConnAction::Resolve);
    assert_eq!(
        c.step(ConnEvent::Resolved { dest: upstream() }),
        ConnAction::EmitIncoming { dest: upstream() }
    );
    assert_eq!(
        c.step(ConnEvent::RunGuard),
        ConnAction::Connect { dest: upstream(), outbound_mark: Some(3) }
    );
    assert_eq!(c.step(ConnEvent::Connected), ConnAction::Configure);
    assert_eq!(c.step(ConnEvent::Configured { hard_error: false }), ConnAction::StartRelay);
    assert_eq!(c.state, ConnState::Relaying);
    assert_eq!(
        c.step(ConnEvent::TransferDone {
            to_server: 4,
            to_client: 4,
            reason: CloseReason::ByPeer,
        }),
        ConnAction::ReleaseSockets
    );
    assert_eq!(
        c.step(ConnEvent::SocketsReleased),
        ConnAction::EmitClosed { to_server: 4, to_client: 4 }
    );
    assert_eq!(c.state, ConnState::Closed);
    assert_eq!(c.close_reason, Some(CloseReason::ByPeer));
}

/// A destination equal to the listener's own address is rejected at the
/// guard: the inbound socket is closed and no connect is ever ordered.
#[test]
fn loop_destination_is_rejected_before_connect() {
    let mut c = Connection::new(listener(), client(), None);

    assert_eq!(c.step(ConnEvent::Begin), ConnAction::Resolve);
    assert_eq!(
        c.step(ConnEvent::Resolved { dest: listener() }),
        ConnAction::EmitIncoming { dest: listener() }
    );
    assert_eq!(c.step(ConnEvent::RunGuard), ConnAction::RejectLoop { dest: listener() });
    assert_eq!(c.state, ConnState::Closing);

    // Stray events after the rejection order nothing, in particular no
    // connect.
    assert_eq!(c.step(ConnEvent::Connected), ConnAction::Nothing);
    assert_eq!(c.step(ConnEvent::RunGuard), ConnAction::Nothing);
    assert_eq!(
        c.step(ConnEvent::SocketsReleased),
        ConnAction::EmitClosed { to_server: 0, to_client: 0 }
    );
    assert_eq!(c.state, ConnState::Closed);
}

/// Unreachable upstream: the connection is accepted, then fails with a
/// connect-error event and no data transferred; a subsequent connection
/// is unaffected.
#[test]
fn unreachable_upstream_fails_only_its_connection() {
    let mut c = Connection::new(listener(), client(), None);
    c.step(ConnEvent::Begin);
    c.step(ConnEvent::Resolved { dest: upstream() });
    c.step(ConnEvent::RunGuard);
    assert_eq!(c.step(ConnEvent::ConnectFailed), ConnAction::ReportConnectFailure);
    assert_eq!(c.state, ConnState::Failed);
    assert_eq!(c.bytes_to_server, 0);
    assert_eq!(c.bytes_to_client, 0);

    // The listener stays available: a fresh connection proceeds.
    let mut c2 = Connection::new(listener(), client(), None);
    c2.step(ConnEvent::Begin);
    c2.step(ConnEvent::Resolved { dest: upstream() });
    assert_eq!(
        c2.step(ConnEvent::RunGuard),
        ConnAction::Connect { dest: upstream(), outbound_mark: None }
    );
}

#[test]
fn resolution_failure_fails_the_connection() {
    let mut c = Connection::new(listener(), client(), None);
    c.step(ConnEvent::Begin);
    assert_eq!(c.step(ConnEvent::ResolutionFailed), ConnAction::ReportResolutionFailure);
    assert_eq!(c.state, ConnState::Failed);
}

#[test]
fn hard_socket_failure_fails_the_connection() {
    let mut c = Connection::new(listener(), client(), None);
    c.step(ConnEvent::Begin);
    c.step(ConnEvent::Resolved { dest: upstream() });
    c.step(ConnEvent::RunGuard);
    c.step(ConnEvent::Connected);
    assert_eq!(c.step(ConnEvent::Configured { hard_error: true }), ConnAction::ReportSocketFailure);
    assert_eq!(c.state, ConnState::Failed);
}

/// A zero routing mark counts as absent and is not propagated.
#[test]
fn zero_mark_is_not_carried_to_connect() {
    let mut c = Connection::new(listener(), client(), Some(0));
    c.step(ConnEvent::Begin);
    c.step(ConnEvent::Resolved { dest: upstream() });
    assert_eq!(
        c.step(ConnEvent::RunGuard),
        ConnAction::Connect { dest: upstream(), outbound_mark: None }
    );
}

/// Unexpected events never move the machine.
#[test]
fn stray_events_leave_the_connection_unchanged() {
    let mut c = Connection::new(listener(), client(), None);
    let before = c;
    assert_eq!(c.step(ConnEvent::Connected), ConnAction::Nothing);
    assert_eq!(c.step(ConnEvent::SocketsReleased), ConnAction::Nothing);
    assert_eq!(c, before);
}

#[test]
fn only_accept_errors_end_the_process() {
    assert!(fatal_to_process(RelayError::Accept));
    assert!(!fatal_to_process(RelayError::Connect));
    assert!(!fatal_to_process(RelayError::Resolution));
    assert!(!fatal_to_process(RelayError::Transfer));
    assert!(!fatal_to_process(RelayError::SocketOption { hard: true }));
}

#[test]
fn connection_fatal_errors_are_classified() {
    assert!(fatal_to_connection(RelayError::Resolution));
    assert!(fatal_to_connection(RelayError::Connect));
    assert!(fatal_to_connection(RelayError::SocketOption { hard: true }));
    assert!(!fatal_to_connection(RelayError::SocketOption { hard: false }));
    assert!(!fatal_to_connection(RelayError::Transfer));
    assert!(!fatal_to_connection(RelayError::Accept));
}

#[test]
fn error_kinds_have_report_names() {
    assert_eq!(RelayError::Connect.name(), "connect error");
    assert_eq!(RelayError::Resolution.name(), "resolution error");
    assert_eq!(RelayError::SocketOption { hard: false }.name(), "socket option error");
    assert_eq!(RelayError::Transfer.name(), "transfer error");
    assert_eq!(RelayError::Accept.name(), "accept error");
}
