use tcp_relay::config::{RelayConfig, RelayStrategy};
use tcp_relay::engine::CloseReason;
use tcp_relay::queue::{ChunkQueue, PopOutcome, PushOutcome};
use tcp_relay::transfer::{DirAction, DirEvent, DirPhase, RelaySession, Side};

/// The "ping"/"pong" exchange: four bytes each way, the coordinator
/// reports eight in total, and both directions close by peer EOF.
#[test]
fn ping_pong_session_reports_four_bytes_each_way() {
    let mut s = RelaySession::new(3600, 0);
    assert_eq!(
        s.step(Side::ClientToServer, DirEvent::Data { n: 4 }, 1),
        DirAction::Forward { n: 4 }
    );
    assert_eq!(
        s.step(Side::ServerToClient, DirEvent::Data { n: 4 }, 2),
        DirAction::Forward { n: 4 }
    );
    assert_eq!(s.client_to_server.bytes, 4);
    assert_eq!(s.server_to_client.bytes, 4);
    assert_eq!(s.total_bytes(), 8);

    assert!(!s.finished());
    assert_eq!(s.step(Side::ClientToServer, DirEvent::Eof, 3), DirAction::ShutdownPeerWrite);
    assert_eq!(s.step(Side::ServerToClient, DirEvent::Eof, 4), DirAction::ShutdownPeerWrite);
    assert!(s.finished());
    assert_eq!(s.client_to_server.phase, DirPhase::Finished { reason: CloseReason::ByPeer });
}

/// Half-close propagation: the server closing its write side finishes
/// only the server-to-client direction with a write-side shutdown of
/// the client socket, while the client-to-server direction keeps
/// transferring.
#[test]
fn half_close_leaves_the_other_direction_running() {
    let mut s = RelaySession::new(3600, 0);
    let before = s.client_to_server;
    assert_eq!(s.step(Side::ServerToClient, DirEvent::Eof, 1), DirAction::ShutdownPeerWrite);
    assert_eq!(s.server_to_client.phase, DirPhase::Finished { reason: CloseReason::ByPeer });
    assert_eq!(s.client_to_server, before);

    // The reverse direction continues until the client also closes.
    assert_eq!(
        s.step(Side::ClientToServer, DirEvent::Data { n: 100 }, 2),
        DirAction::Forward { n: 100 }
    );
    assert_eq!(s.step(Side::ClientToServer, DirEvent::Eof, 3), DirAction::ShutdownPeerWrite);
    assert!(s.finished());
}

/// The idle watchdog is shared: it fires once for the session, and the
/// cancellation finishes each direction through a half-close.
#[test]
fn idle_session_is_cancelled_and_shut_down() {
    let mut s = RelaySession::new(10, 0);
    s.step(Side::ClientToServer, DirEvent::Data { n: 1 }, 5);
    assert!(!s.poll_idle(15));
    assert!(s.poll_idle(16));
    assert!(!s.poll_idle(17));

    assert_eq!(s.step(Side::ClientToServer, DirEvent::Cancelled, 17), DirAction::ShutdownPeerWrite);
    assert_eq!(s.step(Side::ServerToClient, DirEvent::Cancelled, 17), DirAction::ShutdownPeerWrite);
    assert!(s.finished());
    assert_eq!(s.client_to_server.phase, DirPhase::Finished { reason: CloseReason::IdleTimeout });
}

/// A transfer error finishes only the direction that hit it.
#[test]
fn transfer_error_ends_only_its_direction() {
    let mut s = RelaySession::new(3600, 0);
    assert_eq!(s.step(Side::ClientToServer, DirEvent::ReadError, 1), DirAction::Nothing);
    assert_eq!(
        s.client_to_server.phase,
        DirPhase::Finished { reason: CloseReason::TransferError }
    );
    assert_eq!(s.server_to_client.phase, DirPhase::Forwarding);
    assert_eq!(
        s.step(Side::ServerToClient, DirEvent::Data { n: 3 }, 2),
        DirAction::Forward { n: 3 }
    );
    // A finished direction ignores further events.
    assert_eq!(s.step(Side::ClientToServer, DirEvent::Data { n: 9 }, 3), DirAction::Nothing);
    assert_eq!(s.client_to_server.bytes, 0);
}

/// The closure reason reported to the engine: the idle timeout wins
/// over a transfer error, which wins over a plain close by peer.
#[test]
fn close_reason_ranks_timeout_over_error_over_peer() {
    let mut s = RelaySession::new(3600, 0);
    s.step(Side::ClientToServer, DirEvent::Data { n: 4 }, 1);
    s.step(Side::ClientToServer, DirEvent::Eof, 2);
    s.step(Side::ServerToClient, DirEvent::Eof, 3);
    assert_eq!(s.close_reason(), CloseReason::ByPeer);
    assert_eq!(
        s.transfer_done_event(),
        tcp_relay::engine::ConnEvent::TransferDone {
            to_server: 4,
            to_client: 0,
            reason: CloseReason::ByPeer,
        }
    );

    let mut s = RelaySession::new(3600, 0);
    s.step(Side::ClientToServer, DirEvent::ReadError, 1);
    s.step(Side::ServerToClient, DirEvent::Eof, 2);
    assert_eq!(s.close_reason(), CloseReason::TransferError);

    let mut s = RelaySession::new(10, 0);
    s.step(Side::ClientToServer, DirEvent::ReadError, 1);
    assert!(s.poll_idle(12));
    s.step(Side::ServerToClient, DirEvent::Cancelled, 12);
    assert_eq!(s.close_reason(), CloseReason::IdleTimeout);
}

/// Backpressure: with capacity Q, the Q+1st chunk comes back and the
/// reader must wait; draining one chunk makes room again.
#[test]
fn full_queue_pushes_back_until_drained() {
    let mut q = ChunkQueue::new(3, 4);
    assert!(matches!(q.push(vec![1]), PushOutcome::Enqueued));
    assert!(matches!(q.push(vec![2, 2]), PushOutcome::Enqueued));
    assert!(matches!(q.push(vec![3, 3, 3]), PushOutcome::Enqueued));
    assert_eq!(q.len(), 3);

    match q.push(vec![4, 4, 4, 4]) {
        PushOutcome::Full { chunk } => assert_eq!(chunk, vec![4, 4, 4, 4]),
        _ => panic!("a full queue must hand the chunk back"),
    }
    assert_eq!(q.len(), 3);

    match q.pop() {
        PopOutcome::Chunk { chunk } => assert_eq!(chunk, vec![1]),
        _ => panic!("the oldest chunk must come out first"),
    }
    assert!(matches!(q.push(vec![4, 4, 4, 4]), PushOutcome::Enqueued));
}

/// Strict FIFO: chunks leave in the order they entered.
#[test]
fn chunks_leave_in_arrival_order() {
    let mut q = ChunkQueue::new(8, 16);
    q.push(vec![10, 11]);
    q.push(vec![20]);
    q.push(vec![30, 31, 32]);
    let mut drained: Vec<Vec<u8>> = Vec::new();
    loop {
        match q.pop() {
            PopOutcome::Chunk { chunk } => drained.push(chunk),
            _ => break,
        }
    }
    assert_eq!(drained, vec![vec![10, 11], vec![20], vec![30, 31, 32]]);
}

/// Drain-then-close: a closed queue still yields its queued chunks and
/// only then reports end of stream; an open empty queue means "wait".
#[test]
fn closed_queue_drains_before_end_of_stream() {
    let mut q = ChunkQueue::new(4, 8);
    assert!(matches!(q.pop(), PopOutcome::Empty));
    q.push(vec![1, 2]);
    q.close();
    assert!(q.is_closed());
    match q.pop() {
        PopOutcome::Chunk { chunk } => assert_eq!(chunk, vec![1, 2]),
        _ => panic!("queued chunks must be drained after close"),
    }
    assert!(matches!(q.pop(), PopOutcome::Finished));
    // The reader's end stays closed: nothing more can enter.
    match q.push(vec![9]) {
        PushOutcome::Refused { chunk } => assert_eq!(chunk, vec![9]),
        _ => panic!("a closed queue must refuse new chunks"),
    }
}

#[test]
fn default_configuration_matches_the_documented_defaults() {
    let c = RelayConfig::default();
    assert_eq!(c.listen, tcp_relay::addr::SocketAddress::v4(127, 0, 0, 1, 1080));
    assert_eq!(c.idle_timeout, 3600);
    assert_eq!(c.strategy, RelayStrategy::Direct);
    assert_eq!(c.buffer_size, 256 * 1024);
    assert_eq!(c.queue_capacity, 1024);
}
