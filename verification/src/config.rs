//! Process-wide relay configuration.
//!
//! Fixed at startup and never mutated: the listen address, the idle
//! timeout, the relay strategy and the buffer bounds.  The surrounding
//! program parses whatever syntax it takes its settings from and hands
//! the plain values here.

use vstd::prelude::*;

use crate::addr::{IpAddress, SocketAddress};

verus! {

/// Idle window before a silent connection is closed, in seconds.
pub const DEFAULT_IDLE_TIMEOUT_SECS: u64 = 3600;

/// Default listen port.
pub const DEFAULT_LISTEN_PORT: u16 = 1080;

/// Per-task read buffer, and so the largest chunk a read can yield.
pub const DEFAULT_BUFFER_SIZE: usize = 256 * 1024;

/// Bounded queue capacity of the decoupled strategy, in chunks.
pub const DEFAULT_QUEUE_CAPACITY: usize = 1024;

/// How one connection's bytes are relayed: two tasks copying directly,
/// or reader/writer task pairs joined by bounded chunk queues.
#[derive(Clone, Copy, PartialEq, Eq, Structural, Debug)]
pub enum RelayStrategy {
    Direct,
    Decoupled,
}

/// The relay's immutable configuration.
#[derive(Clone, Copy, PartialEq, Eq, Structural, Debug)]
pub struct RelayConfig {
    /// Where the listener binds.
    pub listen: SocketAddress,
    /// Idle window in seconds; silence longer than this closes the
    /// connection.
    pub idle_timeout: u64,
    /// The transfer strategy every connection uses.
    pub strategy: RelayStrategy,
    /// Per-task read buffer size in bytes.
    pub buffer_size: usize,
    /// Chunk capacity of each bounded queue (decoupled strategy).
    pub queue_capacity: usize,
}

impl RelayConfig {
    /// A usable configuration: reads need a buffer and the bounded
    /// queues need room for at least one chunk.
    pub open spec fn wf(self) -> bool {
        &&& self.buffer_size >= 1
        &&& self.queue_capacity >= 1
    }
}

impl Default for RelayConfig {
    /// The defaults: listen on 127.0.0.1 port 1080, an hour of idle
    /// tolerance, direct copying with 256 KiB buffers.
    fn default() -> (c: RelayConfig)
        ensures
            c.listen == (SocketAddress {
                ip: IpAddress::V4(127, 0, 0, 1),
                port: DEFAULT_LISTEN_PORT,
            }),
            c.idle_timeout == DEFAULT_IDLE_TIMEOUT_SECS,
            c.strategy == RelayStrategy::Direct,
            c.buffer_size == DEFAULT_BUFFER_SIZE,
            c.queue_capacity == DEFAULT_QUEUE_CAPACITY,
            c.wf(),
    {
        RelayConfig {
            listen: SocketAddress { ip: IpAddress::V4(127, 0, 0, 1), port: DEFAULT_LISTEN_PORT },
            idle_timeout: DEFAULT_IDLE_TIMEOUT_SECS,
            strategy: RelayStrategy::Direct,
            buffer_size: DEFAULT_BUFFER_SIZE,
            queue_capacity: DEFAULT_QUEUE_CAPACITY,
        }
    }
}

} // verus!
