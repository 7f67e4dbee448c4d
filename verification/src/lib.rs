//! Core of a transparent TCP relay.
//!
//! The relay accepts connections redirected to it at the network layer,
//! recovers each connection's original destination from the kernel,
//! opens an outbound connection to that destination (propagating the
//! routing mark of the inbound socket), and relays bytes in both
//! directions until either side closes or an idle timeout elapses.
//!
//! This crate holds the decision logic of that relay: address decoding,
//! the loop guard, routing-mark propagation, the per-connection state
//! machine, the idle/stats coordinator, the bounded chunk queue of the
//! decoupled relay strategy, and the per-direction transfer machine.
//! The surrounding program performs the actual socket I/O and feeds the
//! outcomes of each operation into these machines as events.

pub mod addr;
pub mod config;
pub mod coordinator;
pub mod engine;
pub mod error;
pub mod guard;
pub mod mark;
pub mod queue;
pub mod transfer;
