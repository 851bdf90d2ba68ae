//! Capability upgrades and stream multiplexing for a peer-to-peer stack.
//!
//! A raw byte channel is upgraded to a secure channel and then to a
//! multiplexed one. A single owner drives the multiplexed channel; every
//! other party talks to it through a bounded request queue and single-use
//! reply slots. The state machines here are verified; the asynchronous
//! plumbing that runs them lives outside the library.
use vstd::prelude::*;

pub mod errors;
pub mod crypto;
pub mod channel;
pub mod transport;
pub mod reqres;
pub mod mux;
pub mod listen;
pub mod stream;
pub mod stub;
pub mod conn;
pub mod multiaddr;

verus! {

/// Identifier of a logical stream.
pub type StreamID = String;

/// Identifier of a connection.
pub type ConnID = String;

/// Identifier of a peer.
pub type PeerID = String;

/// Which side opened a connection or stream.
#[derive(Clone, Copy, Debug, PartialEq, Eq, Structural)]
pub enum Direction {
    IN,
    OUT,
}

} // verus!
