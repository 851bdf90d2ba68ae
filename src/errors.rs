//! The error taxonomy of the upgrade engine and the multiplexing core.
use vstd::prelude::*;

verus! {

/// A transport failed to listen.
#[derive(Clone, Copy, Debug, PartialEq, Eq, Structural)]
pub struct ListenError;

/// Closing a physical or logical resource failed.
#[derive(Clone, Copy, Debug, PartialEq, Eq, Structural)]
pub struct CloseError;

/// A write failed or hit a closed channel.
#[derive(Clone, Copy, Debug, PartialEq, Eq, Structural)]
pub struct WriteError;

/// A read failed or hit a closed channel.
#[derive(Clone, Copy, Debug, PartialEq, Eq, Structural)]
pub struct ReadError;

/// An accept-stream request was not submitted or was answered with failure.
#[derive(Clone, Copy, Debug, PartialEq, Eq, Structural)]
pub struct AcceptStreamError;

/// An open-stream request was not submitted or was answered with failure.
#[derive(Clone, Copy, Debug, PartialEq, Eq, Structural)]
pub struct OpenStreamError;

/// A handshake or negotiation failed or was rejected by the remote party.
#[derive(Clone, Copy, Debug, PartialEq, Eq, Structural)]
pub struct UpgradeError;

impl ListenError {
    /// Human-readable description.
    pub fn message(&self) -> (r: String)
        ensures
            r@ == "Failed to listen"@,
    {
        "Failed to listen".to_owned()
    }
}

impl CloseError {
    /// Human-readable description.
    pub fn message(&self) -> (r: String)
        ensures
            r@ == "Failed to close"@,
    {
        "Failed to close".to_owned()
    }
}

impl WriteError {
    /// Human-readable description.
    pub fn message(&self) -> (r: String)
        ensures
            r@ == "Failed to write"@,
    {
        "Failed to write".to_owned()
    }
}

impl ReadError {
    /// Human-readable description.
    pub fn message(&self) -> (r: String)
        ensures
            r@ == "Failed to read"@,
    {
        "Failed to read".to_owned()
    }
}

impl AcceptStreamError {
    /// Human-readable description.
    pub fn message(&self) -> (r: String)
        ensures
            r@ == "Failed to accept stream"@,
    {
        "Failed to accept stream".to_owned()
    }
}

impl OpenStreamError {
    /// Human-readable description.
    pub fn message(&self) -> (r: String)
        ensures
            r@ == "Failed to open stream"@,
    {
        "Failed to open stream".to_owned()
    }
}

impl UpgradeError {
    /// Human-readable description.
    pub fn message(&self) -> (r: String)
        ensures
            r@ == "Failed to upgrade"@,
    {
        "Failed to upgrade".to_owned()
    }
}

} // verus!
