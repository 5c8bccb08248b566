//! Error types of the library.

use vstd::prelude::*;

verus! {

/// Errors of the network manager and of identity handling.
#[derive(Clone, Debug, PartialEq, Eq)]
pub enum CommonwareNetworkError {
    /// The transport reported a failure.
    P2P(String),
    /// Dissemination failed.
    Broadcast(String),
    /// No correlated response came within the wait.
    CollectorTimeout,
    /// A port, address or limit is invalid.
    ConfigError(String),
    /// No known peer has the requested role.
    NoPeersForRole(String),
    /// A message could not be encoded or decoded.
    Serialization(String),
    /// A role name is unknown.
    InvalidNodeType(String),
    /// The network is not running.
    NotInitialized,
    /// The identity carries no usable private key.
    NodePrivKeyNotFound,
    /// The named peer is unknown.
    PeerNotFound(String),
    /// The channel id is unknown.
    ChannelError(String),
    /// The network was already started on this instance.
    AlreadyStarted,
    /// The event stream was already claimed.
    EventStreamTaken,
}

/// Result of network manager operations.
pub type CommonwareNetworkResult<T> = Result<T, CommonwareNetworkError>;

/// Errors of the shared helpers.
#[derive(Clone, Debug, PartialEq, Eq)]
pub enum HoError {
    /// A network address or port is invalid.
    Network(String),
}

/// Result of the shared helpers.
pub type HoResult<T> = Result<T, HoError>;

} // verus!
