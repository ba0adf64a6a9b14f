use vstd::prelude::*;

verus! {

/// Why a registry, session or directory operation failed.
///
/// Each variant marks a distinct failure point; the payload carries either
/// the project id that could not be resolved (`NotFound`) or the underlying
/// cause as reported by the transport layer.
#[derive(Debug)]
pub enum SshError {
    /// No project record exists under the given id.
    NotFound(String),
    /// Opening the transport connection to `host:port` failed.
    ConnectError(String),
    /// The server rejected the username/password credentials.
    AuthError(String),
    /// Opening a session channel failed.
    ChannelError(String),
    /// Negotiating the file-transfer subsystem on the channel failed.
    SubsystemError(String),
    /// Establishing the file-transfer protocol session failed.
    ProtocolInitError(String),
    /// The operation needs a live session, but none is connected.
    NoActiveSession,
    /// A directory read over the live session failed.
    ListError(String),
}

} // verus!
