//! The error taxonomy of the forwarding engine.
//!
//! Every failure is a value carrying typed context (label, host, port,
//! username), so callers and tests can examine fields instead of parsing
//! formatted text. Rendering a human-readable line from these fields is the
//! embedding program's business.

use vstd::prelude::*;

verus! {

/// Raised at startup when no configuration file exists at any of the
/// searched locations. Fatal for the whole process.
#[derive(Debug)]
pub struct ConfFileNotFoundError {
    pub msg: String,
}

impl ConfFileNotFoundError {
    pub fn new(msg: &str) -> (e: Self)
        ensures
            e.msg@ == msg@,
    {
        ConfFileNotFoundError { msg: msg.to_owned() }
    }
}

/// The stage of SSH session establishment that failed.
#[derive(Debug, PartialEq, Eq, Structural, Clone, Copy)]
pub enum SshStage {
    /// The TCP dial lost the race against the timer.
    ConnectTimeout,
    /// The TCP dial itself failed.
    ConnectFailed,
    /// The SSH session could not be constructed over the dialed stream.
    SessionInit,
    /// The SSH protocol handshake failed.
    Handshake,
    /// Password authentication was refused.
    Auth,
}

/// One failure of the forwarding engine.
///
/// Each variant is contained at the smallest unit that owns the failing
/// resource: a bind failure kills only its port rule before it starts, a
/// session or channel failure kills only that connection attempt, a
/// listening failure kills only that listener.
#[derive(Debug)]
pub enum ForwardingError {
    /// The local listening socket for one port rule could not be bound.
    BindError { label: String, local_port: u16 },
    /// SSH session establishment failed at the given stage.
    SshError { stage: SshStage, ssh_host: String, ssh_port: u16, ssh_username: String },
    /// The direct-tcpip channel to the remote destination was refused.
    RemoteChannelError { label: String, remote_host: String, remote_port: u16 },
    /// The accept loop's socket reported an unrecoverable error.
    ListeningError { label: String, local_port: u16 },
}

} // verus!
