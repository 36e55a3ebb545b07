//! Core of an SSH-tunneled port-forwarding engine.
//!
//! Given a set of remote SSH endpoints and, per endpoint, a list of
//! local-to-remote port mappings, the engine opens local TCP listeners and
//! relays every accepted connection through an SSH direct-tcpip channel to
//! the configured remote destination.
//!
//! All I/O (socket binds, SSH dials, byte copies) lives outside this crate;
//! here stand the decisions the engine makes and the properties they obey:
//! which listeners a configuration yields, how session establishment moves
//! through its stages, what each relay step forwards, and how every failure
//! is contained to the smallest unit that owns the failing resource.

pub mod conf;
pub mod error;
pub mod forwarding;
pub mod relay;
pub mod session;
