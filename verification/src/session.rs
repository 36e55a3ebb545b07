//! Establishment of one authenticated SSH session, as a state machine.
//!
//! One session is created per accepted connection: a TCP dial racing a
//! timer, then session construction over the dialed stream, then the SSH
//! handshake, then password authentication. Each stage is attempted exactly
//! once — no retry, no backoff — and each stage's failure ends the attempt
//! with an error naming the stage and the endpoint. The embedding program
//! performs the actual network steps and feeds their outcomes in as events.

use vstd::prelude::*;
use crate::error::{ForwardingError, SshStage};
use crate::forwarding::Forwarding;

verus! {

/// Where one session-establishment attempt stands.
#[derive(Debug)]
pub enum SessionState {
    /// Dialing the mapping's ssh_host:ssh_port, racing the dial timer.
    Connecting,
    /// Constructing the SSH session over the dialed stream.
    Initializing,
    /// Running the SSH protocol handshake.
    Handshaking,
    /// Authenticating with the mapping's username and password.
    Authenticating,
    /// Every stage succeeded: the session is authenticated. Terminal.
    Ready,
    /// A stage failed; carries the error. Terminal.
    Failed(ForwardingError),
}

/// The outcome of the network step that the current state was waiting on.
#[derive(Debug)]
pub enum SessionEvent {
    /// The TCP dial won the race against the timer.
    ConnectOk,
    /// The timer won the race: the dial took longer than the bound.
    ConnectTimedOut,
    /// The TCP dial itself failed.
    ConnectFailed,
    /// The SSH session was constructed over the stream.
    InitOk,
    /// The SSH session could not be constructed.
    InitFailed,
    /// The SSH protocol handshake completed.
    HandshakeOk,
    /// The SSH protocol handshake failed.
    HandshakeFailed,
    /// Password authentication was accepted.
    AuthOk,
    /// Password authentication was refused.
    AuthFailed,
}

/// Whether an attempt is finished, for better or worse.
pub open spec fn is_terminal(s: SessionState) -> bool {
    s is Ready || s is Failed
}

/// Whether the event reports the outcome of the stage the state is in.
pub open spec fn session_event_fits(s: SessionState, ev: SessionEvent) -> bool {
    match ev {
        SessionEvent::ConnectOk | SessionEvent::ConnectTimedOut | SessionEvent::ConnectFailed =>
            s is Connecting,
        SessionEvent::InitOk | SessionEvent::InitFailed => s is Initializing,
        SessionEvent::HandshakeOk | SessionEvent::HandshakeFailed => s is Handshaking,
        SessionEvent::AuthOk | SessionEvent::AuthFailed => s is Authenticating,
    }
}

/// The session-establishment error for one mapping at one stage.
pub open spec fn ssh_error(f: Forwarding, stage: SshStage) -> ForwardingError {
    ForwardingError::SshError {
        stage: stage,
        ssh_host: f.ssh_host,
        ssh_port: f.ssh_port,
        ssh_username: f.ssh_username,
    }
}

/// The transition relation: each success advances one stage, each failure
/// ends the attempt with the error of the stage it failed at.
pub open spec fn session_step_spec(f: Forwarding, ev: SessionEvent) -> SessionState {
    match ev {
        SessionEvent::ConnectOk => SessionState::Initializing,
        SessionEvent::ConnectTimedOut => SessionState::Failed(
            ssh_error(f, SshStage::ConnectTimeout),
        ),
        SessionEvent::ConnectFailed => SessionState::Failed(ssh_error(f, SshStage::ConnectFailed)),
        SessionEvent::InitOk => SessionState::Handshaking,
        SessionEvent::InitFailed => SessionState::Failed(ssh_error(f, SshStage::SessionInit)),
        SessionEvent::HandshakeOk => SessionState::Authenticating,
        SessionEvent::HandshakeFailed => SessionState::Failed(ssh_error(f, SshStage::Handshake)),
        SessionEvent::AuthOk => SessionState::Ready,
        SessionEvent::AuthFailed => SessionState::Failed(ssh_error(f, SshStage::Auth)),
    }
}

impl SessionState {
    /// Advances one attempt by the outcome of the stage it was waiting on.
    pub fn step(self, f: &Forwarding, ev: SessionEvent) -> (next: SessionState)
        requires
            session_event_fits(self, ev),
        ensures
            next == session_step_spec(*f, ev),
    {
        match ev {
            SessionEvent::ConnectOk => SessionState::Initializing,
            SessionEvent::ConnectTimedOut => SessionState::Failed(
                ForwardingError::SshError {
                    stage: SshStage::ConnectTimeout,
                    ssh_host: f.ssh_host.clone(),
                    ssh_port: f.ssh_port,
                    ssh_username: f.ssh_username.clone(),
                },
            ),
            SessionEvent::ConnectFailed => SessionState::Failed(
                ForwardingError::SshError {
                    stage: SshStage::ConnectFailed,
                    ssh_host: f.ssh_host.clone(),
                    ssh_port: f.ssh_port,
                    ssh_username: f.ssh_username.clone(),
                },
            ),
            SessionEvent::InitOk => SessionState::Handshaking,
            SessionEvent::InitFailed => SessionState::Failed(
                ForwardingError::SshError {
                    stage: SshStage::SessionInit,
                    ssh_host: f.ssh_host.clone(),
                    ssh_port: f.ssh_port,
                    ssh_username: f.ssh_username.clone(),
                },
            ),
            SessionEvent::HandshakeOk => SessionState::Authenticating,
            SessionEvent::HandshakeFailed => SessionState::Failed(
                ForwardingError::SshError {
                    stage: SshStage::Handshake,
                    ssh_host: f.ssh_host.clone(),
                    ssh_port: f.ssh_port,
                    ssh_username: f.ssh_username.clone(),
                },
            ),
            SessionEvent::AuthOk => SessionState::Ready,
            SessionEvent::AuthFailed => SessionState::Failed(
                ForwardingError::SshError {
                    stage: SshStage::Auth,
                    ssh_host: f.ssh_host.clone(),
                    ssh_port: f.ssh_port,
                    ssh_username: f.ssh_username.clone(),
                },
            ),
        }
    }
}

/// Runs one attempt from `s` through a sequence of stage outcomes.
pub open spec fn run_session(f: Forwarding, s: SessionState, evs: Seq<SessionEvent>) -> SessionState
    decreases evs.len(),
{
    if evs.len() == 0 {
        s
    } else {
        run_session(f, session_step_spec(f, evs.first()), evs.drop_first())
    }
}

/// An attempt is single-shot: once it is Ready or Failed, no further stage
/// outcome applies to it. A new connection gets a new attempt.
pub proof fn lemma_terminal_is_final(s: SessionState, ev: SessionEvent)
    requires
        is_terminal(s),
    ensures
        !session_event_fits(s, ev),
{
}

/// A dial that loses the race against the timer fails the attempt then and
/// there — the attempt never hangs past the timer — with the error naming
/// the endpoint whose dial timed out.
pub proof fn lemma_dial_timeout_fails(f: Forwarding)
    ensures
        run_session(f, SessionState::Connecting, seq![SessionEvent::ConnectTimedOut])
            == SessionState::Failed(ssh_error(f, SshStage::ConnectTimeout)),
{
    reveal_with_fuel(run_session, 2);
    assert(seq![SessionEvent::ConnectTimedOut].drop_first() =~= Seq::<SessionEvent>::empty());
}

/// A wrong password fails exactly the authentication stage of its own
/// attempt; a later, fresh attempt in which every stage succeeds ends in an
/// authenticated session.
pub proof fn lemma_auth_retry(f: Forwarding)
    ensures
        run_session(
            f,
            SessionState::Connecting,
            seq![
                SessionEvent::ConnectOk,
                SessionEvent::InitOk,
                SessionEvent::HandshakeOk,
                SessionEvent::AuthFailed,
            ],
        ) == SessionState::Failed(ssh_error(f, SshStage::Auth)),
        run_session(
            f,
            SessionState::Connecting,
            seq![
                SessionEvent::ConnectOk,
                SessionEvent::InitOk,
                SessionEvent::HandshakeOk,
                SessionEvent::AuthOk,
            ],
        ) == SessionState::Ready,
{
    let fail = seq![
        SessionEvent::ConnectOk,
        SessionEvent::InitOk,
        SessionEvent::HandshakeOk,
        SessionEvent::AuthFailed,
    ];
    let ok = seq![
        SessionEvent::ConnectOk,
        SessionEvent::InitOk,
        SessionEvent::HandshakeOk,
        SessionEvent::AuthOk,
    ];
    assert(run_session(f, SessionState::Connecting, fail) == SessionState::Failed(
        ssh_error(f, SshStage::Auth),
    )) by {
        reveal_with_fuel(run_session, 5);
        assert(fail.drop_first() =~= fail.subrange(1, 4));
        assert(fail.drop_first().drop_first() =~= fail.subrange(2, 4));
        assert(fail.drop_first().drop_first().drop_first() =~= fail.subrange(3, 4));
        assert(fail.drop_first().drop_first().drop_first().drop_first() =~= Seq::<
            SessionEvent,
        >::empty());
    }
    assert(run_session(f, SessionState::Connecting, ok) == SessionState::Ready) by {
        reveal_with_fuel(run_session, 5);
        assert(ok.drop_first() =~= ok.subrange(1, 4));
        assert(ok.drop_first().drop_first() =~= ok.subrange(2, 4));
        assert(ok.drop_first().drop_first().drop_first() =~= ok.subrange(3, 4));
        assert(ok.drop_first().drop_first().drop_first().drop_first() =~= Seq::<
            SessionEvent,
        >::empty());
    }
}

} // verus!
