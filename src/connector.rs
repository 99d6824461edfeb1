//! Decisions taken while opening an authenticated session.

use vstd::prelude::*;

use crate::error::TunnelError;

verus! {

/// Hash algorithms that key authentication can be signed with.
#[derive(Clone, Copy, Debug, PartialEq, Eq, Structural)]
pub enum HashAlg {
    Sha256,
    Sha512,
}

/// The hash used when the server names no preferred one.
pub open spec fn default_hash() -> HashAlg {
    HashAlg::Sha256
}

/// The hash to sign the key with, given what the server said of its best
/// supported one (nothing, a reply without a preference, or an algorithm).
pub fn auth_hash(best: Option<Option<HashAlg>>) -> (r: HashAlg)
    ensures
        r == (match best {
            Some(Some(h)) => h,
            _ => default_hash(),
        }),
{
    match best {
        Some(Some(h)) => h,
        _ => HashAlg::Sha256,
    }
}

/// Whether the server's host key is accepted: with an expected fingerprint,
/// only a key with exactly that fingerprint is; without one, any key is.
pub fn check_server_key(expected: &Option<String>, presented: &String) -> (r: bool)
    ensures
        r == (match expected {
            Some(e) => e@ == presented@,
            None => true,
        }),
{
    match expected {
        Some(e) => e.eq(presented),
        None => true,
    }
}

/// Where opening a session stands.
#[derive(Clone, Copy, Debug, PartialEq, Eq, Structural)]
pub enum ConnectPhase {
    Idle,
    OpeningSocket,
    Handshaking,
    QueryingHash,
    Authenticating,
    Established,
    Failed(TunnelError),
}

/// What happened to the step that was asked for last.
#[derive(Clone, Copy, Debug)]
pub enum ConnectEvent {
    Begin,
    SocketOpened,
    HandshakeDone,
    HashQueried(Option<Option<HashAlg>>),
    /// The server answered the key; `true` when it accepted it.
    Authenticated(bool),
    /// The step asked for failed at the transport level.
    StepFailed,
}

/// The next step to perform.
#[derive(Clone, Copy, Debug, PartialEq, Eq, Structural)]
pub enum ConnectAction {
    /// Open a socket to the host, then ask for no send delay (a failure of
    /// the latter is only reported).
    OpenSocket,
    /// Run the protocol handshake over the socket.
    Handshake,
    /// Ask the server for its preferred key-signature hash.
    QueryHash,
    /// Authenticate with the key, signing with this hash.
    Authenticate(HashAlg),
    /// The session is authenticated and ready.
    Ready,
    /// The attempt failed.
    Fail(TunnelError),
}

/// The phase and action that follow `event` in `phase`.
pub open spec fn connect_next(phase: ConnectPhase, event: ConnectEvent) -> (ConnectPhase, ConnectAction) {
    match (phase, event) {
        (ConnectPhase::Idle, ConnectEvent::Begin) => (ConnectPhase::OpeningSocket, ConnectAction::OpenSocket),
        (ConnectPhase::OpeningSocket, ConnectEvent::SocketOpened) => (ConnectPhase::Handshaking, ConnectAction::Handshake),
        (ConnectPhase::Handshaking, ConnectEvent::HandshakeDone) => (ConnectPhase::QueryingHash, ConnectAction::QueryHash),
        (ConnectPhase::QueryingHash, ConnectEvent::HashQueried(best)) => (
            ConnectPhase::Authenticating,
            ConnectAction::Authenticate(match best {
                Some(Some(h)) => h,
                _ => default_hash(),
            }),
        ),
        (ConnectPhase::Authenticating, ConnectEvent::Authenticated(true)) => (ConnectPhase::Established, ConnectAction::Ready),
        (ConnectPhase::Authenticating, ConnectEvent::Authenticated(false)) => (
            ConnectPhase::Failed(TunnelError::AuthFailed),
            ConnectAction::Fail(TunnelError::AuthFailed),
        ),
        _ => (
            ConnectPhase::Failed(TunnelError::ConnectFailed),
            ConnectAction::Fail(TunnelError::ConnectFailed),
        ),
    }
}

/// Opening one authenticated session, as a sequence of steps.
#[derive(Clone, Copy, Debug, PartialEq, Eq, Structural)]
pub struct Connector {
    pub phase: ConnectPhase,
}

impl Connector {
    pub fn new() -> (r: Self)
        ensures
            r.phase == ConnectPhase::Idle,
    {
        Connector { phase: ConnectPhase::Idle }
    }

    /// Takes the outcome of the last step and says what to do next. Any
    /// transport failure, and any event out of order, ends the attempt with
    /// `ConnectFailed`; a refused key ends it with `AuthFailed`.
    pub fn step(&mut self, event: ConnectEvent) -> (r: ConnectAction)
        ensures
            (final(self).phase, r) == connect_next(old(self).phase, event),
    {
        let (phase, action) = match (self.phase, event) {
            (ConnectPhase::Idle, ConnectEvent::Begin) => (ConnectPhase::OpeningSocket, ConnectAction::OpenSocket),
            (ConnectPhase::OpeningSocket, ConnectEvent::SocketOpened) => (ConnectPhase::Handshaking, ConnectAction::Handshake),
            (ConnectPhase::Handshaking, ConnectEvent::HandshakeDone) => (ConnectPhase::QueryingHash, ConnectAction::QueryHash),
            (ConnectPhase::QueryingHash, ConnectEvent::HashQueried(best)) => (
                ConnectPhase::Authenticating,
                ConnectAction::Authenticate(auth_hash(best)),
            ),
            (ConnectPhase::Authenticating, ConnectEvent::Authenticated(accepted)) => {
                if accepted {
                    (ConnectPhase::Established, ConnectAction::Ready)
                } else {
                    (
                        ConnectPhase::Failed(TunnelError::AuthFailed),
                        ConnectAction::Fail(TunnelError::AuthFailed),
                    )
                }
            },
            _ => (
                ConnectPhase::Failed(TunnelError::ConnectFailed),
                ConnectAction::Fail(TunnelError::ConnectFailed),
            ),
        };
        self.phase = phase;
        action
    }
}

} // verus!
