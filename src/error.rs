//! Failures of one tunnel session.

use vstd::prelude::*;

verus! {

/// Why an attempt to bring up or keep a tunnel session failed.
#[derive(Clone, Copy, Debug, PartialEq, Eq, Structural)]
pub enum TunnelError {
    /// The socket could not be opened, or the handshake or the authentication
    /// exchange broke off.
    ConnectFailed,
    /// The server did not accept the key.
    AuthFailed,
    /// The control channel could not be opened, or the server refused the
    /// remote port forward.
    ForwardFailed,
    /// The control channel carried a message that has no meaning here.
    ProtocolViolation,
    /// The control channel ended without a close or an exit status.
    ChannelEnded,
    /// Writing to the local output, or signalling end of input, failed.
    IoFailed,
}

impl TunnelError {
    /// A short description of the failure.
    pub fn message(&self) -> (r: &'static str)
        ensures
            r@ == (match self {
                TunnelError::ConnectFailed => "unable to connect to the remote host"@,
                TunnelError::AuthFailed => "key authentication failed"@,
                TunnelError::ForwardFailed => "remote port forwarding failed"@,
                TunnelError::ProtocolViolation => "unexpected message on the control channel"@,
                TunnelError::ChannelEnded => "unexpected end of the control channel"@,
                TunnelError::IoFailed => "local output failed"@,
            }),
    {
        match self {
            TunnelError::ConnectFailed => "unable to connect to the remote host",
            TunnelError::AuthFailed => "key authentication failed",
            TunnelError::ForwardFailed => "remote port forwarding failed",
            TunnelError::ProtocolViolation => "unexpected message on the control channel",
            TunnelError::ChannelEnded => "unexpected end of the control channel",
            TunnelError::IoFailed => "local output failed",
        }
    }
}

} // verus!
