//! The forward session: registering the remote port forward and draining the
//! control channel until the remote side ends the session.

use vstd::prelude::*;

use crate::error::TunnelError;

verus! {

/// Label under which the remote forward is registered.
pub const FORWARD_ADDRESS: &'static str = "measure";

/// Port under which the remote forward is registered.
pub const FORWARD_PORT: u32 = 80;

/// Extended-data class of the standard-error stream.
pub const EXT_STDERR: u32 = 1;

/// A message read from the control channel.
#[derive(Clone, Debug)]
pub enum ControlMsg {
    /// Bytes for the standard output.
    Data(Vec<u8>),
    /// Bytes of an extended stream; class `EXT_STDERR` is the standard error.
    ExtendedData(Vec<u8>, u32),
    /// An acknowledgement.
    Success,
    /// The remote side closed the channel.
    Close,
    /// The remote command exited with this status.
    ExitStatus(u32),
    /// Any other message.
    Other,
}

/// What happened to the step that was asked for last.
#[derive(Clone, Debug)]
pub enum ForwardEvent {
    Begin,
    ChannelOpened,
    ForwardGranted,
    Received(ControlMsg),
    /// The channel yielded nothing more.
    ChannelEnded,
    Written,
    EofSent,
    /// The step asked for failed.
    StepFailed,
}

/// The next step to perform.
#[derive(Clone, Debug, PartialEq, Eq)]
pub enum ForwardAction {
    /// Open the control channel on the session.
    OpenChannel,
    /// Ask the remote side to forward `FORWARD_ADDRESS`:`FORWARD_PORT`.
    RequestForward,
    /// Wait for the next control-channel message.
    Wait,
    /// Write these bytes to the standard output and flush it.
    WriteStdout(Vec<u8>),
    /// Write these bytes to the standard error and flush it.
    WriteStderr(Vec<u8>),
    /// Flush, then signal end of input on the control channel.
    SendEof,
    /// The session ended with this exit code.
    Exited(u32),
    /// The session failed.
    Fail(TunnelError),
}

/// Where the forward session stands.
#[derive(Clone, Copy, Debug, PartialEq, Eq, Structural)]
pub enum ForwardPhase {
    Idle,
    OpeningChannel,
    RequestingForward,
    Waiting,
    Writing,
    /// End of input is being signalled after this exit status.
    Closing(u32),
    Exited(u32),
    Failed(TunnelError),
}

/// The phase and action that follow `event` in `phase`.
pub open spec fn forward_next(phase: ForwardPhase, event: ForwardEvent) -> (ForwardPhase, ForwardAction) {
    match (phase, event) {
        (ForwardPhase::Idle, ForwardEvent::Begin) => (ForwardPhase::OpeningChannel, ForwardAction::OpenChannel),
        (ForwardPhase::OpeningChannel, ForwardEvent::ChannelOpened) => (ForwardPhase::RequestingForward, ForwardAction::RequestForward),
        (ForwardPhase::RequestingForward, ForwardEvent::ForwardGranted)
        | (ForwardPhase::Writing, ForwardEvent::Written) => (ForwardPhase::Waiting, ForwardAction::Wait),
        (ForwardPhase::Waiting, ForwardEvent::Received(msg)) => match msg {
            ControlMsg::Data(d) => (ForwardPhase::Writing, ForwardAction::WriteStdout(d)),
            ControlMsg::ExtendedData(d, ext) => if ext == EXT_STDERR {
                (ForwardPhase::Writing, ForwardAction::WriteStderr(d))
            } else {
                (ForwardPhase::Failed(TunnelError::ProtocolViolation), ForwardAction::Fail(TunnelError::ProtocolViolation))
            },
            ControlMsg::Success => (ForwardPhase::Waiting, ForwardAction::Wait),
            ControlMsg::Close => (ForwardPhase::Exited(0), ForwardAction::Exited(0)),
            ControlMsg::ExitStatus(code) => (ForwardPhase::Closing(code), ForwardAction::SendEof),
            ControlMsg::Other => (ForwardPhase::Failed(TunnelError::ProtocolViolation), ForwardAction::Fail(TunnelError::ProtocolViolation)),
        },
        (ForwardPhase::Waiting, ForwardEvent::ChannelEnded) => (
            ForwardPhase::Failed(TunnelError::ChannelEnded),
            ForwardAction::Fail(TunnelError::ChannelEnded),
        ),
        (ForwardPhase::Writing, ForwardEvent::StepFailed)
        | (ForwardPhase::Closing(_), ForwardEvent::StepFailed) => (
            ForwardPhase::Failed(TunnelError::IoFailed),
            ForwardAction::Fail(TunnelError::IoFailed),
        ),
        (ForwardPhase::Closing(code), ForwardEvent::EofSent) => (ForwardPhase::Exited(code), ForwardAction::Exited(code)),
        (ForwardPhase::Exited(code), _) => (ForwardPhase::Exited(code), ForwardAction::Exited(code)),
        (ForwardPhase::Failed(e), _) => (ForwardPhase::Failed(e), ForwardAction::Fail(e)),
        (ForwardPhase::Idle, _)
        | (ForwardPhase::OpeningChannel, _)
        | (ForwardPhase::RequestingForward, _) => (
            ForwardPhase::Failed(TunnelError::ForwardFailed),
            ForwardAction::Fail(TunnelError::ForwardFailed),
        ),
        _ => (
            ForwardPhase::Failed(TunnelError::ProtocolViolation),
            ForwardAction::Fail(TunnelError::ProtocolViolation),
        ),
    }
}

/// Whether a session in `phase` has had its remote forward granted.
pub open spec fn forward_granted(phase: ForwardPhase) -> bool {
    !(phase is Idle || phase is OpeningChannel || phase is RequestingForward
        || phase == ForwardPhase::Failed(TunnelError::ForwardFailed))
}

/// A session counts as registered exactly from the step that grants the
/// remote forward on, whatever happens after.
pub proof fn lemma_registered_only_after_grant(phase: ForwardPhase, event: ForwardEvent)
    ensures
        forward_granted(forward_next(phase, event).0) <==> (forward_granted(phase) || (
        phase is RequestingForward && event is ForwardGranted)),
{
}

/// Whether the session has reached an end, with an exit code or a failure.
pub open spec fn forward_done(phase: ForwardPhase) -> bool {
    phase is Exited || phase is Failed
}

/// One forward session over an authenticated connection.
#[derive(Clone, Copy, Debug, PartialEq, Eq, Structural)]
pub struct ForwardSession {
    pub phase: ForwardPhase,
}

impl ForwardSession {
    pub fn new() -> (r: Self)
        ensures
            r.phase == ForwardPhase::Idle,
    {
        ForwardSession { phase: ForwardPhase::Idle }
    }

    /// Whether the remote forward has been granted on this session.
    pub fn is_registered(&self) -> (r: bool)
        ensures
            r == forward_granted(self.phase),
    {
        match self.phase {
            ForwardPhase::Idle | ForwardPhase::OpeningChannel | ForwardPhase::RequestingForward => false,
            ForwardPhase::Failed(e) => e != TunnelError::ForwardFailed,
            _ => true,
        }
    }

    /// Takes the outcome of the last step and says what to do next.
    ///
    /// Until the forward is granted, a failed step or an event out of order
    /// fails the session with `ForwardFailed`. Once it has ended, with an exit
    /// code or a failure, the session stays as it is.
    ///
    /// Data goes to the standard output and stderr-class extended data to the
    /// standard error; acknowledgements are skipped; a close ends the session
    /// with code 0 and an exit status ends it with that status once end of
    /// input has been signalled. Any other message is a protocol violation.
    pub fn step(&mut self, event: ForwardEvent) -> (r: ForwardAction)
        ensures
            (final(self).phase, r) == forward_next(old(self).phase, event),
    {
        let (phase, action) = match (self.phase, event) {
            (ForwardPhase::Idle, ForwardEvent::Begin) => (ForwardPhase::OpeningChannel, ForwardAction::OpenChannel),
            (ForwardPhase::OpeningChannel, ForwardEvent::ChannelOpened) => (ForwardPhase::RequestingForward, ForwardAction::RequestForward),
            (ForwardPhase::RequestingForward, ForwardEvent::ForwardGranted)
            | (ForwardPhase::Writing, ForwardEvent::Written) => (ForwardPhase::Waiting, ForwardAction::Wait),
            (ForwardPhase::Waiting, ForwardEvent::Received(msg)) => match msg {
                ControlMsg::Data(d) => (ForwardPhase::Writing, ForwardAction::WriteStdout(d)),
                ControlMsg::ExtendedData(d, ext) => {
                    if ext == EXT_STDERR {
                        (ForwardPhase::Writing, ForwardAction::WriteStderr(d))
                    } else {
                        (ForwardPhase::Failed(TunnelError::ProtocolViolation), ForwardAction::Fail(TunnelError::ProtocolViolation))
                    }
                },
                ControlMsg::Success => (ForwardPhase::Waiting, ForwardAction::Wait),
                ControlMsg::Close => (ForwardPhase::Exited(0), ForwardAction::Exited(0)),
                ControlMsg::ExitStatus(code) => (ForwardPhase::Closing(code), ForwardAction::SendEof),
                ControlMsg::Other => (ForwardPhase::Failed(TunnelError::ProtocolViolation), ForwardAction::Fail(TunnelError::ProtocolViolation)),
            },
            (ForwardPhase::Waiting, ForwardEvent::ChannelEnded) => (
                ForwardPhase::Failed(TunnelError::ChannelEnded),
                ForwardAction::Fail(TunnelError::ChannelEnded),
            ),
            (ForwardPhase::Writing, ForwardEvent::StepFailed)
            | (ForwardPhase::Closing(_), ForwardEvent::StepFailed) => (
                ForwardPhase::Failed(TunnelError::IoFailed),
                ForwardAction::Fail(TunnelError::IoFailed),
            ),
            (ForwardPhase::Closing(code), ForwardEvent::EofSent) => (ForwardPhase::Exited(code), ForwardAction::Exited(code)),
            (ForwardPhase::Exited(code), _) => (ForwardPhase::Exited(code), ForwardAction::Exited(code)),
            (ForwardPhase::Failed(e), _) => (ForwardPhase::Failed(e), ForwardAction::Fail(e)),
            (ForwardPhase::Idle, _)
            | (ForwardPhase::OpeningChannel, _)
            | (ForwardPhase::RequestingForward, _) => (
                ForwardPhase::Failed(TunnelError::ForwardFailed),
                ForwardAction::Fail(TunnelError::ForwardFailed),
            ),
            _ => (
                ForwardPhase::Failed(TunnelError::ProtocolViolation),
                ForwardAction::Fail(TunnelError::ProtocolViolation),
            ),
        };
        self.phase = phase;
        action
    }
}

} // verus!
