//! The supervisor loop: connect, register the forward, wait for the session
//! to end, close it, and start over, backing off after failed attempts.

use vstd::prelude::*;

use crate::error::TunnelError;
use crate::retry::{base_delay_ms, lemma_base_delay_monotone, retry_delay_ms, MAX_DELAY_MS, MIN_DELAY_MS};

verus! {

/// Where the supervisor stands.
#[derive(Clone, Copy, Debug, PartialEq, Eq, Structural)]
pub enum SupervisorPhase {
    Idle,
    /// A connection attempt is under way.
    Connecting,
    /// Connected; the forward session is registering the remote forward.
    Registering,
    /// The forward is registered and the session runs.
    Forwarding,
    /// The session is being closed; `backoff` says whether a retry delay
    /// follows (the registration failed) or a new attempt starts at once.
    Closing { backoff: bool },
    /// Waiting out the retry delay.
    BackingOff,
}

/// What happened to the step that was asked for last.
#[derive(Clone, Copy, Debug, PartialEq, Eq, Structural)]
pub enum SupervisorEvent {
    Start,
    Connected,
    ConnectFailed(TunnelError),
    /// The remote forward was granted.
    Registered,
    /// The forward session returned, with an exit code or a failure.
    SessionEnded,
    /// The graceful close returned; its outcome is only reported.
    Closed,
    /// The retry delay has passed.
    Slept,
}

/// The next step to perform.
#[derive(Clone, Copy, Debug, PartialEq, Eq, Structural)]
pub enum SupervisorAction {
    /// Open a fresh authenticated session.
    Connect,
    /// Run a forward session on it.
    Forward,
    /// Keep the forward session running until it returns.
    KeepForwarding,
    /// Send a disconnect on the session and drop it.
    Close,
    /// Wait this many milliseconds before connecting again.
    Sleep(u64),
    /// The event does not belong to the current phase; nothing changes.
    Ignore,
}

/// The supervisor's state: its phase and the number of consecutive failed
/// attempts since the last registered forward.
#[derive(Clone, Copy, Debug, PartialEq, Eq, Structural)]
pub struct Supervisor {
    pub phase: SupervisorPhase,
    pub failures: u64,
}

/// One more failure, saturating at the largest count.
pub open spec fn bumped(failures: u64) -> u64 {
    if failures < u64::MAX {
        (failures + 1) as u64
    } else {
        failures
    }
}

/// The phase and failure count that follow `event`.
pub open spec fn supervisor_next(s: Supervisor, event: SupervisorEvent) -> Supervisor {
    match (s.phase, event) {
        (SupervisorPhase::Idle, SupervisorEvent::Start)
        | (SupervisorPhase::Closing { backoff: false }, SupervisorEvent::Closed)
        | (SupervisorPhase::BackingOff, SupervisorEvent::Slept) => Supervisor { phase: SupervisorPhase::Connecting, ..s },
        (SupervisorPhase::Connecting, SupervisorEvent::ConnectFailed(_)) => Supervisor {
            phase: SupervisorPhase::BackingOff,
            failures: bumped(s.failures),
        },
        (SupervisorPhase::Connecting, SupervisorEvent::Connected) => Supervisor { phase: SupervisorPhase::Registering, ..s },
        (SupervisorPhase::Registering, SupervisorEvent::Registered) => Supervisor {
            phase: SupervisorPhase::Forwarding,
            failures: 0,
        },
        (SupervisorPhase::Registering, SupervisorEvent::SessionEnded) => Supervisor {
            phase: SupervisorPhase::Closing { backoff: true },
            failures: bumped(s.failures),
        },
        (SupervisorPhase::Forwarding, SupervisorEvent::SessionEnded) => Supervisor {
            phase: SupervisorPhase::Closing { backoff: false },
            ..s
        },
        (SupervisorPhase::Closing { backoff: true }, SupervisorEvent::Closed) => Supervisor {
            phase: SupervisorPhase::BackingOff,
            ..s
        },
        _ => s,
    }
}

/// The supervisor's invariant: a retry delay is only ever pending after at
/// least one failure.
pub open spec fn supervisor_wf(s: Supervisor) -> bool {
    (s.phase == SupervisorPhase::Closing { backoff: true } || s.phase is BackingOff) ==> s.failures >= 1
}

/// Whether `event` is followed by a retry delay: a connection attempt
/// failed, or a session whose registration failed has been closed.
pub open spec fn sleeps(s: Supervisor, event: SupervisorEvent) -> bool {
    (s.phase is Connecting && event is ConnectFailed)
        || (s.phase == SupervisorPhase::Closing { backoff: true } && event is Closed)
}

/// The action that follows `event` where no retry delay does.
pub open spec fn planned_action(s: Supervisor, event: SupervisorEvent) -> SupervisorAction {
    match (s.phase, event) {
        (SupervisorPhase::Idle, SupervisorEvent::Start)
        | (SupervisorPhase::Closing { backoff: false }, SupervisorEvent::Closed)
        | (SupervisorPhase::BackingOff, SupervisorEvent::Slept) => SupervisorAction::Connect,
        (SupervisorPhase::Connecting, SupervisorEvent::Connected) => SupervisorAction::Forward,
        (SupervisorPhase::Registering, SupervisorEvent::Registered) => SupervisorAction::KeepForwarding,
        (SupervisorPhase::Registering, SupervisorEvent::SessionEnded)
        | (SupervisorPhase::Forwarding, SupervisorEvent::SessionEnded) => SupervisorAction::Close,
        _ => SupervisorAction::Ignore,
    }
}

/// Whether a wait of `d` milliseconds is a retry delay after `failures`
/// consecutive failures: the base delay of that attempt, plus jitter of at
/// most the same amount.
pub open spec fn is_retry_delay(d: u64, failures: u64) -> bool {
    failures >= 1 && base_delay_ms((failures - 1) as nat) <= d <= 2 * base_delay_ms((failures - 1) as nat)
}

impl Supervisor {
    pub fn new() -> (r: Self)
        ensures
            r.phase == SupervisorPhase::Idle,
            r.failures == 0,
            supervisor_wf(r),
    {
        Supervisor { phase: SupervisorPhase::Idle, failures: 0 }
    }

    /// Takes the outcome of the last step and says what to do next.
    ///
    /// A failed connection attempt, or a session that fails before its
    /// forward is registered, counts as a failure and is followed by a
    /// retry delay that grows with the count; a registered forward resets
    /// the count. A session that ends after registration is closed and
    /// followed at once by a new attempt. The loop never ends.
    pub fn step(&mut self, event: SupervisorEvent) -> (r: SupervisorAction)
        requires
            supervisor_wf(*old(self)),
        ensures
            supervisor_wf(*final(self)),
            *final(self) == supervisor_next(*old(self), event),
            sleeps(*old(self), event) ==> (r matches SupervisorAction::Sleep(d) && is_retry_delay(d, final(self).failures)),
            !sleeps(*old(self), event) ==> r == planned_action(*old(self), event),
    {
        let failed = if self.failures < u64::MAX {
            self.failures + 1
        } else {
            self.failures
        };
        match (self.phase, event) {
            (SupervisorPhase::Idle, SupervisorEvent::Start)
            | (SupervisorPhase::Closing { backoff: false }, SupervisorEvent::Closed)
            | (SupervisorPhase::BackingOff, SupervisorEvent::Slept) => {
                self.phase = SupervisorPhase::Connecting;
                SupervisorAction::Connect
            },
            (SupervisorPhase::Connecting, SupervisorEvent::ConnectFailed(_)) => {
                self.phase = SupervisorPhase::BackingOff;
                self.failures = failed;
                SupervisorAction::Sleep(retry_delay_ms(failed))
            },
            (SupervisorPhase::Connecting, SupervisorEvent::Connected) => {
                self.phase = SupervisorPhase::Registering;
                SupervisorAction::Forward
            },
            (SupervisorPhase::Registering, SupervisorEvent::Registered) => {
                self.phase = SupervisorPhase::Forwarding;
                self.failures = 0;
                SupervisorAction::KeepForwarding
            },
            (SupervisorPhase::Registering, SupervisorEvent::SessionEnded) => {
                self.phase = SupervisorPhase::Closing { backoff: true };
                self.failures = failed;
                SupervisorAction::Close
            },
            (SupervisorPhase::Forwarding, SupervisorEvent::SessionEnded) => {
                self.phase = SupervisorPhase::Closing { backoff: false };
                SupervisorAction::Close
            },
            (SupervisorPhase::Closing { backoff: true }, SupervisorEvent::Closed) => {
                self.phase = SupervisorPhase::BackingOff;
                SupervisorAction::Sleep(retry_delay_ms(self.failures))
            },
            _ => SupervisorAction::Ignore,
        }
    }
}

/// The retry delays follow a schedule that never shrinks: after `k`
/// consecutive failures the base delay is at least that after `j <= k`
/// failures, and never above the cap.
pub proof fn lemma_retry_schedule_non_decreasing(j: u64, k: u64)
    requires
        1 <= j <= k,
    ensures
        MIN_DELAY_MS <= base_delay_ms((j - 1) as nat) <= base_delay_ms((k - 1) as nat) <= MAX_DELAY_MS,
        forall|d: u64| is_retry_delay(d, k) ==> MIN_DELAY_MS <= d <= 2 * MAX_DELAY_MS,
{
    lemma_base_delay_monotone((j - 1) as nat, (k - 1) as nat);
    crate::retry::lemma_base_delay_bounds((j - 1) as nat);
}

/// A registered forward resets the backoff: once the session that follows
/// ends, is closed and the next connection attempt fails, the delay before
/// the retry is that of a first failure, the minimum plus jitter.
pub proof fn lemma_registration_resets_backoff(s: Supervisor, e: TunnelError)
    requires
        supervisor_wf(s),
        s.phase is Registering,
    ensures
        supervisor_next(s, SupervisorEvent::Registered).failures == 0,
        ({
            let forwarding = supervisor_next(s, SupervisorEvent::Registered);
            let closing = supervisor_next(forwarding, SupervisorEvent::SessionEnded);
            let connecting = supervisor_next(closing, SupervisorEvent::Closed);
            let failed = supervisor_next(connecting, SupervisorEvent::ConnectFailed(e));
            &&& connecting.phase is Connecting
            &&& failed.phase is BackingOff
            &&& failed.failures == 1
            &&& forall|d: u64| is_retry_delay(d, failed.failures) <==> MIN_DELAY_MS <= d <= 2 * MIN_DELAY_MS
        }),
{
}

} // verus!
