//! Supervision of a polling session: at most one session runs, a cycle that
//! overruns its timeout is reported as failed, and nothing else ends the
//! session but a request to stop.

use vstd::prelude::*;
use crate::config::{Config, ConfigError};
use crate::devices::Device;
use crate::exchange::{Payload, ReadError};

verus! {

/// Milliseconds between two ticks, unless configured otherwise.
pub const DEFAULT_TICK_MS: u64 = 2000;

/// Milliseconds that one cycle may take, unless configured otherwise.
pub const DEFAULT_TIMEOUT_MS: u64 = 10000;

/// Whether a polling session is active.
#[derive(Clone, Copy, Debug, PartialEq, Eq, Structural)]
pub enum Session {
    Idle,
    Running,
}

/// The scheduler's state and its two periods.
#[derive(Clone, Copy, Debug, PartialEq, Eq, Structural)]
pub struct Scheduler {
    pub session: Session,
    pub tick_ms: u64,
    pub timeout_ms: u64,
}

/// The answer to a request to start.
#[derive(Clone, Debug)]
pub enum Started {
    /// A session begins: poll this device on every tick.
    Spawn(Device),
    /// A session is running already; nothing was built.
    AlreadyRunning,
    /// The configuration drives no device; no session begins.
    Rejected(ConfigError),
}

/// The answer to a request to stop.
#[derive(Clone, Copy, Debug, PartialEq, Eq, Structural)]
pub enum Stopped {
    /// The running session is to be cancelled.
    Cancel,
    /// No session was running; there is nothing to do.
    AlreadyIdle,
}

/// What a tick reports to the event sink.
#[derive(Debug, PartialEq)]
pub enum Notice {
    /// The cycle's payload, to be published.
    Deliver(Payload),
    /// The cycle failed; nothing is published for it.
    Failure(ReadError),
}

impl Scheduler {
    /// An idle scheduler with the given periods.
    pub fn new(tick_ms: u64, timeout_ms: u64) -> (s: Self)
        ensures
            s == (Scheduler { session: Session::Idle, tick_ms, timeout_ms }),
    {
        Scheduler { session: Session::Idle, tick_ms, timeout_ms }
    }

    /// Whether a session is running.
    pub fn is_running(&self) -> (r: bool)
        ensures
            r == (self.session == Session::Running),
    {
        match self.session {
            Session::Running => true,
            Session::Idle => false,
        }
    }

    /// Starts a session. While one is running this changes nothing and
    /// builds nothing. From idle the device that `config` selects is built
    /// and the session runs; a configuration that drives no device is
    /// rejected and the scheduler stays idle.
    pub fn start(&mut self, config: Config) -> (r: Started)
        ensures
            *final(self) == after_start(*old(self), Device::verdict(config) is Ok),
            r is Spawn <==> builds(*old(self), Device::verdict(config) is Ok),
            old(self).session == Session::Running ==> r is AlreadyRunning,
            old(self).session == Session::Idle ==> match Device::verdict(config) {
                Err(e) => r matches Started::Rejected(why) && why == e,
                Ok(_) => r matches Started::Spawn(device) && device.built_from(config)
                    && device.wf(),
            },
    {
        match self.session {
            Session::Running => Started::AlreadyRunning,
            Session::Idle => match Device::from_config(config) {
                Ok(device) => {
                    self.session = Session::Running;
                    Started::Spawn(device)
                },
                Err(e) => Started::Rejected(e),
            },
        }
    }

    /// Withdraws a start whose connection could not be opened: the scheduler
    /// is idle again.
    pub fn open_failed(&mut self)
        ensures
            *final(self) == after_stop(*old(self)),
    {
        self.session = Session::Idle;
    }

    /// Stops the session. While none is running this changes nothing.
    pub fn stop(&mut self) -> (r: Stopped)
        ensures
            *final(self) == after_stop(*old(self)),
            r == (if old(self).session == Session::Running {
                Stopped::Cancel
            } else {
                Stopped::AlreadyIdle
            }),
    {
        match self.session {
            Session::Running => {
                self.session = Session::Idle;
                Stopped::Cancel
            },
            Session::Idle => Stopped::AlreadyIdle,
        }
    }

    /// Whether a cycle that took `elapsed_ms` overran the cycle timeout.
    pub open spec fn overran(&self, elapsed_ms: u64) -> bool {
        elapsed_ms > self.timeout_ms
    }

    /// Decides what a tick reports: a cycle that overran the timeout is a
    /// failure whatever it read; else the cycle's own result stands.
    pub fn conclude(&self, elapsed_ms: u64, result: Result<Payload, ReadError>) -> (n: Notice)
        ensures
            self.overran(elapsed_ms) ==> n == Notice::Failure(ReadError::Timeout),
            !self.overran(elapsed_ms) ==> n == (match result {
                Ok(payload) => Notice::Deliver(payload),
                Err(e) => Notice::Failure(e),
            }),
    {
        if elapsed_ms > self.timeout_ms {
            return Notice::Failure(ReadError::Timeout);
        }
        match result {
            Ok(payload) => Notice::Deliver(payload),
            Err(e) => Notice::Failure(e),
        }
    }
}

/// The scheduler after a request to start, `accepted` telling whether the
/// configuration drives a device.
pub open spec fn after_start(s: Scheduler, accepted: bool) -> Scheduler {
    if builds(s, accepted) {
        Scheduler { session: Session::Running, ..s }
    } else {
        s
    }
}

/// Whether a request to start builds a device: only from idle, and only for
/// a configuration that drives one.
pub open spec fn builds(s: Scheduler, accepted: bool) -> bool {
    s.session == Session::Idle && accepted
}

/// The scheduler after a request to stop.
pub open spec fn after_stop(s: Scheduler) -> Scheduler {
    Scheduler { session: Session::Idle, ..s }
}

/// Starting and stopping are idempotent. A start while a session runs builds
/// nothing and changes nothing, so of two starts in a row the second never
/// builds after the first did; a stop while idle changes nothing.
pub proof fn lemma_idempotent(s: Scheduler, first: bool, second: bool)
    ensures
        s.session == Session::Running ==> !builds(s, first) && after_start(s, first) == s,
        builds(s, first) ==> !builds(after_start(s, first), second) && after_start(
            after_start(s, first),
            second,
        ) == after_start(s, first),
        s.session == Session::Idle ==> after_stop(s) == s,
        after_stop(after_stop(s)) == after_stop(s),
{
}

} // verus!
