use vstd::prelude::*;

verus! {

/// Default pause between two collection passes, in seconds.
pub const DEFAULT_INTERVAL_SECONDS: u64 = 5;

/// Default port of the scrape endpoint.
pub const DEFAULT_PORT: u16 = 9100;

/// The two tunables of the exporter.
#[derive(Clone, Copy, Debug, PartialEq, Eq, Structural)]
pub struct ExporterConfig {
    pub listen_port: u16,
    pub interval_seconds: u64,
}

impl ExporterConfig {
    pub fn standard() -> (r: ExporterConfig)
        ensures
            r.listen_port == DEFAULT_PORT,
            r.interval_seconds == DEFAULT_INTERVAL_SECONDS,
    {
        ExporterConfig { listen_port: DEFAULT_PORT, interval_seconds: DEFAULT_INTERVAL_SECONDS }
    }
}

#[derive(Clone, Copy, Debug, PartialEq, Eq, Structural)]
pub enum Phase {
    Idle,
    Sampling,
    Sleeping,
    Stopped,
}

/// What the loop that drives the scheduler is to do next.
#[derive(Clone, Copy, Debug, PartialEq, Eq, Structural)]
pub enum Action {
    /// Take the collector set's guard, collect from every collector in order,
    /// release the guard.
    CollectAll,
    /// Suspend for the given number of seconds.
    Sleep { seconds: u64 },
    /// Leave the loop.
    Halt,
}

/// The refresh scheduler: `Idle`, then `Sampling` and `Sleeping` in turn until a
/// cancellation stops it.
#[derive(Clone, Copy, Debug, PartialEq, Eq, Structural)]
pub struct Scheduler {
    pub phase: Phase,
    pub interval_seconds: u64,
    /// Completed collection passes (saturating).
    pub passes: u64,
    /// Collector failures seen over all passes (saturating).
    pub failures: u64,
}

pub open spec fn next_phase(p: Phase, cancelled: bool) -> Phase {
    if cancelled {
        Phase::Stopped
    } else {
        match p {
            Phase::Idle => Phase::Sampling,
            Phase::Sampling => Phase::Sleeping,
            Phase::Sleeping => Phase::Sampling,
            Phase::Stopped => Phase::Stopped,
        }
    }
}

pub open spec fn action_for(p: Phase, interval_seconds: u64) -> Action {
    match p {
        Phase::Sampling => Action::CollectAll,
        Phase::Sleeping => Action::Sleep { seconds: interval_seconds },
        _ => Action::Halt,
    }
}

pub open spec fn saturating_inc(x: u64, by: u64) -> u64 {
    if x + by > u64::MAX {
        u64::MAX
    } else {
        (x + by) as u64
    }
}

impl Scheduler {
    pub fn new(interval_seconds: u64) -> (r: Scheduler)
        ensures
            r.phase == Phase::Idle,
            r.interval_seconds == interval_seconds,
            r.passes == 0,
            r.failures == 0,
    {
        Scheduler { phase: Phase::Idle, interval_seconds, passes: 0, failures: 0 }
    }

    /// Moves to the next phase and returns the action of the phase entered. A
    /// cancellation stops the scheduler from any phase; a stopped one stays stopped.
    pub fn step(&mut self, cancelled: bool) -> (r: Action)
        ensures
            final(self).phase == next_phase(old(self).phase, cancelled),
            r == action_for(final(self).phase, old(self).interval_seconds),
            final(self).interval_seconds == old(self).interval_seconds,
            final(self).passes == old(self).passes,
            final(self).failures == old(self).failures,
    {
        let next = if cancelled {
            Phase::Stopped
        } else {
            match self.phase {
                Phase::Idle => Phase::Sampling,
                Phase::Sampling => Phase::Sleeping,
                Phase::Sleeping => Phase::Sampling,
                Phase::Stopped => Phase::Stopped,
            }
        };
        self.phase = next;
        match next {
            Phase::Sampling => Action::CollectAll,
            Phase::Sleeping => Action::Sleep { seconds: self.interval_seconds },
            _ => Action::Halt,
        }
    }

    /// Records the end of a collection pass in which `failed` collectors could not
    /// read their sampler; the loop goes on regardless.
    pub fn pass_done(&mut self, failed: u64)
        requires
            old(self).phase == Phase::Sampling,
        ensures
            final(self).phase == Phase::Sampling,
            final(self).interval_seconds == old(self).interval_seconds,
            final(self).passes == saturating_inc(old(self).passes, 1),
            final(self).failures == saturating_inc(old(self).failures, failed),
    {
        self.passes = self.passes.saturating_add(1);
        self.failures = self.failures.saturating_add(failed);
    }
}

} // verus!
