//! The shutdown coordinator and the connection registry. The coordinator is
//! the three-state machine `Running -> Draining -> Terminated` with an
//! injectable trigger, so it is testable without real OS signals: the signal
//! wait, the sleeps and the force-closing of sockets happen outside this
//! crate, which decides every transition. The registry is the process-wide
//! count of open streaming connections plus the draining flag, checked at
//! accept time so that no connection is admitted once draining has begun.

use vstd::prelude::*;

verus! {

/// Process-wide connection accounting: how many streaming connections are
/// open, and whether the server is draining (refusing new ones).
pub struct ConnectionRegistry {
    count: u64,
    draining: bool,
}

impl ConnectionRegistry {
    /// Currently open streaming connections.
    pub closed spec fn count(self) -> int {
        self.count as int
    }

    pub closed spec fn is_draining(self) -> bool {
        self.draining
    }

    /// A new connection may be admitted: not draining, and the counter can
    /// still grow.
    pub open spec fn admission_allowed(self) -> bool {
        !self.is_draining() && self.count() < u64::MAX
    }

    /// At startup: no connections, not draining.
    pub fn new() -> (r: ConnectionRegistry)
        ensures
            r.count() == 0,
            !r.is_draining(),
    {
        ConnectionRegistry { count: 0, draining: false }
    }

    /// Decide one connection attempt at accept time: admitted (and counted)
    /// exactly when the server is not draining; refused otherwise, leaving
    /// the registry untouched.
    pub fn try_admit(&mut self) -> (admitted: bool)
        ensures
            admitted == old(self).admission_allowed(),
            admitted ==> final(self).count() == old(self).count() + 1,
            !admitted ==> *final(self) == *old(self),
            final(self).is_draining() == old(self).is_draining(),
    {
        if !self.draining && self.count < u64::MAX {
            self.count = self.count + 1;
            true
        } else {
            false
        }
    }

    /// One streaming connection closed (client gone, write failure, hub
    /// shutdown, or force-close).
    pub fn connection_closed(&mut self)
        requires
            old(self).count() > 0,
        ensures
            final(self).count() == old(self).count() - 1,
            final(self).is_draining() == old(self).is_draining(),
    {
        self.count = self.count - 1;
    }

    /// Currently open streaming connections, for liveness reporting.
    pub fn open_connections(&self) -> (n: u64)
        ensures
            n == self.count(),
    {
        self.count
    }

    /// Stop admitting new connections. Never cleared: draining is one-way.
    pub fn begin_draining(&mut self)
        ensures
            final(self).is_draining(),
            final(self).count() == old(self).count(),
    {
        self.draining = true;
    }
}

/// The coordinator's lifecycle state.
#[derive(Clone, Copy, PartialEq, Eq, Structural, Debug)]
pub enum Phase {
    /// Normal operation: the listener accepts connections.
    Running,
    /// A termination signal arrived: no new connections; existing ones may
    /// finish within the bounded grace period.
    Draining,
    /// The grace period elapsed or every connection closed: listeners and
    /// sampler are stopped and the process exits.
    Terminated,
}

/// What one draining tick decided.
#[derive(Clone, Copy, PartialEq, Eq, Structural, Debug)]
pub enum DrainStep {
    /// Not draining (still running, or already terminated): nothing to do.
    NoChange,
    /// Still draining: report the current open-connection count.
    Report { open_connections: u64 },
    /// Every connection closed before the grace period elapsed: terminate
    /// early. Stop the sampler, the main listener and the redirect listener.
    TerminateIdle,
    /// The grace period elapsed: force-close the remaining connections and
    /// stop the sampler, the main listener and the redirect listener.
    TerminateForced { open_connections: u64 },
}

/// The shutdown coordinator: observes termination signals (injected as
/// calls), flips the server into draining, bounds the drain with a grace
/// timer, and reports liveness counts while draining. The same coordinator
/// supervises the main listener, the sampler, and the optional redirect
/// listener, so all go down together.
pub struct Coordinator {
    phase: Phase,
    grace_period_ms: u64,
    grace_remaining_ms: u64,
}

impl Coordinator {
    pub closed spec fn phase(self) -> Phase {
        self.phase
    }

    pub closed spec fn grace_period_ms(self) -> int {
        self.grace_period_ms as int
    }

    /// How much of the grace period is left once draining has begun.
    pub closed spec fn grace_remaining_ms(self) -> int {
        self.grace_remaining_ms as int
    }

    /// The coordinator and the registry agree: the draining flag is set
    /// exactly from the moment the Running phase is left.
    pub open spec fn coupled(self, reg: ConnectionRegistry) -> bool {
        (self.phase() is Running) <==> !reg.is_draining()
    }

    /// At startup: running, with the configured grace period armed.
    pub fn new(grace_period_ms: u64) -> (r: Coordinator)
        ensures
            r.phase() is Running,
            r.grace_period_ms() == grace_period_ms,
            r.grace_remaining_ms() == grace_period_ms,
    {
        Coordinator { phase: Phase::Running, grace_period_ms, grace_remaining_ms: grace_period_ms }
    }

    /// The lifecycle state the coordinator is in.
    pub fn current_phase(&self) -> (p: Phase)
        ensures
            p == self.phase(),
    {
        self.phase
    }

    /// A termination signal (or the test harness's explicit trigger)
    /// arrived: from Running, enter Draining, stop admissions, and arm the
    /// grace timer. A repeated signal changes nothing.
    pub fn on_signal(&mut self, reg: &mut ConnectionRegistry) -> (began: bool)
        ensures
            began == (old(self).phase() is Running),
            final(self).grace_period_ms() == old(self).grace_period_ms(),
            final(reg).count() == old(reg).count(),
            began ==> {
                &&& final(self).phase() is Draining
                &&& final(self).grace_remaining_ms() == old(self).grace_period_ms()
                &&& final(reg).is_draining()
            },
            !began ==> *final(self) == *old(self) && *final(reg) == *old(reg),
            old(self).coupled(*old(reg)) ==> final(self).coupled(*final(reg)),
    {
        match self.phase {
            Phase::Running => {
                self.phase = Phase::Draining;
                self.grace_remaining_ms = self.grace_period_ms;
                reg.begin_draining();
                true
            },
            _ => false,
        }
    }

    /// One draining tick after `elapsed_ms` more milliseconds have passed:
    /// terminate early once no connection is open; terminate (force-closing
    /// the remainder) once the grace period has elapsed; otherwise stay
    /// draining and report the open-connection count. Outside Draining a
    /// tick changes nothing.
    pub fn on_tick(&mut self, reg: &ConnectionRegistry, elapsed_ms: u64) -> (step: DrainStep)
        ensures
            final(self).grace_period_ms() == old(self).grace_period_ms(),
            !(old(self).phase() is Draining) ==> *final(self) == *old(self) && step is NoChange,
            old(self).phase() is Draining && reg.count() == 0 ==> final(self).phase() is Terminated
                && step is TerminateIdle,
            old(self).phase() is Draining && reg.count() > 0 && elapsed_ms >= old(
                self,
            ).grace_remaining_ms() ==> final(self).phase() is Terminated && step == (
            DrainStep::TerminateForced { open_connections: reg.count() as u64 }),
            old(self).phase() is Draining && reg.count() > 0 && elapsed_ms < old(
                self,
            ).grace_remaining_ms() ==> {
                &&& final(self).phase() is Draining
                &&& final(self).grace_remaining_ms() == old(self).grace_remaining_ms() - elapsed_ms
                &&& step == (DrainStep::Report { open_connections: reg.count() as u64 })
            },
            old(self).coupled(*reg) ==> final(self).coupled(*reg),
    {
        match self.phase {
            Phase::Draining => {
                if reg.count == 0 {
                    self.phase = Phase::Terminated;
                    DrainStep::TerminateIdle
                } else if elapsed_ms >= self.grace_remaining_ms {
                    self.phase = Phase::Terminated;
                    self.grace_remaining_ms = 0;
                    DrainStep::TerminateForced { open_connections: reg.count }
                } else {
                    self.grace_remaining_ms = self.grace_remaining_ms - elapsed_ms;
                    DrainStep::Report { open_connections: reg.count }
                }
            },
            _ => DrainStep::NoChange,
        }
    }
}

/// Law: after the coordinator leaves Running (draining has begun), no new
/// connection is admitted: the accept-time check refuses every attempt.
pub proof fn lemma_draining_refuses_admission(coord: Coordinator, reg: ConnectionRegistry)
    requires
        coord.coupled(reg),
        !(coord.phase() is Running),
    ensures
        !reg.admission_allowed(),
{
}

} // verus!
