use vstd::prelude::*;

verus! {

/// Milliseconds that shutdown waits for in-flight work by default.
pub const DEFAULT_DRAIN_TIMEOUT_MS: u64 = 10000;

/// The shared drain state: whether new work is accepted, and how much is in flight.
pub struct DrainModel {
    pub running: bool,
    pub in_flight: u64,
}

impl DrainModel {
    pub open spec fn after_begin(self) -> DrainModel {
        DrainModel { running: self.running, in_flight: (self.in_flight + 1) as u64 }
    }

    pub open spec fn after_finish(self) -> DrainModel {
        DrainModel { running: self.running, in_flight: (self.in_flight - 1) as u64 }
    }

    pub open spec fn after_stop(self) -> DrainModel {
        DrainModel { running: false, in_flight: self.in_flight }
    }
}

/// Whether a delivered unit of work is to be handled.
#[derive(Debug, Clone, Copy, PartialEq, Eq, Structural)]
pub enum Admission {
    /// Run the handler, acknowledge, then finish the unit.
    Run,
    /// Shutdown has begun: skip the handler and do not acknowledge, so the broker
    /// delivers the message again later.
    Skip,
}

/// What a shutdown waiting for in-flight work does next.
#[derive(Debug, Clone, Copy, PartialEq, Eq, Structural)]
pub enum DrainStep {
    /// Nothing is in flight: shutdown completes.
    Drained,
    /// Work is in flight: wait at most this many more milliseconds for it to finish.
    Wait(u64),
    /// The timeout has passed with work still in flight: warn and return anyway.
    TimedOut,
}

/// The step that shutdown takes after `elapsed` of its `timeout` milliseconds.
pub open spec fn drain_step(in_flight: u64, elapsed: u64, timeout: u64) -> DrainStep {
    if in_flight == 0 {
        DrainStep::Drained
    } else if elapsed < timeout {
        DrainStep::Wait((timeout - elapsed) as u64)
    } else {
        DrainStep::TimedOut
    }
}

/// The drain coordinator: counts units of work in flight and turns new work away once
/// shutdown has begun. All changes go through one owner (a lock, in a concurrent host).
pub struct DrainGate {
    running: bool,
    in_flight: u64,
}

impl View for DrainGate {
    type V = DrainModel;

    closed spec fn view(&self) -> DrainModel {
        DrainModel { running: self.running, in_flight: self.in_flight }
    }
}

impl DrainGate {
    /// A gate that accepts work, with nothing in flight.
    pub fn new() -> (r: DrainGate)
        ensures
            r@.running,
            r@.in_flight == 0,
    {
        DrainGate { running: true, in_flight: 0 }
    }

    pub fn is_running(&self) -> (r: bool)
        ensures
            r == self@.running,
    {
        self.running
    }

    pub fn in_flight(&self) -> (r: u64)
        ensures
            r == self@.in_flight,
    {
        self.in_flight
    }

    /// A unit of work arrives: it is counted as in flight, and it runs only while the
    /// gate accepts work.
    pub fn begin_unit(&mut self) -> (r: Admission)
        requires
            old(self)@.in_flight < u64::MAX,
        ensures
            final(self)@ == old(self)@.after_begin(),
            r == if old(self)@.running {
                Admission::Run
            } else {
                Admission::Skip
            },
    {
        self.in_flight = self.in_flight + 1;
        if self.running {
            Admission::Run
        } else {
            Admission::Skip
        }
    }

    /// A unit of work completes. The result says whether nothing is left in flight, when
    /// a waiting shutdown is to be woken.
    pub fn finish_unit(&mut self) -> (idle: bool)
        requires
            old(self)@.in_flight > 0,
        ensures
            final(self)@ == old(self)@.after_finish(),
            idle == (final(self)@.in_flight == 0),
    {
        self.in_flight = self.in_flight - 1;
        self.in_flight == 0
    }

    /// Shutdown begins: no new work is accepted.
    pub fn stop(&mut self)
        ensures
            final(self)@ == old(self)@.after_stop(),
    {
        self.running = false;
    }

    /// The next step of a shutdown that has waited `elapsed` of `timeout` milliseconds.
    pub fn shutdown_step(&self, elapsed: u64, timeout: u64) -> (r: DrainStep)
        ensures
            r == drain_step(self@.in_flight, elapsed, timeout),
    {
        if self.in_flight == 0 {
            DrainStep::Drained
        } else if elapsed < timeout {
            DrainStep::Wait(timeout - elapsed)
        } else {
            DrainStep::TimedOut
        }
    }
}

/// Shutdown never waits past its timeout: each wait is bounded by what is left of it,
/// it completes as soon as nothing is in flight, and once the timeout has passed it
/// returns whatever is still in flight.
pub proof fn lemma_shutdown_bounded(in_flight: u64, elapsed: u64, timeout: u64)
    ensures
        in_flight == 0 ==> drain_step(in_flight, elapsed, timeout) == DrainStep::Drained,
        elapsed >= timeout ==> !(drain_step(in_flight, elapsed, timeout) is Wait),
        drain_step(in_flight, elapsed, timeout) matches DrainStep::Wait(w) ==> w > 0 && elapsed
            + w == timeout,
{
}

/// With two units in flight, shutdown waits; once both have finished it completes, before
/// the timeout, and a unit delivered after it began is skipped.
pub proof fn lemma_two_units_drain(g: DrainModel, elapsed: u64, timeout: u64)
    requires
        g.in_flight == 2,
        elapsed < timeout,
    ensures
        drain_step(g.after_stop().in_flight, elapsed, timeout) is Wait,
        drain_step(g.after_stop().after_finish().in_flight, elapsed, timeout) is Wait,
        drain_step(g.after_stop().after_finish().after_finish().in_flight, elapsed, timeout)
            == DrainStep::Drained,
        !g.after_stop().running,
{
}

} // verus!
