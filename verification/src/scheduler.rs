//! The task scheduler: which recurring timers this process has asked for, and
//! at what cadence.

use crate::store::ConfigStore;
use std::time::Duration;
use vstd::prelude::*;

verus! {

/// Nanoseconds in one second.
pub const NANOS_PER_SECOND: u64 = 1_000_000_000;

/// The length of a duration, in nanoseconds.
pub uninterp spec fn duration_nanos(period: Duration) -> nat;

/// Trusted: `Duration::from_secs`, which makes a duration of that many whole
/// seconds.
#[verifier::external_body]
fn duration_from_secs(secs: u64) -> (period: Duration)
    ensures
        duration_nanos(period) == secs * NANOS_PER_SECOND,
{
    Duration::from_secs(secs)
}

/// The line that the recurring action emits on every tick.
pub open spec fn action_text() -> Seq<char> {
    "Timer triggered!"@
}

/// The line that the recurring action emits on every tick.
pub fn action_line() -> (line: &'static str)
    ensures
        line@ == action_text(),
{
    "Timer triggered!"
}

/// One recurring timer: the fixed action, run once every period.
#[derive(Clone, Copy, Debug, PartialEq, Eq, Structural)]
pub struct ScheduledTask {
    /// The period, in seconds.
    pub period_seconds: u64,
}

impl ScheduledTask {
    /// The period, in nanoseconds.
    pub open spec fn period_nanos(self) -> nat {
        (self.period_seconds * NANOS_PER_SECOND) as nat
    }

    /// The instant one period after `now`, in nanoseconds.
    pub open spec fn next_due(self, now: nat) -> nat {
        now + self.period_nanos()
    }

    /// When the `n`-th tick is due, for a timer that was armed at
    /// `armed_at`: every tick comes one period after the one before it, and
    /// the first one period after the arming.
    pub open spec fn tick_time(self, armed_at: nat, n: nat) -> nat
        decreases n,
    {
        if n == 0 {
            armed_at
        } else {
            self.next_due(self.tick_time(armed_at, (n - 1) as nat))
        }
    }

    /// The period as a duration, for the host's timer facility.
    pub fn period(&self) -> (period: Duration)
        ensures
            duration_nanos(period) == self.period_nanos(),
    {
        duration_from_secs(self.period_seconds)
    }

    /// When the next tick is due, seen from `now_ns`: one period later. There
    /// is none where that instant does not fit the host's clock of 64-bit
    /// nanoseconds, and the host's timer facility then refuses the timer.
    pub fn due_after(&self, now_ns: u64) -> (due: Option<u64>)
        ensures
            due == if self.next_due(now_ns as nat) <= u64::MAX {
                Some(self.next_due(now_ns as nat) as u64)
            } else {
                None
            },
    {
        match self.period_seconds.checked_mul(NANOS_PER_SECOND) {
            Some(period_ns) => now_ns.checked_add(period_ns),
            None => None,
        }
    }
}

/// Whether this process has armed its timer.
#[derive(Clone, Copy, Debug, PartialEq, Eq, Structural)]
pub enum ArmState {
    Unarmed,
    Armed,
}

/// The scheduler of one process instance. It lives and dies with the
/// process: a process that comes back starts with a new one.
pub struct Scheduler {
    registered: Vec<ScheduledTask>,
}

impl View for Scheduler {
    type V = Seq<ScheduledTask>;

    /// The timers that this process has asked for, oldest first. None of them
    /// is ever cancelled.
    closed spec fn view(&self) -> Seq<ScheduledTask> {
        self.registered@
    }
}

/// The state of a scheduler that has asked for these timers.
pub open spec fn arm_state_of(timers: Seq<ScheduledTask>) -> ArmState {
    if timers.len() == 0 {
        ArmState::Unarmed
    } else {
        ArmState::Armed
    }
}

impl Scheduler {
    /// The scheduler of a process that has just come up: no timer yet.
    pub fn new() -> (scheduler: Scheduler)
        ensures
            scheduler@ == Seq::<ScheduledTask>::empty(),
    {
        Scheduler { registered: Vec::new() }
    }

    /// Reads the interval from the store and asks for one more recurring
    /// timer of that period. The task that comes back is the one to register
    /// with the host. Nothing cancels an earlier timer: arming twice in one
    /// process leaves two.
    pub fn arm(&mut self, store: &ConfigStore) -> (task: ScheduledTask)
        ensures
            task.period_seconds == store@,
            final(self)@ == old(self)@.push(task),
    {
        let task = ScheduledTask { period_seconds: store.get() };
        self.registered.push(task);
        task
    }

    /// `Unarmed` until the first timer is asked for, `Armed` from then on.
    pub fn state(&self) -> (state: ArmState)
        ensures
            state == arm_state_of(self@),
    {
        if self.registered.len() == 0 {
            ArmState::Unarmed
        } else {
            ArmState::Armed
        }
    }

    /// How many recurring timers this process runs.
    pub fn active_timers(&self) -> (count: usize)
        ensures
            count == self@.len(),
    {
        self.registered.len()
    }
}

} // verus!
