//! What holds of the service over whole histories of calls.

use crate::lifecycle::{started, LifecycleCall, Service, ServiceModel, TickActionError};
use crate::region::{layout_of, RegionLayout};
use crate::scheduler::{ArmState, ScheduledTask, NANOS_PER_SECOND};
use crate::store::StorageInitError;
use vstd::prelude::*;

verus! {

/// Where a history of calls stands with respect to the host's contract:
/// `Create` once, then any number of restart cycles, each of them
/// `PreTerminate`, `Restart`, `PostResume`, with reads and ticks only while
/// the process serves.
#[derive(PartialEq, Eq, Structural)]
pub enum Phase {
    /// Nothing was called yet.
    Fresh,
    /// The timer is armed and the process serves.
    Serving,
    /// The process was told that it is about to stop.
    Stopping,
    /// A new process image is up and was not yet told so.
    Reloaded,
    /// The history broke the contract.
    Breach,
}

/// The phase after one more call.
pub open spec fn next_phase(phase: Phase, call: LifecycleCall) -> Phase {
    match (phase, call) {
        (Phase::Fresh, LifecycleCall::Create(_)) => Phase::Serving,
        (Phase::Serving, LifecycleCall::Get) => Phase::Serving,
        (Phase::Serving, LifecycleCall::Tick(_)) => Phase::Serving,
        (Phase::Serving, LifecycleCall::PreTerminate) => Phase::Stopping,
        (Phase::Stopping, LifecycleCall::Restart) => Phase::Reloaded,
        (Phase::Reloaded, LifecycleCall::PostResume) => Phase::Serving,
        _ => Phase::Breach,
    }
}

/// The phase after a history of calls, first to last.
pub open spec fn phase_after(calls: Seq<LifecycleCall>) -> Phase
    decreases calls.len(),
{
    if calls.len() == 0 {
        Phase::Fresh
    } else {
        next_phase(phase_after(calls.drop_last()), calls.last())
    }
}

/// None of the calls writes the interval.
pub open spec fn read_only(calls: Seq<LifecycleCall>) -> bool {
    forall|i: int| 0 <= i < calls.len() ==> !(#[trigger] calls[i] is Create)
}

/// An interval that was given at creation is read back after a restart,
/// whatever the service held before.
pub proof fn persistence_round_trip(before: ServiceModel, interval: u64)
    ensures
        before.step(LifecycleCall::Create(interval)).step(LifecycleCall::PreTerminate).step(
            LifecycleCall::Restart,
        ).step(LifecycleCall::PostResume).step(LifecycleCall::Get).interval == interval,
{
}

/// A restart is the end of one process and the start of the next over the
/// region that the first one left: the start succeeds, and the new process
/// holds the interval of the old one and no timer.
pub proof fn restart_reattaches(
    old_process: ServiceModel,
    region: Seq<u8>,
    new_process: Result<Service, StorageInitError>,
)
    requires
        layout_of(region) == RegionLayout::Interval(old_process.interval),
        started(layout_of(region), new_process),
    ensures
        new_process is Ok,
        new_process->Ok_0@ == old_process.step(LifecycleCall::Restart),
{
}

/// What a history in the given phase leaves of timers: none before the call
/// that arms, and from then on exactly one, whose period is the persisted
/// interval.
pub open spec fn timers_fit(phase: Phase, service: ServiceModel) -> bool {
    match phase {
        Phase::Fresh | Phase::Reloaded => {
            &&& service.timers.len() == 0
            &&& service.state() == ArmState::Unarmed
        },
        _ => {
            &&& service.timers.len() == 1
            &&& service.state() == ArmState::Armed
            &&& service.timers[0].period_seconds == service.interval
        },
    }
}

/// A history that keeps the host's contract has kept it at every point.
pub proof fn contract_kept_throughout(calls: Seq<LifecycleCall>, upto: int)
    requires
        phase_after(calls) != Phase::Breach,
        0 <= upto <= calls.len(),
    ensures
        phase_after(calls.take(upto)) != Phase::Breach,
    decreases calls.len(),
{
    if upto == calls.len() {
        assert(calls.take(upto) =~= calls);
    } else {
        assert(calls.drop_last().take(upto) =~= calls.take(upto));
        contract_kept_throughout(calls.drop_last(), upto);
    }
}

/// In a history that keeps the host's contract, at every point, a process
/// runs exactly one recurring timer from the call that arms it on, and none
/// before.
pub proof fn single_timer_per_instance(initial: u64, calls: Seq<LifecycleCall>, upto: int)
    requires
        phase_after(calls) != Phase::Breach,
        0 <= upto <= calls.len(),
    ensures
        timers_fit(
            phase_after(calls.take(upto)),
            ServiceModel::fresh(initial).run(calls.take(upto)),
        ),
    decreases upto,
{
    contract_kept_throughout(calls, upto);
    if upto > 0 {
        single_timer_per_instance(initial, calls, upto - 1);
        assert(calls.take(upto).drop_last() =~= calls.take(upto - 1));
    }
}

/// The interval that was given at creation is the persisted one ever after,
/// over any number of restarts, as long as the host keeps its contract.
pub proof fn interval_survives_restarts(initial: u64, interval: u64, calls: Seq<LifecycleCall>)
    requires
        calls.len() > 0,
        calls[0] == LifecycleCall::Create(interval),
        phase_after(calls) != Phase::Breach,
    ensures
        ServiceModel::fresh(initial).run(calls).interval == interval,
    decreases calls.len(),
{
    let earlier = calls.drop_last();
    if earlier.len() > 0 {
        interval_survives_restarts(initial, interval, earlier);
    }
}

/// Whatever comes of the action on one tick, the timers and the persisted
/// interval are afterwards what they were, so the next tick is due as if
/// nothing had happened.
pub proof fn tick_isolation(service: ServiceModel, outcome: Result<(), TickActionError>)
    ensures
        service.step(LifecycleCall::Tick(outcome)) == service,
{
}

/// As long as nothing creates the service anew, every read returns the same
/// interval, however many calls lie between two of them.
pub proof fn reads_repeat(service: ServiceModel, calls: Seq<LifecycleCall>)
    requires
        read_only(calls),
    ensures
        service.run(calls).interval == service.interval,
    decreases calls.len(),
{
    if calls.len() > 0 {
        reads_repeat(service, calls.drop_last());
    }
}

/// The `n`-th tick of a timer is due `n` periods after the arming. The first
/// is due one full period after it, not at once.
pub proof fn cadence(task: ScheduledTask, armed_at: nat, n: nat)
    ensures
        task.tick_time(armed_at, n) == armed_at + n * task.period_seconds * NANOS_PER_SECOND,
    decreases n,
{
    let seconds = task.period_seconds as int;
    if n > 0 {
        cadence(task, armed_at, (n - 1) as nat);
        assert(n * seconds * NANOS_PER_SECOND == (n - 1) * seconds * NANOS_PER_SECOND + seconds
            * NANOS_PER_SECOND) by (nonlinear_arith);
    } else {
        assert(n * seconds * NANOS_PER_SECOND == 0) by (nonlinear_arith)
            requires
                n == 0,
        ;
    }
}

} // verus!
