//! The service that the host drives: the store, the scheduler, and the entry
//! points that the host calls when the process is created, is about to stop,
//! and has come back.

use crate::region::{
    layout_of, DurableRegion, RegionLayout, CELL_LAYOUT_VERSION, INTERVAL_BYTES,
};
use crate::scheduler::{arm_state_of, ArmState, ScheduledTask, Scheduler};
use crate::store::{ConfigStore, PersistWriteError, StorageInitError, DEFAULT_INTERVAL_SECONDS};
use vstd::prelude::*;

verus! {

/// A failure inside the recurring action. It concerns one tick only.
#[derive(Clone, Copy, Debug, PartialEq, Eq, Structural)]
pub struct TickActionError {}

/// What became of one tick.
#[derive(Clone, Copy, Debug, PartialEq, Eq, Structural)]
pub enum TickReport {
    /// The action ran.
    Completed,
    /// The action failed. The tick's effect is lost and nothing else is.
    Skipped,
}

/// One call of the host, or one thing that the host does to the process.
pub enum LifecycleCall {
    /// The first start ever, with the interval to keep.
    Create(u64),
    /// The notice that the process is about to stop.
    PreTerminate,
    /// The host drops the process image and builds a new one over the same
    /// durable region.
    Restart,
    /// The notice that the process has come back.
    PostResume,
    /// A read of the interval.
    Get,
    /// One tick of a timer, with what came of the action.
    Tick(Result<(), TickActionError>),
}

/// What can be told of a running service from outside: the persisted
/// interval, and the timers that this process has asked for.
pub ghost struct ServiceModel {
    pub interval: u64,
    pub timers: Seq<ScheduledTask>,
}

impl ServiceModel {
    /// A process that has just come up over a region with this interval in
    /// it.
    pub open spec fn fresh(interval: u64) -> ServiceModel {
        ServiceModel { interval, timers: Seq::empty() }
    }

    /// The same service with one more timer, of the period that the store
    /// holds.
    pub open spec fn arm(self) -> ServiceModel {
        ServiceModel {
            interval: self.interval,
            timers: self.timers.push(ScheduledTask { period_seconds: self.interval }),
        }
    }

    /// The service after one call.
    pub open spec fn step(self, call: LifecycleCall) -> ServiceModel {
        match call {
            LifecycleCall::Create(interval) => ServiceModel { interval, timers: self.timers }.arm(),
            LifecycleCall::PreTerminate => self,
            LifecycleCall::Restart => ServiceModel::fresh(self.interval),
            LifecycleCall::PostResume => self.arm(),
            LifecycleCall::Get => self,
            LifecycleCall::Tick(_) => self,
        }
    }

    /// The service after a sequence of calls, first to last.
    pub open spec fn run(self, calls: Seq<LifecycleCall>) -> ServiceModel
        decreases calls.len(),
    {
        if calls.len() == 0 {
            self
        } else {
            self.run(calls.drop_last()).step(calls.last())
        }
    }

    /// `Unarmed` until the first timer is asked for, `Armed` from then on.
    pub open spec fn state(self) -> ArmState {
        arm_state_of(self.timers)
    }
}

/// One process instance of the service.
pub struct Service {
    store: ConfigStore,
    scheduler: Scheduler,
}

impl View for Service {
    type V = ServiceModel;

    /// The interval in the store, and the timers of the scheduler.
    closed spec fn view(&self) -> ServiceModel {
        ServiceModel { interval: self.store@, timers: self.scheduler@ }
    }
}

/// What bringing a process up over a region of the given layout may return:
/// an unarmed service with the stored interval where there is one, with the
/// default where there is no cell and the region took a new one, and an error
/// for every other region.
pub open spec fn started(layout: RegionLayout, r: Result<Service, StorageInitError>) -> bool {
    match layout {
        RegionLayout::Interval(stored) => r is Ok && r->Ok_0@ == ServiceModel::fresh(stored),
        RegionLayout::Vacant => match r {
            Ok(service) => service@ == ServiceModel::fresh(DEFAULT_INTERVAL_SECONDS),
            Err(e) => e == (StorageInitError::NoSpace { value_size: INTERVAL_BYTES as u64 }),
        },
        RegionLayout::IncompatibleVersion(found) => r == Err::<Service, StorageInitError>(
            StorageInitError::IncompatibleVersion { supported: CELL_LAYOUT_VERSION, found },
        ),
        RegionLayout::ForeignValue(value_len) => r == Err::<Service, StorageInitError>(
            StorageInitError::ForeignValue { value_len },
        ),
    }
}

impl Service {
    /// Brings a process up over its durable region: attaches the store and
    /// starts with no timer.
    pub fn start(region: DurableRegion) -> (r: Result<Service, StorageInitError>)
        ensures
            started(layout_of(region@), r),
    {
        match ConfigStore::initialize(region) {
            Ok(store) => Ok(Service { store, scheduler: Scheduler::new() }),
            Err(e) => Err(e),
        }
    }

    /// The first start ever: persists `interval`, then arms the timer with
    /// it. Where the write fails, nothing is armed and the store holds what
    /// it held.
    pub fn create(&mut self, interval: u64) -> (r: Result<ScheduledTask, PersistWriteError>)
        ensures
            match r {
                Ok(task) => {
                    &&& final(self)@ == old(self)@.step(LifecycleCall::Create(interval))
                    &&& task.period_seconds == interval
                },
                Err(e) => {
                    &&& e == (PersistWriteError { value_size: INTERVAL_BYTES as u64 })
                    &&& final(self)@ == old(self)@
                },
            },
    {
        let written = self.store.set(interval);
        self.arm_if_written(written)
    }

    /// The second half of [`Service::create`]: arms the timer where the write
    /// went through, and hands the failure on where it did not.
    pub fn arm_if_written(&mut self, written: Result<(), PersistWriteError>) -> (r: Result<
        ScheduledTask,
        PersistWriteError,
    >)
        ensures
            match written {
                Ok(()) => {
                    &&& r is Ok
                    &&& r->Ok_0.period_seconds == old(self)@.interval
                    &&& final(self)@ == old(self)@.arm()
                },
                Err(e) => r == Err::<ScheduledTask, PersistWriteError>(e) && final(self)@ == old(
                    self,
                )@,
            },
    {
        match written {
            Ok(()) => Ok(self.scheduler.arm(&self.store)),
            Err(e) => Err(e),
        }
    }

    /// The host is about to stop the process. The interval is durable since
    /// it was written, so there is nothing to do.
    pub fn pre_terminate(&mut self)
        ensures
            final(self)@ == old(self)@.step(LifecycleCall::PreTerminate),
            *final(self) == *old(self),
    {
    }

    /// The process has come back: arms the timer with the interval that the
    /// store holds.
    pub fn post_resume(&mut self) -> (task: ScheduledTask)
        ensures
            final(self)@ == old(self)@.step(LifecycleCall::PostResume),
            task.period_seconds == old(self)@.interval,
    {
        self.scheduler.arm(&self.store)
    }

    /// The persisted interval. Reading changes nothing.
    pub fn get(&self) -> (interval: u64)
        ensures
            interval == self@.interval,
            self@ == self@.step(LifecycleCall::Get),
    {
        self.store.get()
    }

    /// Takes note of one tick. A failed action costs that tick's effect and
    /// nothing else: the timers go on and the interval stays.
    pub fn tick(&mut self, outcome: Result<(), TickActionError>) -> (report: TickReport)
        ensures
            final(self)@ == old(self)@.step(LifecycleCall::Tick(outcome)),
            *final(self) == *old(self),
            report == match outcome {
                Ok(()) => TickReport::Completed,
                Err(e) => TickReport::Skipped,
            },
    {
        match outcome {
            Ok(()) => TickReport::Completed,
            Err(_) => TickReport::Skipped,
        }
    }

    /// `Unarmed` until the first timer is asked for, `Armed` from then on.
    pub fn state(&self) -> (state: ArmState)
        ensures
            state == self@.state(),
    {
        self.scheduler.state()
    }

    /// How many recurring timers this process runs.
    pub fn active_timers(&self) -> (count: usize)
        ensures
            count == self@.timers.len(),
    {
        self.scheduler.active_timers()
    }

    /// What the host does between the two notices of a restart: the process
    /// ends, and a new one comes up over the region that it left. The new
    /// process holds the same interval and has no timer yet.
    pub fn restart(self) -> (next: Service)
        ensures
            next@ == self@.step(LifecycleCall::Restart),
    {
        let region = self.terminate();
        match Service::start(region) {
            Ok(next) => next,
            Err(_) => unreached(),
        }
    }

    /// The end of the process: the image is gone, and what is left is the
    /// region with the interval in it.
    pub fn terminate(self) -> (region: DurableRegion)
        ensures
            layout_of(region@) == RegionLayout::Interval(self@.interval),
    {
        self.store.into_region()
    }
}

} // verus!
