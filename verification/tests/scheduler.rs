use durable_timer::region::{DurableRegion, CONFIG_SLOT};
use durable_timer::scheduler::{action_line, ArmState, ScheduledTask, Scheduler};
use durable_timer::store::ConfigStore;
use ic_stable_structures::memory_manager::{MemoryId, MemoryManager};
use ic_stable_structures::DefaultMemoryImpl;
use std::time::Duration;

fn store_with(interval: u64) -> ConfigStore {
    let manager = MemoryManager::init(DefaultMemoryImpl::default());
    let region = DurableRegion { memory: manager.get(MemoryId::new(CONFIG_SLOT)) };
    let mut store = ConfigStore::initialize(region).unwrap();
    store.set(interval).unwrap();
    store
}

#[test]
fn a_new_scheduler_is_unarmed() {
    let scheduler = Scheduler::new();
    assert_eq!(scheduler.state(), ArmState::Unarmed);
    assert_eq!(scheduler.active_timers(), 0);
}

#[test]
fn arming_takes_the_period_from_the_store() {
    let store = store_with(45);
    let mut scheduler = Scheduler::new();
    let task = scheduler.arm(&store);
    assert_eq!(task, ScheduledTask { period_seconds: 45 });
    assert_eq!(scheduler.state(), ArmState::Armed);
    assert_eq!(scheduler.active_timers(), 1);
    assert_eq!(store.get(), 45);
}

#[test]
fn arming_twice_leaves_two_timers() {
    let mut store = store_with(45);
    let mut scheduler = Scheduler::new();
    let first = scheduler.arm(&store);
    store.set(50).unwrap();
    let second = scheduler.arm(&store);
    assert_eq!(first.period_seconds, 45);
    assert_eq!(second.period_seconds, 50);
    assert_eq!(scheduler.active_timers(), 2);
    assert_eq!(scheduler.state(), ArmState::Armed);
}

#[test]
fn a_zero_interval_is_armed_like_any_other() {
    let store = store_with(0);
    let mut scheduler = Scheduler::new();
    let task = scheduler.arm(&store);
    assert_eq!(task.period_seconds, 0);
    assert_eq!(task.period(), Duration::ZERO);
    assert_eq!(task.due_after(17), Some(17));
    assert_eq!(scheduler.state(), ArmState::Armed);
}

#[test]
fn the_period_is_that_many_whole_seconds() {
    let task = ScheduledTask { period_seconds: 90 };
    assert_eq!(task.period(), Duration::from_secs(90));
    assert_eq!(task.period().as_nanos(), 90_000_000_000);
    assert_eq!(task.period().subsec_nanos(), 0);
    let longest = ScheduledTask { period_seconds: u64::MAX };
    assert_eq!(longest.period().as_secs(), u64::MAX);
}

#[test]
fn the_first_tick_is_due_one_period_after_arming() {
    let task = ScheduledTask { period_seconds: 3 };
    assert_eq!(task.due_after(0), Some(3_000_000_000));
    assert_eq!(task.due_after(1_700_000_000_000_000_000), Some(1_700_000_003_000_000_000));
}

#[test]
fn ticks_follow_each_other_at_the_period() {
    let task = ScheduledTask { period_seconds: 5 };
    let armed_at: u64 = 1_000;
    let mut now = armed_at;
    for n in 1..=4u64 {
        now = task.due_after(now).unwrap();
        assert_eq!(now, armed_at + n * 5_000_000_000);
    }
}

#[test]
fn no_tick_is_due_beyond_the_clock() {
    let task = ScheduledTask { period_seconds: 1 };
    assert_eq!(task.due_after(u64::MAX - 1_000_000_000), Some(u64::MAX));
    assert_eq!(task.due_after(u64::MAX - 999_999_999), None);
    let widest = ScheduledTask { period_seconds: 18_446_744_073 };
    assert_eq!(widest.due_after(0), Some(18_446_744_073_000_000_000));
    assert_eq!(widest.due_after(709_551_615), Some(u64::MAX));
    assert_eq!(widest.due_after(709_551_616), None);
    let too_wide = ScheduledTask { period_seconds: 18_446_744_074 };
    assert_eq!(too_wide.due_after(0), None);
    assert_eq!(ScheduledTask { period_seconds: u64::MAX }.due_after(0), None);
}

#[test]
fn the_action_emits_its_line() {
    assert_eq!(action_line(), "Timer triggered!");
}
