use winit::{
    schedule_next, HostCapabilities, HostPrimitive, PollStrategy, RunMode, WaitUntilStrategy,
};

fn host(idle_callback: bool, scheduler: bool, worker: bool) -> HostCapabilities {
    HostCapabilities { idle_callback, scheduler, worker }
}

#[test]
fn default_strategies() {
    assert_eq!(PollStrategy::default(), PollStrategy::Scheduler);
    assert_eq!(WaitUntilStrategy::default(), WaitUntilStrategy::Scheduler);
}

#[test]
fn poll_primitives_and_fallbacks() {
    let s = WaitUntilStrategy::Scheduler;
    assert_eq!(
        schedule_next(RunMode::Poll, PollStrategy::IdleCallback, s, host(true, true, true), 0),
        Some(HostPrimitive::IdleCallback)
    );
    assert_eq!(
        schedule_next(RunMode::Poll, PollStrategy::IdleCallback, s, host(false, true, true), 0),
        Some(HostPrimitive::Timeout { delay: 0 })
    );
    assert_eq!(
        schedule_next(RunMode::Poll, PollStrategy::Scheduler, s, host(true, true, true), 0),
        Some(HostPrimitive::ScheduledTask { delay: 0 })
    );
    assert_eq!(
        schedule_next(RunMode::Poll, PollStrategy::Scheduler, s, host(true, false, true), 0),
        Some(HostPrimitive::Timeout { delay: 0 })
    );
}

#[test]
fn wait_until_delay_is_computed_when_armed() {
    let p = PollStrategy::Scheduler;
    assert_eq!(
        schedule_next(RunMode::WaitUntil(1050), p, WaitUntilStrategy::Scheduler, host(true, true, true), 1000),
        Some(HostPrimitive::ScheduledTask { delay: 50 })
    );
    assert_eq!(
        schedule_next(RunMode::WaitUntil(1050), p, WaitUntilStrategy::Scheduler, host(true, true, true), 2000),
        Some(HostPrimitive::ScheduledTask { delay: 0 })
    );
    assert_eq!(
        schedule_next(RunMode::WaitUntil(1050), p, WaitUntilStrategy::Scheduler, host(true, false, true), 1000),
        Some(HostPrimitive::Timeout { delay: 50 })
    );
    assert_eq!(
        schedule_next(RunMode::WaitUntil(1050), p, WaitUntilStrategy::Worker, host(true, true, true), 1000),
        Some(HostPrimitive::ScheduledTaskAndWorker { delay: 50 })
    );
    assert_eq!(
        schedule_next(RunMode::WaitUntil(1050), p, WaitUntilStrategy::Worker, host(true, false, true), 1000),
        Some(HostPrimitive::TimeoutAndWorker { delay: 50 })
    );
    assert_eq!(
        schedule_next(RunMode::WaitUntil(1050), p, WaitUntilStrategy::Worker, host(true, true, false), 1000),
        Some(HostPrimitive::ScheduledTask { delay: 50 })
    );
}

#[test]
fn wait_and_exit_arm_nothing() {
    let h = host(true, true, true);
    assert_eq!(schedule_next(RunMode::Wait, PollStrategy::Scheduler, WaitUntilStrategy::Worker, h, 9), None);
    assert_eq!(
        schedule_next(RunMode::ExitRequested(1), PollStrategy::IdleCallback, WaitUntilStrategy::Scheduler, h, 9),
        None
    );
}
