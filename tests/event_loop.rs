use winit::{
    ActiveEventLoop, ApplicationHandler, DeviceEvent, DeviceId, Event, EventLoop, EventLoopError,
    EventLoopExtWeb, EventRecord, HostCapabilities, HostPrimitive, PendingEvent, PlatformSpecificEventLoopAttributes,
    PollStrategy, RunMode, StartCause, TickOutcome, WaitUntilStrategy, WakeReason, WindowEvent,
    WindowId,
};

/// Records every event and, at each `AboutToWait`, sets the next scripted directive.
struct Recorder {
    events: Vec<Event>,
    script: Vec<RunMode>,
    passes: usize,
}

impl Recorder {
    fn new(script: Vec<RunMode>) -> Recorder {
        Recorder { events: Vec::new(), script, passes: 0 }
    }

    fn count(&self, e: Event) -> usize {
        self.events.iter().filter(|x| **x == e).count()
    }
}

impl ApplicationHandler for Recorder {
    fn dispatched(&self) -> EventRecord {
        unreachable!("the record exists in proofs only")
    }
    fn new_events(&mut self, _: &mut ActiveEventLoop, cause: StartCause) {
        self.events.push(Event::NewEvents(cause));
    }
    fn window_event(&mut self, _: &mut ActiveEventLoop, window_id: WindowId, event: WindowEvent) {
        self.events.push(Event::Window { window_id, event });
    }
    fn device_event(&mut self, _: &mut ActiveEventLoop, device_id: DeviceId, event: DeviceEvent) {
        self.events.push(Event::Device { device_id, event });
    }
    fn user_wake_up(&mut self, _: &mut ActiveEventLoop) {
        self.events.push(Event::UserWakeUp);
    }
    fn suspended(&mut self, _: &mut ActiveEventLoop) {
        self.events.push(Event::Suspended);
    }
    fn resumed(&mut self, _: &mut ActiveEventLoop) {
        self.events.push(Event::Resumed);
    }
    fn about_to_wait(&mut self, event_loop: &mut ActiveEventLoop) {
        self.events.push(Event::AboutToWait);
        if self.passes < self.script.len() {
            event_loop.set_control_flow(self.script[self.passes]);
        }
        self.passes += 1;
    }
    fn exiting(&mut self, _: &mut ActiveEventLoop) {
        self.events.push(Event::LoopExiting);
    }
    fn memory_warning(&mut self, _: &mut ActiveEventLoop) {
        self.events.push(Event::MemoryWarning);
    }
}

fn all_host() -> HostCapabilities {
    HostCapabilities { idle_callback: true, scheduler: true, worker: true }
}

fn new_loop(host: HostCapabilities) -> EventLoop {
    EventLoop::new(&PlatformSpecificEventLoopAttributes { host, instance: 1 }).unwrap()
}

fn rearmed(r: TickOutcome) -> winit::ScheduledToken {
    match r {
        TickOutcome::Rearmed(t) => t,
        other => panic!("expected a rearmed token, got {:?}", other),
    }
}

#[test]
fn spawn_twice_is_already_running() {
    let mut l = new_loop(all_host());
    let t = l.spawn_app().unwrap();
    assert_eq!(t.id, 0);
    assert_eq!(t.reason, WakeReason::Init);
    assert_eq!(t.primitive, HostPrimitive::ScheduledTask { delay: 0 });
    assert_eq!(l.spawn_app(), Err(EventLoopError::AlreadyRunning));
}

#[test]
fn spawn_after_exit_is_destroyed() {
    let mut l = new_loop(all_host());
    let mut app = Recorder::new(vec![RunMode::ExitRequested(7)]);
    let t = l.spawn_app().unwrap();
    assert_eq!(l.tick(&mut app, t, 0), TickOutcome::Exited(7));
    assert_eq!(*app.events.last().unwrap(), Event::LoopExiting);
    assert_eq!(l.spawn_app(), Err(EventLoopError::Destroyed));
    assert_eq!(l.spawn_app(), Err(EventLoopError::Destroyed));
    assert_eq!(l.wake_up(), None);
}

#[test]
fn first_pass_dispatches_in_order() {
    let mut l = new_loop(all_host());
    let w = PendingEvent::Window { window_id: WindowId(4), event: WindowEvent::CloseRequested };
    assert_eq!(l.send_event(w), None);
    assert_eq!(l.send_event(PendingEvent::Resumed), None);
    let t = l.spawn_app().unwrap();
    let mut app = Recorder::new(vec![RunMode::Wait]);
    assert_eq!(l.tick(&mut app, t, 0), TickOutcome::Dormant);
    assert_eq!(
        app.events,
        vec![
            Event::NewEvents(StartCause::Init),
            Event::Window { window_id: WindowId(4), event: WindowEvent::CloseRequested },
            Event::Resumed,
            Event::AboutToWait,
        ]
    );
}

#[test]
fn many_wakes_coalesce_into_one() {
    let mut l = new_loop(all_host());
    let mut app = Recorder::new(vec![RunMode::Wait, RunMode::Wait]);
    let t = l.spawn_app().unwrap();
    assert_eq!(l.tick(&mut app, t, 0), TickOutcome::Dormant);
    let w = l.wake_up().unwrap();
    assert_eq!(w.reason, WakeReason::Wake);
    assert_eq!(l.wake_up(), None);
    assert_eq!(l.wake_up(), None);
    app.events.clear();
    assert_eq!(l.tick(&mut app, w, 5), TickOutcome::Dormant);
    assert_eq!(app.count(Event::UserWakeUp), 1);
    assert_eq!(app.events[0], Event::NewEvents(StartCause::WaitCancelled));
}

#[test]
fn proxy_signals_count_once() {
    let mut l = new_loop(all_host());
    let mut app = Recorder::new(vec![RunMode::Wait, RunMode::Wait]);
    let t = l.spawn_app().unwrap();
    l.tick(&mut app, t, 0);
    let mut proxy = l.create_proxy();
    assert!(!proxy.is_pending());
    proxy.wake_up();
    proxy.wake_up();
    proxy.wake_up();
    assert!(proxy.is_pending());
    let w = l.take_wake_up(&mut proxy).unwrap();
    assert!(!proxy.is_pending());
    assert_eq!(l.take_wake_up(&mut proxy), None);
    app.events.clear();
    l.tick(&mut app, w, 1);
    assert_eq!(app.count(Event::UserWakeUp), 1);
}

#[test]
fn transitions_arm_one_primitive_each() {
    let mut l = new_loop(all_host());
    let mut app = Recorder::new(vec![
        RunMode::Poll,
        RunMode::WaitUntil(1100),
        RunMode::Wait,
        RunMode::ExitRequested(3),
    ]);
    let t0 = l.spawn_app().unwrap();
    let t1 = rearmed(l.tick(&mut app, t0, 1000));
    assert_eq!(t1.primitive, HostPrimitive::ScheduledTask { delay: 0 });
    assert_eq!(t1.reason, WakeReason::Mode);
    let t2 = rearmed(l.tick(&mut app, t1, 1000));
    assert_eq!(t2.primitive, HostPrimitive::ScheduledTask { delay: 100 });
    assert_eq!(l.tick(&mut app, t2, 1100), TickOutcome::Dormant);
    let t3 = l.wake_up().unwrap();
    assert_eq!(l.tick(&mut app, t3, 1200), TickOutcome::Exited(3));
    assert_eq!(
        app.events.iter().filter(|e| matches!(e, Event::NewEvents(_))).cloned().collect::<Vec<_>>(),
        vec![
            Event::NewEvents(StartCause::Init),
            Event::NewEvents(StartCause::Poll),
            Event::NewEvents(StartCause::ResumeTimeReached),
            Event::NewEvents(StartCause::WaitCancelled),
        ]
    );
}

#[test]
fn replaced_wait_until_token_never_fires() {
    let mut l = new_loop(all_host());
    let mut app = Recorder::new(vec![RunMode::WaitUntil(500), RunMode::WaitUntil(900), RunMode::Wait]);
    let t0 = l.spawn_app().unwrap();
    let first = rearmed(l.tick(&mut app, t0, 0));
    let wake = l.wake_up().unwrap();
    assert!(wake.id > first.id);
    assert_eq!(l.tick(&mut app, first, 500), TickOutcome::NotFired);
    let second = rearmed(l.tick(&mut app, wake, 100));
    assert_eq!(second.primitive, HostPrimitive::ScheduledTask { delay: 800 });
    let passes = app.passes;
    assert_eq!(l.tick(&mut app, first, 500), TickOutcome::NotFired);
    assert_eq!(app.passes, passes);
    assert_eq!(l.tick(&mut app, second, 900), TickOutcome::Dormant);
}

#[test]
fn wait_until_then_poll_uses_poll_primitive() {
    let mut l = new_loop(all_host());
    let mut app = Recorder::new(vec![RunMode::WaitUntil(50), RunMode::Poll, RunMode::Wait]);
    let t0 = l.spawn_app().unwrap();
    let timer = rearmed(l.tick(&mut app, t0, 0));
    assert_eq!(timer.primitive, HostPrimitive::ScheduledTask { delay: 50 });
    let wake = l.wake_up().unwrap();
    let poll = rearmed(l.tick(&mut app, wake, 20));
    assert_eq!(poll.primitive, HostPrimitive::ScheduledTask { delay: 0 });
    assert_eq!(l.tick(&mut app, timer, 50), TickOutcome::NotFired);
    app.events.clear();
    assert_eq!(l.tick(&mut app, poll, 30), TickOutcome::Dormant);
    assert_eq!(app.events[0], Event::NewEvents(StartCause::Poll));
}

#[test]
fn event_during_wait_until_cancels_wait() {
    let mut l = new_loop(all_host());
    let mut app = Recorder::new(vec![RunMode::WaitUntil(100), RunMode::Wait]);
    let t0 = l.spawn_app().unwrap();
    rearmed(l.tick(&mut app, t0, 0));
    let d = PendingEvent::Device { device_id: DeviceId(2), event: DeviceEvent::Added };
    let t = l.send_event(d).unwrap();
    assert_eq!(t.reason, WakeReason::Wake);
    app.events.clear();
    l.tick(&mut app, t, 10);
    assert_eq!(
        app.events,
        vec![
            Event::NewEvents(StartCause::WaitCancelled),
            Event::Device { device_id: DeviceId(2), event: DeviceEvent::Added },
            Event::AboutToWait,
        ]
    );
}

#[test]
fn strategies_apply_from_next_schedule() {
    let mut l = new_loop(all_host());
    assert_eq!(l.poll_strategy(), PollStrategy::Scheduler);
    assert_eq!(l.wait_until_strategy(), WaitUntilStrategy::Scheduler);
    l.set_poll_strategy(PollStrategy::IdleCallback);
    l.set_wait_until_strategy(WaitUntilStrategy::Worker);
    assert_eq!(l.poll_strategy(), PollStrategy::IdleCallback);
    assert_eq!(l.window_target().control_flow(), RunMode::Wait);
    let t0 = l.spawn_app().unwrap();
    assert_eq!(t0.primitive, HostPrimitive::IdleCallback);
    let mut app = Recorder::new(vec![RunMode::WaitUntil(40)]);
    let t1 = rearmed(l.tick(&mut app, t0, 10));
    assert_eq!(t1.primitive, HostPrimitive::ScheduledTaskAndWorker { delay: 30 });
}

#[test]
fn stale_or_repeated_token_runs_nothing() {
    let mut l = new_loop(all_host());
    let mut app = Recorder::new(vec![RunMode::Wait]);
    let t0 = l.spawn_app().unwrap();
    assert_eq!(l.tick(&mut app, t0, 0), TickOutcome::Dormant);
    assert_eq!(l.tick(&mut app, t0, 0), TickOutcome::NotFired);
    assert_eq!(app.passes, 1);
}

#[test]
fn exit_is_terminal_within_a_pass() {
    let mut l = new_loop(all_host());
    let target = l.window_target_mut();
    target.exit(2);
    target.set_control_flow(RunMode::Poll);
    target.exit(5);
    assert!(target.exiting());
    assert_eq!(target.control_flow(), RunMode::ExitRequested(2));
}

#[test]
fn proxy_of_another_loop_is_ignored() {
    let mut l = new_loop(all_host());
    let other = EventLoop::new(&PlatformSpecificEventLoopAttributes { host: all_host(), instance: 2 }).unwrap();
    let mut app = Recorder::new(vec![RunMode::Wait]);
    let t = l.spawn_app().unwrap();
    l.tick(&mut app, t, 0);
    let mut proxy = other.create_proxy();
    proxy.wake_up();
    assert_eq!(l.take_wake_up(&mut proxy), None);
    assert!(proxy.is_pending());
}

#[test]
fn wake_after_wait_reaches_the_app() {
    let mut l = new_loop(all_host());
    let mut app = Recorder::new(vec![RunMode::Wait, RunMode::Wait]);
    let t = l.spawn_app().unwrap();
    assert_eq!(l.tick(&mut app, t, 0), TickOutcome::Dormant);
    let mut proxy = l.create_proxy();
    proxy.wake_up();
    let w = l.take_wake_up(&mut proxy).unwrap();
    app.events.clear();
    l.tick(&mut app, w, 3);
    assert_eq!(
        app.events,
        vec![Event::NewEvents(StartCause::WaitCancelled), Event::UserWakeUp, Event::AboutToWait]
    );
}

#[test]
fn default_attributes_use_plain_timers() {
    let a = PlatformSpecificEventLoopAttributes::default();
    assert_eq!(a.instance, 0);
    assert_eq!(a.host, HostCapabilities { idle_callback: false, scheduler: false, worker: false });
    let mut l = EventLoop::new(&a).unwrap();
    assert_eq!(l.spawn_app().unwrap().primitive, HostPrimitive::Timeout { delay: 0 });
}

#[test]
fn exit_ends_with_nothing_armed() {
    let mut l = new_loop(all_host());
    let mut app = Recorder::new(vec![RunMode::Poll, RunMode::ExitRequested(1)]);
    let t0 = l.spawn_app().unwrap();
    let t1 = rearmed(l.tick(&mut app, t0, 0));
    assert_eq!(l.tick(&mut app, t1, 1), TickOutcome::Exited(1));
    assert_eq!(app.count(Event::LoopExiting), 1);
    assert_eq!(l.tick(&mut app, t1, 2), TickOutcome::NotFired);
    assert_eq!(l.wake_up(), None);
    assert_eq!(app.count(Event::LoopExiting), 1);
}
