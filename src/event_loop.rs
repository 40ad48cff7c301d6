use vstd::prelude::*;

use crate::active::{handle_event, ActiveEventLoop, ActiveEventLoopExtWeb, ApplicationHandler};
use crate::cursor::{completes, waiting, CustomCursorError};
use crate::event::{event_of, Event, PendingEvent, StartCause};
use crate::strategy::{
    poll_primitive, poll_primitive_of, primitive_for, schedule_next, HostCapabilities,
    HostPrimitive, PollStrategy, RunMode, WaitUntilStrategy,
};

verus! {

/// Whether a loop instance has been started, and whether it has been torn down.
#[derive(Clone, Copy, Debug, PartialEq, Eq, Structural)]
pub enum RunState {
    NotRunning,
    Running,
    Destroyed,
}

/// Errors of starting a loop.
#[derive(Clone, Copy, Debug, PartialEq, Eq, Structural)]
pub enum EventLoopError {
    /// The loop was started already.
    AlreadyRunning,
    /// The loop was torn down; a new one has to be built.
    Destroyed,
}

/// What a scheduled callback was armed for.
#[derive(Clone, Copy, Debug, PartialEq, Eq, Structural)]
pub enum WakeReason {
    /// The first pass after the loop was started.
    Init,
    /// The run mode chosen at the end of the previous pass.
    Mode,
    /// An event or a wake-up arrived.
    Wake,
}

/// A live registration with a host primitive. The host calls the loop back with it,
/// and the loop runs a pass only while it is the one armed.
#[derive(Clone, Copy, Debug, PartialEq, Eq, Structural)]
pub struct ScheduledToken {
    pub id: u64,
    pub primitive: HostPrimitive,
    pub reason: WakeReason,
}

/// Settings of a loop that is being built.
#[derive(Clone, Copy, Debug, PartialEq, Eq, Structural)]
pub struct PlatformSpecificEventLoopAttributes {
    /// The primitives the host offers, probed once.
    pub host: HostCapabilities,
    /// Tells this loop apart from the others of the process; the host hands out
    /// distinct values.
    pub instance: u64,
}

impl Default for PlatformSpecificEventLoopAttributes {
    /// Plain timers only, instance zero.
    fn default() -> (r: Self)
        ensures
            r.host == (HostCapabilities { idle_callback: false, scheduler: false, worker: false }),
            r.instance == 0,
    {
        PlatformSpecificEventLoopAttributes { host: HostCapabilities::default(), instance: 0 }
    }
}

/// How a pass of the loop, or its end, went.
#[derive(Clone, Copy, Debug, PartialEq, Eq, Structural)]
pub enum TickOutcome {
    /// Nothing ran: the token was stale, the loop not running, or a pass in flight.
    NotFired,
    /// The pass ended and this token is to be armed with the host.
    Rearmed(ScheduledToken),
    /// The pass ended in wait mode; nothing is armed until an event arrives.
    Dormant,
    /// The pass ended with an exit request; the loop is torn down.
    Exited(i32),
    /// The loop ran out of token identifiers and was torn down.
    Exhausted,
}

/// Why a pass starts, from what armed it, the mode in force, and the time now.
pub open spec fn start_cause(reason: WakeReason, mode: RunMode, now: u64) -> StartCause {
    match reason {
        WakeReason::Init => StartCause::Init,
        _ => match mode {
            RunMode::Poll => StartCause::Poll,
            RunMode::WaitUntil(deadline) => if reason == WakeReason::Mode && now >= deadline {
                StartCause::ResumeTimeReached
            } else {
                StartCause::WaitCancelled
            },
            _ => StartCause::WaitCancelled,
        },
    }
}

/// The events of one pass: its start, every queued occurrence in order, then the
/// notice that the loop is about to wait.
pub open spec fn tick_events(queue: Seq<PendingEvent>, cause: StartCause) -> Seq<Event> {
    seq![Event::NewEvents(cause)] + queue.map_values(|p: PendingEvent| event_of(p)) + seq![
        Event::AboutToWait,
    ]
}

/// The queue after an occurrence arrives: a wake-up is not queued twice.
pub open spec fn coalesce(queue: Seq<PendingEvent>, e: PendingEvent) -> Seq<PendingEvent> {
    if e == PendingEvent::UserWakeUp && queue.contains(PendingEvent::UserWakeUp) {
        queue
    } else {
        queue.push(e)
    }
}

/// No two entries of `q` are wake-ups.
pub open spec fn at_most_one_wake(q: Seq<PendingEvent>) -> bool {
    forall|i: int, j: int|
        0 <= i < q.len() && 0 <= j < q.len() && q[i] == PendingEvent::UserWakeUp && q[j]
            == PendingEvent::UserWakeUp ==> i == j
}

/// The loop: its run state, the mode in force, queued occurrences and the armed token.
pub struct EventLoop {
    elw: ActiveEventLoop,
    host: HostCapabilities,
    instance: u64,
    run_state: RunState,
    mode: RunMode,
    queue: Vec<PendingEvent>,
    armed: Option<ScheduledToken>,
    next_id: u64,
    in_flight: bool,
}

impl EventLoop {
    pub closed spec fn spec_target(&self) -> ActiveEventLoop {
        self.elw
    }

    pub closed spec fn spec_host(&self) -> HostCapabilities {
        self.host
    }

    pub closed spec fn spec_instance(&self) -> u64 {
        self.instance
    }

    pub closed spec fn spec_run_state(&self) -> RunState {
        self.run_state
    }

    pub closed spec fn spec_mode(&self) -> RunMode {
        self.mode
    }

    pub closed spec fn spec_queue(&self) -> Seq<PendingEvent> {
        self.queue@
    }

    pub closed spec fn spec_armed(&self) -> Option<ScheduledToken> {
        self.armed
    }

    /// Every token this loop issued has an identifier below this one.
    pub closed spec fn spec_next_id(&self) -> u64 {
        self.next_id
    }

    /// Whether a pass is running now.
    pub closed spec fn spec_in_flight(&self) -> bool {
        self.in_flight
    }

    pub closed spec fn wf(&self) -> bool {
        &&& at_most_one_wake(self.queue@)
        &&& self.armed is Some ==> self.armed->0.id < self.next_id && self.run_state
            == RunState::Running && !self.in_flight
        &&& self.run_state == RunState::NotRunning ==> self.next_id == 0
        &&& self.run_state == RunState::Destroyed ==> self.queue@.len() == 0
        &&& self.in_flight ==> self.run_state == RunState::Running
    }

    /// Whether the host calling back with `token` runs a pass now.
    pub open spec fn fires(&self, token: ScheduledToken) -> bool {
        &&& self.spec_run_state() == RunState::Running
        &&& !self.spec_in_flight()
        &&& self.spec_armed() == Some(token)
    }

    /// Whether an arriving occurrence has the loop armed anew for an immediate pass.
    pub open spec fn needs_rearm(&self) -> bool {
        &&& self.spec_run_state() == RunState::Running
        &&& !self.spec_in_flight()
        &&& match self.spec_armed() {
            None => true,
            Some(t) => t.reason == WakeReason::Mode && self.spec_mode() != RunMode::Poll,
        }
    }

    /// What every operation keeps of the tokens: identifiers are never issued twice,
    /// and an armed token is either kept or replaced by a newer one.
    pub open spec fn evolves_to(&self, later: &EventLoop) -> bool {
        &&& self.spec_next_id() <= later.spec_next_id()
        &&& match later.spec_armed() {
            None => true,
            Some(t) => later.spec_armed() == self.spec_armed() || t.id >= self.spec_next_id(),
        }
    }

    /// `later` is `self` with a token for `primitive` armed, or torn down where no
    /// identifier is left; `r` is the token armed. The queue is kept in the first case.
    pub open spec fn armed_anew(
        &self,
        later: &EventLoop,
        primitive: HostPrimitive,
        reason: WakeReason,
        r: Option<ScheduledToken>,
    ) -> bool {
        &&& later.spec_target() == self.spec_target()
        &&& later.spec_host() == self.spec_host()
        &&& later.spec_mode() == self.spec_mode()
        &&& later.spec_in_flight() == self.spec_in_flight()
        &&& if self.spec_next_id() < u64::MAX {
            &&& r == Some(ScheduledToken { id: self.spec_next_id(), primitive, reason })
            &&& later.spec_armed() == r
            &&& later.spec_next_id() == self.spec_next_id() + 1
            &&& later.spec_run_state() == self.spec_run_state()
        } else {
            &&& r is None
            &&& later.spec_armed() is None
            &&& later.spec_next_id() == self.spec_next_id()
            &&& later.spec_run_state() == RunState::Destroyed
            &&& later.spec_queue().len() == 0
        }
    }

    /// Arms a fresh token for `primitive`; tears the loop down where identifiers ran out.
    fn arm(&mut self, primitive: HostPrimitive, reason: WakeReason) -> (r: Option<ScheduledToken>)
        requires
            at_most_one_wake(old(self).queue@),
            old(self).run_state == RunState::Running,
            !old(self).in_flight,
        ensures
            old(self).armed_anew(final(self), primitive, reason, r),
            old(self).next_id < u64::MAX ==> final(self).queue@ == old(self).queue@,
            final(self).wf(),
    {
        if self.next_id < u64::MAX {
            let token = ScheduledToken { id: self.next_id, primitive, reason };
            self.armed = Some(token);
            self.next_id = self.next_id + 1;
            Some(token)
        } else {
            self.armed = None;
            self.run_state = RunState::Destroyed;
            self.queue = Vec::new();
            None
        }
    }

    /// Builds a loop that is not running yet.
    pub fn new(attributes: &PlatformSpecificEventLoopAttributes) -> (r: Result<EventLoop, EventLoopError>)
        ensures
            r is Ok,
            r matches Ok(l) ==> {
                &&& l.wf()
                &&& l.spec_run_state() == RunState::NotRunning
                &&& l.spec_host() == attributes.host
                &&& l.spec_instance() == attributes.instance
                &&& l.spec_mode() == RunMode::Wait
                &&& l.spec_queue().len() == 0
                &&& l.spec_armed() is None
                &&& l.spec_next_id() == 0
                &&& !l.spec_in_flight()
                &&& l.spec_target().spec_directive() == RunMode::Wait
                &&& l.spec_target().spec_poll_strategy() == PollStrategy::Scheduler
                &&& l.spec_target().spec_wait_until_strategy() == WaitUntilStrategy::Scheduler
            },
    {
        Ok(
            EventLoop {
                elw: ActiveEventLoop::new(),
                host: attributes.host,
                instance: attributes.instance,
                run_state: RunState::NotRunning,
                mode: RunMode::Wait,
                queue: Vec::new(),
                armed: None,
                next_id: 0,
                in_flight: false,
            },
        )
    }

    /// Starts the loop: it runs from now on in passes that the host calls back, the
    /// first one armed by the returned token. A loop starts once and is never reused.
    pub fn spawn_app(&mut self) -> (r: Result<ScheduledToken, EventLoopError>)
        requires
            old(self).wf(),
        ensures
            final(self).wf(),
            old(self).evolves_to(final(self)),
            old(self).spec_run_state() == RunState::Running ==> r == Err::<
                ScheduledToken,
                EventLoopError,
            >(EventLoopError::AlreadyRunning) && *final(self) == *old(self),
            old(self).spec_run_state() == RunState::Destroyed ==> r == Err::<
                ScheduledToken,
                EventLoopError,
            >(EventLoopError::Destroyed) && *final(self) == *old(self),
            old(self).spec_run_state() == RunState::NotRunning ==> {
                &&& r == Ok::<ScheduledToken, EventLoopError>(
                    ScheduledToken {
                        id: 0,
                        primitive: poll_primitive(
                            old(self).spec_target().spec_poll_strategy(),
                            old(self).spec_host(),
                        ),
                        reason: WakeReason::Init,
                    },
                )
                &&& final(self).spec_run_state() == RunState::Running
                &&& final(self).spec_armed() == r.ok()
                &&& final(self).spec_next_id() == 1
                &&& final(self).spec_queue() == old(self).spec_queue()
                &&& final(self).spec_mode() == old(self).spec_mode()
                &&& final(self).spec_target() == old(self).spec_target()
                &&& final(self).spec_host() == old(self).spec_host()
                &&& !final(self).spec_in_flight()
            },
    {
        match self.run_state {
            RunState::Running => Err(EventLoopError::AlreadyRunning),
            RunState::Destroyed => Err(EventLoopError::Destroyed),
            RunState::NotRunning => {
                self.run_state = RunState::Running;
                let primitive = poll_primitive_of(self.elw.poll_strategy(), self.host);
                let token = ScheduledToken { id: 0, primitive, reason: WakeReason::Init };
                self.armed = Some(token);
                self.next_id = 1;
                Ok(token)
            },
        }
    }

    /// Takes an occurrence from outside the loop. It is queued (a wake-up only where
    /// none is queued) and, where the loop is idle and not already due to run at
    /// once, an immediate pass is armed and its token returned. A torn-down loop
    /// ignores it.
    pub fn send_event(&mut self, event: PendingEvent) -> (r: Option<ScheduledToken>)
        requires
            old(self).wf(),
        ensures
            final(self).wf(),
            old(self).evolves_to(final(self)),
            old(self).spec_run_state() == RunState::Destroyed ==> r is None && *final(self) == *old(self),
            old(self).spec_run_state() != RunState::Destroyed && !old(self).needs_rearm() ==> {
                &&& r is None
                &&& final(self).spec_queue() == coalesce(old(self).spec_queue(), event)
                &&& final(self).spec_armed() == old(self).spec_armed()
                &&& final(self).spec_next_id() == old(self).spec_next_id()
                &&& final(self).spec_run_state() == old(self).spec_run_state()
                &&& final(self).spec_mode() == old(self).spec_mode()
                &&& final(self).spec_in_flight() == old(self).spec_in_flight()
                &&& final(self).spec_target() == old(self).spec_target()
                &&& final(self).spec_host() == old(self).spec_host()
            },
            old(self).needs_rearm() ==> old(self).armed_anew(
                final(self),
                poll_primitive(old(self).spec_target().spec_poll_strategy(), old(self).spec_host()),
                WakeReason::Wake,
                r,
            ) && (old(self).spec_next_id() < u64::MAX ==> final(self).spec_queue() == coalesce(
                old(self).spec_queue(),
                event,
            )),
    {
        if matches!(self.run_state, RunState::Destroyed) {
            return None;
        }
        let rearm = match self.armed {
            None => true,
            Some(t) => matches!(t.reason, WakeReason::Mode) && !matches!(self.mode, RunMode::Poll),
        } && matches!(self.run_state, RunState::Running) && !self.in_flight;
        let ghost q0 = self.queue@;
        let mut queued = false;
        if matches!(event, PendingEvent::UserWakeUp) {
            let mut i: usize = 0;
            while i < self.queue.len()
                invariant
                    self.queue@ == q0,
                    0 <= i <= q0.len(),
                    queued <==> exists|k: int| 0 <= k < i && q0[k] == PendingEvent::UserWakeUp,
                decreases q0.len() - i,
            {
                if matches!(self.queue[i], PendingEvent::UserWakeUp) {
                    queued = true;
                }
                i = i + 1;
            }
        }
        if !queued {
            self.queue.push(event);
        }
        proof {
            if event == PendingEvent::UserWakeUp && q0.contains(PendingEvent::UserWakeUp) {
                let k = choose|k: int| 0 <= k < q0.len() && q0[k] == PendingEvent::UserWakeUp;
                assert(queued);
            }
            if !queued && event == PendingEvent::UserWakeUp {
                assert(!q0.contains(PendingEvent::UserWakeUp));
            }
            assert(self.queue@ == coalesce(q0, event));
        }
        if rearm {
            let primitive = poll_primitive_of(self.elw.poll_strategy(), self.host);
            self.arm(primitive, WakeReason::Wake)
        } else {
            None
        }
    }

    /// An outside wake-up: `send_event` of `PendingEvent::UserWakeUp`.
    pub fn wake_up(&mut self) -> (r: Option<ScheduledToken>)
        requires
            old(self).wf(),
        ensures
            final(self).wf(),
            old(self).evolves_to(final(self)),
            old(self).spec_run_state() == RunState::Destroyed ==> r is None && *final(self) == *old(self),
            old(self).spec_run_state() != RunState::Destroyed && !old(self).needs_rearm() ==> {
                &&& r is None
                &&& final(self).spec_queue() == coalesce(old(self).spec_queue(), PendingEvent::UserWakeUp)
                &&& final(self).spec_armed() == old(self).spec_armed()
                &&& final(self).spec_next_id() == old(self).spec_next_id()
                &&& final(self).spec_run_state() == old(self).spec_run_state()
                &&& final(self).spec_mode() == old(self).spec_mode()
                &&& final(self).spec_in_flight() == old(self).spec_in_flight()
                &&& final(self).spec_target() == old(self).spec_target()
            },
            old(self).needs_rearm() ==> old(self).armed_anew(
                final(self),
                poll_primitive(old(self).spec_target().spec_poll_strategy(), old(self).spec_host()),
                WakeReason::Wake,
                r,
            ) && (old(self).spec_next_id() < u64::MAX ==> final(self).spec_queue() == coalesce(
                old(self).spec_queue(),
                PendingEvent::UserWakeUp,
            )),
    {
        self.send_event(PendingEvent::UserWakeUp)
    }

    /// Starts the pass that `token` was armed for: returns its events (see
    /// `tick_events`), empties the queue and disarms the token. Returns `None` and
    /// changes nothing where `token` is not the armed one, so a superseded callback
    /// that still fires runs nothing, nor while a pass is in flight.
    pub fn begin_tick(&mut self, token: ScheduledToken, now: u64) -> (r: Option<Vec<Event>>)
        requires
            old(self).wf(),
        ensures
            final(self).wf(),
            old(self).evolves_to(final(self)),
            !old(self).fires(token) ==> r is None && *final(self) == *old(self),
            old(self).fires(token) ==> {
                &&& r matches Some(v) && v@ == tick_events(
                    old(self).spec_queue(),
                    start_cause(token.reason, old(self).spec_mode(), now),
                )
                &&& final(self).spec_in_flight()
                &&& final(self).spec_queue().len() == 0
                &&& final(self).spec_armed() is None
                &&& final(self).spec_next_id() == old(self).spec_next_id()
                &&& final(self).spec_run_state() == old(self).spec_run_state()
                &&& final(self).spec_mode() == old(self).spec_mode()
                &&& final(self).spec_target() == old(self).spec_target()
                &&& final(self).spec_host() == old(self).spec_host()
            },
    {
        let fires = match self.armed {
            Some(t) => t == token,
            None => false,
        } && matches!(self.run_state, RunState::Running) && !self.in_flight;
        if !fires {
            return None;
        }
        let cause = match token.reason {
            WakeReason::Init => StartCause::Init,
            _ => match self.mode {
                RunMode::Poll => StartCause::Poll,
                RunMode::WaitUntil(deadline) => if matches!(token.reason, WakeReason::Mode) && now
                    >= deadline {
                    StartCause::ResumeTimeReached
                } else {
                    StartCause::WaitCancelled
                },
                _ => StartCause::WaitCancelled,
            },
        };
        let ghost q = self.queue@;
        let mut events: Vec<Event> = Vec::new();
        events.push(Event::NewEvents(cause));
        let mut i: usize = 0;
        while i < self.queue.len()
            invariant
                self.queue@ == q,
                0 <= i <= q.len(),
                events@ == seq![Event::NewEvents(cause)] + q.subrange(0, i as int).map_values(
                    |p: PendingEvent| event_of(p),
                ),
            decreases q.len() - i,
        {
            let e = self.queue[i].to_event();
            events.push(e);
            i = i + 1;
            proof {
                assert(q.subrange(0, i as int).map_values(|p: PendingEvent| event_of(p))
                    =~= q.subrange(0, i - 1).map_values(|p: PendingEvent| event_of(p)).push(e));
            }
        }
        events.push(Event::AboutToWait);
        proof {
            assert(q.subrange(0, q.len() as int) =~= q);
            assert(events@ =~= tick_events(q, cause));
        }
        self.queue = Vec::new();
        self.armed = None;
        self.in_flight = true;
        Some(events)
    }

    /// Ends the pass in flight: the handler's directive becomes the mode in force.
    /// An exit tears the loop down. Otherwise the next pass is armed: at once where
    /// occurrences arrived during the pass, else as `schedule_next` says for the mode,
    /// with the policies in force now; in wait mode nothing is armed. Without a pass in
    /// flight nothing changes.
    pub fn end_tick(&mut self, now: u64) -> (r: TickOutcome)
        requires
            old(self).wf(),
        ensures
            final(self).wf(),
            old(self).evolves_to(final(self)),
            !final(self).spec_in_flight(),
            final(self).spec_target() == old(self).spec_target(),
            final(self).spec_host() == old(self).spec_host(),
            !old(self).spec_in_flight() ==> r == TickOutcome::NotFired && *final(self) == *old(self),
            old(self).spec_in_flight() ==> end_of_tick(*old(self), *final(self), now, r),
    {
        if !self.in_flight {
            return TickOutcome::NotFired;
        }
        self.in_flight = false;
        let directive = self.elw.control_flow();
        self.mode = directive;
        match directive {
            RunMode::ExitRequested(code) => {
                self.run_state = RunState::Destroyed;
                self.queue = Vec::new();
                self.armed = None;
                TickOutcome::Exited(code)
            },
            _ => {
                let next = if self.queue.len() > 0 {
                    Some((poll_primitive_of(self.elw.poll_strategy(), self.host), WakeReason::Wake))
                } else {
                    match schedule_next(
                        directive,
                        self.elw.poll_strategy(),
                        self.elw.wait_until_strategy(),
                        self.host,
                        now,
                    ) {
                        Some(p) => Some((p, WakeReason::Mode)),
                        None => None,
                    }
                };
                match next {
                    Some((p, reason)) => match self.arm(p, reason) {
                        Some(t) => TickOutcome::Rearmed(t),
                        None => TickOutcome::Exhausted,
                    },
                    None => TickOutcome::Dormant,
                }
            },
        }
    }

    /// Runs the pass that `token` was armed for: dispatches its events to `app` in
    /// order, ends it (see `end_tick`), and dispatches `Event::LoopExiting` where it
    /// ended in an exit. A token that is not the armed one runs nothing.
    pub fn tick<A: ApplicationHandler>(&mut self, app: &mut A, token: ScheduledToken, now: u64) -> (r: TickOutcome)
        requires
            old(self).wf(),
        ensures
            final(self).wf(),
            old(self).evolves_to(final(self)),
            old(self).fires(token) ==> !final(self).spec_in_flight(),
            old(self).fires(token) ==> final(app).dispatched() == old(app).dispatched()
                + tick_events(
                old(self).spec_queue(),
                start_cause(token.reason, old(self).spec_mode(), now),
            ) + (if r is Exited {
                seq![Event::LoopExiting]
            } else {
                Seq::<Event>::empty()
            }),
            !old(self).fires(token) ==> final(app).dispatched() == old(app).dispatched(),
            final(self).spec_host() == old(self).spec_host(),
            !old(self).fires(token) ==> r == TickOutcome::NotFired && *final(self) == *old(self),
            old(self).fires(token) ==> match r {
                TickOutcome::NotFired => false,
                TickOutcome::Rearmed(t) => {
                    &&& final(self).spec_armed() == Some(t)
                    &&& t.id == old(self).spec_next_id()
                    &&& t.reason == WakeReason::Mode
                    &&& final(self).spec_mode() == final(self).spec_target().spec_directive()
                    &&& primitive_for(
                        final(self).spec_mode(),
                        final(self).spec_target().spec_poll_strategy(),
                        final(self).spec_target().spec_wait_until_strategy(),
                        final(self).spec_host(),
                        now,
                    ) == Some(t.primitive)
                    &&& final(self).spec_run_state() == RunState::Running
                    &&& final(self).spec_queue().len() == 0
                },
                TickOutcome::Dormant => {
                    &&& final(self).spec_mode() == RunMode::Wait
                    &&& final(self).spec_armed() is None
                    &&& final(self).spec_run_state() == RunState::Running
                    &&& final(self).spec_queue().len() == 0
                },
                TickOutcome::Exited(code) => {
                    &&& final(self).spec_mode() == RunMode::ExitRequested(code)
                    &&& final(self).spec_run_state() == RunState::Destroyed
                    &&& final(self).spec_armed() is None
                    &&& final(self).spec_queue().len() == 0
                },
                TickOutcome::Exhausted => {
                    &&& !(final(self).spec_mode() is ExitRequested)
                    &&& final(self).spec_run_state() == RunState::Destroyed
                    &&& final(self).spec_armed() is None
                    &&& final(self).spec_next_id() == u64::MAX
                    &&& old(self).spec_next_id() == u64::MAX
                },
            },
    {
        let events = match self.begin_tick(token, now) {
            None => {
                return TickOutcome::NotFired;
            },
            Some(v) => v,
        };
        let ghost mid = *self;
        let ghost before = old(app).dispatched();
        let mut i: usize = 0;
        while i < events.len()
            invariant
                app.dispatched() == before + events@.subrange(0, i as int),
                self.host == mid.host,
                self.run_state == mid.run_state,
                self.mode == mid.mode,
                self.queue@ == mid.queue@,
                self.armed == mid.armed,
                self.next_id == mid.next_id,
                self.in_flight == mid.in_flight,
                mid.wf(),
                0 <= i <= events.len(),
            decreases events.len() - i,
        {
            handle_event(app, &mut self.elw, events[i]);
            i = i + 1;
            proof {
                assert(events@.subrange(0, i as int) =~= events@.subrange(0, i - 1).push(
                    events@[i - 1],
                ));
            }
        }
        assert(events@.subrange(0, events@.len() as int) =~= events@);
        let r = self.end_tick(now);
        match r {
            TickOutcome::Exited(_) => {
                handle_event(app, &mut self.elw, Event::LoopExiting);
            },
            _ => {},
        }
        r
    }

    /// A handle through which wake-ups reach this loop from any context.
    pub fn create_proxy(&self) -> (r: EventLoopProxy)
        ensures
            !r.spec_pending(),
            r.spec_instance() == self.spec_instance(),
    {
        EventLoopProxy { instance: self.instance, pending: false }
    }

    /// Takes the wake-up signalled on `proxy`, if any: clears the signal and calls
    /// `wake_up`. However often the proxy was signalled, one wake-up is taken. A proxy
    /// of another loop is left alone.
    pub fn take_wake_up(&mut self, proxy: &mut EventLoopProxy) -> (r: Option<ScheduledToken>)
        requires
            old(self).wf(),
        ensures
            final(self).wf(),
            old(self).evolves_to(final(self)),
            old(proxy).spec_instance() != old(self).spec_instance() ==> r is None && *final(self)
                == *old(self) && *final(proxy) == *old(proxy),
            old(proxy).spec_instance() == old(self).spec_instance() ==> !final(proxy).spec_pending(),
            !old(proxy).spec_pending() ==> r is None && *final(self) == *old(self),
            old(proxy).spec_pending() && old(self).spec_run_state() == RunState::Destroyed ==> r is None
                && *final(self) == *old(self),
            old(proxy).spec_pending() && old(proxy).spec_instance() == old(self).spec_instance()
                && old(self).spec_run_state() != RunState::Destroyed && (
            !old(self).needs_rearm() || old(self).spec_next_id() < u64::MAX) ==> final(self).spec_queue() == coalesce(old(self).spec_queue(), PendingEvent::UserWakeUp),
            old(proxy).spec_pending() && old(proxy).spec_instance() == old(self).spec_instance()
                && old(self).needs_rearm() ==> old(self).armed_anew(
                final(self),
                poll_primitive(old(self).spec_target().spec_poll_strategy(), old(self).spec_host()),
                WakeReason::Wake,
                r,
            ),
    {
        if proxy.pending && proxy.instance == self.instance {
            proxy.pending = false;
            self.wake_up()
        } else {
            None
        }
    }

    /// What the running application handler sees of this loop, for changing it
    /// between passes (strategies, cursor requests).
    pub fn window_target_mut(&mut self) -> (r: &mut ActiveEventLoop)
        ensures
            *r == old(self).spec_target(),
            final(self).spec_target() == *final(r),
            final(self).spec_host() == old(self).spec_host(),
            final(self).spec_instance() == old(self).spec_instance(),
            final(self).spec_run_state() == old(self).spec_run_state(),
            final(self).spec_mode() == old(self).spec_mode(),
            final(self).spec_queue() == old(self).spec_queue(),
            final(self).spec_armed() == old(self).spec_armed(),
            final(self).spec_next_id() == old(self).spec_next_id(),
            final(self).spec_in_flight() == old(self).spec_in_flight(),
            final(self).wf() == old(self).wf(),
            old(self).evolves_to(final(self)),
    {
        &mut self.elw
    }

    /// The host reports the load of cursor request `id`. Where the request still
    /// waits it takes the report (`.0`), and the loop is woken as by `wake_up` so that
    /// the handler polling the request runs again (`.1` is the token armed, if any).
    /// Otherwise nothing changes.
    pub fn complete_custom_cursor(&mut self, id: u64, loaded: Result<(), CustomCursorError>) -> (r: (
        bool,
        Option<ScheduledToken>,
    ))
        requires
            old(self).wf(),
        ensures
            final(self).wf(),
            old(self).evolves_to(final(self)),
            r.0 == waiting(old(self).spec_target().spec_cursor_requests()@, id),
            completes(
                old(self).spec_target().spec_cursor_requests()@,
                final(self).spec_target().spec_cursor_requests()@,
                id,
                loaded,
            ),
            !r.0 ==> r.1 is None && *final(self) == *old(self),
            r.0 && old(self).spec_run_state() == RunState::Destroyed ==> r.1 is None
                && final(self).spec_run_state() == RunState::Destroyed,
            r.0 && old(self).spec_run_state() != RunState::Destroyed && !old(self).needs_rearm() ==> {
                &&& r.1 is None
                &&& final(self).spec_queue() == coalesce(old(self).spec_queue(), PendingEvent::UserWakeUp)
                &&& final(self).spec_armed() == old(self).spec_armed()
                &&& final(self).spec_run_state() == old(self).spec_run_state()
            },
            r.0 && old(self).needs_rearm() && old(self).spec_next_id() < u64::MAX ==> {
                &&& r.1 == Some(
                    ScheduledToken {
                        id: old(self).spec_next_id(),
                        primitive: poll_primitive(
                            old(self).spec_target().spec_poll_strategy(),
                            old(self).spec_host(),
                        ),
                        reason: WakeReason::Wake,
                    },
                )
                &&& final(self).spec_armed() == r.1
                &&& final(self).spec_queue() == coalesce(old(self).spec_queue(), PendingEvent::UserWakeUp)
            },
    {
        let taken = self.elw.complete_custom_cursor(id, loaded);
        if taken {
            let t = self.wake_up();
            (true, t)
        } else {
            (false, None)
        }
    }

    /// What the running application handler sees of this loop.
    pub fn window_target(&self) -> (r: &ActiveEventLoop)
        ensures
            *r == self.spec_target(),
    {
        &self.elw
    }
}

/// How a pass ends, from the loop `a` in flight to `b`, with outcome `r`: the
/// handler's directive `d` is the mode in force, and an exit tears the loop down;
/// otherwise the token armed is an immediate one where occurrences are queued, else
/// the one `primitive_for` gives for `d` with the policies in force.
pub open spec fn end_of_tick(a: EventLoop, b: EventLoop, now: u64, r: TickOutcome) -> bool {
    let d = a.spec_target().spec_directive();
    let t = a.spec_target();
    &&& b.spec_mode() == d
    &&& match d {
        RunMode::ExitRequested(code) => {
            &&& r == TickOutcome::Exited(code)
            &&& b.spec_run_state() == RunState::Destroyed
            &&& b.spec_armed() is None
            &&& b.spec_queue().len() == 0
            &&& b.spec_next_id() == a.spec_next_id()
        },
        _ => {
            let next = if a.spec_queue().len() > 0 {
                Some((poll_primitive(t.spec_poll_strategy(), a.spec_host()), WakeReason::Wake))
            } else {
                match primitive_for(
                    d,
                    t.spec_poll_strategy(),
                    t.spec_wait_until_strategy(),
                    a.spec_host(),
                    now,
                ) {
                    Some(p) => Some((p, WakeReason::Mode)),
                    None => None,
                }
            };
            match next {
                Some((p, reason)) => if a.spec_next_id() < u64::MAX {
                    &&& r == TickOutcome::Rearmed(
                        ScheduledToken { id: a.spec_next_id(), primitive: p, reason },
                    )
                    &&& b.spec_armed() == Some(
                        ScheduledToken { id: a.spec_next_id(), primitive: p, reason },
                    )
                    &&& b.spec_next_id() == a.spec_next_id() + 1
                    &&& b.spec_run_state() == a.spec_run_state()
                    &&& b.spec_queue() == a.spec_queue()
                } else {
                    &&& r == TickOutcome::Exhausted
                    &&& b.spec_run_state() == RunState::Destroyed
                    &&& b.spec_armed() is None
                    &&& b.spec_queue().len() == 0
                },
                None => {
                    &&& r == TickOutcome::Dormant
                    &&& b.spec_armed() is None
                    &&& b.spec_next_id() == a.spec_next_id()
                    &&& b.spec_run_state() == a.spec_run_state()
                    &&& b.spec_queue() == a.spec_queue()
                },
            }
        },
    }
}

/// A wake-up signal for a loop that can be raised from any context: a single flag,
/// so that signals raised before the loop takes them count as one.
pub struct EventLoopProxy {
    instance: u64,
    pending: bool,
}

impl EventLoopProxy {
    /// The loop this proxy wakes.
    pub closed spec fn spec_instance(&self) -> u64 {
        self.instance
    }

    /// Whether a wake-up is signalled and not yet taken.
    pub closed spec fn spec_pending(&self) -> bool {
        self.pending
    }

    /// Signals a wake-up; signalling again before the loop takes it changes nothing.
    pub fn wake_up(&mut self)
        ensures
            final(self).spec_pending(),
            final(self).spec_instance() == old(self).spec_instance(),
    {
        self.pending = true;
    }

    /// Whether a wake-up is signalled and not yet taken.
    pub fn is_pending(&self) -> (r: bool)
        ensures
            r == self.spec_pending(),
    {
        self.pending
    }
}

/// Web-specific scheduling policy controls of a loop.
pub trait EventLoopExtWeb {
    /// Sets the strategy used for `RunMode::Poll`, from the next scheduling on.
    fn set_poll_strategy(&mut self, strategy: PollStrategy);

    /// The strategy used for `RunMode::Poll`.
    fn poll_strategy(&self) -> PollStrategy;

    /// Sets the strategy used for `RunMode::WaitUntil`, from the next scheduling on.
    fn set_wait_until_strategy(&mut self, strategy: WaitUntilStrategy);

    /// The strategy used for `RunMode::WaitUntil`.
    fn wait_until_strategy(&self) -> WaitUntilStrategy;
}

impl EventLoopExtWeb for EventLoop {
    fn set_poll_strategy(&mut self, strategy: PollStrategy)
        ensures
            final(self).spec_target().spec_poll_strategy() == strategy,
            final(self).spec_target().spec_wait_until_strategy() == old(self).spec_target().spec_wait_until_strategy(),
            final(self).spec_target().spec_directive() == old(self).spec_target().spec_directive(),
            final(self).spec_armed() == old(self).spec_armed(),
            final(self).spec_mode() == old(self).spec_mode(),
            final(self).spec_run_state() == old(self).spec_run_state(),
            final(self).spec_queue() == old(self).spec_queue(),
            final(self).spec_next_id() == old(self).spec_next_id(),
            final(self).spec_in_flight() == old(self).spec_in_flight(),
            final(self).spec_host() == old(self).spec_host(),
            final(self).spec_target().spec_cursor_requests() == old(self).spec_target().spec_cursor_requests(),
            final(self).wf() == old(self).wf(),
            old(self).evolves_to(final(self)),
    {
        self.elw.set_poll_strategy(strategy);
    }

    fn poll_strategy(&self) -> (r: PollStrategy)
        ensures
            r == self.spec_target().spec_poll_strategy(),
    {
        self.elw.poll_strategy()
    }

    fn set_wait_until_strategy(&mut self, strategy: WaitUntilStrategy)
        ensures
            final(self).spec_target().spec_wait_until_strategy() == strategy,
            final(self).spec_target().spec_poll_strategy() == old(self).spec_target().spec_poll_strategy(),
            final(self).spec_target().spec_directive() == old(self).spec_target().spec_directive(),
            final(self).spec_armed() == old(self).spec_armed(),
            final(self).spec_mode() == old(self).spec_mode(),
            final(self).spec_run_state() == old(self).spec_run_state(),
            final(self).spec_queue() == old(self).spec_queue(),
            final(self).spec_next_id() == old(self).spec_next_id(),
            final(self).spec_in_flight() == old(self).spec_in_flight(),
            final(self).spec_host() == old(self).spec_host(),
            final(self).spec_target().spec_cursor_requests() == old(self).spec_target().spec_cursor_requests(),
            final(self).wf() == old(self).wf(),
            old(self).evolves_to(final(self)),
    {
        self.elw.set_wait_until_strategy(strategy);
    }

    fn wait_until_strategy(&self) -> (r: WaitUntilStrategy)
        ensures
            r == self.spec_target().spec_wait_until_strategy(),
    {
        self.elw.wait_until_strategy()
    }
}

/// The queue after `n` wake-ups arrive at a loop whose queue was `q`.
pub open spec fn wakes(q: Seq<PendingEvent>, n: nat) -> Seq<PendingEvent>
    decreases n,
{
    if n == 0 {
        q
    } else {
        coalesce(wakes(q, (n - 1) as nat), PendingEvent::UserWakeUp)
    }
}

/// Exactly one event of `s` is a wake-up.
pub open spec fn exactly_one_wake(s: Seq<Event>) -> bool {
    exists|i: int|
        0 <= i < s.len() && s[i] == Event::UserWakeUp && forall|j: int|
            0 <= j < s.len() && #[trigger] s[j] == Event::UserWakeUp ==> j == i
}

/// However many wake-ups arrive between two passes, the next pass dispatches one
/// wake-up event, after the occurrences that were queued before it.
pub proof fn lemma_wake_ups_coalesce(q: Seq<PendingEvent>, n: nat, cause: StartCause)
    requires
        !q.contains(PendingEvent::UserWakeUp),
        n >= 1,
    ensures
        wakes(q, n) == q.push(PendingEvent::UserWakeUp),
        exactly_one_wake(tick_events(wakes(q, n), cause)),
    decreases n,
{
    if n > 1 {
        lemma_wake_ups_coalesce(q, (n - 1) as nat, cause);
        assert(wakes(q, (n - 1) as nat).contains(PendingEvent::UserWakeUp)) by {
            assert(wakes(q, (n - 1) as nat)[q.len() as int] == PendingEvent::UserWakeUp);
        }
    }
    let w = q.push(PendingEvent::UserWakeUp);
    let s = tick_events(w, cause);
    let i: int = q.len() as int + 1;
    assert(s[i] == Event::UserWakeUp);
    assert forall|j: int| 0 <= j < s.len() && #[trigger] s[j] == Event::UserWakeUp implies j == i by {
        if 1 <= j <= q.len() {
            assert(s[j] == event_of(q[j - 1]));
            assert(q.contains(q[j - 1]));
        }
    }
}

/// `n` successive wake-ups, each taking the queue from one state to the next as
/// `wake_up` does, leave the queue `wakes(q, n)`.
pub proof fn lemma_wake_calls_give_wakes(qs: Seq<Seq<PendingEvent>>)
    requires
        qs.len() >= 1,
        forall|i: int| 0 <= i < qs.len() - 1 ==> #[trigger] qs[i + 1] == coalesce(
            qs[i],
            PendingEvent::UserWakeUp,
        ),
    ensures
        qs.last() == wakes(qs[0], (qs.len() - 1) as nat),
    decreases qs.len(),
{
    if qs.len() > 1 {
        let p = qs.drop_last();
        assert forall|i: int| 0 <= i < p.len() - 1 implies #[trigger] p[i + 1] == coalesce(
            p[i],
            PendingEvent::UserWakeUp,
        ) by {
            assert(qs[i + 1] == coalesce(qs[i], PendingEvent::UserWakeUp));
        }
        lemma_wake_calls_give_wakes(p);
        let j = qs.len() - 2;
        assert(qs[j + 1] == coalesce(qs[j], PendingEvent::UserWakeUp));
    }
}

/// Evolution of a loop composes: what holds across each of two steps holds across both.
pub proof fn lemma_evolves_to_transitive(a: EventLoop, b: EventLoop, c: EventLoop)
    requires
        a.evolves_to(&b),
        b.evolves_to(&c),
    ensures
        a.evolves_to(&c),
{
}

/// A token that is no longer the armed one, such as a wait timer replaced by a newer
/// token, never runs a pass again, in any later state of the loop.
pub proof fn lemma_superseded_token_never_fires(a: EventLoop, b: EventLoop, t: ScheduledToken)
    requires
        t.id < a.spec_next_id(),
        a.spec_armed() != Some(t),
        a.evolves_to(&b),
    ensures
        !b.fires(t),
{
}

} // verus!
