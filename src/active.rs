use vstd::prelude::*;

use crate::cursor::{
    completes, outcome_of, waiting, CursorPoll, CursorRequest, CursorRequests, CustomCursor,
    CustomCursorError, CustomCursorFuture, CustomCursorSource,
};
use crate::event::{DeviceEvent, DeviceId, Event, StartCause, WindowEvent, WindowId};
use crate::strategy::{PollStrategy, RunMode, WaitUntilStrategy};

verus! {

/// What a running loop shows its application handler: the control-flow directive
/// the handler chooses and the scheduling policies.
pub struct ActiveEventLoop {
    directive: RunMode,
    poll_strategy: PollStrategy,
    wait_until_strategy: WaitUntilStrategy,
    cursor_requests: CursorRequests,
}

impl ActiveEventLoop {
    pub closed spec fn spec_directive(&self) -> RunMode {
        self.directive
    }

    /// The asynchronous cursor loads this loop has open.
    pub closed spec fn spec_cursor_requests(&self) -> CursorRequests {
        self.cursor_requests
    }

    pub closed spec fn spec_poll_strategy(&self) -> PollStrategy {
        self.poll_strategy
    }

    pub closed spec fn spec_wait_until_strategy(&self) -> WaitUntilStrategy {
        self.wait_until_strategy
    }

    /// A fresh surface: wait for events, default policies.
    pub(crate) fn new() -> (r: Self)
        ensures
            r.spec_directive() == RunMode::Wait,
            r.spec_poll_strategy() == PollStrategy::Scheduler,
            r.spec_wait_until_strategy() == WaitUntilStrategy::Scheduler,
            r.spec_cursor_requests()@ == Map::<u64, CursorRequest>::empty(),
            r.spec_cursor_requests().spec_next_id() == 0,
            r.spec_cursor_requests().wf(),
    {
        ActiveEventLoop {
            directive: RunMode::Wait,
            poll_strategy: PollStrategy::Scheduler,
            wait_until_strategy: WaitUntilStrategy::Scheduler,
            cursor_requests: CursorRequests::new(),
        }
    }

    /// The directive that takes effect when the current pass ends.
    pub fn control_flow(&self) -> (r: RunMode)
        ensures
            r == self.spec_directive(),
    {
        self.directive
    }

    /// Sets the directive for the end of the current pass. An exit, once requested,
    /// stays requested with its first code.
    pub fn set_control_flow(&mut self, mode: RunMode)
        ensures
            final(self).spec_directive() == (if old(self).spec_directive() is ExitRequested {
                old(self).spec_directive()
            } else {
                mode
            }),
            final(self).spec_poll_strategy() == old(self).spec_poll_strategy(),
            final(self).spec_wait_until_strategy() == old(self).spec_wait_until_strategy(),
    {
        match self.directive {
            RunMode::ExitRequested(_) => {},
            _ => {
                self.directive = mode;
            },
        }
    }

    /// Requests that the loop exit with `code` at the end of the current pass.
    pub fn exit(&mut self, code: i32)
        ensures
            final(self).spec_directive() == (if old(self).spec_directive() is ExitRequested {
                old(self).spec_directive()
            } else {
                RunMode::ExitRequested(code)
            }),
            final(self).spec_poll_strategy() == old(self).spec_poll_strategy(),
            final(self).spec_wait_until_strategy() == old(self).spec_wait_until_strategy(),
    {
        self.set_control_flow(RunMode::ExitRequested(code));
    }

    /// Whether an exit has been requested.
    pub fn exiting(&self) -> (r: bool)
        ensures
            r == self.spec_directive() is ExitRequested,
    {
        matches!(self.directive, RunMode::ExitRequested(_))
    }

    /// The cursor that `source` describes.
    pub fn create_custom_cursor(&self, source: CustomCursorSource) -> (r: CustomCursor)
        ensures
            r.spec_is_animation() == source.inner is Animation,
    {
        CustomCursor::of_source(&source)
    }

    /// Opens a request for the host to load the cursor that `source` describes; the
    /// returned future waits on it.
    pub fn create_custom_cursor_async(&mut self, source: CustomCursorSource) -> (r: CustomCursorFuture)
        requires
            old(self).spec_cursor_requests().spec_next_id() < u64::MAX,
        ensures
            r.spec_id() == old(self).spec_cursor_requests().spec_next_id(),
            final(self).spec_cursor_requests().spec_next_id() == old(self).spec_cursor_requests().spec_next_id() + 1,
            final(self).spec_cursor_requests()@ == old(self).spec_cursor_requests()@.insert(
                r.spec_id(),
                CursorRequest { source, outcome: None },
            ),
            old(self).spec_cursor_requests().wf() ==> !old(self).spec_cursor_requests()@.contains_key(r.spec_id())
                && final(self).spec_cursor_requests().wf(),
            final(self).spec_directive() == old(self).spec_directive(),
            final(self).spec_poll_strategy() == old(self).spec_poll_strategy(),
            final(self).spec_wait_until_strategy() == old(self).spec_wait_until_strategy(),
    {
        let id = self.cursor_requests.open(source);
        CustomCursorFuture::for_request(id)
    }

    /// Whether another cursor request can be opened: request numbers are not used up.
    pub fn can_request_cursor(&self) -> (r: bool)
        ensures
            r == (self.spec_cursor_requests().spec_next_id() < u64::MAX),
    {
        self.cursor_requests.next_id() < u64::MAX
    }

    /// What open request `id` is to load: the host learns here what to load.
    pub fn custom_cursor_source(&self, id: u64) -> (r: Option<&CustomCursorSource>)
        ensures
            r is Some == self.spec_cursor_requests()@.contains_key(id),
            r matches Some(s) ==> *s == self.spec_cursor_requests()@[id].source,
    {
        self.cursor_requests.source(id)
    }

    pub(crate) fn complete_custom_cursor(&mut self, id: u64, loaded: Result<(), CustomCursorError>) -> (r: bool)
        ensures
            r == waiting(old(self).spec_cursor_requests()@, id),
            completes(old(self).spec_cursor_requests()@, final(self).spec_cursor_requests()@, id, loaded),
            final(self).spec_cursor_requests().spec_next_id() == old(self).spec_cursor_requests().spec_next_id(),
            old(self).spec_cursor_requests().wf() ==> final(self).spec_cursor_requests().wf(),
            final(self).spec_directive() == old(self).spec_directive(),
            final(self).spec_poll_strategy() == old(self).spec_poll_strategy(),
            final(self).spec_wait_until_strategy() == old(self).spec_wait_until_strategy(),
            !r ==> *final(self) == *old(self),
    {
        self.cursor_requests.complete(id, loaded)
    }

    pub(crate) fn take_custom_cursor(&mut self, id: u64) -> (r: CursorPoll)
        ensures
            final(self).spec_cursor_requests().spec_next_id() == old(self).spec_cursor_requests().spec_next_id(),
            old(self).spec_cursor_requests().wf() ==> final(self).spec_cursor_requests().wf(),
            match outcome_of(old(self).spec_cursor_requests()@, id) {
                Some(o) => r == CursorPoll::Ready(o) && final(self).spec_cursor_requests()@
                    == old(self).spec_cursor_requests()@.remove(id),
                None => r == CursorPoll::Pending && final(self).spec_cursor_requests()@
                    == old(self).spec_cursor_requests()@,
            },
    {
        self.cursor_requests.take(id)
    }

    pub(crate) fn close_custom_cursor(&mut self, id: u64)
        ensures
            final(self).spec_cursor_requests()@ == old(self).spec_cursor_requests()@.remove(id),
            final(self).spec_cursor_requests().spec_next_id() == old(self).spec_cursor_requests().spec_next_id(),
            old(self).spec_cursor_requests().wf() ==> final(self).spec_cursor_requests().wf(),
    {
        self.cursor_requests.close(id);
    }
}

/// Web-specific scheduling policy controls of the loop seen by a running handler.
pub trait ActiveEventLoopExtWeb {
    /// Sets the strategy used for `RunMode::Poll`, from the next scheduling on.
    fn set_poll_strategy(&mut self, strategy: PollStrategy);

    /// The strategy used for `RunMode::Poll`.
    fn poll_strategy(&self) -> PollStrategy;

    /// Sets the strategy used for `RunMode::WaitUntil`, from the next scheduling on.
    fn set_wait_until_strategy(&mut self, strategy: WaitUntilStrategy);

    /// The strategy used for `RunMode::WaitUntil`.
    fn wait_until_strategy(&self) -> WaitUntilStrategy;
}

impl ActiveEventLoopExtWeb for ActiveEventLoop {
    fn set_poll_strategy(&mut self, strategy: PollStrategy)
        ensures
            final(self).spec_poll_strategy() == strategy,
            final(self).spec_wait_until_strategy() == old(self).spec_wait_until_strategy(),
            final(self).spec_directive() == old(self).spec_directive(),
            final(self).spec_cursor_requests() == old(self).spec_cursor_requests(),
    {
        self.poll_strategy = strategy;
    }

    fn poll_strategy(&self) -> (r: PollStrategy)
        ensures
            r == self.spec_poll_strategy(),
    {
        self.poll_strategy
    }

    fn set_wait_until_strategy(&mut self, strategy: WaitUntilStrategy)
        ensures
            final(self).spec_wait_until_strategy() == strategy,
            final(self).spec_poll_strategy() == old(self).spec_poll_strategy(),
            final(self).spec_directive() == old(self).spec_directive(),
            final(self).spec_cursor_requests() == old(self).spec_cursor_requests(),
    {
        self.wait_until_strategy = strategy;
    }

    fn wait_until_strategy(&self) -> (r: WaitUntilStrategy)
        ensures
            r == self.spec_wait_until_strategy(),
    {
        self.wait_until_strategy
    }
}

/// The events an application has been handed, in order. It exists in proofs only:
/// no running code ever builds or reads one.
pub type EventRecord = Seq<Event>;

/// The application: one entry point per kind of event, called in the order the loop
/// dispatches them, never reentrantly. `dispatched` is the record of the events an
/// application has been handed so far; each entry point adds its own event to it.
pub trait ApplicationHandler {
    spec fn dispatched(&self) -> EventRecord;

    fn new_events(&mut self, event_loop: &mut ActiveEventLoop, cause: StartCause)
        ensures
            final(self).dispatched() == old(self).dispatched().push(Event::NewEvents(cause)),
    ;

    fn window_event(&mut self, event_loop: &mut ActiveEventLoop, window_id: WindowId, event: WindowEvent)
        ensures
            final(self).dispatched() == old(self).dispatched().push(
                Event::Window { window_id, event },
            ),
    ;

    fn device_event(&mut self, event_loop: &mut ActiveEventLoop, device_id: DeviceId, event: DeviceEvent)
        ensures
            final(self).dispatched() == old(self).dispatched().push(
                Event::Device { device_id, event },
            ),
    ;

    fn user_wake_up(&mut self, event_loop: &mut ActiveEventLoop)
        ensures
            final(self).dispatched() == old(self).dispatched().push(Event::UserWakeUp),
    ;

    fn suspended(&mut self, event_loop: &mut ActiveEventLoop)
        ensures
            final(self).dispatched() == old(self).dispatched().push(Event::Suspended),
    ;

    fn resumed(&mut self, event_loop: &mut ActiveEventLoop)
        ensures
            final(self).dispatched() == old(self).dispatched().push(Event::Resumed),
    ;

    fn about_to_wait(&mut self, event_loop: &mut ActiveEventLoop)
        ensures
            final(self).dispatched() == old(self).dispatched().push(Event::AboutToWait),
    ;

    fn exiting(&mut self, event_loop: &mut ActiveEventLoop)
        ensures
            final(self).dispatched() == old(self).dispatched().push(Event::LoopExiting),
    ;

    fn memory_warning(&mut self, event_loop: &mut ActiveEventLoop)
        ensures
            final(self).dispatched() == old(self).dispatched().push(Event::MemoryWarning),
    ;
}

/// Hands one event to the entry point of `app` for its kind: exactly one entry point
/// is called, and the event is added to what `app` was handed.
pub fn handle_event<A: ApplicationHandler>(app: &mut A, target: &mut ActiveEventLoop, event: Event)
    ensures
        final(app).dispatched() == old(app).dispatched().push(event),
{
    match event {
        Event::NewEvents(cause) => app.new_events(target, cause),
        Event::Window { window_id, event } => app.window_event(target, window_id, event),
        Event::Device { device_id, event } => app.device_event(target, device_id, event),
        Event::UserWakeUp => app.user_wake_up(target),
        Event::Suspended => app.suspended(target),
        Event::Resumed => app.resumed(target),
        Event::AboutToWait => app.about_to_wait(target),
        Event::LoopExiting => app.exiting(target),
        Event::MemoryWarning => app.memory_warning(target),
    }
}

} // verus!
