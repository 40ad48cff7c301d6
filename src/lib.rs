//! Event-loop core for hosts that forbid blocking the single execution thread and
//! only offer callback-driven scheduling (immediate tasks, idle callbacks, timers).
//!
//! - `strategy`: which host primitive calls the loop back for a run mode.
//! - `event`: the events the application observes and the occurrences queued for it.
//! - `active`: what a running handler sees of the loop, and the handler trait.
//! - `event_loop`: run state, queue, armed token, and the passes of the loop.
//! - `cursor`: cursor descriptions and the asynchronous cursor loads.

mod active;
mod cursor;
mod event;
mod event_loop;
mod strategy;

pub use active::{
    handle_event, ActiveEventLoop, ActiveEventLoopExtWeb, ApplicationHandler, EventRecord,
};
pub use cursor::{
    any_animation, completes, lemma_completion_after_cancel_is_ignored, loaded_fits, outcome_of,
    waiting, BadAnimation, CursorPoll, CursorRequest, CursorRequests, CustomCursor,
    CustomCursorError, CustomCursorExtWeb, CustomCursorFuture, CustomCursorSource,
    PlatformCustomCursorSource,
};
pub use event::{
    event_of, DeviceEvent, DeviceId, Event, HtmlCanvasElement, PendingEvent, StartCause,
    WindowEvent, WindowId,
};
pub use event_loop::{
    at_most_one_wake, coalesce, end_of_tick, exactly_one_wake, lemma_evolves_to_transitive,
    lemma_superseded_token_never_fires, lemma_wake_calls_give_wakes, lemma_wake_ups_coalesce, start_cause, tick_events, wakes,
    EventLoop, EventLoopError, EventLoopExtWeb, EventLoopProxy, PlatformSpecificEventLoopAttributes,
    RunState, ScheduledToken, TickOutcome, WakeReason,
};
pub use strategy::{
    delay_until, delayed_primitive, poll_primitive, poll_primitive_of, primitive_for,
    schedule_next, HostCapabilities, HostPrimitive, PollStrategy, RunMode, WaitUntilStrategy,
};
