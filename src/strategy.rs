use vstd::prelude::*;

verus! {

/// How a request to run again "as soon as possible" is realized by the host.
#[derive(Clone, Copy, Debug, PartialEq, Eq, Structural)]
pub enum PollStrategy {
    /// Queue the next pass in an idle callback; falls back to an immediate timer
    /// where idle callbacks are not available. Subject to host throttling.
    IdleCallback,
    /// Queue the next pass with the prioritized task scheduler; falls back to an
    /// immediate timer where that scheduler is not available. This is the default.
    Scheduler,
}

impl Default for PollStrategy {
    fn default() -> (r: Self)
        ensures
            r == PollStrategy::Scheduler,
    {
        PollStrategy::Scheduler
    }
}

/// How a deadline-based wake-up is realized by the host.
#[derive(Clone, Copy, Debug, PartialEq, Eq, Structural)]
pub enum WaitUntilStrategy {
    /// A delayed task of the prioritized task scheduler (or a plain timer where it
    /// is not available). This is the default.
    Scheduler,
    /// Like `Scheduler`, but the timer runs in a worker so that throttling of the
    /// main context does not defer the wake-up.
    Worker,
}

impl Default for WaitUntilStrategy {
    fn default() -> (r: Self)
        ensures
            r == WaitUntilStrategy::Scheduler,
    {
        WaitUntilStrategy::Scheduler
    }
}

/// The control-flow directive that decides when the loop runs next.
#[derive(Clone, Copy, Debug, PartialEq, Eq, Structural)]
pub enum RunMode {
    /// Run again as soon as possible.
    Poll,
    /// Run again once the monotonic clock reaches this instant (milliseconds).
    WaitUntil(u64),
    /// Stay dormant until an outside wake-up or event arrives.
    Wait,
    /// Tear the loop down with this exit code; terminal.
    ExitRequested(i32),
}

/// The scheduling primitives that the host offers beyond plain timers, probed once.
#[derive(Clone, Copy, Debug, PartialEq, Eq, Structural)]
pub struct HostCapabilities {
    pub idle_callback: bool,
    pub scheduler: bool,
    pub worker: bool,
}

impl Default for HostCapabilities {
    /// Plain timers only.
    fn default() -> (r: Self)
        ensures
            r == (HostCapabilities { idle_callback: false, scheduler: false, worker: false }),
    {
        HostCapabilities { idle_callback: false, scheduler: false, worker: false }
    }
}

/// How the host calls the loop back later: one primitive, or under the worker
/// strategy a delayed task backed by a worker timer of the same delay.
#[derive(Clone, Copy, Debug, PartialEq, Eq, Structural)]
pub enum HostPrimitive {
    /// An idle-time callback.
    IdleCallback,
    /// A task of the prioritized task scheduler, with a delay in milliseconds.
    ScheduledTask { delay: u64 },
    /// A plain timer, with a delay in milliseconds.
    Timeout { delay: u64 },
    /// A task of the prioritized task scheduler and, in addition, a timer run in a
    /// worker that wakes the main context should it be throttled; both with this delay.
    ScheduledTaskAndWorker { delay: u64 },
    /// A plain timer and, in addition, a timer run in a worker that wakes the main
    /// context should it be throttled; both with this delay.
    TimeoutAndWorker { delay: u64 },
}

/// Milliseconds from `now` until `deadline`, or zero once it has passed.
pub open spec fn delay_until(deadline: u64, now: u64) -> u64 {
    if deadline > now {
        (deadline - now) as u64
    } else {
        0
    }
}

/// The primitive that realizes a request to run again as soon as possible.
pub open spec fn poll_primitive(strategy: PollStrategy, caps: HostCapabilities) -> HostPrimitive {
    match strategy {
        PollStrategy::IdleCallback => if caps.idle_callback {
            HostPrimitive::IdleCallback
        } else {
            HostPrimitive::Timeout { delay: 0 }
        },
        PollStrategy::Scheduler => if caps.scheduler {
            HostPrimitive::ScheduledTask { delay: 0 }
        } else {
            HostPrimitive::Timeout { delay: 0 }
        },
    }
}

/// The primitive that realizes a wake-up after `delay` milliseconds.
pub open spec fn delayed_primitive(
    strategy: WaitUntilStrategy,
    caps: HostCapabilities,
    delay: u64,
) -> HostPrimitive {
    if strategy == WaitUntilStrategy::Worker && caps.worker {
        if caps.scheduler {
            HostPrimitive::ScheduledTaskAndWorker { delay }
        } else {
            HostPrimitive::TimeoutAndWorker { delay }
        }
    } else if caps.scheduler {
        HostPrimitive::ScheduledTask { delay }
    } else {
        HostPrimitive::Timeout { delay }
    }
}

/// What `schedule_next` arms for a mode: nothing for `Wait` and for an exit.
pub open spec fn primitive_for(
    mode: RunMode,
    poll: PollStrategy,
    wait: WaitUntilStrategy,
    caps: HostCapabilities,
    now: u64,
) -> Option<HostPrimitive> {
    match mode {
        RunMode::Poll => Some(poll_primitive(poll, caps)),
        RunMode::WaitUntil(deadline) => Some(delayed_primitive(wait, caps, delay_until(deadline, now))),
        RunMode::Wait => None,
        RunMode::ExitRequested(_) => None,
    }
}

/// The primitive for a request to run as soon as possible under `strategy`.
pub fn poll_primitive_of(strategy: PollStrategy, caps: HostCapabilities) -> (r: HostPrimitive)
    ensures
        r == poll_primitive(strategy, caps),
{
    match strategy {
        PollStrategy::IdleCallback => if caps.idle_callback {
            HostPrimitive::IdleCallback
        } else {
            HostPrimitive::Timeout { delay: 0 }
        },
        PollStrategy::Scheduler => if caps.scheduler {
            HostPrimitive::ScheduledTask { delay: 0 }
        } else {
            HostPrimitive::Timeout { delay: 0 }
        },
    }
}

/// Picks the host primitive that calls the loop back for `mode`, with the delay of a
/// deadline computed at this moment from `now`; `None` where nothing is to be armed.
pub fn schedule_next(
    mode: RunMode,
    poll: PollStrategy,
    wait: WaitUntilStrategy,
    caps: HostCapabilities,
    now: u64,
) -> (r: Option<HostPrimitive>)
    ensures
        r == primitive_for(mode, poll, wait, caps, now),
{
    match mode {
        RunMode::Poll => Some(poll_primitive_of(poll, caps)),
        RunMode::WaitUntil(deadline) => {
            let delay: u64 = if deadline > now {
                deadline - now
            } else {
                0
            };
            let worker = match wait {
                WaitUntilStrategy::Worker => caps.worker,
                WaitUntilStrategy::Scheduler => false,
            };
            if worker {
                if caps.scheduler {
                    Some(HostPrimitive::ScheduledTaskAndWorker { delay })
                } else {
                    Some(HostPrimitive::TimeoutAndWorker { delay })
                }
            } else if caps.scheduler {
                Some(HostPrimitive::ScheduledTask { delay })
            } else {
                Some(HostPrimitive::Timeout { delay })
            }
        },
        RunMode::Wait => None,
        RunMode::ExitRequested(_) => None,
    }
}

} // verus!
