use vstd::prelude::*;

verus! {

/// The canvas element that backs a window, carried as an opaque handle.
#[derive(Clone, Copy, Debug, PartialEq, Eq, Structural)]
pub struct HtmlCanvasElement;

/// Identifies a window of the application.
#[derive(Clone, Copy, Debug, PartialEq, Eq, Structural)]
pub struct WindowId(pub u64);

/// Identifies an input device.
#[derive(Clone, Copy, Debug, PartialEq, Eq, Structural)]
pub struct DeviceId(pub u64);

/// A window occurrence, as produced by the input layer.
#[derive(Clone, Copy, Debug, PartialEq, Eq, Structural)]
pub enum WindowEvent {
    CloseRequested,
    RedrawRequested,
    Focused(bool),
    Resized { width: u32, height: u32 },
}

/// A device occurrence, as produced by the input layer.
#[derive(Clone, Copy, Debug, PartialEq, Eq, Structural)]
pub enum DeviceEvent {
    Added,
    Removed,
    MouseMotion { dx: i32, dy: i32 },
}

/// Why a pass of the loop started.
#[derive(Clone, Copy, Debug, PartialEq, Eq, Structural)]
pub enum StartCause {
    /// The first pass after the loop was started.
    Init,
    /// The loop runs in poll mode.
    Poll,
    /// A wait was cut short by an event or a wake-up.
    WaitCancelled,
    /// The deadline of a wait was reached.
    ResumeTimeReached,
}

/// An occurrence that arrives from outside the loop and waits in its queue.
#[derive(Clone, Copy, Debug, PartialEq, Eq, Structural)]
pub enum PendingEvent {
    Window { window_id: WindowId, event: WindowEvent },
    Device { device_id: DeviceId, event: DeviceEvent },
    UserWakeUp,
    Suspended,
    Resumed,
    MemoryWarning,
}

/// Everything the application handler observes.
#[derive(Clone, Copy, Debug, PartialEq, Eq, Structural)]
pub enum Event {
    NewEvents(StartCause),
    Window { window_id: WindowId, event: WindowEvent },
    Device { device_id: DeviceId, event: DeviceEvent },
    UserWakeUp,
    Suspended,
    Resumed,
    AboutToWait,
    LoopExiting,
    MemoryWarning,
}

/// The event that a queued occurrence is dispatched as.
pub open spec fn event_of(p: PendingEvent) -> Event {
    match p {
        PendingEvent::Window { window_id, event } => Event::Window { window_id, event },
        PendingEvent::Device { device_id, event } => Event::Device { device_id, event },
        PendingEvent::UserWakeUp => Event::UserWakeUp,
        PendingEvent::Suspended => Event::Suspended,
        PendingEvent::Resumed => Event::Resumed,
        PendingEvent::MemoryWarning => Event::MemoryWarning,
    }
}

impl PendingEvent {
    /// The event this occurrence is dispatched as.
    pub fn to_event(&self) -> (r: Event)
        ensures
            r == event_of(*self),
    {
        match *self {
            PendingEvent::Window { window_id, event } => Event::Window { window_id, event },
            PendingEvent::Device { device_id, event } => Event::Device { device_id, event },
            PendingEvent::UserWakeUp => Event::UserWakeUp,
            PendingEvent::Suspended => Event::Suspended,
            PendingEvent::Resumed => Event::Resumed,
            PendingEvent::MemoryWarning => Event::MemoryWarning,
        }
    }
}

} // verus!
