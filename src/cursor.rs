use vstd::prelude::*;
use vstd::string::StringExecFns;

use std::collections::HashMap;
use std::time::Duration;

use crate::active::ActiveEventLoop;


verus! {

broadcast use vstd::std_specs::hash::group_hash_axioms;

/// A cursor image made by the loop from a `CustomCursorSource`.
#[derive(Clone, Copy, Debug, PartialEq, Eq, Structural)]
pub struct CustomCursor {
    animation: bool,
}

impl CustomCursor {
    pub closed spec fn spec_is_animation(&self) -> bool {
        self.animation
    }

    /// The cursor that `source` describes.
    pub(crate) fn of_source(source: &CustomCursorSource) -> (r: CustomCursor)
        ensures
            r.spec_is_animation() == source.inner is Animation,
    {
        match source.inner {
            PlatformCustomCursorSource::Url { .. } => CustomCursor { animation: false },
            PlatformCustomCursorSource::Animation { .. } => CustomCursor { animation: true },
        }
    }
}

/// What a cursor is made from.
pub enum PlatformCustomCursorSource {
    /// An image behind a URL, with its hotspot.
    Url { url: String, hotspot_x: u16, hotspot_y: u16 },
    /// Frames shown in turn, each for `duration` divided by their number.
    Animation { duration: Duration, cursors: Vec<CustomCursor> },
}

/// A description of a cursor, turned into a `CustomCursor` by the loop.
pub struct CustomCursorSource {
    pub inner: PlatformCustomCursorSource,
}

/// Why `from_animation` refused its frames.
#[derive(Clone, Copy, Debug, PartialEq, Eq, Structural)]
pub enum BadAnimation {
    /// No cursors were supplied.
    Empty,
    /// A supplied cursor is itself an animation.
    Animation,
}

impl BadAnimation {
    /// The message that describes this error.
    pub fn to_string(&self) -> (r: String)
        ensures
            *self == BadAnimation::Empty ==> r@ == "No cursors supplied"@,
            *self == BadAnimation::Animation ==> r@ == "A supplied cursor is an animtion"@,
    {
        match self {
            BadAnimation::Empty => String::from_str("No cursors supplied"),
            BadAnimation::Animation => String::from_str("A supplied cursor is an animtion"),
        }
    }
}

/// Why loading a cursor asynchronously failed.
#[derive(Clone, Debug, PartialEq, Eq)]
pub enum CustomCursorError {
    /// The intermediate binary buffer could not be made.
    Blob,
    /// The host could not decode the image; its message.
    Decode(String),
}

impl CustomCursorError {
    /// The message that describes this error.
    pub fn to_string(&self) -> (r: String)
        ensures
            *self matches CustomCursorError::Blob ==> r@ == "failed to create `Blob`"@,
            *self matches CustomCursorError::Decode(m) ==> r@ == "failed to decode image: "@ + m@,
    {
        match self {
            CustomCursorError::Blob => String::from_str("failed to create `Blob`"),
            CustomCursorError::Decode(m) => String::from_str("failed to decode image: ").concat(
                m.as_str(),
            ),
        }
    }
}

/// Whether any cursor of `cursors` is an animation.
pub open spec fn any_animation(cursors: Seq<CustomCursor>) -> bool {
    exists|i: int| 0 <= i < cursors.len() && #[trigger] cursors[i].spec_is_animation()
}

/// Web-specific ways to describe cursors.
pub trait CustomCursorExtWeb {
    /// Whether this cursor is an animation.
    fn is_animation(&self) -> bool;

    /// A cursor from the image at `url`, with its hotspot.
    fn from_url(url: String, hotspot_x: u16, hotspot_y: u16) -> CustomCursorSource;

    /// An animated cursor from `cursors`, which may neither be empty nor hold an
    /// animation.
    fn from_animation(duration: Duration, cursors: Vec<CustomCursor>) -> Result<
        CustomCursorSource,
        BadAnimation,
    >;
}

impl CustomCursorExtWeb for CustomCursor {
    fn is_animation(&self) -> (r: bool)
        ensures
            r == self.spec_is_animation(),
    {
        self.animation
    }

    fn from_url(url: String, hotspot_x: u16, hotspot_y: u16) -> (r: CustomCursorSource)
        ensures
            r.inner matches PlatformCustomCursorSource::Url { url: u, hotspot_x: x, hotspot_y: y }
                && u@ == url@ && x == hotspot_x && y == hotspot_y,
    {
        CustomCursorSource { inner: PlatformCustomCursorSource::Url { url, hotspot_x, hotspot_y } }
    }

    fn from_animation(duration: Duration, cursors: Vec<CustomCursor>) -> (r: Result<
        CustomCursorSource,
        BadAnimation,
    >)
        ensures
            cursors@.len() == 0 ==> r matches Err(BadAnimation::Empty),
            cursors@.len() > 0 && any_animation(cursors@) ==> r matches Err(BadAnimation::Animation),
            cursors@.len() > 0 && !any_animation(cursors@) ==> (r matches Ok(s) && s.inner matches PlatformCustomCursorSource::Animation { duration: d, cursors: c }
                && d == duration && c@ == cursors@),
    {
        if cursors.len() == 0 {
            return Err(BadAnimation::Empty);
        }
        let mut i: usize = 0;
        while i < cursors.len()
            invariant
                0 <= i <= cursors@.len(),
                forall|k: int| 0 <= k < i ==> !(#[trigger] cursors@[k].spec_is_animation()),
            decreases cursors@.len() - i,
        {
            if cursors[i].is_animation() {
                return Err(BadAnimation::Animation);
            }
            i = i + 1;
        }
        Ok(CustomCursorSource { inner: PlatformCustomCursorSource::Animation { duration, cursors } })
    }
}

/// What polling a `CustomCursorFuture` gives.
#[derive(Debug, PartialEq, Eq)]
pub enum CursorPoll {
    /// The host has not completed the load yet.
    Pending,
    /// The outcome of the load.
    Ready(Result<CustomCursor, CustomCursorError>),
}

/// One asynchronous cursor load: what is to be loaded, and `None` until the host
/// completes it, then its outcome.
pub struct CursorRequest {
    pub source: CustomCursorSource,
    pub outcome: Option<Result<CustomCursor, CustomCursorError>>,
}

/// The asynchronous cursor loads of a loop that are still of interest, by number.
pub struct CursorRequests {
    next_id: u64,
    slots: HashMap<u64, CursorRequest>,
}

impl View for CursorRequests {
    type V = Map<u64, CursorRequest>;

    closed spec fn view(&self) -> Self::V {
        self.slots@
    }
}

/// Whether request `id` is open and not yet completed.
pub open spec fn waiting(m: Map<u64, CursorRequest>, id: u64) -> bool {
    m.contains_key(id) && m[id].outcome is None
}

/// Whether `o` is what loading `source` gives where the host reported `loaded`: the
/// host's error, or a cursor that is an animation exactly where the source is one.
pub open spec fn loaded_fits(
    o: Result<CustomCursor, CustomCursorError>,
    source: CustomCursorSource,
    loaded: Result<(), CustomCursorError>,
) -> bool {
    match loaded {
        Ok(_) => (o matches Ok(c) && c.spec_is_animation() == source.inner is Animation),
        Err(e) => o == Err::<CustomCursor, CustomCursorError>(e),
    }
}

/// How the host's report `loaded` for request `id` takes the requests from `before`
/// to `after`: only a request still waiting takes it, keeping its source.
pub open spec fn completes(
    before: Map<u64, CursorRequest>,
    after: Map<u64, CursorRequest>,
    id: u64,
    loaded: Result<(), CustomCursorError>,
) -> bool {
    if waiting(before, id) {
        &&& after.contains_key(id)
        &&& after == before.insert(id, after[id])
        &&& after[id].source == before[id].source
        &&& after[id].outcome matches Some(o) && loaded_fits(o, before[id].source, loaded)
    } else {
        after == before
    }
}

/// The outcome that request `id` holds, if it is open and completed.
pub open spec fn outcome_of(m: Map<u64, CursorRequest>, id: u64) -> Option<
    Result<CustomCursor, CustomCursorError>,
> {
    if m.contains_key(id) {
        m[id].outcome
    } else {
        None
    }
}

impl CursorRequests {
    /// Identifiers below this one have been handed out.
    pub closed spec fn spec_next_id(&self) -> u64 {
        self.next_id
    }

    pub closed spec fn wf(&self) -> bool {
        forall|id: u64| #[trigger] self.slots@.contains_key(id) ==> id < self.next_id
    }

    /// The number the next request gets.
    pub fn next_id(&self) -> (r: u64)
        ensures
            r == self.spec_next_id(),
    {
        self.next_id
    }

    /// No requests.
    pub fn new() -> (r: Self)
        ensures
            r@ == Map::<u64, CursorRequest>::empty(),
            r.spec_next_id() == 0,
            r.wf(),
    {
        CursorRequests { next_id: 0, slots: HashMap::new() }
    }

    /// Opens a request to load `source`, waiting for the host; returns its number,
    /// one not in use.
    pub fn open(&mut self, source: CustomCursorSource) -> (r: u64)
        requires
            old(self).spec_next_id() < u64::MAX,
        ensures
            r == old(self).spec_next_id(),
            final(self).spec_next_id() == old(self).spec_next_id() + 1,
            final(self)@ == old(self)@.insert(r, CursorRequest { source, outcome: None }),
            old(self).wf() ==> !old(self)@.contains_key(r) && final(self).wf(),
    {
        let id = self.next_id;
        self.slots.insert(id, CursorRequest { source, outcome: None });
        self.next_id = id + 1;
        id
    }

    /// What request `id` is to load, while it is open.
    pub fn source(&self, id: u64) -> (r: Option<&CustomCursorSource>)
        ensures
            r is Some == self@.contains_key(id),
            r matches Some(s) ==> *s == self@[id].source,
    {
        match self.slots.get(&id) {
            Some(req) => Some(&req.source),
            None => None,
        }
    }

    /// Takes the host's report for request `id` where it still waits, and says
    /// whether it did; the cursor is made from the request's source.
    pub fn complete(&mut self, id: u64, loaded: Result<(), CustomCursorError>) -> (r: bool)
        ensures
            r == waiting(old(self)@, id),
            completes(old(self)@, final(self)@, id, loaded),
            !r ==> *final(self) == *old(self),
            final(self).spec_next_id() == old(self).spec_next_id(),
            old(self).wf() ==> final(self).wf(),
    {
        let waiting = match self.slots.get(&id) {
            Some(req) => matches!(req.outcome, None),
            None => false,
        };
        if waiting {
            match self.slots.remove(&id) {
                Some(req) => {
                    let outcome = match loaded {
                        Ok(()) => Ok(CustomCursor::of_source(&req.source)),
                        Err(e) => Err(e),
                    };
                    self.slots.insert(id, CursorRequest { source: req.source, outcome: Some(outcome) });
                    proof {
                        assert(self.slots@ =~= old(self).slots@.insert(id, self.slots@[id]));
                    }
                },
                None => {},
            }
        }
        waiting
    }

    /// Takes the outcome of request `id`, closing it, once it is completed.
    pub fn take(&mut self, id: u64) -> (r: CursorPoll)
        ensures
            final(self).spec_next_id() == old(self).spec_next_id(),
            old(self).wf() ==> final(self).wf(),
            match outcome_of(old(self)@, id) {
                Some(o) => r == CursorPoll::Ready(o) && final(self)@ == old(self)@.remove(id),
                None => r == CursorPoll::Pending && final(self)@ == old(self)@,
            },
    {
        let ready = match self.slots.get(&id) {
            Some(req) => matches!(req.outcome, Some(_)),
            None => false,
        };
        if ready {
            match self.slots.remove(&id) {
                Some(req) => match req.outcome {
                    Some(o) => CursorPoll::Ready(o),
                    None => CursorPoll::Pending,
                },
                None => CursorPoll::Pending,
            }
        } else {
            CursorPoll::Pending
        }
    }

    /// Closes request `id`, whatever its state.
    pub fn close(&mut self, id: u64)
        ensures
            final(self)@ == old(self)@.remove(id),
            final(self).spec_next_id() == old(self).spec_next_id(),
            old(self).wf() ==> final(self).wf(),
    {
        self.slots.remove(&id);
    }
}

/// A cursor being loaded by the host; polled through the loop that requested it.
/// Dropping the future without `cancel` leaves its request open for good.
pub struct CustomCursorFuture {
    id: u64,
}

impl CustomCursorFuture {
    pub closed spec fn spec_id(&self) -> u64 {
        self.id
    }

    pub(crate) fn for_request(id: u64) -> (r: CustomCursorFuture)
        ensures
            r.spec_id() == id,
    {
        CustomCursorFuture { id }
    }

    /// The request this future waits on; the host completes it under this number.
    pub fn id(&self) -> (r: u64)
        ensures
            r == self.spec_id(),
    {
        self.id
    }

    /// The outcome once the host has completed the load, which closes the request;
    /// `Pending` before, and for a request closed already.
    pub fn poll(&self, event_loop: &mut ActiveEventLoop) -> (r: CursorPoll)
        ensures
            final(event_loop).spec_cursor_requests().spec_next_id() == old(event_loop).spec_cursor_requests().spec_next_id(),
            old(event_loop).spec_cursor_requests().wf() ==> final(event_loop).spec_cursor_requests().wf(),
            match outcome_of(old(event_loop).spec_cursor_requests()@, self.spec_id()) {
                Some(o) => r == CursorPoll::Ready(o) && final(event_loop).spec_cursor_requests()@
                    == old(event_loop).spec_cursor_requests()@.remove(self.spec_id()),
                None => r == CursorPoll::Pending && final(event_loop).spec_cursor_requests()@
                    == old(event_loop).spec_cursor_requests()@,
            },
    {
        event_loop.take_custom_cursor(self.id)
    }

    /// Gives the request up, which dropping the future does not do; a later
    /// completion by the host then finds nothing to fill and wakes nothing.
    pub fn cancel(self, event_loop: &mut ActiveEventLoop)
        ensures
            final(event_loop).spec_cursor_requests()@ == old(event_loop).spec_cursor_requests()@.remove(self.spec_id()),
            final(event_loop).spec_cursor_requests().spec_next_id() == old(event_loop).spec_cursor_requests().spec_next_id(),
            old(event_loop).spec_cursor_requests().wf() ==> final(event_loop).spec_cursor_requests().wf(),
    {
        event_loop.close_custom_cursor(self.id);
    }
}

/// A completion by the host for a request that was given up fills nothing and
/// leaves the open requests as they are.
pub proof fn lemma_completion_after_cancel_is_ignored(
    m: Map<u64, CursorRequest>,
    id: u64,
    loaded: Result<(), CustomCursorError>,
    after: Map<u64, CursorRequest>,
)
    requires
        completes(m.remove(id), after, id, loaded),
    ensures
        !waiting(m.remove(id), id),
        after == m.remove(id),
        outcome_of(after, id) is None,
{
}

} // verus!
