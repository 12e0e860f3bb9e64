//! Asymmetric coroutines driven by hand. A coroutine is an `async` function that talks to the outside world
//! through a portal; a [`Driver`] advances it and hands out the portal's events and, at the end, the
//! coroutine's result.

use vstd::prelude::*;
use std::future::Future;
use crate::portal::{PortalBack, PortalFront};
use crate::task::FutureSlot;

pub mod builder;
mod cell;
pub mod portal;
mod task;

verus! {

/// What a poll of a [`Driver`] reports.
#[derive(Debug, PartialEq, Eq, PartialOrd, Ord, Hash)]
pub enum CoroPoll<Evt, Res> {
    /// An event of the portal.
    Event(Evt),
    /// The result of the coroutine.
    Result(Res),
}

/// Why a poll of a [`Driver`] reports neither an event nor a result.
#[derive(Debug, PartialEq, Eq, Clone, Copy)]
pub enum PollError {
    /// The coroutine did not complete and its portal has no event: polling again would change nothing.
    Stalled,
    /// The coroutine has finished and its result has been handed out already.
    Finished,
}

/// The progress of a driver's coroutine.
pub enum CoroState<Res> {
    /// The coroutine has not completed.
    InProgress,
    /// The coroutine has completed; its result waits until the portal's events are handed out.
    Ready(Res),
    /// The result has been handed out.
    Finished,
}

/// What a driver does after it has polled the coroutine: `outcome` is the coroutine's result if it
/// completed, `event` what the portal reported after that poll. A pending event goes out first; a result
/// goes out once the portal is quiet; with neither, the coroutine is stalled.
pub open spec fn settled<Evt, Res>(outcome: Option<Res>, event: Option<Evt>) -> (
    CoroState<Res>,
    Result<CoroPoll<Evt, Res>, PollError>,
) {
    match (outcome, event) {
        (None, Some(e)) => (CoroState::InProgress, Ok(CoroPoll::Event(e))),
        (None, None) => (CoroState::InProgress, Err(PollError::Stalled)),
        (Some(x), Some(e)) => (CoroState::Ready(x), Ok(CoroPoll::Event(e))),
        (Some(x), None) => (CoroState::Finished, Ok(CoroPoll::Result(x))),
    }
}

/// Computes [`settled`]: the next state and the report of a driver after it has polled the coroutine.
pub fn settle<Evt, Res>(outcome: Option<Res>, event: Option<Evt>) -> (r: (
    CoroState<Res>,
    Result<CoroPoll<Evt, Res>, PollError>,
))
    ensures
        r == settled(outcome, event),
{
    match (outcome, event) {
        (None, Some(e)) => (CoroState::InProgress, Ok(CoroPoll::Event(e))),
        (None, None) => (CoroState::InProgress, Err(PollError::Stalled)),
        (Some(x), Some(e)) => (CoroState::Ready(x), Ok(CoroPoll::Event(e))),
        (Some(x), None) => (CoroState::Finished, Ok(CoroPoll::Result(x))),
    }
}

/// What holds of one poll of a driver, whatever its portal and its coroutine do: an event leaves the
/// state as it was, or records a result that arrived together with it; a result is handed out once, and
/// it is the one that was recorded; a stall happens only while the coroutine is in progress; a finished
/// driver has nothing more to hand out than its portal's events.
pub open spec fn poll_outcome<Evt, Res>(
    before: CoroState<Res>,
    after: CoroState<Res>,
    r: Result<CoroPoll<Evt, Res>, PollError>,
) -> bool {
    match r {
        Ok(CoroPoll::Event(_)) => after == before || (before is InProgress && after is Ready),
        Ok(CoroPoll::Result(x)) => after is Finished && (before is InProgress || before == CoroState::Ready(x)),
        Err(PollError::Stalled) => before is InProgress && after is InProgress,
        Err(PollError::Finished) => before is Finished && after is Finished,
    }
}

/// Once a driver has recorded a result, the next poll hands out a pending event and keeps the result, or
/// hands out that very result and finishes; it never stalls.
pub proof fn law_recorded_result_is_handed_out<Evt, Res>(
    x: Res,
    after: CoroState<Res>,
    r: Result<CoroPoll<Evt, Res>, PollError>,
)
    requires
        poll_outcome(CoroState::Ready(x), after, r),
    ensures
        r is Ok,
        r matches Ok(CoroPoll::Result(y)) ==> y == x && after is Finished,
        r matches Ok(CoroPoll::Event(_)) ==> after == CoroState::Ready(x),
{
}

/// An event that the portal reports together with the coroutine's completion goes out first; the result
/// goes out only from a quiet portal.
pub proof fn law_events_before_result<Evt, Res>(x: Res, e: Evt)
    ensures
        settled(Some(x), Some(e)) == (CoroState::Ready(x), Ok::<CoroPoll<Evt, Res>, PollError>(CoroPoll::Event(e))),
        settled::<Evt, Res>(Some(x), None) == (CoroState::<Res>::Finished, Ok::<CoroPoll<Evt, Res>, PollError>(CoroPoll::Result(x))),
{
}

/// The memory of a coroutine: the front of its portal and its future, until the future completes.
#[verifier::reject_recursive_types(Fut)]
pub struct Storage<Fr, Fut> {
    front: Fr,
    future: Option<FutureSlot<Fut>>,
}

impl<Fr, Fut> Storage<Fr, Fut> {
    /// The front of the portal.
    pub closed spec fn portal_front(&self) -> Fr {
        self.front
    }

    /// The future that the storage holds: the one it was supplied with, until that has completed.
    pub closed spec fn stored_future(&self) -> Option<Fut> {
        match self.future {
            Some(slot) => Some(slot.origin()),
            None => None,
        }
    }

    /// How often the stored future has been polled.
    pub closed spec fn future_polls(&self) -> nat {
        match self.future {
            Some(slot) => slot.polls(),
            None => 0,
        }
    }

    /// Whether the storage holds a future that has not completed.
    pub open spec fn has_future(&self) -> bool {
        self.stored_future() is Some
    }

    /// The same future, polled as often.
    pub open spec fn same_future(&self, other: &Self) -> bool {
        self.stored_future() == other.stored_future() && self.future_polls() == other.future_polls()
    }

    /// Creates a storage with the portal front `front` and no future yet.
    pub fn new(front: Fr) -> (s: Self)
        ensures
            s.portal_front() == front,
            !s.has_future(),
    {
        Storage { front, future: None }
    }

    /// Replaces the portal front by `front`.
    pub fn supply_front(&mut self, front: Fr)
        ensures
            final(self).portal_front() == front,
            final(self).same_future(old(self)),
    {
        self.front = front;
    }

    /// Stores the coroutine's future; it has not been polled yet.
    pub fn supply_future(&mut self, future: Fut)
        ensures
            final(self).portal_front() == old(self).portal_front(),
            final(self).stored_future() == Some(future),
            final(self).future_polls() == 0,
    {
        self.future = Some(FutureSlot::new(future));
    }

    /// The front of the portal, to be changed in place.
    pub fn front_mut(&mut self) -> (f: &mut Fr)
        ensures
            *f == old(self).portal_front(),
            final(self).portal_front() == *final(f),
            final(self).same_future(old(self)),
    {
        &mut self.front
    }
}

impl<Fr: Default, Fut> Default for Storage<Fr, Fut> {
    fn default() -> (s: Self)
        ensures
            !s.has_future(),
    {
        Storage::new(Fr::default())
    }
}

/// Access to a [`Storage`] that a driver holds, on the heap or elsewhere.
pub trait AsStorage {
    type Front: PortalFront;
    type Future: Future;

    /// The storage that this handle gives access to.
    spec fn storage(&self) -> Storage<Self::Front, Self::Future>;

    /// The storage, to be changed in place.
    fn as_storage(&mut self) -> (s: &mut Storage<Self::Front, Self::Future>)
        ensures
            *s == old(self).storage(),
            final(self).storage() == *final(s),
    ;
}

impl<Fr: PortalFront, Fut: Future> AsStorage for Box<Storage<Fr, Fut>> {
    type Front = Fr;
    type Future = Fut;

    open spec fn storage(&self) -> Storage<Fr, Fut> {
        **self
    }

    fn as_storage(&mut self) -> (s: &mut Storage<Fr, Fut>) {
        &mut **self
    }
}

impl<'a, Fr: PortalFront, Fut: Future> AsStorage for &'a mut Storage<Fr, Fut> {
    type Front = Fr;
    type Future = Fut;

    open spec fn storage(&self) -> Storage<Fr, Fut> {
        **self
    }

    fn as_storage(&mut self) -> (s: &mut Storage<Fr, Fut>) {
        &mut **self
    }
}

/// The front after a poll that left the driver in `state`: closed once the driver has finished.
pub open spec fn finishing_front<Fr: PortalFront, Res>(front: Fr, state: CoroState<Res>) -> Fr {
    if state is Finished { front.closed_front() } else { front }
}

/// What one poll of a driver does, whatever the coroutine does while it runs. The front stays a front of
/// the same portal, and:
/// - an event that the portal has pending goes out first, and the poll changes nothing else;
/// - else a recorded result goes out, the driver finishes and the portal is closed;
/// - else, while the coroutine is in progress, the stored future, if there is one, is polled exactly
///   once, and leaves the storage if it completes; the driver settles on its outcome and on the event
///   that the portal, as the coroutine handed it back, has pending; that event is consumed, and the portal
///   is closed if the driver finishes;
/// - else the driver has finished, and the poll reports so.
pub open spec fn polled_driver<St: AsStorage>(
    before: Driver<St>,
    after: Driver<St>,
    r: Result<CoroPoll<<St::Front as PortalFront>::Event, <St::Future as Future>::Output>, PollError>,
) -> bool {
    let front = before.storage_view().portal_front();
    &&& poll_outcome(before.coro_state(), after.coro_state(), r)
    &&& after.storage_view().portal_front().same_portal(front)
    &&& match front.pending_event() {
        Some(e) => {
            &&& r == Ok::<CoroPoll<<St::Front as PortalFront>::Event, <St::Future as Future>::Output>, PollError>(CoroPoll::Event(e))
            &&& after.coro_state() == before.coro_state()
            &&& after.storage_view().portal_front() == front.polled()
            &&& after.storage_view().same_future(&before.storage_view())
        },
        None => match before.coro_state() {
            CoroState::Ready(x) => {
                &&& r == Ok::<CoroPoll<<St::Front as PortalFront>::Event, <St::Future as Future>::Output>, PollError>(CoroPoll::Result(x))
                &&& after.storage_view().portal_front() == front.polled().closed_front()
                &&& after.storage_view().same_future(&before.storage_view())
            },
            CoroState::InProgress => exists|handed_back: St::Front, outcome: Option<<St::Future as Future>::Output>|
                #![trigger settled(outcome, handed_back.pending_event())]
                {
                    &&& settled(outcome, handed_back.pending_event()) == (after.coro_state(), r)
                    &&& after.storage_view().portal_front() == finishing_front(handed_back.polled(), after.coro_state())
                    &&& if before.storage_view().has_future() {
                        &&& (outcome is Some) == !after.storage_view().has_future()
                        &&& outcome is None ==> {
                            &&& after.storage_view().stored_future() == before.storage_view().stored_future()
                            &&& after.storage_view().future_polls() == before.storage_view().future_polls() + 1
                        }
                    } else {
                        outcome is None && !after.storage_view().has_future()
                    }
                },
            CoroState::Finished => {
                &&& r == Err::<CoroPoll<<St::Front as PortalFront>::Event, <St::Future as Future>::Output>, PollError>(PollError::Finished)
                &&& after.storage_view().portal_front() == front.polled()
                &&& after.storage_view().same_future(&before.storage_view())
            },
        },
    }
}

/// A coroutine's back side reaches the portal that its driver polls, before and after every poll.
pub proof fn law_coroutine_keeps_its_portal<St: AsStorage, Bk: PortalBack<Front = St::Front>>(
    back: Bk,
    before: Driver<St>,
    after: Driver<St>,
    r: Result<CoroPoll<<St::Front as PortalFront>::Event, <St::Future as Future>::Output>, PollError>,
)
    requires
        back.bound_to(before.storage_view().portal_front()),
        polled_driver(before, after, r),
    ensures
        back.bound_to(after.storage_view().portal_front()),
{
    Bk::bound_to_same_portal(back, before.storage_view().portal_front(), after.storage_view().portal_front());
}

/// Across successive polls, events come before the result: a poll that records a result hands out an
/// event; the next poll hands out the event that the portal still has pending, keeping the result, or,
/// from a quiet portal, the recorded result itself.
pub proof fn law_result_after_pending_events<St: AsStorage>(
    d0: Driver<St>,
    d1: Driver<St>,
    d2: Driver<St>,
    r0: Result<CoroPoll<<St::Front as PortalFront>::Event, <St::Future as Future>::Output>, PollError>,
    r1: Result<CoroPoll<<St::Front as PortalFront>::Event, <St::Future as Future>::Output>, PollError>,
    x: <St::Future as Future>::Output,
)
    requires
        polled_driver(d0, d1, r0),
        d1.coro_state() == CoroState::Ready(x),
        polled_driver(d1, d2, r1),
    ensures
        r0 matches Ok(CoroPoll::Event(_)),
        d1.storage_view().portal_front().pending_event() matches Some(e) ==> {
            &&& r1 == Ok::<CoroPoll<<St::Front as PortalFront>::Event, <St::Future as Future>::Output>, PollError>(CoroPoll::Event(e))
            &&& d2.coro_state() == CoroState::Ready(x)
        },
        d1.storage_view().portal_front().pending_event() is None ==> {
            &&& r1 == Ok::<CoroPoll<<St::Front as PortalFront>::Event, <St::Future as Future>::Output>, PollError>(CoroPoll::Result(x))
            &&& d2.coro_state() is Finished
        },
{
}

/// A storage whose future `create_future` made, unpolled, from a back side bound to the storage's front.
pub open spec fn made_by<Fr, Fut, Bk: PortalBack<Front = Fr>, F: FnOnce(Bk) -> Fut>(
    storage: Storage<Fr, Fut>,
    create_future: F,
) -> bool {
    &&& storage.future_polls() == 0
    &&& exists|back: Bk, future: Fut|
        #![trigger create_future.ensures((back,), future)]
        {
            &&& back.bound_to(storage.portal_front())
            &&& create_future.ensures((back,), future)
            &&& storage.stored_future() == Some(future)
        }
}

/// A coroutine driver: it advances the coroutine and hands out the events of its portal and, at the end,
/// the coroutine's result.
#[verifier::reject_recursive_types(St)]
pub struct Driver<St: AsStorage> {
    storage: St,
    state: CoroState<<St::Future as Future>::Output>,
}

/// Creates a driver for the coroutine that `create_future` makes from the back of the portal whose front
/// is in `storage`.
fn new_driver<St, Bk, F>(mut storage: St, create_future: F) -> (d: Driver<St>)
    where
        St: AsStorage<Front = Bk::Front>,
        Bk: PortalBack,
        F: FnOnce(Bk) -> St::Future,
    requires
        forall|back: Bk| create_future.requires((back,)),
    ensures
        d.coro_state() is InProgress,
        d.storage_view().portal_front() == storage.storage().portal_front(),
        made_by::<Bk::Front, St::Future, Bk, F>(d.storage_view(), create_future),
{
    let back = Bk::new(storage.as_storage().front_mut());
    let future = create_future(back);
    storage.as_storage().supply_future(future);
    assert(create_future.ensures((back,), future));
    Driver { storage, state: CoroState::InProgress }
}

/// Creates a driver, with its storage on the heap, for the coroutine that `create_future` makes from the
/// back of a new portal whose front is the default one.
pub fn driver<Bk, Fut, F>(create_future: F) -> (d: Driver<Box<Storage<Bk::Front, Fut>>>)
    where
        Bk: PortalBack,
        Bk::Front: Default,
        Fut: Future,
        F: FnOnce(Bk) -> Fut,
    requires
        forall|back: Bk| create_future.requires((back,)),
    ensures
        d.coro_state() is InProgress,
        call_ensures(Bk::Front::default, (), d.storage_view().portal_front()),
        made_by::<Bk::Front, Fut, Bk, F>(d.storage_view(), create_future),
{
    let storage = Box::new(Storage::new(Bk::Front::default()));
    driver_with_storage(storage, create_future)
}

/// Creates a driver with the given storage for the coroutine that `create_future` makes from the back of
/// the portal whose front is in the storage.
pub fn driver_with_storage<St, Fut, Bk, F>(storage: St, create_future: F) -> (d: Driver<St>)
    where
        St: AsStorage<Front = Bk::Front, Future = Fut>,
        Fut: Future,
        Bk: PortalBack,
        F: FnOnce(Bk) -> Fut,
    requires
        forall|back: Bk| create_future.requires((back,)),
    ensures
        d.coro_state() is InProgress,
        d.storage_view().portal_front() == storage.storage().portal_front(),
        made_by::<Bk::Front, Fut, Bk, F>(d.storage_view(), create_future),
{
    new_driver(storage, create_future)
}

impl<St: AsStorage> Driver<St> {
    /// The progress of the coroutine.
    pub closed spec fn coro_state(&self) -> CoroState<<St::Future as Future>::Output> {
        self.state
    }

    /// The storage of the coroutine.
    pub closed spec fn storage_view(&self) -> Storage<St::Front, St::Future> {
        self.storage.storage()
    }

    /// Creates a driver for a storage whose future has been supplied.
    pub fn new(storage: St) -> (d: Self)
        requires
            storage.storage().has_future(),
        ensures
            d.coro_state() is InProgress,
            d.storage_view() == storage.storage(),
    {
        Driver { storage, state: CoroState::InProgress }
    }

    /// Whether the result of the coroutine has been handed out.
    pub fn is_finished(&self) -> (b: bool)
        ensures
            b == (self.coro_state() is Finished),
    {
        match self.state {
            CoroState::Finished => true,
            _ => false,
        }
    }

    /// The front of the portal.
    pub fn portal(&mut self) -> (p: &mut St::Front)
        ensures
            *p == old(self).storage_view().portal_front(),
            final(self).storage_view().portal_front() == *final(p),
            final(self).storage_view().same_future(&old(self).storage_view()),
            final(self).coro_state() == old(self).coro_state(),
    {
        self.storage.as_storage().front_mut()
    }

    /// Polls the driver: reports an event of the portal if it has one; else advances the coroutine and
    /// reports the event that this brings, or the coroutine's result once the portal is quiet, and then
    /// closes the portal. A driver that has handed out its result reports `PollError::Finished`.
    pub fn poll(&mut self) -> (r: Result<
        CoroPoll<<St::Front as PortalFront>::Event, <St::Future as Future>::Output>,
        PollError,
    >)
        ensures
            polled_driver(*old(self), *final(self), r),
    {
        let ghost start = self.storage.storage().portal_front();
        if let Some(event) = self.storage.as_storage().front_mut().poll() {
            return Ok(CoroPoll::Event(event));
        }
        let ghost quiet = self.storage.storage().portal_front();
        let mut state = CoroState::Finished;
        std::mem::swap(&mut self.state, &mut state);
        match state {
            CoroState::InProgress => {
                let storage = self.storage.as_storage();
                let mut slot = None;
                std::mem::swap(&mut storage.future, &mut slot);
                storage.front.lend();
                let ghost lent = storage.front;
                let outcome = match slot {
                    Some(slot) => match slot.poll() {
                        Ok(value) => Some(value),
                        Err(slot) => {
                            storage.future = Some(slot);
                            None
                        },
                    },
                    None => None,
                };
                storage.front.reclaim();
                let ghost handed_back = storage.front;
                let event = storage.front.poll();
                let (next, report) = settle(outcome, event);
                let finished = match next {
                    CoroState::Finished => true,
                    _ => false,
                };
                let ghost polled_back = storage.front;
                if finished {
                    storage.front.close();
                }
                proof {
                    St::Front::same_portal_transitive(handed_back, lent, quiet);
                    St::Front::same_portal_transitive(polled_back, handed_back, quiet);
                    if finished {
                        St::Front::same_portal_transitive(storage.front, polled_back, quiet);
                    }
                    St::Front::same_portal_transitive(storage.front, quiet, start);
                }
                self.state = next;
                assert(settled(outcome, handed_back.pending_event()) == (next, report));
                report
            },
            CoroState::Ready(result) => {
                let storage = self.storage.as_storage();
                storage.front.close();
                proof {
                    St::Front::same_portal_transitive(storage.front, quiet, start);
                }
                Ok(CoroPoll::Result(result))
            },
            CoroState::Finished => Err(PollError::Finished),
        }
    }
}

} // verus!
