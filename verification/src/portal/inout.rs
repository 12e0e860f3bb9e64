//! A portal that carries input events into the coroutine and output events out of it.

use vstd::prelude::*;
use std::future::Future;
use std::rc::Rc;
use crate::{polled_driver, AsStorage, CoroPoll, Driver, PollError};
use crate::cell::OptimizedRefCell;
use crate::portal::{PortalBack, PortalFront, PortalState};
use crate::task::{future_from, share};
use crate::portal::input::{InState, InEvent, InputSide, ProvideError, ReceiveFuture};
use crate::portal::output::{OutState, OutEvent, OutputSide, SendFuture};

verus! {

/// The event that an input-and-output portal reports.
#[derive(Debug, PartialEq, Eq, PartialOrd, Ord, Hash)]
pub enum InOutEvent<O> {
    /// The back side awaits a value.
    Awaiting,
    /// The back side has yielded a value.
    Yielded(O),
}

/// The state of an input-and-output portal: one input state and one output state.
pub struct InOutState<I, O> {
    pub input: InState<I>,
    pub output: OutState<O>,
}

impl<I, O> InOutState<I, O> {
    /// The event that a poll of the front reports: a yielded value comes before an await.
    pub open spec fn front_event(self) -> Option<InOutEvent<O>> {
        match self.output.front_event() {
            Some(OutEvent::Yielded(v)) => Some(InOutEvent::Yielded(v)),
            None => match self.input.front_event() {
                Some(InEvent::Awaiting) => Some(InOutEvent::Awaiting),
                None => None,
            },
        }
    }

    /// The state after a poll of the front: only the side that reported an event changes.
    pub open spec fn after_front_poll(self) -> InOutState<I, O> {
        if self.output.front_event() is Some {
            InOutState { input: self.input, output: self.output.after_front_poll() }
        } else {
            InOutState { input: self.input.after_front_poll(), output: self.output }
        }
    }

    /// Polls the front, reporting output before input.
    pub fn poll_front(&mut self) -> (r: Option<InOutEvent<O>>)
        ensures
            r == old(self).front_event(),
            *final(self) == old(self).after_front_poll(),
    {
        if let Some(event) = self.output.poll_front() {
            return match event {
                OutEvent::Yielded(value) => Some(InOutEvent::Yielded(value)),
            };
        }
        if let Some(event) = self.input.poll_front() {
            return match event {
                InEvent::Awaiting => Some(InOutEvent::Awaiting),
            };
        }
        None
    }

    /// Hands `event` in from the front.
    pub fn provide(&mut self, event: I) -> (r: Result<(), ProvideError>)
        ensures
            r == old(self).input.provide_outcome(),
            final(self).input == old(self).input.after_provide(event),
            final(self).output == old(self).output,
    {
        self.input.provide(event)
    }
}

/// A yielded value is reported before an await, and reporting it leaves the input side as it was.
pub proof fn law_yield_before_await<I, O>(s: InOutState<I, O>, v: O)
    requires
        s.output == OutState::Yielded(v),
    ensures
        s.front_event() == Some(InOutEvent::Yielded(v)),
        s.after_front_poll().input == s.input,
        s.after_front_poll().output == OutState::<O>::Neutral,
{
}

/// Polls of the front consume what they report: after at most two polls, a poll reports nothing.
pub proof fn law_front_polls_drain<I, O>(s: InOutState<I, O>)
    ensures
        s.after_front_poll().after_front_poll().front_event() is None,
{
}

/// A value that is yielded while the coroutine also awaits input comes out first, then the await.
pub proof fn law_yield_then_await<I, O>(v: O)
    ensures
        ({
            let s = InOutState { input: InState::<I>::AwaitingSignalled, output: OutState::Yielded(v) };
            &&& s.front_event() == Some(InOutEvent::Yielded(v))
            &&& s.after_front_poll().front_event() == Some(InOutEvent::<O>::Awaiting)
            &&& s.after_front_poll().after_front_poll().front_event() is None
        }),
{
}

impl<I, O> PortalState for InOutState<I, O> {
    fn closed() -> (s: Self)
        ensures
            s.input is Closed,
            s.output is Closed,
    {
        InOutState { input: InState::Closed, output: OutState::Closed }
    }
}

impl<I, O> InputSide for InOutState<I, O> {
    type Item = I;

    fn start_receive(&mut self) -> (accepted: bool)
        ensures
            accepted == old(self).input.accepts_receive(),
            final(self).input == old(self).input.after_begin_receive(),
            final(self).output == old(self).output,
    {
        self.input.begin_receive()
    }

    fn take_input(&mut self) -> (r: Option<I>)
        ensures
            r == old(self).input.received(),
            final(self).input == old(self).input.after_poll_receive(),
            final(self).output == old(self).output,
    {
        self.input.poll_receive()
    }
}

impl<I, O> OutputSide for InOutState<I, O> {
    type Item = O;

    fn start_send(&mut self, event: O) -> (accepted: bool)
        ensures
            accepted == old(self).output.accepts_send(),
            final(self).output == old(self).output.after_begin_send(event),
            final(self).input == old(self).input,
    {
        self.output.begin_send(event)
    }

    fn output_taken(&self) -> (done: bool)
        ensures
            done == self.output.send_complete(),
    {
        self.output.is_send_complete()
    }
}

/// The front side of an input-and-output portal. It keeps the portal's state and shares a link with the
/// back side, through which the state is lent while the coroutine runs.
pub struct InOutFront<I, O> {
    state: InOutState<I, O>,
    link: Rc<OptimizedRefCell<Option<InOutState<I, O>>>>,
}

impl<I, O> View for InOutFront<I, O> {
    type V = InOutState<I, O>;

    closed spec fn view(&self) -> InOutState<I, O> {
        self.state
    }
}

impl<I, O> InOutFront<I, O> {
    /// The link that the front shares with its back sides.
    pub closed spec fn link(&self) -> Rc<OptimizedRefCell<Option<InOutState<I, O>>>> {
        self.link
    }

    /// Whether the portal accepts a value now: nothing is pending, or the await has been reported.
    pub fn accepts_input(&self) -> (b: bool)
        ensures
            b == self@.input.accepts_input(),
    {
        self.state.input.accepts()
    }

    /// Hands `event` in to the coroutine. The portal must accept it (see [`accepts_input`](Self::accepts_input)):
    /// not while an earlier value has not been taken, while an await has not been reported yet, or once the
    /// portal is closed.
    pub fn provide(&mut self, event: I)
        requires
            old(self)@.input.accepts_input(),
        ensures
            final(self)@.input == InState::FrontProvided(event),
            final(self)@.output == old(self)@.output,
            final(self).link() == old(self).link(),
    {
        let _ = self.state.provide(event);
    }
}

impl<I, O> PortalFront for InOutFront<I, O> {
    type Event = InOutEvent<O>;

    open spec fn pending_event(&self) -> Option<InOutEvent<O>> {
        self@.front_event()
    }

    open spec fn same_portal(&self, other: Self) -> bool {
        self.link() == other.link()
    }

    proof fn same_portal_transitive(a: Self, b: Self, c: Self) {
    }

    closed spec fn polled(&self) -> Self {
        InOutFront { state: self.state.after_front_poll(), link: self.link }
    }

    fn poll(&mut self) -> (r: Option<InOutEvent<O>>)
        ensures
            final(self)@ == old(self)@.after_front_poll(),
            final(self).link() == old(self).link(),
    {
        self.state.poll_front()
    }

    fn lend(&mut self)
        ensures
            final(self).link() == old(self).link(),
    {
        let mut lent = InOutState::closed();
        std::mem::swap(&mut self.state, &mut lent);
        self.link.replace(Some(lent));
    }

    fn reclaim(&mut self)
        ensures
            final(self).link() == old(self).link(),
    {
        if let Some(state) = self.link.replace(None) {
            self.state = state;
        }
    }

    closed spec fn closed_front(&self) -> Self {
        InOutFront { state: InOutState { input: InState::Closed, output: OutState::Closed }, link: self.link }
    }

    fn close(&mut self)
        ensures
            final(self)@.input == InState::<I>::Closed,
            final(self)@.output == OutState::<O>::Closed,
            final(self).link() == old(self).link(),
    {
        self.state = InOutState { input: InState::Closed, output: OutState::Closed };
    }
}

/// A poll of the front consumes its event and keeps the link; closing it closes both sides and keeps
/// the link.
pub proof fn lemma_front_transitions<I, O>(front: InOutFront<I, O>)
    ensures
        front.polled()@ == front@.after_front_poll(),
        front.polled().link() == front.link(),
        front.closed_front()@.input == InState::<I>::Closed,
        front.closed_front()@.output == OutState::<O>::Closed,
        front.closed_front().link() == front.link(),
{
}

impl<I, O> Default for InOutFront<I, O> {
    fn default() -> (f: Self)
        ensures
            f@.input == InState::<I>::Neutral,
            f@.output == OutState::<O>::Neutral,
    {
        let state = InOutState { input: InState::Neutral, output: OutState::Neutral };
        InOutFront { state, link: Rc::new(OptimizedRefCell::new(None)) }
    }
}

/// The back side of an input-and-output portal.
pub struct InOutBack<I, O> {
    link: Rc<OptimizedRefCell<Option<InOutState<I, O>>>>,
}

impl<I, O> InOutBack<I, O> {
    /// The link that the back side shares with its front.
    pub closed spec fn link(&self) -> Rc<OptimizedRefCell<Option<InOutState<I, O>>>> {
        self.link
    }

    /// Sends `event` out of the coroutine; the returned future completes once the front has taken it. A
    /// send started while no driver runs the coroutine finds no lent state and never completes.
    pub fn send(&mut self, event: O) -> impl Future<Output = ()> {
        future_from(SendFuture::new(share(&self.link), event))
    }

    /// Receives a value from outside the coroutine. A receive started while no driver runs the coroutine
    /// finds no lent state and never completes.
    pub fn receive(&mut self) -> impl Future<Output = I> {
        future_from(ReceiveFuture::new(share(&self.link)))
    }
}

impl<I, O> PortalBack for InOutBack<I, O> {
    type Front = InOutFront<I, O>;

    open spec fn bound_to(&self, front: InOutFront<I, O>) -> bool {
        self.link() == front.link()
    }

    proof fn bound_to_same_portal(back: Self, front: InOutFront<I, O>, other: InOutFront<I, O>) {
    }

    fn new(front: &mut InOutFront<I, O>) -> (b: Self)
        ensures
            b.link() == old(front).link(),
            *final(front) == *old(front),
    {
        InOutBack { link: share(&front.link) }
    }
}

/// Creates the two sides of an input-and-output portal.
pub struct InOutPortal<I, O>(std::marker::PhantomData<I>, std::marker::PhantomData<O>);

impl<I, O> InOutPortal<I, O> {
    /// Creates a front with nothing pending and a back side linked to it.
    pub fn new() -> (r: (InOutFront<I, O>, InOutBack<I, O>))
        ensures
            r.0@.input == InState::<I>::Neutral,
            r.0@.output == OutState::<O>::Neutral,
            r.1.link() == r.0.link(),
    {
        let mut front = InOutFront::default();
        let back = InOutBack::new(&mut front);
        (front, back)
    }
}

/// Turns a [`Driver`] into a facade.
pub trait DriverExt {
    type Output;

    /// Creates a facade.
    fn facade(self) -> Self::Output;
}

impl<St, Fut> DriverExt for Driver<St> where St: AsStorage<Future = Fut>, Fut: Future {
    type Output = InOutFacade<St, Fut>;

    fn facade(self) -> (f: InOutFacade<St, Fut>)
        ensures
            f.driver_view() == self,
            f.result() is None,
    {
        InOutFacade::new(self)
    }
}

/// A facade for a driver of an input-and-output portal. It assumes that every output event is the product
/// of an input event: one input event may yield zero or more output events.
///
/// Normal use: check for completion with [`has_finished`](InOutFacade::has_finished), drive the coroutine
/// with [`drive`](InOutFacade::drive) and take its outputs, and loop; at the end, take the result with
/// [`finalize`](InOutFacade::finalize).
#[verifier::reject_recursive_types(St)]
#[verifier::reject_recursive_types(Fut)]
pub struct InOutFacade<St, Fut> where St: AsStorage<Future = Fut>, Fut: Future {
    driver: Driver<St>,
    future_result: Option<Fut::Output>,
}

impl<St, Fut> InOutFacade<St, Fut> where St: AsStorage<Future = Fut>, Fut: Future {
    /// The driver inside the facade.
    pub closed spec fn driver_view(&self) -> Driver<St> {
        self.driver
    }

    /// The result of the coroutine, once the facade has received it.
    pub closed spec fn result(&self) -> Option<Fut::Output> {
        self.future_result
    }

    /// The facade holds the result exactly when its driver has handed it out.
    pub open spec fn wf(&self) -> bool {
        (self.result() is Some) == (self.driver_view().coro_state() is Finished)
    }

    /// Creates a facade around `driver`.
    pub fn new(driver: Driver<St>) -> (f: Self)
        ensures
            f.driver_view() == driver,
            f.result() is None,
    {
        InOutFacade { driver, future_result: None }
    }

    /// Whether the coroutine has finished.
    pub fn has_finished(&self) -> (b: bool)
        ensures
            b == (self.result() is Some),
    {
        self.future_result.is_some()
    }

    /// Gives up the facade and returns the result of the coroutine, if it has finished.
    pub fn finalize(self) -> (r: Option<Fut::Output>)
        ensures
            r == self.result(),
    {
        self.future_result
    }
}

impl<St, I, O, Fut> InOutFacade<St, Fut> where St: AsStorage<Front = InOutFront<I, O>, Future = Fut>, Fut: Future {
    /// The state of the portal, as its front keeps it.
    pub closed spec fn front_view(&self) -> InOutState<I, O> {
        self.driver.storage_view().portal_front()@
    }

    /// Whether the portal accepts an input now.
    pub fn accepts_input(&mut self) -> (b: bool)
        ensures
            b == old(self).front_view().input.accepts_input(),
            final(self).result() == old(self).result(),
            final(self).driver_view().coro_state() == old(self).driver_view().coro_state(),
            final(self).driver_view().storage_view().same_future(&old(self).driver_view().storage_view()),
            final(self).front_view() == old(self).front_view(),
    {
        self.driver.portal().accepts_input()
    }

    /// Drives the coroutine with `input`: provides it to the portal, which must accept it (see
    /// [`accepts_input`](Self::accepts_input)), and returns a drive from which the output events that
    /// follow can be taken.
    pub fn drive(&mut self, input: I) -> (d: InOutDrive<'_, St, Fut>)
        requires
            old(self).front_view().input.accepts_input(),
        ensures
            d.facade.result() == old(self).result(),
            d.facade.driver_view().coro_state() == old(self).driver_view().coro_state(),
            d.facade.driver_view().storage_view().same_future(&old(self).driver_view().storage_view()),
            d.facade.front_view().input == InState::FrontProvided(input),
            d.facade.front_view().output == old(self).front_view().output,
            *final(self) == *final(d.facade),
    {
        self.driver.portal().provide(input);
        InOutDrive { facade: self }
    }
}

/// What a drive reports for a report of its driver: a yielded value goes out; an await, a result and an
/// error end the outputs of the current input.
pub open spec fn drive_report<O, Res>(report: Result<CoroPoll<InOutEvent<O>, Res>, PollError>) -> Result<Option<O>, PollError> {
    match report {
        Ok(CoroPoll::Event(InOutEvent::Yielded(v))) => Ok(Some(v)),
        Ok(CoroPoll::Event(InOutEvent::Awaiting)) => Ok(None),
        Ok(CoroPoll::Result(_)) => Ok(None),
        Err(e) => Err(e),
    }
}

/// The result that a facade keeps after its driver reported `report`.
pub open spec fn kept_result<O, Res>(kept: Option<Res>, report: Result<CoroPoll<InOutEvent<O>, Res>, PollError>) -> Option<Res> {
    match report {
        Ok(CoroPoll::Result(x)) => Some(x),
        _ => kept,
    }
}

/// One step of a drive follows the poll of its driver: a yielded value goes out as `Some`; an await ends
/// the outputs of the current input with `None`, the coroutine unfinished and the portal ready for the
/// next input, so that the facade can be driven again; a result ends them with `None` and is kept; an
/// error comes exactly when the poll failed, and it is the poll's error.
pub proof fn law_drive_follows_driver<St, I, O, Fut>(
    before: InOutFacade<St, Fut>,
    after: InOutFacade<St, Fut>,
    r: Result<Option<O>, PollError>,
    report: Result<CoroPoll<InOutEvent<O>, Fut::Output>, PollError>,
)
    where St: AsStorage<Front = InOutFront<I, O>, Future = Fut>, Fut: Future,
    requires
        before.wf(),
        before.result() is None,
        polled_driver(before.driver_view(), after.driver_view(), report),
        r == drive_report(report),
        after.result() == kept_result(before.result(), report),
    ensures
        report == Ok::<CoroPoll<InOutEvent<O>, Fut::Output>, PollError>(CoroPoll::Event(InOutEvent::Awaiting)) ==> {
            &&& r == Ok::<Option<O>, PollError>(None)
            &&& after.result() is None
            &&& after.front_view().input.accepts_input()
        },
        report matches Ok(CoroPoll::Event(InOutEvent::Yielded(v))) ==> {
            &&& r == Ok::<Option<O>, PollError>(Some(v))
            &&& after.result() is None
        },
        report matches Ok(CoroPoll::Result(x)) ==> {
            &&& r == Ok::<Option<O>, PollError>(None)
            &&& after.result() == Some(x)
        },
        report matches Err(e) ==> r == Err::<Option<O>, PollError>(e),
        (r is Err) <==> (report is Err),
        (after.result() is Some) <==> (report matches Ok(CoroPoll::Result(_))),
        r == Ok::<Option<O>, PollError>(None) && after.result() is None ==> after.front_view().input.accepts_input(),
{
    let front = before.driver_view().storage_view().portal_front();
    lemma_front_transitions(front);
    assert forall|handed_back: InOutFront<I, O>| #[trigger] handed_back.polled()@ == handed_back@.after_front_poll() by {
        lemma_front_transitions(handed_back);
    }
}

/// The output events that follow one input of an [`InOutFacade`].
#[verifier::reject_recursive_types(St)]
#[verifier::reject_recursive_types(Fut)]
pub struct InOutDrive<'a, St, Fut> where St: AsStorage<Future = Fut>, Fut: Future {
    pub facade: &'a mut InOutFacade<St, Fut>,
}

impl<'a, St, I, O, Fut> InOutDrive<'a, St, Fut> where St: AsStorage<Front = InOutFront<I, O>, Future = Fut>, Fut: Future {
    /// Takes the next output event: `Some(o)` for a yielded value, `None` once the coroutine awaits the
    /// next input or has finished, in which case the facade keeps its result.
    pub fn next(&mut self) -> (r: Result<Option<O>, PollError>)
        requires
            old(self).facade.wf(),
            old(self).facade.result() is None,
        ensures
            final(self).facade.wf(),
            r matches Ok(Some(_)) ==> final(self).facade.result() is None,
            final(self).facade.result() is Some ==> r == Ok::<Option<O>, PollError>(None),
            r is Err ==> final(self).facade.result() is None,
            exists|report| #![trigger polled_driver(old(self).facade.driver_view(), final(self).facade.driver_view(), report)]
                polled_driver(old(self).facade.driver_view(), final(self).facade.driver_view(), report)
                    && r == drive_report(report)
                    && final(self).facade.result() == kept_result(old(self).facade.result(), report)
                    && (report == Ok::<CoroPoll<InOutEvent<O>, Fut::Output>, PollError>(CoroPoll::Event(InOutEvent::Awaiting))
                        ==> r == Ok::<Option<O>, PollError>(None))
                    && (report matches Ok(CoroPoll::Event(InOutEvent::Yielded(v))) ==> r == Ok::<Option<O>, PollError>(Some(v)))
                    && (report matches Ok(CoroPoll::Result(_)) ==> r == Ok::<Option<O>, PollError>(None))
                    && (report matches Err(e) ==> r == Err::<Option<O>, PollError>(e))
                    && ((r is Err) <==> (report is Err)),
            r == Ok::<Option<O>, PollError>(None) && final(self).facade.result() is None
                ==> final(self).facade.front_view().input.accepts_input(),
    {
        let report = self.facade.driver.poll();
        let ghost polled = report;
        let r = match report {
            Ok(CoroPoll::Event(InOutEvent::Awaiting)) => Ok(None),
            Ok(CoroPoll::Event(InOutEvent::Yielded(out))) => Ok(Some(out)),
            Ok(CoroPoll::Result(res)) => {
                self.facade.future_result = Some(res);
                Ok(None)
            },
            Err(e) => Err(e),
        };
        proof {
            law_drive_follows_driver(*old(self).facade, *self.facade, r, polled);
        }
        r
    }
}

} // verus!
