//! A portal that carries input events into the coroutine.

use vstd::prelude::*;
use std::future::Future;
use std::rc::Rc;
use crate::cell::OptimizedRefCell;
use crate::portal::{PortalBack, PortalFront, PortalState};
use crate::task::{future_from, share, PollOnce};

verus! {

/// The state of an input portal.
pub enum InState<I> {
    /// Nothing is pending.
    Neutral,
    /// The back side has started to await a value; the front has not seen this yet.
    AwaitingSignalled,
    /// The front has reported that the back side awaits a value.
    AwaitingConfirmed,
    /// The front has provided a value that the back side has not taken yet.
    FrontProvided(I),
    /// One side of the portal is gone.
    Closed,
}

/// The event that an input portal reports.
#[derive(Debug, PartialEq, Eq, PartialOrd, Ord, Hash)]
pub enum InEvent {
    /// The back side awaits a value.
    Awaiting,
}

/// Why the front could not hand in a value.
#[derive(Debug, PartialEq, Eq, Clone, Copy)]
pub enum ProvideError {
    /// The back side awaits, but the front has not reported this yet.
    NotYetConfirmed,
    /// A value that was provided earlier has not been taken yet.
    SlotOccupied,
    /// The portal is closed.
    Closed,
}

impl<I> InState<I> {
    /// The front may hand in a value: nothing is pending, or the await has been reported.
    pub open spec fn accepts_input(self) -> bool {
        self is Neutral || self is AwaitingConfirmed
    }

    /// The state after the front offers `event`.
    pub open spec fn after_provide(self, event: I) -> InState<I> {
        if self.accepts_input() { InState::FrontProvided(event) } else { self }
    }

    /// The answer to the front offering a value.
    pub open spec fn provide_outcome(self) -> Result<(), ProvideError> {
        match self {
            InState::Neutral | InState::AwaitingConfirmed => Ok(()),
            InState::AwaitingSignalled => Err(ProvideError::NotYetConfirmed),
            InState::FrontProvided(_) => Err(ProvideError::SlotOccupied),
            InState::Closed => Err(ProvideError::Closed),
        }
    }

    /// The event that a poll of the front reports.
    pub open spec fn front_event(self) -> Option<InEvent> {
        if self is AwaitingSignalled { Some(InEvent::Awaiting) } else { None }
    }

    /// The state after a poll of the front.
    pub open spec fn after_front_poll(self) -> InState<I> {
        if self is AwaitingSignalled { InState::AwaitingConfirmed } else { self }
    }

    /// The back side may start to receive: nothing is pending, or a value was provided ahead of time.
    pub open spec fn accepts_receive(self) -> bool {
        self is Neutral || self is FrontProvided
    }

    /// The state after the back side starts to receive.
    pub open spec fn after_begin_receive(self) -> InState<I> {
        if self is Neutral { InState::AwaitingSignalled } else { self }
    }

    /// The value that the back side takes when its receive is polled.
    pub open spec fn received(self) -> Option<I> {
        match self {
            InState::FrontProvided(v) => Some(v),
            _ => None,
        }
    }

    /// The state after the back side's receive is polled.
    pub open spec fn after_poll_receive(self) -> InState<I> {
        if self is FrontProvided { InState::Neutral } else { self }
    }

    /// Whether the front may hand in a value now.
    pub fn accepts(&self) -> (b: bool)
        ensures
            b == self.accepts_input(),
    {
        match self {
            InState::Neutral | InState::AwaitingConfirmed => true,
            _ => false,
        }
    }

    /// Hands `event` in from the front.
    pub fn provide(&mut self, event: I) -> (r: Result<(), ProvideError>)
        ensures
            r == old(self).provide_outcome(),
            *final(self) == old(self).after_provide(event),
    {
        match self {
            InState::Neutral | InState::AwaitingConfirmed => {
                *self = InState::FrontProvided(event);
                Ok(())
            },
            InState::AwaitingSignalled => Err(ProvideError::NotYetConfirmed),
            InState::FrontProvided(_) => Err(ProvideError::SlotOccupied),
            InState::Closed => Err(ProvideError::Closed),
        }
    }

    /// Polls the front: reports an await that it has not reported before.
    pub fn poll_front(&mut self) -> (r: Option<InEvent>)
        ensures
            r == old(self).front_event(),
            *final(self) == old(self).after_front_poll(),
    {
        match self {
            InState::AwaitingSignalled => {
                *self = InState::AwaitingConfirmed;
                Some(InEvent::Awaiting)
            },
            _ => None,
        }
    }

    /// Starts a receive on the back side; returns whether the state allowed it.
    pub fn begin_receive(&mut self) -> (accepted: bool)
        ensures
            accepted == old(self).accepts_receive(),
            *final(self) == old(self).after_begin_receive(),
    {
        match self {
            InState::Neutral => {
                *self = InState::AwaitingSignalled;
                true
            },
            InState::FrontProvided(_) => true,
            _ => false,
        }
    }

    /// Polls a receive on the back side: takes the provided value, if there is one.
    pub fn poll_receive(&mut self) -> (r: Option<I>)
        ensures
            r == old(self).received(),
            *final(self) == old(self).after_poll_receive(),
    {
        match self {
            InState::FrontProvided(_) => {
                let mut taken = InState::Neutral;
                std::mem::swap(self, &mut taken);
                match taken {
                    InState::FrontProvided(v) => Some(v),
                    _ => None,
                }
            },
            _ => None,
        }
    }
}

/// A value that the front hands in while the portal accepts input is exactly what the back side's receive
/// takes, whether the receive started before or after it; taking it leaves nothing pending.
pub proof fn law_provided_value_is_received<I>(s: InState<I>, v: I)
    requires
        s.accepts_input(),
    ensures
        s.provide_outcome() is Ok,
        s.after_provide(v).accepts_receive(),
        s.after_provide(v).after_begin_receive() == s.after_provide(v),
        s.after_provide(v).received() == Some(v),
        s.after_provide(v).after_poll_receive() == InState::<I>::Neutral,
{
}

/// A receive that starts with nothing pending is reported to the front exactly once, and after that
/// report the front may hand in a value.
pub proof fn law_await_reported_once<I>()
    ensures
        InState::<I>::Neutral.after_begin_receive().front_event() == Some(InEvent::Awaiting),
        InState::<I>::Neutral.after_begin_receive().after_front_poll().front_event() is None,
        InState::<I>::Neutral.after_begin_receive().after_front_poll().accepts_input(),
        InState::<I>::Neutral.after_begin_receive().received() is None,
{
}

/// A poll of the front consumes what it reports: the next poll reports nothing.
pub proof fn law_front_poll_consumes<I>(s: InState<I>)
    ensures
        s.after_front_poll().front_event() is None,
{
}

impl<I> PortalState for InState<I> {
    fn closed() -> (s: Self)
        ensures
            s is Closed,
    {
        InState::Closed
    }
}

/// A portal state with an input side, from which a receive on the back side takes its value.
pub trait InputSide: PortalState {
    /// The type of the values that come in.
    type Item;

    /// Starts a receive; returns whether the state allowed it.
    fn start_receive(&mut self) -> bool;

    /// Takes the provided value, if there is one.
    fn take_input(&mut self) -> Option<Self::Item>;
}

impl<I> InputSide for InState<I> {
    type Item = I;

    fn start_receive(&mut self) -> (accepted: bool)
        ensures
            accepted == old(self).accepts_receive(),
            *final(self) == old(self).after_begin_receive(),
    {
        self.begin_receive()
    }

    fn take_input(&mut self) -> (r: Option<I>)
        ensures
            r == old(self).received(),
            *final(self) == old(self).after_poll_receive(),
    {
        self.poll_receive()
    }
}

/// The front side of an input portal. It keeps the portal's state and shares a link with the back side,
/// through which the state is lent while the coroutine runs.
pub struct InFront<I> {
    state: InState<I>,
    link: Rc<OptimizedRefCell<Option<InState<I>>>>,
}

impl<I> View for InFront<I> {
    type V = InState<I>;

    closed spec fn view(&self) -> InState<I> {
        self.state
    }
}

impl<I> InFront<I> {
    /// The link that the front shares with its back sides.
    pub closed spec fn link(&self) -> Rc<OptimizedRefCell<Option<InState<I>>>> {
        self.link
    }

    /// Whether the portal accepts a value now: nothing is pending, or the await has been reported.
    pub fn accepts_input(&self) -> (b: bool)
        ensures
            b == self@.accepts_input(),
    {
        self.state.accepts()
    }

    /// Hands `event` in to the coroutine. The portal must accept it (see [`accepts_input`](Self::accepts_input)):
    /// not while an earlier value has not been taken, while an await has not been reported yet, or once the
    /// portal is closed.
    pub fn provide(&mut self, event: I)
        requires
            old(self)@.accepts_input(),
        ensures
            final(self)@ == InState::FrontProvided(event),
            final(self).link() == old(self).link(),
    {
        let _ = self.state.provide(event);
    }
}

impl<I> PortalFront for InFront<I> {
    type Event = InEvent;

    open spec fn pending_event(&self) -> Option<InEvent> {
        self@.front_event()
    }

    open spec fn same_portal(&self, other: Self) -> bool {
        self.link() == other.link()
    }

    proof fn same_portal_transitive(a: Self, b: Self, c: Self) {
    }

    closed spec fn polled(&self) -> Self {
        InFront { state: self.state.after_front_poll(), link: self.link }
    }

    fn poll(&mut self) -> (r: Option<InEvent>)
        ensures
            final(self)@ == old(self)@.after_front_poll(),
            final(self).link() == old(self).link(),
    {
        self.state.poll_front()
    }

    fn lend(&mut self)
        ensures
            final(self).link() == old(self).link(),
    {
        let mut lent = InState::Closed;
        std::mem::swap(&mut self.state, &mut lent);
        self.link.replace(Some(lent));
    }

    fn reclaim(&mut self)
        ensures
            final(self).link() == old(self).link(),
    {
        if let Some(state) = self.link.replace(None) {
            self.state = state;
        }
    }

    closed spec fn closed_front(&self) -> Self {
        InFront { state: InState::Closed, link: self.link }
    }

    fn close(&mut self)
        ensures
            final(self)@ == InState::<I>::Closed,
            final(self).link() == old(self).link(),
    {
        self.state = InState::Closed;
    }
}

/// A poll of the front consumes its event and keeps the link; closing it closes the state and keeps the
/// link.
pub proof fn lemma_front_transitions<I>(front: InFront<I>)
    ensures
        front.polled()@ == front@.after_front_poll(),
        front.polled().link() == front.link(),
        front.closed_front()@ == InState::<I>::Closed,
        front.closed_front().link() == front.link(),
{
}

impl<I> Default for InFront<I> {
    fn default() -> (f: Self)
        ensures
            f@ == InState::<I>::Neutral,
    {
        InFront { state: InState::Neutral, link: Rc::new(OptimizedRefCell::new(None)) }
    }
}

/// The back side of an input portal.
pub struct InBack<I> {
    link: Rc<OptimizedRefCell<Option<InState<I>>>>,
}

impl<I> InBack<I> {
    /// The link that the back side shares with its front.
    pub closed spec fn link(&self) -> Rc<OptimizedRefCell<Option<InState<I>>>> {
        self.link
    }

    /// Receives a value from outside the coroutine. A receive started while no driver runs the coroutine
    /// finds no lent state and never completes.
    pub fn receive(&mut self) -> impl Future<Output = I> {
        future_from(ReceiveFuture::new(share(&self.link)))
    }
}

impl<I> PortalBack for InBack<I> {
    type Front = InFront<I>;

    open spec fn bound_to(&self, front: InFront<I>) -> bool {
        self.link() == front.link()
    }

    proof fn bound_to_same_portal(back: Self, front: InFront<I>, other: InFront<I>) {
    }

    fn new(front: &mut InFront<I>) -> (b: Self)
        ensures
            b.link() == old(front).link(),
            *final(front) == *old(front),
    {
        InBack { link: share(&front.link) }
    }
}

/// One receive on the back side of a portal; `receive` turns it into a future.
pub(crate) struct ReceiveFuture<S> {
    link: Rc<OptimizedRefCell<Option<S>>>,
    accepted: bool,
}

impl<S: InputSide> ReceiveFuture<S> {
    /// The link through which the receive reaches the portal's state.
    pub(crate) closed spec fn link(&self) -> Rc<OptimizedRefCell<Option<S>>> {
        self.link
    }

    /// Whether the portal's state allowed the receive to start.
    pub(crate) closed spec fn accepted(&self) -> bool {
        self.accepted
    }

    /// Starts a receive on the state lent through `link`. Without a lent state the receive is refused.
    pub(crate) fn new(link: Rc<OptimizedRefCell<Option<S>>>) -> (r: Self)
        ensures
            r.link() == link,
    {
        let accepted = match link.replace(None) {
            Some(mut current) => {
                let accepted = current.start_receive();
                link.replace(Some(current));
                accepted
            },
            None => false,
        };
        ReceiveFuture { link, accepted }
    }
}

impl<S: InputSide> PollOnce for ReceiveFuture<S> {
    type Output = S::Item;

    /// Polls the receive once: the provided value, once there is one. A receive that was refused at the
    /// start never completes.
    fn poll_once(&self) -> (r: Option<S::Item>)
        ensures
            !self.accepted() ==> r is None,
    {
        if !self.accepted {
            return None;
        }
        match self.link.replace(None) {
            Some(mut current) => {
                let value = current.take_input();
                self.link.replace(Some(current));
                value
            },
            None => None,
        }
    }
}

} // verus!
