//! A portal that carries output events out of the coroutine.

use vstd::prelude::*;
use std::future::Future;
use std::rc::Rc;
use crate::cell::OptimizedRefCell;
use crate::portal::{PortalBack, PortalFront, PortalState};
use crate::task::{future_from, share, PollOnce};

verus! {

/// The state of an output portal.
pub enum OutState<O> {
    /// Nothing is pending.
    Neutral,
    /// The back side has yielded a value that the front has not taken yet.
    Yielded(O),
    /// One side of the portal is gone.
    Closed,
}

/// The event that an output portal reports.
#[derive(Debug, PartialEq, Eq, PartialOrd, Ord, Hash)]
pub enum OutEvent<O> {
    /// The back side has yielded a value.
    Yielded(O),
}

impl<O> OutState<O> {
    /// The back side may start to send.
    pub open spec fn accepts_send(self) -> bool {
        self is Neutral
    }

    /// The state after the back side starts to send `event`.
    pub open spec fn after_begin_send(self, event: O) -> OutState<O> {
        if self is Neutral { OutState::Yielded(event) } else { self }
    }

    /// A send of the back side is complete once the front has taken the value.
    pub open spec fn send_complete(self) -> bool {
        self is Neutral
    }

    /// The event that a poll of the front reports.
    pub open spec fn front_event(self) -> Option<OutEvent<O>> {
        match self {
            OutState::Yielded(v) => Some(OutEvent::Yielded(v)),
            _ => None,
        }
    }

    /// The state after a poll of the front.
    pub open spec fn after_front_poll(self) -> OutState<O> {
        if self is Yielded { OutState::Neutral } else { self }
    }

    /// Starts a send of `event` on the back side; returns whether the state allowed it.
    pub fn begin_send(&mut self, event: O) -> (accepted: bool)
        ensures
            accepted == old(self).accepts_send(),
            *final(self) == old(self).after_begin_send(event),
    {
        match self {
            OutState::Neutral => {
                *self = OutState::Yielded(event);
                true
            },
            _ => false,
        }
    }

    /// Polls a send on the back side: it is done once the front has taken the value.
    pub fn is_send_complete(&self) -> (done: bool)
        ensures
            done == self.send_complete(),
    {
        match self {
            OutState::Neutral => true,
            _ => false,
        }
    }

    /// Polls the front: takes a yielded value, if there is one.
    pub fn poll_front(&mut self) -> (r: Option<OutEvent<O>>)
        ensures
            r == old(self).front_event(),
            *final(self) == old(self).after_front_poll(),
    {
        match self {
            OutState::Yielded(_) => {
                let mut taken = OutState::Neutral;
                std::mem::swap(self, &mut taken);
                match taken {
                    OutState::Yielded(v) => Some(OutEvent::Yielded(v)),
                    _ => None,
                }
            },
            _ => None,
        }
    }
}

/// A value that the back side sends with nothing pending is reported to the front exactly once, and the
/// send completes only once the front has taken it.
pub proof fn law_sent_value_is_yielded_once<O>(v: O)
    ensures
        OutState::<O>::Neutral.accepts_send(),
        OutState::<O>::Neutral.after_begin_send(v).front_event() == Some(OutEvent::Yielded(v)),
        !OutState::<O>::Neutral.after_begin_send(v).send_complete(),
        OutState::<O>::Neutral.after_begin_send(v).after_front_poll().send_complete(),
        OutState::<O>::Neutral.after_begin_send(v).after_front_poll().front_event() is None,
{
}

/// A poll of the front consumes what it reports: the next poll reports nothing.
pub proof fn law_front_poll_consumes<O>(s: OutState<O>)
    ensures
        s.after_front_poll().front_event() is None,
{
}

impl<O> PortalState for OutState<O> {
    fn closed() -> (s: Self)
        ensures
            s is Closed,
    {
        OutState::Closed
    }
}

/// A portal state with an output side, into which a send on the back side puts its value.
pub trait OutputSide: PortalState {
    /// The type of the values that go out.
    type Item;

    /// Starts a send of `event`; returns whether the state allowed it.
    fn start_send(&mut self, event: Self::Item) -> bool;

    /// Whether the front has taken the value of the last send.
    fn output_taken(&self) -> bool;
}

impl<O> OutputSide for OutState<O> {
    type Item = O;

    fn start_send(&mut self, event: O) -> (accepted: bool)
        ensures
            accepted == old(self).accepts_send(),
            *final(self) == old(self).after_begin_send(event),
    {
        self.begin_send(event)
    }

    fn output_taken(&self) -> (done: bool)
        ensures
            done == self.send_complete(),
    {
        self.is_send_complete()
    }
}

/// The front side of an output portal. It keeps the portal's state and shares a link with the back side,
/// through which the state is lent while the coroutine runs.
pub struct OutFront<O> {
    state: OutState<O>,
    link: Rc<OptimizedRefCell<Option<OutState<O>>>>,
}

impl<O> View for OutFront<O> {
    type V = OutState<O>;

    closed spec fn view(&self) -> OutState<O> {
        self.state
    }
}

impl<O> OutFront<O> {
    /// The link that the front shares with its back sides.
    pub closed spec fn link(&self) -> Rc<OptimizedRefCell<Option<OutState<O>>>> {
        self.link
    }
}

impl<O> PortalFront for OutFront<O> {
    type Event = OutEvent<O>;

    open spec fn pending_event(&self) -> Option<OutEvent<O>> {
        self@.front_event()
    }

    open spec fn same_portal(&self, other: Self) -> bool {
        self.link() == other.link()
    }

    proof fn same_portal_transitive(a: Self, b: Self, c: Self) {
    }

    closed spec fn polled(&self) -> Self {
        OutFront { state: self.state.after_front_poll(), link: self.link }
    }

    fn poll(&mut self) -> (r: Option<OutEvent<O>>)
        ensures
            final(self)@ == old(self)@.after_front_poll(),
            final(self).link() == old(self).link(),
    {
        self.state.poll_front()
    }

    fn lend(&mut self)
        ensures
            final(self).link() == old(self).link(),
    {
        let mut lent = OutState::Closed;
        std::mem::swap(&mut self.state, &mut lent);
        self.link.replace(Some(lent));
    }

    fn reclaim(&mut self)
        ensures
            final(self).link() == old(self).link(),
    {
        if let Some(state) = self.link.replace(None) {
            self.state = state;
        }
    }

    closed spec fn closed_front(&self) -> Self {
        OutFront { state: OutState::Closed, link: self.link }
    }

    fn close(&mut self)
        ensures
            final(self)@ == OutState::<O>::Closed,
            final(self).link() == old(self).link(),
    {
        self.state = OutState::Closed;
    }
}

/// A poll of the front consumes its event and keeps the link; closing it closes the state and keeps the
/// link.
pub proof fn lemma_front_transitions<O>(front: OutFront<O>)
    ensures
        front.polled()@ == front@.after_front_poll(),
        front.polled().link() == front.link(),
        front.closed_front()@ == OutState::<O>::Closed,
        front.closed_front().link() == front.link(),
{
}

impl<O> Default for OutFront<O> {
    fn default() -> (f: Self)
        ensures
            f@ == OutState::<O>::Neutral,
    {
        OutFront { state: OutState::Neutral, link: Rc::new(OptimizedRefCell::new(None)) }
    }
}

/// The back side of an output portal.
pub struct OutBack<O> {
    link: Rc<OptimizedRefCell<Option<OutState<O>>>>,
}

impl<O> OutBack<O> {
    /// The link that the back side shares with its front.
    pub closed spec fn link(&self) -> Rc<OptimizedRefCell<Option<OutState<O>>>> {
        self.link
    }

    /// Sends `event` out of the coroutine; the returned future completes once the front has taken it. A
    /// send started while no driver runs the coroutine finds no lent state and never completes.
    pub fn send(&mut self, event: O) -> impl Future<Output = ()> {
        future_from(SendFuture::new(share(&self.link), event))
    }
}

impl<O> PortalBack for OutBack<O> {
    type Front = OutFront<O>;

    open spec fn bound_to(&self, front: OutFront<O>) -> bool {
        self.link() == front.link()
    }

    proof fn bound_to_same_portal(back: Self, front: OutFront<O>, other: OutFront<O>) {
    }

    fn new(front: &mut OutFront<O>) -> (b: Self)
        ensures
            b.link() == old(front).link(),
            *final(front) == *old(front),
    {
        OutBack { link: share(&front.link) }
    }
}

/// Creates the two sides of an output portal.
pub struct OutPortal<O>(std::marker::PhantomData<O>);

impl<O> OutPortal<O> {
    /// Creates a front with nothing pending and a back side linked to it.
    pub fn new() -> (r: (OutFront<O>, OutBack<O>))
        ensures
            r.0@ == OutState::<O>::Neutral,
            r.1.link() == r.0.link(),
    {
        let mut front = OutFront::default();
        let back = OutBack::new(&mut front);
        (front, back)
    }
}

/// One send on the back side of a portal; `send` turns it into a future.
pub(crate) struct SendFuture<S> {
    link: Rc<OptimizedRefCell<Option<S>>>,
    accepted: bool,
}

impl<S: OutputSide> SendFuture<S> {
    /// The link through which the send reaches the portal's state.
    pub(crate) closed spec fn link(&self) -> Rc<OptimizedRefCell<Option<S>>> {
        self.link
    }

    /// Whether the portal's state allowed the send to start.
    pub(crate) closed spec fn accepted(&self) -> bool {
        self.accepted
    }

    /// Starts a send of `event` on the state lent through `link`. Without a lent state the send is
    /// refused.
    pub(crate) fn new(link: Rc<OptimizedRefCell<Option<S>>>, event: S::Item) -> (r: Self)
        ensures
            r.link() == link,
    {
        let accepted = match link.replace(None) {
            Some(mut current) => {
                let accepted = current.start_send(event);
                link.replace(Some(current));
                accepted
            },
            None => false,
        };
        SendFuture { link, accepted }
    }
}

impl<S: OutputSide> PollOnce for SendFuture<S> {
    type Output = ();

    /// Polls the send once: `Some(())` once the front has taken the value. A send that was refused at
    /// the start never completes.
    fn poll_once(&self) -> (r: Option<()>)
        ensures
            !self.accepted() ==> r is None,
    {
        if !self.accepted {
            return None;
        }
        match self.link.replace(None) {
            Some(current) => {
                let done = current.output_taken();
                self.link.replace(Some(current));
                if done { Some(()) } else { None }
            },
            None => None,
        }
    }
}

} // verus!
