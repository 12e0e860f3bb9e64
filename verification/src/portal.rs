//! Portals are the gateway between the inside of a coroutine and the outside world. A portal consists of a
//! front (held by the driver) and a back (held by the coroutine).

use vstd::prelude::*;

pub mod inout;
pub mod input;
pub mod output;

verus! {

/// The front side of a portal. The front keeps the portal's state, and lends it to the back side while
/// the coroutine runs.
pub trait PortalFront: Sized {
    type Event;

    /// The event that a poll reports.
    spec fn pending_event(&self) -> Option<Self::Event>;

    /// The front after a poll.
    spec fn polled(&self) -> Self;

    /// Whether `other` is a front of the same portal as this one.
    spec fn same_portal(&self, other: Self) -> bool;

    /// Being a front of the same portal is transitive.
    proof fn same_portal_transitive(a: Self, b: Self, c: Self)
        requires
            a.same_portal(b),
            b.same_portal(c),
        ensures
            a.same_portal(c),
    ;

    /// Polls the portal for an event. An event that is returned is consumed.
    fn poll(&mut self) -> (r: Option<Self::Event>)
        ensures
            r == old(self).pending_event(),
            *final(self) == old(self).polled(),
            final(self).same_portal(*old(self)),
    ;

    /// Hands the portal's state to the back side before the coroutine runs.
    fn lend(&mut self)
        ensures
            final(self).same_portal(*old(self)),
    ;

    /// Takes the portal's state back from the back side after the coroutine ran.
    fn reclaim(&mut self)
        ensures
            final(self).same_portal(*old(self)),
    ;

    /// The front after the portal is closed.
    spec fn closed_front(&self) -> Self;

    /// Closes the portal: the coroutine has finished and its result has been handed out.
    fn close(&mut self)
        ensures
            *final(self) == old(self).closed_front(),
            final(self).same_portal(*old(self)),
    ;
}

/// The back side of a portal, which the coroutine holds.
pub trait PortalBack: Sized {
    /// The front side that this back side is paired with.
    type Front: PortalFront;

    /// Whether this back side reaches the state that `front` lends.
    spec fn bound_to(&self, front: Self::Front) -> bool;

    /// A back side bound to a front is bound to every front of the same portal.
    proof fn bound_to_same_portal(back: Self, front: Self::Front, other: Self::Front)
        requires
            back.bound_to(front),
            other.same_portal(front),
        ensures
            back.bound_to(other),
    ;

    /// Creates a back side linked to `front`, which lends it the portal's state while the coroutine runs.
    fn new(front: &mut Self::Front) -> (b: Self)
        ensures
            b.bound_to(*old(front)),
            *final(front) == *old(front),
    ;
}

/// The state that a portal keeps between its two sides.
pub trait PortalState: Sized {
    /// The state of a portal of which one side has gone away.
    fn closed() -> Self;
}

} // verus!
