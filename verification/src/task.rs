//! What the library needs of std's futures: pinning a future on the heap, polling it once, turning a
//! polling step into a future, and sharing a pointer.

use vstd::prelude::*;
use std::future::Future;
use std::pin::Pin;
use std::rc::Rc;
use std::task::{Context, Poll, Waker};

verus! {

#[verifier::external_type_specification]
#[verifier::external_body]
#[verifier::reject_recursive_types(Ptr)]
pub struct ExPin<Ptr>(Pin<Ptr>);

#[verifier::external_type_specification]
#[verifier::external_body]
pub struct ExContext<'a>(Context<'a>);

#[verifier::external_type_specification]
#[verifier::external_body]
pub struct ExWaker(Waker);

/// One step of a future that the library computes itself: `Some(v)` once the future is done with `v`,
/// `None` while it is pending.
pub(crate) trait PollOnce {
    type Output;

    /// Polls once.
    fn poll_once(&self) -> Option<Self::Output>;
}

/// Calls `std::future::poll_fn` with a closure that calls `step.poll_once()` and turns `Some(v)` into
/// `Poll::Ready(v)` and `None` into `Poll::Pending`. Nothing is claimed of the future.
#[verifier::external_body]
pub(crate) fn future_from<P: PollOnce>(step: P) -> impl Future<Output = P::Output> {
    std::future::poll_fn(move |_| match step.poll_once() {
        Some(value) => Poll::Ready(value),
        None => Poll::Pending,
    })
}

/// Calls `Rc::clone`, which makes another pointer to the same allocation: the result points to what
/// `rc` points to.
#[verifier::external_body]
pub(crate) fn share<T>(rc: &Rc<T>) -> (r: Rc<T>)
    ensures
        r == *rc,
{
    rc.clone()
}

/// Calls `Box::pin`, which moves `future` to the heap and pins it there. Nothing is claimed of the result:
/// it is an opaque handle that only `poll_pinned` reads.
#[verifier::external_body]
fn pin_box<F>(future: F) -> Pin<Box<F>> {
    Box::pin(future)
}

/// Calls `Waker::noop`: a waker whose `wake`, `wake_by_ref`, `clone` and drop do nothing.
#[verifier::external_body]
fn noop_waker() -> &'static Waker {
    Waker::noop()
}

/// Calls `Context::from_waker`: the context that `Future::poll` receives, carrying `waker`.
#[verifier::external_body]
fn context_of(waker: &'static Waker) -> Context<'static> {
    Context::from_waker(waker)
}

/// Calls `Future::poll` once on `pinned` (taken as `Pin<&mut F>`) with `context`: `Poll::Ready(v)` becomes
/// `Ok(v)`, and the future, which may not be polled again, is dropped; `Poll::Pending` becomes
/// `Err(pinned)`. What comes back depends on the future's own code, so nothing is claimed of it.
///
/// std allows a completed future to panic when it is polled again. No completed future can reach this
/// call: a `Pin<Box<F>>` exists in the library only inside a `FutureSlot`, made by `FutureSlot::new`
/// from a fresh future or given back here after `Poll::Pending`.
#[verifier::external_body]
fn poll_pinned<F: Future>(pinned: Pin<Box<F>>, context: &mut Context<'static>) -> Result<F::Output, Pin<Box<F>>> {
    let mut pinned = pinned;
    match pinned.as_mut().poll(context) {
        Poll::Ready(value) => Ok(value),
        Poll::Pending => Err(pinned),
    }
}

/// A future pinned on the heap that has not completed, with the future it was made from and the number
/// of times it has been polled.
#[verifier::reject_recursive_types(F)]
pub struct FutureSlot<F> {
    pinned: Pin<Box<F>>,
    origin: Ghost<F>,
    polls: Ghost<nat>,
}

impl<F> FutureSlot<F> {
    /// The future that the slot was made from.
    pub closed spec fn origin(&self) -> F {
        self.origin@
    }

    /// How often the future has been polled.
    pub closed spec fn polls(&self) -> nat {
        self.polls@
    }

    /// Pins `future` on the heap; it has not been polled yet.
    pub fn new(future: F) -> (s: Self)
        ensures
            s.origin() == future,
            s.polls() == 0,
    {
        let ghost origin = future;
        FutureSlot { pinned: pin_box(future), origin: Ghost(origin), polls: Ghost(0) }
    }
}

impl<F: Future> FutureSlot<F> {
    /// Polls the future once, with a waker that does nothing: its output once it has completed, which
    /// uses the slot up; else the slot back, polled once more.
    pub fn poll(self) -> (r: Result<F::Output, Self>)
        ensures
            r matches Err(s) ==> s.origin() == self.origin() && s.polls() == self.polls() + 1,
    {
        let FutureSlot { pinned, origin, polls } = self;
        let mut context = context_of(noop_waker());
        match poll_pinned(pinned, &mut context) {
            Ok(value) => Ok(value),
            Err(pinned) => Err(FutureSlot { pinned, origin, polls: Ghost(polls@ + 1) }),
        }
    }
}

} // verus!
