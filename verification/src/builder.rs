//! Building a [`Driver`] in three steps: choose where the storage lives, supply the front of the portal,
//! supply the coroutine. Step 1 may be skipped for a storage on the heap ([`BuilderStep1::front`]); step 2
//! may be skipped when the front has a default ([`BuilderStep2::function`]); both may be skipped
//! together ([`BuilderStep1::function`]).

use vstd::prelude::*;
use std::future::Future;
use crate::portal::{PortalBack, PortalFront};
use crate::{made_by, new_driver, AsStorage, Driver, Storage};

verus! {

/// The first step: nothing chosen yet.
pub struct BuilderStep1;

impl Default for BuilderStep1 {
    fn default() -> (b: Self)
        ensures
            b == BuilderStep1,
    {
        BuilderStep1
    }
}

/// The second step: the storage is chosen.
#[verifier::reject_recursive_types(St)]
pub struct BuilderStep2<St> {
    storage: St,
}

/// The third step: the storage holds the front of the portal.
#[verifier::reject_recursive_types(St)]
pub struct BuilderStep3<St> {
    storage: St,
}

impl BuilderStep1 {
    /// Chooses `storage`, which may live anywhere.
    pub fn storage<St: AsStorage>(self, storage: St) -> (b: BuilderStep2<St>)
        ensures
            b.storage_view() == storage.storage(),
    {
        BuilderStep2 { storage }
    }

    /// Chooses a storage on the heap and puts `front` in it.
    pub fn front<Fr: PortalFront, Fut: Future>(self, front: Fr) -> (b: BuilderStep3<Box<Storage<Fr, Fut>>>)
        ensures
            b.storage_view().portal_front() == front,
            !b.storage_view().has_future(),
    {
        BuilderStep3 { storage: Box::new(Storage::new(front)) }
    }

    /// Creates a driver with its storage on the heap and a default portal front, for the coroutine that
    /// `create_future` makes from the back of the portal.
    pub fn function<Bk, Fut, F>(self, create_future: F) -> (d: Driver<Box<Storage<Bk::Front, Fut>>>)
        where
            Bk: PortalBack,
            Bk::Front: Default,
            Fut: Future,
            F: FnOnce(Bk) -> Fut,
        requires
            forall|back: Bk| create_future.requires((back,)),
        ensures
            d.coro_state() is InProgress,
            call_ensures(Bk::Front::default, (), d.storage_view().portal_front()),
            made_by::<Bk::Front, Fut, Bk, F>(d.storage_view(), create_future),
    {
        self.front(Bk::Front::default()).function(create_future)
    }

    /// The same as [`function`](Self::function).
    pub fn coro<Bk, Fut, F>(self, create_future: F) -> (d: Driver<Box<Storage<Bk::Front, Fut>>>)
        where
            Bk: PortalBack,
            Bk::Front: Default,
            Fut: Future,
            F: FnOnce(Bk) -> Fut,
        requires
            forall|back: Bk| create_future.requires((back,)),
        ensures
            d.coro_state() is InProgress,
            call_ensures(Bk::Front::default, (), d.storage_view().portal_front()),
            made_by::<Bk::Front, Fut, Bk, F>(d.storage_view(), create_future),
    {
        self.function(create_future)
    }
}

impl<St: AsStorage> BuilderStep2<St> {
    /// The storage chosen so far.
    pub closed spec fn storage_view(&self) -> Storage<St::Front, St::Future> {
        self.storage.storage()
    }

    /// Puts `front` in the storage.
    pub fn front(self, front: St::Front) -> (b: BuilderStep3<St>)
        ensures
            b.storage_view().portal_front() == front,
            b.storage_view().same_future(&self.storage_view()),
    {
        let mut storage = self.storage;
        storage.as_storage().supply_front(front);
        BuilderStep3 { storage }
    }

    /// Puts a default portal front in the storage and creates a driver for the coroutine that
    /// `create_future` makes from the back of the portal.
    pub fn function<Bk, F>(self, create_future: F) -> (d: Driver<St>)
        where
            Bk: PortalBack<Front = St::Front>,
            St::Front: Default,
            F: FnOnce(Bk) -> St::Future,
        requires
            forall|back: Bk| create_future.requires((back,)),
        ensures
            d.coro_state() is InProgress,
            call_ensures(St::Front::default, (), d.storage_view().portal_front()),
            made_by::<St::Front, St::Future, Bk, F>(d.storage_view(), create_future),
    {
        self.front(St::Front::default()).function(create_future)
    }

    /// The same as [`function`](Self::function).
    pub fn coro<Bk, F>(self, create_future: F) -> (d: Driver<St>)
        where
            Bk: PortalBack<Front = St::Front>,
            St::Front: Default,
            F: FnOnce(Bk) -> St::Future,
        requires
            forall|back: Bk| create_future.requires((back,)),
        ensures
            d.coro_state() is InProgress,
            call_ensures(St::Front::default, (), d.storage_view().portal_front()),
            made_by::<St::Front, St::Future, Bk, F>(d.storage_view(), create_future),
    {
        self.function(create_future)
    }
}

impl<St: AsStorage> BuilderStep3<St> {
    /// The storage built so far.
    pub closed spec fn storage_view(&self) -> Storage<St::Front, St::Future> {
        self.storage.storage()
    }

    /// Creates a driver for the coroutine that `create_future` makes from the back of the portal whose
    /// front is in the storage.
    pub fn function<Bk, F>(self, create_future: F) -> (d: Driver<St>)
        where
            Bk: PortalBack<Front = St::Front>,
            F: FnOnce(Bk) -> St::Future,
        requires
            forall|back: Bk| create_future.requires((back,)),
        ensures
            d.coro_state() is InProgress,
            d.storage_view().portal_front() == self.storage_view().portal_front(),
            made_by::<St::Front, St::Future, Bk, F>(d.storage_view(), create_future),
    {
        new_driver(self.storage, create_future)
    }

    /// The same as [`function`](Self::function).
    pub fn coro<Bk, F>(self, create_future: F) -> (d: Driver<St>)
        where
            Bk: PortalBack<Front = St::Front>,
            F: FnOnce(Bk) -> St::Future,
        requires
            forall|back: Bk| create_future.requires((back,)),
        ensures
            d.coro_state() is InProgress,
            d.storage_view().portal_front() == self.storage_view().portal_front(),
            made_by::<St::Front, St::Future, Bk, F>(d.storage_view(), create_future),
    {
        self.function(create_future)
    }
}

} // verus!
