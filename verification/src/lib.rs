//! Thread identifiers with explicit, verified allocation state.
//!
//! Three strategies hand out identifiers for the running thread: one that is
//! never reused ([`UniqueThreadId`]), one that is reused once its owner has
//! died ([`LiveThreadId`]), and one that caches whatever the platform reports
//! ([`locals::CacheSlot::get_or_insert_with`]). Every strategy keeps a cache
//! slot per thread, so that only the first request made on a thread reaches
//! the allocator.
//!
//! This crate holds the state machines: the allocators, the cache slot and
//! the rules that tie them together. Where that state lives (a thread-local,
//! a lock-guarded global) is left to the caller.
use core::fmt::Debug;
use core::hash::Hash;
use vstd::prelude::*;

pub mod counter;
pub mod debug;
pub mod error;
pub mod heap;
pub mod live;
pub mod locals;
pub mod model;
mod sealed;
pub mod unique;
pub mod utils;

pub use error::IdError;
pub use live::LiveThreadId;
pub use unique::UniqueThreadId;

verus! {

/// What the identifier strategies have in common.
///
/// Identifiers differ across live threads for [`LiveThreadId`], and across
/// all threads that have ever existed for [`UniqueThreadId`].
pub trait IThreadId: Copy + Eq + Hash + Debug + sealed::Sealed {
    /// What each thread keeps for the strategy; it holds the cache slot.
    type Local;

    /// What all threads share: the source of fresh identifiers.
    type Shared;

    /// The thread's state and the shared state fit together, and a request
    /// made in them is not a fatal error.
    spec fn valid(local: &Self::Local, shared: &Self::Shared) -> bool;

    /// The identifier in the thread's cache slot.
    spec fn cached(local: &Self::Local) -> Option<Self>;

    /// What a request returns, where the two states decide it. It is `None`
    /// where the result depends on what another thread does in the
    /// meantime, which is so for a fresh [`UniqueThreadId`].
    spec fn decided(local: &Self::Local, shared: &Self::Shared) -> Option<Result<Self, IdError>>;

    /// How the states after a request that returned `id` stand to the states
    /// before it.
    spec fn follows(
        local: &Self::Local,
        shared: &Self::Shared,
        id: Result<Self, IdError>,
        local_after: &Self::Local,
        shared_after: &Self::Shared,
    ) -> bool;

    /// The identifier of the thread that owns `local`.
    ///
    /// A request that finds an identifier cached returns it and changes
    /// nothing. A request that succeeds leaves its result cached, so every
    /// later request on the thread returns the same identifier. One that
    /// fails leaves the slot empty.
    fn current(local: &mut Self::Local, shared: &mut Self::Shared) -> (id: Result<Self, IdError>)
        requires
            Self::valid(old(local), old(shared)),
        ensures
            Self::valid(final(local), final(shared)),
            Self::decided(old(local), old(shared)) matches Some(outcome) ==> id == outcome,
            Self::follows(old(local), old(shared), id, final(local), final(shared)),
            Self::cached(old(local)) matches Some(held) ==> id == Ok::<Self, IdError>(held)
                && *final(local) == *old(local) && *final(shared) == *old(shared),
            id matches Ok(issued) ==> Self::cached(final(local)) == Some(issued),
            id is Err ==> Self::cached(final(local)) is None,
    ;
}

/// The identifier of the thread that owns `local`, for any strategy.
///
/// Same as [`IThreadId::current`].
pub fn current<T: IThreadId>(local: &mut T::Local, shared: &mut T::Shared) -> (id: Result<
    T,
    IdError,
>)
    requires
        T::valid(old(local), old(shared)),
    ensures
        T::valid(final(local), final(shared)),
        T::decided(old(local), old(shared)) matches Some(outcome) ==> id == outcome,
        T::follows(old(local), old(shared), id, final(local), final(shared)),
        T::cached(old(local)) matches Some(held) ==> id == Ok::<T, IdError>(held) && *final(local)
            == *old(local) && *final(shared) == *old(shared),
        id matches Ok(issued) ==> T::cached(final(local)) == Some(issued),
        id is Err ==> T::cached(final(local)) is None,
{
    T::current(local, shared)
}

} // verus!
