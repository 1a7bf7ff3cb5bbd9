//! The identifier that is never reused.
//!
//! Fresh identifiers are drawn from one counter for the whole process. The
//! counter starts at one and only moves up, so a value that was drawn once is
//! never drawn again.
use core::cmp::Ordering;
use portable_atomic::AtomicU64;
use vstd::prelude::*;

use crate::counter::{drawn, fetch_advance, successor};
use crate::error::IdError;
use crate::locals::CacheSlot;

verus! {

/// A thread identifier that no other thread of the process ever receives,
/// whether that thread is alive or dead.
///
/// The value is a non-zero 64-bit integer.
#[derive(Clone, Copy, Debug, PartialEq, Eq, Structural, Hash, Ord)]
pub struct UniqueThreadId(u64);

impl View for UniqueThreadId {
    type V = u64;

    closed spec fn view(&self) -> u64 {
        self.0
    }
}

/// The integer value behind the outcome of a request.
pub open spec fn unique_value(outcome: Result<UniqueThreadId, IdError>) -> Result<u64, IdError> {
    match outcome {
        Ok(id) => Ok(id@),
        Err(e) => Err(e),
    }
}

/// What becomes of a draw: the value that it replaced is the identifier,
/// unless that value is the reserved zero; a draw that replaced nothing
/// found the counter used up.
pub open spec fn issued_value(fetched: Result<u64, u64>) -> Result<u64, IdError> {
    match fetched {
        Ok(value) => if value == 0 {
            Err(IdError::InvalidCounter)
        } else {
            Ok(value)
        },
        Err(_) => Err(IdError::Exhausted),
    }
}

/// The value that the `n`-th draw finds in a counter that started at `start`,
/// which is the value that it returns; `None` once the counter is used up.
pub open spec fn nth_drawn(start: u64, n: nat) -> Option<u64>
    decreases n,
{
    if n == 0 {
        Some(start)
    } else {
        match nth_drawn(start, (n - 1) as nat) {
            Some(value) => successor(value),
            None => None,
        }
    }
}

/// The `n`-th draw returns the start plus `n`, as long as that fits.
pub proof fn lemma_nth_drawn(start: u64, n: nat)
    ensures
        nth_drawn(start, n) == (if start + n <= u64::MAX {
            Some((start + n) as u64)
        } else {
            None
        }),
    decreases n,
{
    if n > 0 {
        lemma_nth_drawn(start, (n - 1) as nat);
    }
}

/// Two different draws from one counter never return the same value, however
/// far apart they are: what was issued once is not issued again.
pub proof fn lemma_draws_differ(start: u64, i: nat, j: nat)
    requires
        i != j,
        nth_drawn(start, i) is Some,
        nth_drawn(start, j) is Some,
    ensures
        nth_drawn(start, i) != nth_drawn(start, j),
        i < j ==> nth_drawn(start, i)->Some_0 < nth_drawn(start, j)->Some_0,
{
    lemma_nth_drawn(start, i);
    lemma_nth_drawn(start, j);
}

impl PartialOrd for UniqueThreadId {
    /// Identifiers are ordered as their integer values are.
    fn partial_cmp(&self, other: &UniqueThreadId) -> (order: Option<Ordering>) {
        if self.0 < other.0 {
            Some(Ordering::Less)
        } else if self.0 == other.0 {
            Some(Ordering::Equal)
        } else {
            Some(Ordering::Greater)
        }
    }
}

impl vstd::std_specs::cmp::PartialOrdSpecImpl for UniqueThreadId {
    open spec fn obeys_partial_cmp_spec() -> bool {
        true
    }

    open spec fn partial_cmp_spec(&self, other: &UniqueThreadId) -> Option<Ordering> {
        if self@ < other@ {
            Some(Ordering::Less)
        } else if self@ == other@ {
            Some(Ordering::Equal)
        } else {
            Some(Ordering::Greater)
        }
    }
}

impl UniqueThreadId {
    #[verifier::type_invariant]
    spec fn non_zero(self) -> bool {
        self.0 != 0
    }

    /// Identifiers with the same integer value are the same identifier, so
    /// comparing identifiers is comparing their values.
    pub proof fn lemma_value_determines_id(a: UniqueThreadId, b: UniqueThreadId)
        requires
            a@ == b@,
        ensures
            a == b,
    {
    }

    /// Rebuilds an identifier from its integer value.
    ///
    /// The value must come from [`UniqueThreadId::to_int`] in this run of the
    /// program; in particular it is not zero. Nothing checks where it came
    /// from: an invented value may equal the identifier of another thread.
    pub fn from_int(x: u64) -> (id: Self)
        requires
            x != 0,
        ensures
            id@ == x,
    {
        UniqueThreadId(x)
    }

    /// The integer value of the identifier.
    pub fn to_int(&self) -> (x: u64)
        ensures
            x == self@,
            x != 0,
    {
        proof {
            use_type_invariant(self);
        }
        self.0
    }

    /// Turns what a draw from the counter returned into an identifier.
    ///
    /// A draw that replaced a non-zero value yields that value. One that
    /// replaced zero found a counter that was not started at one, and one
    /// that replaced nothing found the counter used up.
    pub fn issue(fetched: Result<u64, u64>) -> (issued: Result<UniqueThreadId, IdError>)
        ensures
            unique_value(issued) == issued_value(fetched),
    {
        match fetched {
            Ok(value) => {
                if value == 0 {
                    Err(IdError::InvalidCounter)
                } else {
                    Ok(UniqueThreadId(value))
                }
            },
            Err(_) => Err(IdError::Exhausted),
        }
    }

    /// Draws a fresh identifier from `counter`.
    ///
    /// Which value the draw finds in the counter depends on the draws that
    /// other threads have made. Whatever it is, the result is what
    /// [`UniqueThreadId::issue`] makes of it.
    pub fn allocate(counter: &AtomicU64) -> (issued: Result<UniqueThreadId, IdError>)
        ensures
            exists|found: u64| unique_value(issued) == #[trigger] issued_value(drawn(found)),
    {
        let fetched = fetch_advance(counter);
        proof {
            match fetched {
                Ok(previous) => {
                    assert(fetched == drawn(previous));
                },
                Err(previous) => {
                    assert(fetched == drawn(previous));
                },
            }
        }
        Self::issue(fetched)
    }

    /// The identifier of the thread: the cached one, or a fresh one drawn
    /// from `counter`, which is cached from then on.
    ///
    /// A request that finds the slot filled does not touch the counter, and
    /// one that fails leaves the slot empty.
    pub fn current(slot: &mut CacheSlot<UniqueThreadId>, counter: &AtomicU64) -> (id: Result<
        UniqueThreadId,
        IdError,
    >)
        ensures
            old(slot)@ matches Some(held) ==> id == Ok::<UniqueThreadId, IdError>(held)
                && *final(slot) == *old(slot),
            old(slot)@ is None ==> exists|found: u64|
                unique_value(id) == #[trigger] issued_value(drawn(found)),
            old(slot)@ is None ==> final(slot)@ == (match id {
                Ok(fresh) => Some(fresh),
                Err(_) => None,
            }),
    {
        match slot.get() {
            None => {
                match Self::allocate(counter) {
                    Ok(id) => {
                        slot.set(Some(id));
                        Ok(id)
                    },
                    Err(e) => Err(e),
                }
            },
            Some(id) => Ok(id),
        }
    }
}

impl crate::IThreadId for UniqueThreadId {
    type Local = CacheSlot<UniqueThreadId>;

    type Shared = &'static AtomicU64;

    open spec fn valid(local: &CacheSlot<UniqueThreadId>, shared: &&'static AtomicU64) -> bool {
        true
    }

    open spec fn cached(local: &CacheSlot<UniqueThreadId>) -> Option<UniqueThreadId> {
        local@
    }

    open spec fn decided(local: &CacheSlot<UniqueThreadId>, shared: &&'static AtomicU64) -> Option<
        Result<UniqueThreadId, IdError>,
    > {
        match local@ {
            Some(held) => Some(Ok(held)),
            None => None,
        }
    }

    open spec fn follows(
        local: &CacheSlot<UniqueThreadId>,
        shared: &&'static AtomicU64,
        id: Result<UniqueThreadId, IdError>,
        local_after: &CacheSlot<UniqueThreadId>,
        shared_after: &&'static AtomicU64,
    ) -> bool {
        &&& *shared_after == *shared
        &&& local@ is Some ==> *local_after == *local
        &&& local@ is None ==> exists|found: u64|
            unique_value(id) == #[trigger] issued_value(drawn(found))
        &&& local@ is None ==> local_after@ == (match id {
            Ok(fresh) => Some(fresh),
            Err(_) => None,
        })
    }

    fn current(local: &mut CacheSlot<UniqueThreadId>, shared: &mut &'static AtomicU64) -> (id:
        Result<UniqueThreadId, IdError>) {
        UniqueThreadId::current(local, *shared)
    }
}

impl From<UniqueThreadId> for u64 {
    /// The integer value of the identifier.
    fn from(value: UniqueThreadId) -> (x: u64) {
        value.to_int()
    }
}

impl vstd::std_specs::convert::FromSpecImpl<UniqueThreadId> for u64 {
    open spec fn obeys_from_spec() -> bool {
        true
    }

    open spec fn from_spec(value: UniqueThreadId) -> u64 {
        value@
    }
}

} // verus!
