//! The identifier that is reused once its thread has died.
//!
//! [`ThreadIdAllocator`] is the process-wide state: a low-water mark of
//! identifiers never issued, and the identifiers that were issued and have
//! come back. [`LiveLocal`] is what each thread keeps: its cached identifier
//! and the hook that returns the identifier when the thread ends.
use core::cmp::Ordering;
use nonmax::NonMaxUsize;
use vstd::prelude::*;

use crate::error::IdError;
use crate::heap::MinHeap;
use crate::locals::CacheSlot;
use crate::model::{
    least, lemma_alloc_is_fresh, lemma_least_is_minimum, AllocatorState, LocalState,
};
use crate::utils::OnceCell;

verus! {

/// Identifies a live thread.
///
/// No two threads that are alive at the same time hold the same identifier,
/// but the identifier of a dead thread is given out again. The allocator
/// keeps the integer values as small as it can, so that they serve as indices
/// into a vector of live threads.
///
/// The value is any `usize` but `usize::MAX`; zero is a valid identifier.
#[derive(Copy, Clone, Debug, Eq, PartialEq, Structural, Ord, Hash)]
pub struct LiveThreadId(usize);

impl View for LiveThreadId {
    type V = usize;

    closed spec fn view(&self) -> usize {
        self.0
    }
}

impl PartialOrd for LiveThreadId {
    /// Identifiers are ordered as their integer values are.
    fn partial_cmp(&self, other: &LiveThreadId) -> (order: Option<Ordering>) {
        if self.0 < other.0 {
            Some(Ordering::Less)
        } else if self.0 == other.0 {
            Some(Ordering::Equal)
        } else {
            Some(Ordering::Greater)
        }
    }
}

impl vstd::std_specs::cmp::PartialOrdSpecImpl for LiveThreadId {
    open spec fn obeys_partial_cmp_spec() -> bool {
        true
    }

    open spec fn partial_cmp_spec(&self, other: &LiveThreadId) -> Option<Ordering> {
        if self@ < other@ {
            Some(Ordering::Less)
        } else if self@ == other@ {
            Some(Ordering::Equal)
        } else {
            Some(Ordering::Greater)
        }
    }
}

impl LiveThreadId {
    #[verifier::type_invariant]
    spec fn non_max(self) -> bool {
        self.0 < usize::MAX
    }

    /// The identifier whose integer value is `value`.
    pub closed spec fn with_value(value: usize) -> LiveThreadId {
        LiveThreadId(value)
    }

    /// [`LiveThreadId::with_value`] is the inverse of the view.
    pub proof fn lemma_with_value(value: usize)
        ensures
            Self::with_value(value)@ == value,
    {
    }

    /// Identifiers with the same integer value are the same identifier, so
    /// comparing identifiers is comparing their values.
    pub proof fn lemma_value_determines_id(a: LiveThreadId, b: LiveThreadId)
        requires
            a@ == b@,
        ensures
            a == b,
    {
    }

    /// The integer value of the identifier. Same as [`LiveThreadId::to_int`].
    pub fn index(self) -> (i: usize)
        ensures
            i == self@,
            i < usize::MAX,
    {
        proof {
            use_type_invariant(self);
        }
        self.0
    }

    /// The integer value of the identifier, which is never `usize::MAX`.
    pub fn to_int(self) -> (i: usize)
        ensures
            i == self@,
            i < usize::MAX,
    {
        proof {
            use_type_invariant(self);
        }
        self.0
    }
}

/// `NonMaxUsize::new` and `NonMaxUsize::get` of the `nonmax` crate: `new`
/// refuses `usize::MAX` and nothing else, and `get` gives back the integer
/// that the value was made from.
#[verifier::external_body]
fn non_max(value: usize) -> (accepted: Option<usize>)
    ensures
        accepted == (if value == usize::MAX {
            None::<usize>
        } else {
            Some(value)
        }),
{
    match NonMaxUsize::new(value) {
        Some(n) => Some(n.get()),
        None => None,
    }
}

/// The mark that follows `mark`, unless that would be the reserved value.
fn next_mark(mark: usize) -> (above: Option<usize>)
    ensures
        above == (if mark + 1 < usize::MAX {
            Some((mark + 1) as usize)
        } else {
            None::<usize>
        }),
{
    match mark.checked_add(1) {
        Some(above) => non_max(above),
        None => None,
    }
}

/// Hands out identifiers and takes them back, preferring the smallest
/// released identifier over a fresh one.
pub struct ThreadIdAllocator {
    next_id: usize,
    free_list: MinHeap,
}

impl View for ThreadIdAllocator {
    type V = AllocatorState;

    closed spec fn view(&self) -> AllocatorState {
        AllocatorState { next_id: self.next_id, free: self.free_list@.dom() }
    }
}

impl ThreadIdAllocator {
    /// The free list is a heap that holds no identifier twice.
    pub closed spec fn free_list_wf(&self) -> bool {
        &&& self.free_list.wf()
        &&& forall|v: usize| self.free_list@.count(v) <= 1
    }

    /// The free list and the state that the allocator stands for are valid.
    pub open spec fn wf(&self) -> bool {
        &&& self.free_list_wf()
        &&& self@.wf()
    }

    /// An allocator that has issued nothing.
    pub fn new() -> (allocator: Self)
        ensures
            allocator.wf(),
            allocator@ == AllocatorState::initial(),
    {
        let allocator = ThreadIdAllocator { next_id: 0, free_list: MinHeap::new() };
        proof {
            broadcast use vstd::multiset::group_multiset_axioms;

            assert(allocator.free_list@.dom() =~= Set::<usize>::empty());
        }
        allocator
    }

    /// An allocator whose mark stands at `mark`: the identifiers below it
    /// count as issued and assigned, and none is free. There is no such
    /// allocator for the reserved value `usize::MAX`.
    pub fn starting_at(mark: usize) -> (allocator: Option<Self>)
        ensures
            mark == usize::MAX <==> allocator is None,
            allocator matches Some(a) ==> a.wf() && a@ == (AllocatorState {
                next_id: mark,
                free: Set::empty(),
            }),
    {
        match non_max(mark) {
            Some(next_id) => {
                let allocator = ThreadIdAllocator { next_id, free_list: MinHeap::new() };
                proof {
                    broadcast use vstd::multiset::group_multiset_axioms;

                    assert(allocator.free_list@.dom() =~= Set::<usize>::empty());
                }
                Some(allocator)
            },
            None => None,
        }
    }

    /// Whether `id` is assigned to a thread. Takes time linear in the number
    /// of free identifiers.
    pub fn is_live(&self, id: LiveThreadId) -> (live: bool)
        requires
            self.wf(),
        ensures
            live == self@.is_live(id@),
    {
        let value = id.to_int();
        value < self.next_id && !self.free_list.contains(value)
    }

    /// Whether the allocator is exhausted: nothing is free and the mark
    /// cannot advance. An allocation is then a fatal error, and the caller
    /// must not attempt it.
    pub fn is_exhausted(&self) -> (exhausted: bool)
        requires
            self.wf(),
        ensures
            exhausted == self@.exhausted(),
    {
        proof {
            lemma_dom_len(self.free_list@);
        }
        self.free_list.is_empty() && next_mark(self.next_id).is_none()
    }

    /// Issues an identifier: the smallest free one where there is any, else
    /// the mark, which then moves up by one. The identifier is one that no
    /// thread holds.
    ///
    /// The allocator must not be exhausted.
    pub fn allocate(&mut self) -> (issued: LiveThreadId)
        requires
            old(self).wf(),
            !old(self)@.exhausted(),
        ensures
            final(self).wf(),
            issued@ == old(self)@.next(),
            final(self)@ == old(self)@.after_alloc(),
            !old(self)@.is_live(issued@),
            final(self)@.is_live(issued@),
    {
        proof {
            broadcast use vstd::multiset::group_multiset_axioms;

            lemma_alloc_is_fresh(self@);
            lemma_dom_len(self.free_list@);
        }
        let ghost before = self.free_list@;
        match self.free_list.pop() {
            Some(existing) => {
                proof {
                    lemma_least_is_minimum(before.dom());
                    assert(before.count(least(before.dom())) > 0);
                    assert(before.dom().contains(existing));
                    assert(existing == least(before.dom()));
                    assert(self.free_list@.dom() =~= before.dom().remove(existing));
                }
                LiveThreadId(existing)
            },
            None => {
                let id = self.next_id;
                match next_mark(id) {
                    Some(mark) => {
                        self.next_id = mark;
                        LiveThreadId(id)
                    },
                    None => unreached(),
                }
            },
        }
    }

    /// Takes back `id`, which must be assigned, so that it can be issued
    /// again.
    pub fn release(&mut self, id: LiveThreadId)
        requires
            old(self).wf(),
            old(self)@.is_live(id@),
        ensures
            final(self).wf(),
            final(self)@ == old(self)@.after_release(id@),
    {
        let value = id.to_int();
        proof {
            broadcast use vstd::multiset::group_multiset_axioms;

            assert(self.free_list@.insert(value).dom() =~= self.free_list@.dom().insert(value));
        }
        self.free_list.push(value);
    }

    /// Takes back `id` if it is assigned, and reports whether it was. An
    /// identifier that was never issued, or that is free already, changes
    /// nothing.
    pub fn try_release(&mut self, id: LiveThreadId) -> (released: bool)
        requires
            old(self).wf(),
        ensures
            final(self).wf(),
            released == old(self)@.is_live(id@),
            released ==> final(self)@ == old(self)@.after_release(id@),
            !released ==> final(self)@ == old(self)@,
    {
        if self.is_live(id) {
            self.release(id);
            true
        } else {
            false
        }
    }
}

/// The state that a lock-guarded allocator stands for: one that was never
/// touched is the initial state.
pub open spec fn shared_state(shared: Option<ThreadIdAllocator>) -> AllocatorState {
    match shared {
        Some(allocator) => allocator@,
        None => AllocatorState::initial(),
    }
}

/// The allocator behind the lock, where there is one, is valid.
pub open spec fn shared_wf(shared: Option<ThreadIdAllocator>) -> bool {
    shared matches Some(allocator) ==> allocator.wf()
}

impl ThreadIdAllocator {
    /// The allocator behind the lock, made on first use.
    pub fn lazy_init(lock: &mut Option<ThreadIdAllocator>) -> (allocator: &mut ThreadIdAllocator)
        requires
            shared_wf(*old(lock)),
        ensures
            allocator.wf(),
            allocator@ == shared_state(*old(lock)),
            *final(lock) == Some(*final(allocator)),
    {
        if lock.is_none() {
            *lock = Some(ThreadIdAllocator::new());
        }
        match lock {
            Some(allocator) => allocator,
            None => unreached(),
        }
    }
}

/// What a thread's release hook carries: the identifier to give back when
/// the thread ends.
pub struct ThreadGuard {
    id: LiveThreadId,
}

impl View for ThreadGuard {
    type V = usize;

    closed spec fn view(&self) -> usize {
        self.id@
    }
}

/// The integer value behind an identifier that may be absent.
pub open spec fn id_value(id: Option<LiveThreadId>) -> Option<usize> {
    match id {
        Some(id) => Some(id@),
        None => None,
    }
}

/// The integer value behind the outcome of a request.
pub open spec fn outcome_value(outcome: Result<LiveThreadId, IdError>) -> Result<usize, IdError> {
    match outcome {
        Ok(id) => Ok(id@),
        Err(e) => Err(e),
    }
}

/// What each thread keeps for the reuse strategy: the cache slot and the
/// slot of the release hook.
pub struct LiveLocal {
    cache: CacheSlot<LiveThreadId>,
    guard: OnceCell<ThreadGuard>,
    destroyed: bool,
}

impl View for LiveLocal {
    type V = LocalState;

    closed spec fn view(&self) -> LocalState {
        LocalState {
            cached: id_value(self.cache@),
            hook: match self.guard@ {
                Some(guard) => Some(guard@),
                None => None,
            },
            destroyed: self.destroyed,
        }
    }
}

/// The thread's state and the allocator fit together: both are valid, and
/// the identifier that the thread's hook holds is assigned.
pub open spec fn live_valid(local: LiveLocal, shared: Option<ThreadIdAllocator>) -> bool {
    &&& local@.wf()
    &&& shared_wf(shared)
    &&& local@.hook matches Some(id) ==> shared_state(shared).is_live(id)
}

impl LiveLocal {
    /// The identifier in the cache slot.
    pub closed spec fn cached_id(&self) -> Option<LiveThreadId> {
        self.cache@
    }

    /// The state of a thread that has not asked for its identifier yet.
    pub fn new() -> (local: Self)
        ensures
            local@ == LocalState::fresh(),
    {
        LiveLocal { cache: CacheSlot::new(), guard: OnceCell::new(), destroyed: false }
    }

    /// The identifier in the cache slot.
    pub fn cached(&self) -> (held: Option<LiveThreadId>)
        ensures
            held == self.cached_id(),
            id_value(held) == self@.cached,
    {
        self.cache.get()
    }

    /// The identifier that the release hook holds.
    pub fn hook(&self) -> (held: Option<LiveThreadId>)
        ensures
            id_value(held) == self@.hook,
    {
        match self.guard.get() {
            Some(guard) => Some(guard.id),
            None => None,
        }
    }

    /// Whether the teardown has run.
    pub fn is_destroyed(&self) -> (gone: bool)
        ensures
            gone == self@.destroyed,
    {
        self.destroyed
    }

    /// Why an allocation for this thread would be a fatal error, if it would
    /// be one: the teardown has run, or a hook is installed already, or the
    /// allocator is exhausted, looked at in this order. `None` where the
    /// allocation can go ahead.
    pub fn refusal(&self, shared: &Option<ThreadIdAllocator>) -> (fatal: Option<IdError>)
        requires
            shared_wf(*shared),
        ensures
            fatal == self@.refusal(shared_state(*shared)),
    {
        if self.destroyed {
            Some(IdError::ThreadDestroyed)
        } else if self.guard.get().is_some() {
            Some(IdError::AlreadyInitialized)
        } else {
            let exhausted = match shared {
                Some(allocator) => allocator.is_exhausted(),
                None => false,
            };
            if exhausted {
                Some(IdError::Exhausted)
            } else {
                None
            }
        }
    }

    /// Runs the release hook at the end of the thread: the cache slot is
    /// emptied and the identifier goes back to the allocator. A thread
    /// without a hook only becomes destroyed, and the allocator is not
    /// touched.
    pub fn teardown(&mut self, shared: &mut Option<ThreadIdAllocator>)
        requires
            live_valid(*old(self), *old(shared)),
        ensures
            live_valid(*final(self), *final(shared)),
            final(self)@ == LocalState::gone(),
            shared_state(*final(shared)) == shared_state(*old(shared)).after_exit(old(self)@),
            old(self)@.hook is None ==> *final(shared) == *old(shared),
    {
        match self.guard.take() {
            Some(guard) => {
                self.cache.set(None);
                self.destroyed = true;
                let allocator = ThreadIdAllocator::lazy_init(shared);
                allocator.release(guard.id);
            },
            None => {
                self.destroyed = true;
            },
        }
    }
}

impl LiveThreadId {
    /// Issues an identifier to the thread and installs the thread's release
    /// hook. The cache slot is not touched.
    ///
    /// The allocation must not be refused: on a thread whose teardown has
    /// run, on one whose hook is installed already, and on an exhausted
    /// allocator it is a fatal error, which [`LiveLocal::refusal`] tells
    /// beforehand.
    pub fn allocate(local: &mut LiveLocal, shared: &mut Option<ThreadIdAllocator>) -> (issued:
        LiveThreadId)
        requires
            live_valid(*old(local), *old(shared)),
            old(local)@.refusal(shared_state(*old(shared))) is None,
        ensures
            live_valid(*final(local), *final(shared)),
            issued@ == shared_state(*old(shared)).next(),
            final(local)@ == LocalState::hooked(issued@),
            final(local).cached_id() == old(local).cached_id(),
            shared_state(*final(shared)) == shared_state(*old(shared)).after_alloc(),
    {
        let allocator = ThreadIdAllocator::lazy_init(shared);
        let new_id = allocator.allocate();
        let installed = local.guard.set(ThreadGuard { id: new_id });
        assert(installed is Ok);
        new_id
    }

    /// The identifier of the thread: the cached one, or a newly issued one,
    /// which is cached from then on.
    ///
    /// A request that finds the cache slot filled changes nothing. One that
    /// finds it empty allocates, and must not be refused: see
    /// [`LiveThreadId::allocate`].
    pub fn current(local: &mut LiveLocal, shared: &mut Option<ThreadIdAllocator>) -> (id:
        LiveThreadId)
        requires
            live_valid(*old(local), *old(shared)),
            old(local)@.request(shared_state(*old(shared))) is Ok,
        ensures
            live_valid(*final(local), *final(shared)),
            Ok::<usize, IdError>(id@) == old(local)@.request(shared_state(*old(shared))),
            final(local)@ == old(local)@.after_request(shared_state(*old(shared))),
            shared_state(*final(shared)) == shared_state(*old(shared)).after_request(old(local)@),
            old(local).cached_id() matches Some(held) ==> id == held
                && *final(local) == *old(local) && *final(shared) == *old(shared),
            final(local).cached_id() == Some(id),
    {
        match local.cache.get() {
            Some(existing) => existing,
            None => {
                let new_id = Self::allocate(local, shared);
                local.cache.set(Some(new_id));
                new_id
            },
        }
    }
}

impl crate::IThreadId for LiveThreadId {
    type Local = LiveLocal;

    type Shared = Option<ThreadIdAllocator>;

    open spec fn valid(local: &LiveLocal, shared: &Option<ThreadIdAllocator>) -> bool {
        live_valid(*local, *shared) && local@.request(shared_state(*shared)) is Ok
    }

    open spec fn cached(local: &LiveLocal) -> Option<LiveThreadId> {
        local.cached_id()
    }

    open spec fn decided(local: &LiveLocal, shared: &Option<ThreadIdAllocator>) -> Option<
        Result<LiveThreadId, IdError>,
    > {
        Some(
            match local@.request(shared_state(*shared)) {
                Ok(value) => Ok(LiveThreadId::with_value(value)),
                Err(e) => Err(e),
            },
        )
    }

    open spec fn follows(
        local: &LiveLocal,
        shared: &Option<ThreadIdAllocator>,
        id: Result<LiveThreadId, IdError>,
        local_after: &LiveLocal,
        shared_after: &Option<ThreadIdAllocator>,
    ) -> bool {
        &&& local_after@ == local@.after_request(shared_state(*shared))
        &&& shared_state(*shared_after) == shared_state(*shared).after_request(local@)
    }

    fn current(local: &mut LiveLocal, shared: &mut Option<ThreadIdAllocator>) -> (id: Result<
        LiveThreadId,
        IdError,
    >) {
        Ok(LiveThreadId::current(local, shared))
    }
}

/// The domain of a multiset is finite, and empty exactly when the multiset is.
proof fn lemma_dom_len(m: vstd::multiset::Multiset<usize>)
    ensures
        m.dom().finite(),
        m.len() == 0 <==> m.dom().len() == 0,
{
    broadcast use vstd::multiset::group_multiset_axioms;

    if m.len() == 0 {
        assert(m.dom() =~= Set::<usize>::empty());
    } else {
        let x = m.choose();
        assert(m.dom().contains(x));
        if m.dom().len() == 0 {
            assert(m.dom() =~= Set::<usize>::empty());
        }
    }
}

} // verus!
