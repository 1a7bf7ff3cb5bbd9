//! The strategies as mathematical state machines, and what holds of them.
//!
//! [`AllocatorState`] and [`LocalState`] are the values that the contracts of
//! the reuse strategy speak of. [`ProcessState`] puts the threads of a
//! process, the reuse allocator and the counter of unique identifiers side by
//! side, with one transition for each thing that a thread can do; the lemmas
//! at the end state what holds in every state that a process can reach.
use vstd::prelude::*;

use crate::counter::{drawn, successor, FIRST_ID};
use crate::error::IdError;
use crate::unique::issued_value;

verus! {

/// The least element of a non-empty set of integers.
pub open spec fn least(s: Set<usize>) -> usize {
    choose|m: usize| s.contains(m) && forall|v: usize| s.contains(v) ==> m <= v
}

/// A non-empty finite set of integers has a least element.
pub proof fn lemma_least_is_minimum(s: Set<usize>)
    requires
        s.finite(),
        s.len() > 0,
    ensures
        s.contains(least(s)),
        forall|v: usize| s.contains(v) ==> least(s) <= v,
    decreases s.len(),
{
    let x = s.choose();
    let rest = s.remove(x);
    if rest.len() == 0 {
        assert forall|v: usize| s.contains(v) implies v == x by {
            if v != x {
                assert(rest.contains(v));
            }
        }
        assert(s.contains(x) && forall|v: usize| s.contains(v) ==> x <= v);
    } else {
        lemma_least_is_minimum(rest);
        let r = least(rest);
        let m = if x <= r {
            x
        } else {
            r
        };
        assert forall|v: usize| s.contains(v) implies m <= v by {
            if v != x {
                assert(rest.contains(v));
            }
        }
        assert(s.contains(m) && forall|v: usize| s.contains(v) ==> m <= v);
    }
}

/// The reuse allocator as a mathematical value.
#[verifier::ext_equal]
pub struct AllocatorState {
    /// Every identifier below this mark has been issued at least once; none
    /// at or above it ever was.
    pub next_id: usize,
    /// The identifiers that were issued and have been released since.
    pub free: Set<usize>,
}

impl AllocatorState {
    /// The state before anything was issued.
    pub open spec fn initial() -> AllocatorState {
        AllocatorState { next_id: 0, free: Set::empty() }
    }

    /// The mark leaves room for the reserved value, and only identifiers that
    /// were issued are free.
    pub open spec fn wf(self) -> bool {
        &&& self.free.finite()
        &&& self.next_id < usize::MAX
        &&& forall|v: usize| self.free.contains(v) ==> v < self.next_id
    }

    /// `id` is assigned to a thread: it was issued and is not free.
    pub open spec fn is_live(self, id: usize) -> bool {
        id < self.next_id && !self.free.contains(id)
    }

    /// The identifiers that are assigned to threads.
    pub open spec fn live(self) -> Set<usize> {
        Set::new(|id: usize| self.is_live(id))
    }

    /// Nothing is free and no fresh identifier can be made: the mark cannot
    /// advance without reaching the reserved value.
    pub open spec fn exhausted(self) -> bool {
        self.free.len() == 0 && self.next_id + 1 == usize::MAX
    }

    /// The identifier that the next allocation issues: the least free one, or
    /// the mark where none is free.
    pub open spec fn next(self) -> usize {
        if self.free.len() > 0 {
            least(self.free)
        } else {
            self.next_id
        }
    }

    /// The state after an allocation that succeeded.
    pub open spec fn after_alloc(self) -> AllocatorState {
        if self.free.len() > 0 {
            AllocatorState { next_id: self.next_id, free: self.free.remove(least(self.free)) }
        } else {
            AllocatorState { next_id: (self.next_id + 1) as usize, free: self.free }
        }
    }

    /// The state after `id` was released.
    pub open spec fn after_release(self, id: usize) -> AllocatorState {
        AllocatorState { next_id: self.next_id, free: self.free.insert(id) }
    }

    /// The state after a thread in state `local` asked for its identifier.
    pub open spec fn after_request(self, local: LocalState) -> AllocatorState {
        if local.cached is None && local.refusal(self) is None {
            self.after_alloc()
        } else {
            self
        }
    }

    /// The state after the teardown of a thread in state `local`.
    pub open spec fn after_exit(self, local: LocalState) -> AllocatorState {
        match local.hook {
            Some(id) => self.after_release(id),
            None => self,
        }
    }
}

/// What a thread keeps for the reuse strategy, as a mathematical value.
pub struct LocalState {
    /// The identifier in the thread's cache slot.
    pub cached: Option<usize>,
    /// The identifier that the installed release hook holds.
    pub hook: Option<usize>,
    /// The thread's teardown has run.
    pub destroyed: bool,
}

impl LocalState {
    /// A thread that has not asked for its identifier yet.
    pub open spec fn fresh() -> LocalState {
        LocalState { cached: None, hook: None, destroyed: false }
    }

    /// A thread whose teardown has run.
    pub open spec fn gone() -> LocalState {
        LocalState { cached: None, hook: None, destroyed: true }
    }

    /// A thread whose hook holds `id` and whose cache slot is still empty.
    pub open spec fn hooked(id: usize) -> LocalState {
        LocalState { cached: None, hook: Some(id), destroyed: false }
    }

    /// A thread that holds `id`.
    pub open spec fn holding(id: usize) -> LocalState {
        LocalState { cached: Some(id), hook: Some(id), destroyed: false }
    }

    /// A cached identifier is the one that the hook holds, and nothing is
    /// held once the teardown has run.
    pub open spec fn wf(self) -> bool {
        &&& self.cached matches Some(c) ==> self.hook == Some(c)
        &&& self.destroyed ==> self.hook is None
    }

    /// Why an allocation for the thread is a fatal error, when the allocator
    /// is in state `shared`; `None` where it can go ahead. A thread after
    /// its teardown comes first, then a hook that is installed already, then
    /// an exhausted allocator.
    pub open spec fn refusal(self, shared: AllocatorState) -> Option<IdError> {
        if self.destroyed {
            Some(IdError::ThreadDestroyed)
        } else if self.hook is Some {
            Some(IdError::AlreadyInitialized)
        } else if shared.exhausted() {
            Some(IdError::Exhausted)
        } else {
            None
        }
    }

    /// What an allocation for the thread comes to: the next identifier of
    /// the allocator, or the fatal error that stands in its way.
    pub open spec fn allocation(self, shared: AllocatorState) -> Result<usize, IdError> {
        match self.refusal(shared) {
            Some(e) => Err(e),
            None => Ok(shared.next()),
        }
    }

    /// What a request for the thread's identifier comes to: the cached
    /// identifier, or what the allocation comes to.
    pub open spec fn request(self, shared: AllocatorState) -> Result<usize, IdError> {
        match self.cached {
            Some(held) => Ok(held),
            None => self.allocation(shared),
        }
    }

    /// The thread's state after it asked for its identifier. A request that
    /// ends in a fatal error changes nothing.
    pub open spec fn after_request(self, shared: AllocatorState) -> LocalState {
        if self.cached is None && self.refusal(shared) is None {
            LocalState::holding(shared.next())
        } else {
            self
        }
    }
}

/// An allocation issues an identifier that no thread holds, and changes the
/// set of assigned identifiers by that identifier alone.
pub proof fn lemma_alloc_is_fresh(s: AllocatorState)
    requires
        s.wf(),
        !s.exhausted(),
    ensures
        s.after_alloc().wf(),
        !s.is_live(s.next()),
        s.after_alloc().is_live(s.next()),
        s.after_alloc().live() == s.live().insert(s.next()),
{
    if s.free.len() > 0 {
        lemma_least_is_minimum(s.free);
    }
    assert(s.after_alloc().live() =~= s.live().insert(s.next()));
}

/// A release takes one identifier out of the set of assigned identifiers and
/// leaves the others in it.
pub proof fn lemma_release_frees_one(s: AllocatorState, id: usize)
    requires
        s.wf(),
        s.is_live(id),
    ensures
        s.after_release(id).wf(),
        !s.after_release(id).exhausted(),
        s.after_release(id).live() == s.live().remove(id),
{
    assert(s.after_release(id).live() =~= s.live().remove(id));
    assert(s.after_release(id).free.contains(id));
}

/// While any identifier is free, an allocation issues the smallest free one
/// and mints nothing: the mark stays where it is.
pub proof fn lemma_alloc_takes_least(s: AllocatorState)
    requires
        s.wf(),
        s.free.len() > 0,
    ensures
        s.free.contains(s.next()),
        forall|v: usize| s.free.contains(v) ==> s.next() <= v,
        s.next() < s.next_id,
        s.after_alloc().next_id == s.next_id,
        s.after_alloc().free == s.free.remove(s.next()),
{
    lemma_least_is_minimum(s.free);
}

/// The order in which identifiers are released does not matter.
pub proof fn lemma_release_order_is_irrelevant(s: AllocatorState, a: usize, b: usize)
    ensures
        s.after_release(a).after_release(b) == s.after_release(b).after_release(a),
{
    assert(s.after_release(a).after_release(b) =~= s.after_release(b).after_release(a));
}

/// After `a` and `b` were released, in whichever order, the next allocation
/// issues an identifier that is no larger than either: the smaller of the
/// two where nothing else was free.
pub proof fn lemma_alloc_after_releases(s: AllocatorState, a: usize, b: usize)
    requires
        s.wf(),
        s.is_live(a),
        s.is_live(b),
        a != b,
    ensures
        s.after_release(a).after_release(b).next() <= a,
        s.after_release(a).after_release(b).next() <= b,
        s.free.len() == 0 ==> s.after_release(a).after_release(b).next() == (if a < b {
            a
        } else {
            b
        }),
{
    let t = s.after_release(a).after_release(b);
    assert(t.free.contains(a) && t.free.contains(b));
    lemma_least_is_minimum(t.free);
    if s.free.len() == 0 {
        assert forall|v: usize| t.free.contains(v) implies v == a || v == b by {
            if v != a && v != b {
                assert(s.free.contains(v));
            }
        }
    }
}

/// An identifier that was released is issued again before any identifier
/// above it, and at once where nothing else is free: the allocator is then
/// back in the state in which the identifier was assigned.
pub proof fn lemma_released_is_reused(s: AllocatorState, k: usize)
    requires
        s.wf(),
        s.is_live(k),
    ensures
        !s.after_release(k).exhausted(),
        s.after_release(k).next() <= k,
        s.after_release(k).next() < s.next_id,
        s.free.len() == 0 ==> s.after_release(k).next() == k && s.after_release(k).after_alloc()
            == s,
{
    let t = s.after_release(k);
    assert(t.free.contains(k));
    lemma_least_is_minimum(t.free);
    if s.free.len() == 0 {
        assert forall|v: usize| t.free.contains(v) implies v == k by {
            if v != k {
                assert(s.free.contains(v));
            }
        }
        assert(t.after_alloc().free =~= s.free);
        assert(t.after_alloc() =~= s);
    }
}

/// What one thread keeps for both strategies.
pub struct ThreadState {
    /// The thread's state under the reuse strategy.
    pub live: LocalState,
    /// The unique identifier in the thread's cache slot.
    pub unique: Option<u64>,
}

/// What a thread can do. Each step names the thread by its key.
pub enum Step {
    /// The thread starts.
    Spawn(int),
    /// The thread asks for its reuse identifier.
    RequestLive(int),
    /// The thread asks for its unique identifier.
    RequestUnique(int),
    /// The thread ends, and its release hook runs.
    Exit(int),
}

/// A process: its threads, dead ones included, the reuse allocator and the
/// counter of unique identifiers.
#[verifier::ext_equal]
pub struct ProcessState {
    /// Every thread that was started, by a key that is never used twice.
    pub threads: Map<int, ThreadState>,
    /// The reuse allocator.
    pub reuse: AllocatorState,
    /// The next unique identifier.
    pub counter: u64,
}

impl ProcessState {
    /// A process in which no thread was started yet.
    pub open spec fn initial() -> ProcessState {
        ProcessState {
            threads: Map::empty(),
            reuse: AllocatorState::initial(),
            counter: FIRST_ID,
        }
    }

    /// What thread `t` gets when it asks for its reuse identifier.
    pub open spec fn live_request(self, t: int) -> Result<usize, IdError> {
        self.threads[t].live.request(self.reuse)
    }

    /// What thread `t` gets when it asks for its unique identifier.
    pub open spec fn unique_request(self, t: int) -> Result<u64, IdError> {
        match self.threads[t].unique {
            Some(held) => Ok(held),
            None => issued_value(drawn(self.counter)),
        }
    }

    /// The process after thread `t`, which is running, asked for its reuse
    /// identifier.
    pub open spec fn after_live_request(self, t: int) -> ProcessState {
        let thread = self.threads[t];
        ProcessState {
            threads: self.threads.insert(
                t,
                ThreadState { live: thread.live.after_request(self.reuse), unique: thread.unique },
            ),
            reuse: self.reuse.after_request(thread.live),
            counter: self.counter,
        }
    }

    /// The process after thread `t`, which is running, asked for its unique
    /// identifier. A draw moves the counter, also where what it found cannot
    /// be issued; a cached identifier does not.
    pub open spec fn after_unique_request(self, t: int) -> ProcessState {
        let thread = self.threads[t];
        if thread.unique is Some {
            self
        } else {
            ProcessState {
                threads: match issued_value(drawn(self.counter)) {
                    Ok(fresh) => self.threads.insert(
                        t,
                        ThreadState { live: thread.live, unique: Some(fresh) },
                    ),
                    Err(_) => self.threads,
                },
                reuse: self.reuse,
                counter: match successor(self.counter) {
                    Some(above) => above,
                    None => self.counter,
                },
            }
        }
    }

    /// The process after thread `t`, which is running, has ended.
    pub open spec fn after_exit(self, t: int) -> ProcessState {
        let thread = self.threads[t];
        ProcessState {
            threads: self.threads.insert(
                t,
                ThreadState { live: LocalState::gone(), unique: thread.unique },
            ),
            reuse: self.reuse.after_exit(thread.live),
            counter: self.counter,
        }
    }

    /// The process after `step`. A step of a thread that was never started,
    /// and the start of one that was, change nothing.
    pub open spec fn after(self, step: Step) -> ProcessState {
        match step {
            Step::Spawn(t) => if self.threads.dom().contains(t) {
                self
            } else {
                ProcessState {
                    threads: self.threads.insert(
                        t,
                        ThreadState { live: LocalState::fresh(), unique: None },
                    ),
                    reuse: self.reuse,
                    counter: self.counter,
                }
            },
            Step::RequestLive(t) => if self.threads.dom().contains(t) {
                self.after_live_request(t)
            } else {
                self
            },
            Step::RequestUnique(t) => if self.threads.dom().contains(t) {
                self.after_unique_request(t)
            } else {
                self
            },
            Step::Exit(t) => if self.threads.dom().contains(t) {
                self.after_exit(t)
            } else {
                self
            },
        }
    }

    /// Thread `t` fits the shared state: what its hook holds is assigned, and
    /// its unique identifier is one that the counter has passed.
    pub open spec fn fits(self, t: int) -> bool {
        let thread = self.threads[t];
        &&& thread.live.wf()
        &&& thread.live.hook matches Some(id) ==> self.reuse.is_live(id)
        &&& thread.unique matches Some(u) ==> FIRST_ID <= u < self.counter
    }

    /// What thread `t1` holds, thread `t2` does not hold.
    pub open spec fn apart(self, t1: int, t2: int) -> bool {
        &&& self.threads[t1].live.hook is Some ==> self.threads[t1].live.hook
            != self.threads[t2].live.hook
        &&& self.threads[t1].unique is Some ==> self.threads[t1].unique != self.threads[t2].unique
    }

    /// The release hook of thread `t` holds the reuse identifier `id`.
    pub open spec fn holds(self, t: int, id: usize) -> bool {
        self.threads.dom().contains(t) && self.threads[t].live.hook == Some(id)
    }

    /// What holds of every state that a process reaches: the allocator is
    /// valid, every thread fits it, no two threads hold the same identifier,
    /// and every assigned reuse identifier is held by a thread. For the
    /// reuse strategy the third is a statement about threads that are
    /// alive, because a dead thread holds nothing; for the unique strategy
    /// it includes the dead.
    ///
    /// So every reuse identifier below the allocator's mark is either held
    /// by exactly one thread or free, and never both.
    pub open spec fn inv(self) -> bool {
        &&& self.reuse.wf()
        &&& self.counter >= FIRST_ID
        &&& forall|t: int| self.threads.dom().contains(t) ==> #[trigger] self.fits(t)
        &&& forall|t1: int, t2: int|
            self.threads.dom().contains(t1) && self.threads.dom().contains(t2) && t1 != t2
                ==> #[trigger] self.apart(t1, t2)
        &&& forall|id: usize| #[trigger]
            self.reuse.is_live(id) ==> exists|t: int| #[trigger] self.holds(t, id)
    }
}

impl Step {
    /// The thread that takes the step.
    pub open spec fn thread(self) -> int {
        match self {
            Step::Spawn(t) => t,
            Step::RequestLive(t) => t,
            Step::RequestUnique(t) => t,
            Step::Exit(t) => t,
        }
    }
}

/// The invariant holds before any thread was started.
pub proof fn lemma_initial_inv()
    ensures
        ProcessState::initial().inv(),
{
}

/// The start of a thread keeps the invariant.
pub proof fn lemma_spawn_keeps_inv(p: ProcessState, t: int)
    requires
        p.inv(),
    ensures
        p.after(Step::Spawn(t)).inv(),
{
    let q = p.after(Step::Spawn(t));
    assert forall|u: int| q.threads.dom().contains(u) implies #[trigger] q.fits(u) by {
        if u != t {
            assert(p.fits(u));
        }
    }
    assert forall|t1: int, t2: int|
        q.threads.dom().contains(t1) && q.threads.dom().contains(t2) && t1
            != t2 implies #[trigger] q.apart(t1, t2) by {
        if p.threads.dom().contains(t1) && p.threads.dom().contains(t2) {
            assert(p.apart(t1, t2));
        }
    }
    assert forall|id: usize| #[trigger] q.reuse.is_live(id) implies exists|u: int| #[trigger]
        q.holds(u, id) by {
        let w = choose|u: int| #[trigger] p.holds(u, id);
        assert(q.holds(w, id));
    }
}

/// A request for a reuse identifier keeps the invariant: what the allocator
/// issues is assigned to no thread.
pub proof fn lemma_live_request_keeps_inv(p: ProcessState, t: int)
    requires
        p.inv(),
        p.threads.dom().contains(t),
    ensures
        p.after_live_request(t).inv(),
{
    let q = p.after_live_request(t);
    let local = p.threads[t].live;
    assert(p.fits(t));
    if local.cached is None && local.refusal(p.reuse) is None {
        lemma_alloc_is_fresh(p.reuse);
        assert forall|u: int| q.threads.dom().contains(u) implies #[trigger] q.fits(u) by {
            if u != t {
                assert(p.fits(u));
            }
        }
        assert forall|t1: int, t2: int|
            q.threads.dom().contains(t1) && q.threads.dom().contains(t2) && t1
                != t2 implies #[trigger] q.apart(t1, t2) by {
            assert(p.fits(t1));
            assert(p.fits(t2));
            assert(p.apart(t1, t2));
        }
        assert forall|id: usize| #[trigger] q.reuse.is_live(id) implies exists|u: int| #[trigger]
            q.holds(u, id) by {
            if id == p.reuse.next() {
                assert(q.holds(t, id));
            } else {
                assert(p.reuse.after_alloc().live().contains(id));
                assert(p.reuse.live().contains(id));
                let w = choose|u: int| #[trigger] p.holds(u, id);
                assert(q.holds(w, id));
            }
        }
    } else {
        assert(q.threads =~= p.threads);
        assert forall|id: usize| #[trigger] q.reuse.is_live(id) implies exists|u: int| #[trigger]
            q.holds(u, id) by {
            let w = choose|u: int| #[trigger] p.holds(u, id);
            assert(q.holds(w, id));
        }
    }
}

/// A request for a unique identifier keeps the invariant: what the counter
/// issues lies above everything that it issued before.
pub proof fn lemma_unique_request_keeps_inv(p: ProcessState, t: int)
    requires
        p.inv(),
        p.threads.dom().contains(t),
    ensures
        p.after_unique_request(t).inv(),
{
    let q = p.after_unique_request(t);
    assert(p.fits(t));
    if p.threads[t].unique is None {
        assert forall|u: int| q.threads.dom().contains(u) implies #[trigger] q.fits(u) by {
            assert(p.fits(u));
        }
        assert forall|t1: int, t2: int|
            q.threads.dom().contains(t1) && q.threads.dom().contains(t2) && t1
                != t2 implies #[trigger] q.apart(t1, t2) by {
            assert(p.fits(t1));
            assert(p.fits(t2));
            assert(p.apart(t1, t2));
        }
        assert forall|id: usize| #[trigger] q.reuse.is_live(id) implies exists|u: int| #[trigger]
            q.holds(u, id) by {
            let w = choose|u: int| #[trigger] p.holds(u, id);
            assert(q.holds(w, id));
        }
    }
}

/// The end of a thread keeps the invariant: the identifier that goes back to
/// the allocator is one that no other thread holds.
pub proof fn lemma_exit_keeps_inv(p: ProcessState, t: int)
    requires
        p.inv(),
        p.threads.dom().contains(t),
    ensures
        p.after_exit(t).inv(),
{
    let q = p.after_exit(t);
    assert(p.fits(t));
    if let Some(id) = p.threads[t].live.hook {
        lemma_release_frees_one(p.reuse, id);
    }
    assert forall|u: int| q.threads.dom().contains(u) implies #[trigger] q.fits(u) by {
        if u != t {
            assert(p.fits(u));
            assert(p.apart(u, t));
        }
    }
    assert forall|t1: int, t2: int|
        q.threads.dom().contains(t1) && q.threads.dom().contains(t2) && t1
            != t2 implies #[trigger] q.apart(t1, t2) by {
        assert(p.apart(t1, t2));
    }
    assert forall|id: usize| #[trigger] q.reuse.is_live(id) implies exists|u: int| #[trigger]
        q.holds(u, id) by {
        assert(p.reuse.is_live(id));
        let w = choose|u: int| #[trigger] p.holds(u, id);
        assert(q.holds(w, id));
    }
}

/// Every step keeps the invariant. With [`lemma_initial_inv`]: the invariant
/// holds in every state that a process reaches.
pub proof fn lemma_step_keeps_inv(p: ProcessState, step: Step)
    requires
        p.inv(),
    ensures
        p.after(step).inv(),
{
    if p.threads.dom().contains(step.thread()) {
        match step {
            Step::Spawn(t) => {},
            Step::RequestLive(t) => lemma_live_request_keeps_inv(p, t),
            Step::RequestUnique(t) => lemma_unique_request_keeps_inv(p, t),
            Step::Exit(t) => lemma_exit_keeps_inv(p, t),
        }
    } else {
        match step {
            Step::Spawn(t) => lemma_spawn_keeps_inv(p, t),
            _ => {},
        }
    }
}

/// Two threads that are alive at the same time hold different reuse
/// identifiers.
pub proof fn lemma_live_ids_differ(p: ProcessState, t1: int, t2: int)
    requires
        p.inv(),
        p.threads.dom().contains(t1),
        p.threads.dom().contains(t2),
        t1 != t2,
        p.threads[t1].live.hook is Some,
        p.threads[t2].live.hook is Some,
    ensures
        p.threads[t1].live.hook != p.threads[t2].live.hook,
        p.threads[t1].live.cached is Some ==> p.threads[t1].live.cached
            != p.threads[t2].live.cached,
{
    assert(p.fits(t1));
    assert(p.fits(t2));
    assert(p.apart(t1, t2));
}

/// Every reuse identifier that was ever issued is either free or held by
/// exactly one thread, and never both.
pub proof fn lemma_issued_is_held_or_free(p: ProcessState, id: usize)
    requires
        p.inv(),
        id < p.reuse.next_id,
    ensures
        p.reuse.free.contains(id) <==> !exists|t: int| #[trigger] p.holds(t, id),
        forall|t1: int, t2: int| p.holds(t1, id) && p.holds(t2, id) ==> t1 == t2,
{
    if p.reuse.free.contains(id) {
        assert forall|t: int| !#[trigger] p.holds(t, id) by {
            if p.holds(t, id) {
                assert(p.fits(t));
            }
        }
    } else {
        assert(p.reuse.is_live(id));
    }
    assert forall|t1: int, t2: int| p.holds(t1, id) && p.holds(t2, id) implies t1 == t2 by {
        if t1 != t2 {
            assert(p.apart(t1, t2));
        }
    }
}

/// Two threads hold different unique identifiers, whether or not either of
/// them is still alive.
pub proof fn lemma_unique_ids_differ(p: ProcessState, t1: int, t2: int)
    requires
        p.inv(),
        p.threads.dom().contains(t1),
        p.threads.dom().contains(t2),
        t1 != t2,
        p.threads[t1].unique is Some,
    ensures
        p.threads[t1].unique != p.threads[t2].unique,
{
    assert(p.apart(t1, t2));
}

/// A thread that got an identifier gets the same one whenever it asks again,
/// and asking again changes nothing. This holds of both strategies.
pub proof fn lemma_request_is_idempotent(p: ProcessState, t: int)
    requires
        p.threads.dom().contains(t),
    ensures
        p.live_request(t) is Ok ==> p.after_live_request(t).live_request(t) == p.live_request(t)
            && p.after_live_request(t).after_live_request(t) == p.after_live_request(t),
        p.unique_request(t) is Ok ==> p.after_unique_request(t).unique_request(t)
            == p.unique_request(t) && p.after_unique_request(t).after_unique_request(t)
            == p.after_unique_request(t),
{
    let q = p.after_live_request(t);
    if p.live_request(t) is Ok {
        assert(q.threads[t].live.cached is Some);
        assert(q.after_live_request(t).threads =~= q.threads);
        assert(q.after_live_request(t) =~= q);
    }
}

/// The strategies do not touch each other's state: a request under one of
/// them changes neither what the other has cached for any thread nor what it
/// issues next, and requests under different strategies can be made in
/// either order.
pub proof fn lemma_strategies_are_independent(p: ProcessState, t: int, u: int)
    requires
        p.threads.dom().contains(t),
        p.threads.dom().contains(u),
    ensures
        p.after_live_request(t).counter == p.counter,
        p.after_exit(t).counter == p.counter,
        p.after_unique_request(u).reuse == p.reuse,
        p.after_live_request(t).unique_request(u) == p.unique_request(u),
        p.after_exit(t).unique_request(u) == p.unique_request(u),
        p.after_unique_request(u).live_request(t) == p.live_request(t),
        p.after_live_request(t).after_unique_request(u) == p.after_unique_request(
            u,
        ).after_live_request(t),
        p.after_exit(t).after_unique_request(u) == p.after_unique_request(u).after_exit(t),
{
    let a = p.after_live_request(t).after_unique_request(u);
    let b = p.after_unique_request(u).after_live_request(t);
    assert(a.threads =~= b.threads);
    assert(a =~= b);
    let c = p.after_exit(t).after_unique_request(u);
    let d = p.after_unique_request(u).after_exit(t);
    assert(c.threads =~= d.threads);
    assert(c =~= d);
}

} // verus!
