//! A binary min-heap of machine words.
//!
//! The heap is what the reuse allocator keeps its released identifiers in:
//! the smallest one comes out first, and both operations take time
//! logarithmic in the number of stored values.
use vstd::multiset::Multiset;
use vstd::prelude::*;
use vstd::seq_lib::{to_multiset_build, to_multiset_contains, to_multiset_update};

verus! {

/// The index of the parent of position `i` in the implicit tree.
spec fn parent(i: int) -> int {
    (i - 1) / 2
}

/// Every position but the root holds a value no smaller than its parent's.
spec fn heap_ordered(s: Seq<usize>) -> bool {
    forall|j: int| 0 < j < s.len() ==> s[parent(j)] <= #[trigger] s[j]
}

/// `m` is in `values` and no element of `values` is smaller.
pub open spec fn is_minimum(values: Multiset<usize>, m: usize) -> bool {
    &&& values.count(m) > 0
    &&& forall|v: usize| values.count(v) > 0 ==> m <= v
}

/// In an ordered heap the root is no larger than any other element.
proof fn lemma_root_is_least(s: Seq<usize>, i: int)
    requires
        heap_ordered(s),
        0 <= i < s.len(),
    ensures
        s[0] <= s[i],
    decreases i,
{
    if i > 0 {
        lemma_root_is_least(s, parent(i));
    }
}

/// The root of a non-empty ordered heap is the minimum of its contents.
proof fn lemma_root_is_minimum(s: Seq<usize>)
    requires
        heap_ordered(s),
        s.len() > 0,
    ensures
        is_minimum(s.to_multiset(), s[0]),
{
    to_multiset_contains(s, s[0]);
    assert(s.contains(s[0]));
    assert forall|v: usize| s.to_multiset().count(v) > 0 implies s[0] <= v by {
        to_multiset_contains(s, v);
        let i = choose|i: int| 0 <= i < s.len() && s[i] == v;
        lemma_root_is_least(s, i);
    }
}

/// Exchanging two positions keeps the contents.
proof fn lemma_swap_keeps_contents(s: Seq<usize>, i: int, j: int)
    requires
        0 <= i < s.len(),
        0 <= j < s.len(),
    ensures
        s.update(i, s[j]).update(j, s[i]).to_multiset() == s.to_multiset(),
{
    let t = s.update(i, s[j]);
    to_multiset_update(s, i, s[j]);
    to_multiset_update(t, j, s[i]);
    to_multiset_contains(s, s[i]);
    to_multiset_contains(s, s[j]);
    assert(s.contains(s[i]));
    assert(s.contains(s[j]));
    assert(t.update(j, s[i]).to_multiset() =~= s.to_multiset());
}

/// Moves the value at `start` towards the root until its parent is no larger.
fn sift_up(data: &mut Vec<usize>, start: usize)
    requires
        start < old(data).len(),
        forall|j: int|
            0 < j < old(data).len() && j != start ==> old(data)[parent(j)]
                <= #[trigger] old(data)[j],
        forall|j: int|
            0 < j < old(data).len() && parent(j) == start && start > 0
                ==> old(data)[parent(start as int)] <= #[trigger] old(data)[j],
    ensures
        heap_ordered(final(data)@),
        final(data)@.to_multiset() == old(data)@.to_multiset(),
        final(data).len() == old(data).len(),
{
    let mut i: usize = start;
    while i > 0
        invariant
            i < data.len(),
            data.len() == old(data).len(),
            data@.to_multiset() == old(data)@.to_multiset(),
            forall|j: int| 0 < j < data.len() && j != i ==> data[parent(j)] <= #[trigger] data[j],
            forall|j: int|
                0 < j < data.len() && parent(j) == i && i > 0 ==> data[parent(i as int)]
                    <= #[trigger] data[j],
        ensures
            heap_ordered(data@),
            data@.to_multiset() == old(data)@.to_multiset(),
            data.len() == old(data).len(),
        decreases i,
    {
        let p: usize = (i - 1) / 2;
        let child: usize = data[i];
        let above: usize = data[p];
        if above <= child {
            break ;
        }
        proof {
            lemma_swap_keeps_contents(data@, p as int, i as int);
        }
        data.set(p, child);
        data.set(i, above);
        i = p;
    }
}

/// Moves the value at `start` away from the root until no child is smaller.
fn sift_down(data: &mut Vec<usize>, start: usize)
    requires
        start < old(data).len(),
        forall|j: int|
            0 < j < old(data).len() && parent(j) != start ==> old(data)[parent(j)]
                <= #[trigger] old(data)[j],
        forall|j: int|
            0 < j < old(data).len() && parent(j) == start && start > 0
                ==> old(data)[parent(start as int)] <= #[trigger] old(data)[j],
    ensures
        heap_ordered(final(data)@),
        final(data)@.to_multiset() == old(data)@.to_multiset(),
        final(data).len() == old(data).len(),
{
    let len: usize = data.len();
    let mut i: usize = start;
    while i < len / 2
        invariant
            i < len,
            len == data.len(),
            data.len() == old(data).len(),
            data@.to_multiset() == old(data)@.to_multiset(),
            forall|j: int|
                0 < j < data.len() && parent(j) != i ==> data[parent(j)] <= #[trigger] data[j],
            forall|j: int|
                0 < j < data.len() && parent(j) == i && i > 0 ==> data[parent(i as int)]
                    <= #[trigger] data[j],
        ensures
            heap_ordered(data@),
            data@.to_multiset() == old(data)@.to_multiset(),
            data.len() == old(data).len(),
        decreases len - i,
    {
        let left: usize = 2 * i + 1;
        let right: usize = left + 1;
        let mut least: usize = left;
        if right < len && data[right] < data[left] {
            least = right;
        }
        let here: usize = data[i];
        let below: usize = data[least];
        if here <= below {
            break ;
        }
        proof {
            lemma_swap_keeps_contents(data@, i as int, least as int);
        }
        data.set(i, below);
        data.set(least, here);
        i = least;
    }
}

/// A priority collection of `usize` values that yields the smallest first.
///
/// Values may occur more than once; the view is the multiset of what is
/// stored.
pub struct MinHeap {
    data: Vec<usize>,
}

impl View for MinHeap {
    type V = Multiset<usize>;

    closed spec fn view(&self) -> Multiset<usize> {
        self.data@.to_multiset()
    }
}

impl MinHeap {
    /// The heap property holds of the stored values.
    pub closed spec fn wf(&self) -> bool {
        heap_ordered(self.data@)
    }

    /// An empty heap.
    pub fn new() -> (heap: Self)
        ensures
            heap.wf(),
            heap@ == Multiset::<usize>::empty(),
    {
        let heap = MinHeap { data: Vec::new() };
        proof {
            broadcast use vstd::multiset::group_multiset_axioms;

            heap.data@.to_multiset_ensures();
            assert(heap.data@.to_multiset() =~= Multiset::<usize>::empty());
        }
        heap
    }

    /// The number of stored values, counting repetitions.
    pub fn len(&self) -> (n: usize)
        ensures
            n == self@.len(),
    {
        proof {
            self.data@.to_multiset_ensures();
        }
        self.data.len()
    }

    /// Whether nothing is stored.
    pub fn is_empty(&self) -> (empty: bool)
        ensures
            empty <==> self@.len() == 0,
    {
        proof {
            self.data@.to_multiset_ensures();
        }
        self.data.len() == 0
    }

    /// Whether `value` is stored at least once. Takes time linear in the size.
    pub fn contains(&self, value: usize) -> (found: bool)
        ensures
            found <==> self@.count(value) > 0,
    {
        let mut i: usize = 0;
        while i < self.data.len()
            invariant
                i <= self.data.len(),
                forall|k: int| 0 <= k < i ==> self.data[k] != value,
            decreases self.data.len() - i,
        {
            if self.data[i] == value {
                proof {
                    to_multiset_contains(self.data@, value);
                    assert(self.data@.contains(value));
                }
                return true;
            }
            i = i + 1;
        }
        proof {
            to_multiset_contains(self.data@, value);
        }
        false
    }

    /// The smallest stored value, which stays in the heap.
    pub fn peek(&self) -> (least: Option<usize>)
        requires
            self.wf(),
        ensures
            least is None <==> self@.len() == 0,
            least matches Some(m) ==> is_minimum(self@, m),
    {
        proof {
            self.data@.to_multiset_ensures();
        }
        if self.data.len() == 0 {
            None
        } else {
            proof {
                lemma_root_is_minimum(self.data@);
            }
            Some(self.data[0])
        }
    }

    /// Adds `value` to the heap.
    pub fn push(&mut self, value: usize)
        requires
            old(self).wf(),
        ensures
            final(self).wf(),
            final(self)@ == old(self)@.insert(value),
    {
        proof {
            to_multiset_build(self.data@, value);
        }
        self.data.push(value);
        let last: usize = self.data.len() - 1;
        sift_up(&mut self.data, last);
    }

    /// Removes the smallest stored value and returns it; `None` when the heap
    /// is empty, which is then left as it was.
    pub fn pop(&mut self) -> (least: Option<usize>)
        requires
            old(self).wf(),
        ensures
            final(self).wf(),
            least is None <==> old(self)@.len() == 0,
            least is None ==> final(self)@ == old(self)@,
            least matches Some(m) ==> is_minimum(old(self)@, m)
                && final(self)@ == old(self)@.remove(m),
    {
        let ghost before = self.data@;
        proof {
            before.to_multiset_ensures();
        }
        match self.data.pop() {
            None => None,
            Some(last) => {
                proof {
                    lemma_root_is_minimum(before);
                    assert(before =~= self.data@.push(last));
                    to_multiset_build(self.data@, last);
                }
                if self.data.len() == 0 {
                    assert(self.data@.to_multiset() =~= before.to_multiset().remove(last));
                    Some(last)
                } else {
                    let top: usize = self.data[0];
                    proof {
                        to_multiset_update(self.data@, 0, last);
                        assert(self.data@.update(0, last).to_multiset()
                            =~= before.to_multiset().remove(top));
                    }
                    self.data.set(0, last);
                    sift_down(&mut self.data, 0);
                    Some(top)
                }
            },
        }
    }
}

} // verus!
