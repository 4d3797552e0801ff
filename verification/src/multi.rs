//! Bounded, insertion-ordered multi-value caches.
//!
//! Both caches hold their elements in insertion order, append only at the
//! tail, and apply the same reject-on-full admission rule: once the occupancy
//! limit is reached, further insertions are refused — the oldest element is
//! never evicted to make room.

use std::collections::VecDeque;
use vstd::prelude::*;

pub mod limit;

verus! {

/// Contiguously-stored FIFO cache with admission control.
///
/// This implementation model is optimal when:
///   - the cache has a constant maximum occupancy, ideally known at creation;
///   - values are rarely, if ever, dropped from the middle, or inserted
///     anywhere but the ends;
///   - the relative order of elements does not need to change;
///   - constant-time random access is desirable;
///   - contiguous views of the data may occasionally be required.
#[derive(Clone, Debug, PartialEq, Eq, Hash)]
pub struct VecCache<T> {
    storage: VecDeque<T>,
    limit: limit::OccupancyLimit,
}

impl<T> View for VecCache<T> {
    type V = Seq<T>;

    /// The cached elements, oldest first.
    closed spec fn view(&self) -> Seq<T> {
        self.storage@
    }
}

impl<T> VecCache<T> {
    /// The current occupancy limit descriptor.
    pub closed spec fn spec_limit(&self) -> limit::OccupancyLimit {
        self.limit
    }

    /// The cache invariant: whenever the limit is `Limited(n)`, the
    /// occupancy is at most `n`.
    ///
    /// Shrinking is never forced retroactively: the only way the limit
    /// changes on this type is `unset_limit`, so every cache built through
    /// the public operations satisfies this.
    pub open spec fn wf(&self) -> bool {
        self.spec_limit() is Limited ==> self@.len() <= self.spec_limit()->Limited_0
    }

    /// Whether the admission rule lets one more element in: the limit is
    /// neither zero nor already reached.
    pub open spec fn spec_admits(&self) -> bool {
        self.spec_limit() is Limited ==> self@.len() + 1 <= self.spec_limit()->Limited_0
    }

    /// Creates an empty [`VecCache<T>`] without a concrete occupancy limit.
    ///
    /// Adding elements incrementally incurs the same amortized reallocation
    /// cost as with [`VecDeque`]. If there is a good notion of the desired
    /// maximum occupancy, and the cache is expected to reach it quickly,
    /// [`Self::with_limit`] may be a better alternative.
    pub fn new() -> (r: Self)
        ensures
            r@ == Seq::<T>::empty(),
            r.spec_limit() == limit::OccupancyLimit::Unlimited,
            r.wf(),
    {
        VecCache { storage: VecDeque::new(), limit: limit::OccupancyLimit::Unlimited }
    }

    /// Creates an empty [`VecCache<T>`] with a fixed upper bound on occupancy.
    ///
    /// Storage for `max_occupancy` elements is reserved up front as an
    /// optimization; the limit can be removed later, at the price of an
    /// amortized reallocation penalty if the initial bound is then exceeded.
    pub fn with_limit(max_occupancy: usize) -> (r: Self)
        ensures
            r@ == Seq::<T>::empty(),
            r.spec_limit() == limit::OccupancyLimit::Limited(max_occupancy),
            r.wf(),
    {
        VecCache {
            storage: VecDeque::with_capacity(max_occupancy),
            limit: limit::OccupancyLimit::Limited(max_occupancy),
        }
    }

    /// Returns `true` if the cache holds no elements.
    pub fn is_empty(&self) -> (r: bool)
        ensures
            r == (self@.len() == 0),
    {
        self.storage.len() == 0
    }

    /// Returns the current occupancy (total number of elements) of the cache.
    pub fn occupancy(&self) -> (r: usize)
        ensures
            r == self@.len(),
    {
        self.storage.len()
    }

    /// Un-sets the maximum occupancy limit of this cache, returning the old
    /// numeric limit if one was set.
    ///
    /// Already-stored elements are unaffected, even if the occupancy had
    /// reached the former limit.
    pub fn unset_limit(&mut self) -> (r: Option<usize>)
        ensures
            final(self)@ == old(self)@,
            final(self).spec_limit() == limit::OccupancyLimit::Unlimited,
            r == old(self).spec_limit().spec_get(),
            final(self).wf(),
    {
        self.limit.unset_limit()
    }

    /// Returns the current numeric occupancy limit, or `None` if unlimited.
    pub fn limit(&self) -> (r: Option<usize>)
        ensures
            r == self.spec_limit().spec_get(),
    {
        self.limit.get()
    }

    /// Appends `value` at the tail if the admission rule allows it.
    ///
    /// Admission is reject-on-full: if the limit is `Limited(0)` the result
    /// is `Err(ZeroMaxOccupancy)`; if it is `Limited(n)` and one more element
    /// would push the occupancy past `n`, the result is
    /// `Err(ReachedMaxOccupancy(n))`; otherwise the value is appended,
    /// preserving insertion order. A failed push never changes the cache.
    pub fn try_push(&mut self, value: T) -> (r: Result<(), limit::OccupancyError>)
        ensures
            final(self).spec_limit() == old(self).spec_limit(),
            r is Ok <==> old(self).spec_admits(),
            r is Ok ==> final(self)@ == old(self)@.push(value),
            r is Err ==> final(self)@ == old(self)@,
            r == (match old(self).spec_limit() {
                limit::OccupancyLimit::Limited(n) => {
                    if n == 0 {
                        Result::<(), limit::OccupancyError>::Err(
                            limit::OccupancyError::ZeroMaxOccupancy,
                        )
                    } else if old(self)@.len() + 1 > n {
                        Result::<(), limit::OccupancyError>::Err(
                            limit::OccupancyError::ReachedMaxOccupancy(n),
                        )
                    } else {
                        Result::<(), limit::OccupancyError>::Ok(())
                    }
                },
                limit::OccupancyLimit::Unlimited => Result::<(), limit::OccupancyError>::Ok(()),
            }),
            old(self).wf() ==> final(self).wf(),
    {
        match self.limit.get() {
            Some(lim) => {
                if lim == 0 {
                    return Err(limit::OccupancyError::ZeroMaxOccupancy);
                }
                if self.storage.len() >= lim {
                    return Err(limit::OccupancyError::ReachedMaxOccupancy(lim));
                }
            },
            None => (),
        }
        self.storage.push_back(value);
        Ok(())
    }
}

impl<T> Default for VecCache<T> {
    /// An empty cache without a concrete occupancy limit.
    fn default() -> (r: Self)
        ensures
            r@ == Seq::<T>::empty(),
            r.spec_limit() == limit::OccupancyLimit::Unlimited,
    {
        VecCache { storage: VecDeque::new(), limit: limit::OccupancyLimit::Unlimited }
    }
}

/// One element of the linked sequence behind [`LLCache<T>`]: the stored value
/// and the arena index of the next-newer node, if any.
#[derive(Clone, Debug, PartialEq, Eq, Hash)]
struct LLNode<T> {
    value: T,
    next: Option<usize>,
}

/// Node-linked FIFO cache with the same admission contract as
/// [`VecCache<T>`].
///
/// The linked sequence lives in an arena of nodes addressed by stable
/// indices, so nodes never move once inserted. This implementation model may
/// win over [`VecCache<T>`] if:
///   - the maximum occupancy of the cache is unknown or unbounded;
///   - values are removed or inserted anywhere besides at the ends;
///   - non-constant-time random access is permissible;
///   - contiguous views of the data are never required.
#[derive(Clone, Debug, PartialEq, Eq, Hash)]
pub struct LLCache<T> {
    nodes: Vec<LLNode<T>>,
    head: Option<usize>,
    tail: Option<usize>,
    limit: limit::OccupancyLimit,
}

impl<T> View for LLCache<T> {
    type V = Seq<T>;

    /// The cached elements, oldest first.
    closed spec fn view(&self) -> Seq<T> {
        self.nodes@.map(|i: int, n: LLNode<T>| n.value)
    }
}

impl<T> LLCache<T> {
    /// The current occupancy limit descriptor.
    pub closed spec fn spec_limit(&self) -> limit::OccupancyLimit {
        self.limit
    }

    /// The shape of the linked sequence: elements are only ever appended at
    /// the tail, so the chain starts at the oldest node, each node links to
    /// the next-newer one, and the tail is the newest.
    spec fn wf_links(&self) -> bool {
        &&& self.head == (if self.nodes@.len() == 0 {
            Option::<usize>::None
        } else {
            Option::<usize>::Some(0usize)
        })
        &&& self.tail == (if self.nodes@.len() == 0 {
            Option::<usize>::None
        } else {
            Option::<usize>::Some((self.nodes@.len() - 1) as usize)
        })
        &&& forall|i: int|
            0 <= i < self.nodes@.len() ==> (#[trigger] self.nodes@[i].next) == (if i + 1
                < self.nodes@.len() {
                Option::<usize>::Some((i + 1) as usize)
            } else {
                Option::<usize>::None
            })
    }

    /// The cache invariant: the node chain is intact, and whenever the limit
    /// is `Limited(n)` the occupancy is at most `n`.
    pub closed spec fn wf(&self) -> bool {
        &&& self.wf_links()
        &&& (self.spec_limit() is Limited ==> self@.len() <= self.spec_limit()->Limited_0)
    }

    /// Whether the admission rule lets one more element in: the limit is
    /// neither zero nor already reached.
    pub open spec fn spec_admits(&self) -> bool {
        self.spec_limit() is Limited ==> self@.len() + 1 <= self.spec_limit()->Limited_0
    }

    /// Creates an empty [`LLCache<T>`] with an unrestricted maximum occupancy.
    pub fn new() -> (r: Self)
        ensures
            r@ == Seq::<T>::empty(),
            r.spec_limit() == limit::OccupancyLimit::Unlimited,
            r.wf(),
    {
        LLCache {
            nodes: Vec::new(),
            head: None,
            tail: None,
            limit: limit::OccupancyLimit::Unlimited,
        }
    }

    /// Creates an empty [`LLCache<T>`] with a fixed upper bound on occupancy.
    pub fn with_limit(max_occupancy: usize) -> (r: Self)
        ensures
            r@ == Seq::<T>::empty(),
            r.spec_limit() == limit::OccupancyLimit::Limited(max_occupancy),
            r.wf(),
    {
        LLCache {
            nodes: Vec::with_capacity(max_occupancy),
            head: None,
            tail: None,
            limit: limit::OccupancyLimit::Limited(max_occupancy),
        }
    }

    /// Returns `true` if the cache holds no elements.
    pub fn is_empty(&self) -> (r: bool)
        requires
            self.wf(),
        ensures
            r == (self@.len() == 0),
    {
        self.head.is_none()
    }

    /// Returns the current occupancy (total number of elements) of the cache.
    pub fn occupancy(&self) -> (r: usize)
        ensures
            r == self@.len(),
    {
        self.nodes.len()
    }

    /// Un-sets the maximum occupancy limit of this cache, returning the old
    /// numeric limit if one was set.
    ///
    /// Already-stored elements are unaffected, even if the occupancy had
    /// reached the former limit.
    pub fn unset_limit(&mut self) -> (r: Option<usize>)
        ensures
            final(self)@ == old(self)@,
            final(self).spec_limit() == limit::OccupancyLimit::Unlimited,
            r == old(self).spec_limit().spec_get(),
            old(self).wf() ==> final(self).wf(),
    {
        self.limit.unset_limit()
    }

    /// Returns the current numeric occupancy limit, or `None` if unlimited.
    pub fn limit(&self) -> (r: Option<usize>)
        ensures
            r == self.spec_limit().spec_get(),
    {
        self.limit.get()
    }

    /// Appends `value` at the tail if the admission rule allows it.
    ///
    /// The admission rule, error taxonomy and ordering guarantee are
    /// identical to [`VecCache::try_push`]: the two types are interchangeable
    /// strategies for the same contract, differing only in their performance
    /// profile.
    pub fn try_push(&mut self, value: T) -> (r: Result<(), limit::OccupancyError>)
        requires
            old(self).wf(),
        ensures
            final(self).spec_limit() == old(self).spec_limit(),
            r is Ok <==> old(self).spec_admits(),
            r is Ok ==> final(self)@ == old(self)@.push(value),
            r is Err ==> final(self)@ == old(self)@,
            r == (match old(self).spec_limit() {
                limit::OccupancyLimit::Limited(n) => {
                    if n == 0 {
                        Result::<(), limit::OccupancyError>::Err(
                            limit::OccupancyError::ZeroMaxOccupancy,
                        )
                    } else if old(self)@.len() + 1 > n {
                        Result::<(), limit::OccupancyError>::Err(
                            limit::OccupancyError::ReachedMaxOccupancy(n),
                        )
                    } else {
                        Result::<(), limit::OccupancyError>::Ok(())
                    }
                },
                limit::OccupancyLimit::Unlimited => Result::<(), limit::OccupancyError>::Ok(()),
            }),
            final(self).wf(),
    {
        match self.limit.get() {
            Some(lim) => {
                if lim == 0 {
                    return Err(limit::OccupancyError::ZeroMaxOccupancy);
                }
                if self.nodes.len() >= lim {
                    return Err(limit::OccupancyError::ReachedMaxOccupancy(lim));
                }
            },
            None => (),
        }
        let idx = self.nodes.len();
        self.nodes.push(LLNode { value, next: None });
        match self.tail {
            Some(t) => {
                self.nodes[t].next = Some(idx);
            },
            None => {
                self.head = Some(idx);
            },
        }
        self.tail = Some(idx);
        proof {
            assert(self@ =~= old(self)@.push(value));
        }
        Ok(())
    }
}

impl<T> Default for LLCache<T> {
    /// An empty cache without a concrete occupancy limit.
    fn default() -> (r: Self)
        ensures
            r@ == Seq::<T>::empty(),
            r.spec_limit() == limit::OccupancyLimit::Unlimited,
    {
        LLCache {
            nodes: Vec::new(),
            head: None,
            tail: None,
            limit: limit::OccupancyLimit::Unlimited,
        }
    }
}

} // verus!
