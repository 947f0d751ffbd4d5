//! Bounded FIFO ring buffer with oldest-first eviction.
//!
//! `RingBuffer<T>` holds at most a fixed number of elements, chosen at
//! construction. A push on a full buffer first evicts the single oldest
//! element, so a push never fails and the length never exceeds the capacity.

use vstd::prelude::*;

verus! {

/// The contents of a buffer with capacity `cap` and current contents `s`
/// after one element `x` is pushed: if the buffer is full, the oldest
/// element is dropped first, then `x` is appended as the newest element.
pub open spec fn ring_push<T>(s: Seq<T>, cap: nat, x: T) -> Seq<T> {
    if s.len() < cap {
        s.push(x)
    } else {
        s.skip(1).push(x)
    }
}

/// The contents after every element of `xs` is pushed in order, oldest first.
pub open spec fn ring_push_all<T>(s: Seq<T>, cap: nat, xs: Seq<T>) -> Seq<T>
    decreases xs.len(),
{
    if xs.len() == 0 {
        s
    } else {
        ring_push_all(ring_push(s, cap, xs[0]), cap, xs.skip(1))
    }
}

/// A fixed-capacity FIFO store. Pushing onto a full buffer evicts the
/// oldest element; reads never mutate.
pub struct RingBuffer<T> {
    items: std::collections::VecDeque<T>,
    max_len: usize,
}

impl<T> View for RingBuffer<T> {
    type V = Seq<T>;

    closed spec fn view(&self) -> Seq<T> {
        self.items@
    }
}

impl<T> RingBuffer<T> {
    /// The fixed capacity, in element count.
    pub closed spec fn cap(&self) -> nat {
        self.max_len as nat
    }

    /// A buffer is well formed when it holds no more than its capacity
    /// and the capacity is at least one element.
    pub open spec fn wf(&self) -> bool {
        &&& self@.len() <= self.cap()
        &&& 1 <= self.cap()
    }

    /// Creates an empty buffer that will hold at most `capacity` elements.
    pub fn new(capacity: usize) -> (r: Self)
        requires
            1 <= capacity,
        ensures
            r.wf(),
            r@ == Seq::<T>::empty(),
            r.cap() == capacity as nat,
    {
        let items = std::collections::VecDeque::<T>::with_capacity(capacity);
        RingBuffer { items, max_len: capacity }
    }

    /// Appends `item` as the newest element, evicting the oldest element
    /// first when the buffer is full. Never fails.
    pub fn push(&mut self, item: T)
        requires
            old(self).wf(),
        ensures
            final(self).wf(),
            final(self)@ == ring_push(old(self)@, old(self).cap(), item),
            final(self).cap() == old(self).cap(),
    {
        if self.items.len() >= self.max_len {
            self.items.pop_front();
        }
        self.items.push_back(item);
    }

    /// The number of elements currently held.
    pub fn len(&self) -> (r: usize)
        ensures
            r == self@.len(),
    {
        self.items.len()
    }

    /// The fixed capacity the buffer was constructed with.
    pub fn capacity(&self) -> (r: usize)
        ensures
            r as nat == self.cap(),
    {
        self.max_len
    }

    /// Removes every element; the capacity is unchanged, so later pushes
    /// behave exactly as on a freshly constructed buffer.
    pub fn clear(&mut self)
        requires
            old(self).wf(),
        ensures
            final(self).wf(),
            final(self)@ == Seq::<T>::empty(),
            final(self).cap() == old(self).cap(),
    {
        self.items.clear();
    }

    /// Borrows the element at position `i`, oldest first.
    pub fn get(&self, i: usize) -> (r: &T)
        requires
            i < self@.len(),
        ensures
            *r == self@[i as int],
    {
        &self.items[i]
    }
}

/// A copy operation whose result is provably equal to the original.
/// Element types implement it so that a buffer can hand out consistent
/// point-in-time copies of its contents.
pub trait DeepClone: Sized {
    fn deep_clone(&self) -> (r: Self)
        ensures
            r == *self,
    ;
}

impl DeepClone for u64 {
    fn deep_clone(&self) -> (r: Self)
        ensures
            r == *self,
    {
        *self
    }
}

impl DeepClone for String {
    fn deep_clone(&self) -> (r: Self)
        ensures
            r == *self,
    {
        self.clone()
    }
}

impl<T: DeepClone> RingBuffer<T> {
    /// Returns a copy of all currently held elements, oldest first.
    /// The receiver is shared, so the buffer itself is unchanged; the copy
    /// reflects the buffer's one current contents.
    pub fn snapshot(&self) -> (r: Vec<T>)
        ensures
            r@ == self@,
    {
        let mut out: Vec<T> = Vec::new();
        let n = self.items.len();
        for i in 0..n
            invariant
                n == self@.len(),
                out@ == self@.subrange(0, i as int),
        {
            out.push(self.get(i).deep_clone());
            proof {
                assert(out@ =~= self@.subrange(0, i + 1));
            }
        }
        proof {
            assert(out@ =~= self@);
        }
        out
    }
}

/// Whether the predicate `pred` accepts `t`: every call of `pred` on `t`
/// returns `true`. Meaningful for predicates whose contract decides every
/// input one way, as `RingBuffer::filter` requires.
pub open spec fn accepts<T, F: Fn(&T) -> bool>(pred: F, t: T) -> bool {
    call_ensures(pred, (&t,), true)
}

/// The subsequence of `s`, order preserved, whose elements `pred` accepts.
pub open spec fn filtered_by<T, F: Fn(&T) -> bool>(s: Seq<T>, pred: F) -> Seq<T> {
    s.filter(|t: T| accepts(pred, t))
}

/// Filtering one more element keeps it exactly when the predicate accepts it.
proof fn lemma_filtered_by_push<T, F: Fn(&T) -> bool>(s: Seq<T>, x: T, pred: F)
    ensures
        filtered_by(s.push(x), pred) == if accepts(pred, x) {
            filtered_by(s, pred).push(x)
        } else {
            filtered_by(s, pred)
        },
{
    reveal(Seq::filter);
    assert(s.push(x).drop_last() =~= s);
}

impl<T: DeepClone> RingBuffer<T> {
    /// Returns, oldest first, copies of exactly the elements the predicate
    /// accepts: the subsequence of `snapshot()` satisfying the predicate,
    /// order preserved. The predicate must be callable on every element and
    /// its contract must decide each element one way.
    pub fn filter<F: Fn(&T) -> bool>(&self, pred: F) -> (r: Vec<T>)
        requires
            forall|t: &T| #[trigger] call_requires(pred, (t,)),
            forall|t: &T, b1: bool, b2: bool| call_ensures(pred, (t,), b1) && call_ensures(
                pred,
                (t,),
                b2,
            ) ==> b1 == b2,
        ensures
            r@ == filtered_by(self@, pred),
    {
        let mut out: Vec<T> = Vec::new();
        let n = self.items.len();
        proof {
            assert(self@.subrange(0, 0) =~= Seq::<T>::empty());
            reveal(Seq::filter);
        }
        for i in 0..n
            invariant
                n == self@.len(),
                out@ == filtered_by(self@.subrange(0, i as int), pred),
                forall|t: &T| #[trigger] call_requires(pred, (t,)),
                forall|t: &T, b1: bool, b2: bool| call_ensures(pred, (t,), b1) && call_ensures(
                    pred,
                    (t,),
                    b2,
                ) ==> b1 == b2,
        {
            let e = self.get(i);
            let keep = pred(e);
            proof {
                lemma_filtered_by_push(self@.subrange(0, i as int), self@[i as int], pred);
                assert(self@.subrange(0, i as int).push(self@[i as int]) =~= self@.subrange(
                    0,
                    i + 1,
                ));
                assert(keep == accepts(pred, self@[i as int]));
            }
            if keep {
                out.push(e.deep_clone());
            }
        }
        proof {
            assert(self@.subrange(0, n as int) =~= self@);
        }
        out
    }
}

/// Capacity invariant: after any sequence of pushes `xs` into a buffer whose
/// contents were `s`, the length is the total number of elements ever held,
/// capped at the capacity. Starting empty, that is `min(xs.len(), cap)`.
pub proof fn lemma_capacity_invariant<T>(s: Seq<T>, cap: nat, xs: Seq<T>)
    requires
        s.len() <= cap,
        1 <= cap,
    ensures
        s.len() + xs.len() <= cap ==> ring_push_all(s, cap, xs).len() == s.len() + xs.len(),
        s.len() + xs.len() > cap ==> ring_push_all(s, cap, xs).len() == cap,
    decreases xs.len(),
{
    if xs.len() > 0 {
        lemma_capacity_invariant(ring_push(s, cap, xs[0]), cap, xs.skip(1));
    }
}

/// FIFO eviction: pushing `xs` into a buffer holding `s` leaves exactly the
/// last `cap` elements of `s + xs` (all of them when they fit), in push
/// order. In particular, pushing `cap + 1` distinct elements into an empty
/// buffer leaves elements `1..cap+1` of the push order: the first was evicted.
pub proof fn lemma_fifo_eviction<T>(s: Seq<T>, cap: nat, xs: Seq<T>)
    requires
        s.len() <= cap,
        1 <= cap,
    ensures
        s.len() + xs.len() <= cap ==> ring_push_all(s, cap, xs) == s + xs,
        s.len() + xs.len() > cap ==> ring_push_all(s, cap, xs) == (s + xs).skip(
            s.len() + xs.len() - cap,
        ),
    decreases xs.len(),
{
    if xs.len() == 0 {
        assert(s + xs =~= s);
    } else {
        let s1 = ring_push(s, cap, xs[0]);
        lemma_fifo_eviction(s1, cap, xs.skip(1));
        if s.len() < cap {
            assert(s1 + xs.skip(1) =~= s + xs);
        } else {
            assert(s1 + xs.skip(1) =~= (s + xs).skip(1));
            if s1.len() + xs.skip(1).len() > cap {
                let k = s1.len() + xs.skip(1).len() - cap;
                assert((s + xs).skip(1).skip(k) =~= (s + xs).skip(1 + k));
            }
        }
    }
}

/// Two snapshots taken with no intervening write return equal sequences:
/// `snapshot` takes a shared reference and leaves the buffer unchanged, so
/// both copies equal the buffer's one current contents.
pub proof fn lemma_snapshot_immutable<T>(b: &RingBuffer<T>, s1: Seq<T>, s2: Seq<T>)
    requires
        s1 == b@,
        s2 == b@,
    ensures
        s1 == s2,
{
}

/// After `clear`, the buffer behaves exactly as a freshly constructed buffer
/// of the same capacity: any sequence of pushes yields the same contents.
pub proof fn lemma_clear_like_fresh<T>(cleared: &RingBuffer<T>, fresh: &RingBuffer<T>, xs: Seq<T>)
    requires
        cleared@ == Seq::<T>::empty(),
        fresh@ == Seq::<T>::empty(),
        cleared.cap() == fresh.cap(),
    ensures
        ring_push_all(cleared@, cleared.cap(), xs) == ring_push_all(fresh@, fresh.cap(), xs),
{
}

/// Concurrent pushers are serialized by the buffer's exclusive writes, so
/// all their pushes land in some single total order `xs`. Whatever that
/// interleaving is, the resulting length is `min(xs.len(), cap)` and the
/// contents are exactly the last `min(xs.len(), cap)` elements of `xs`:
/// nothing is corrupted, duplicated or reordered within the retained suffix.
pub proof fn lemma_linearized_pushes<T>(cap: nat, xs: Seq<T>)
    requires
        1 <= cap,
    ensures
        xs.len() <= cap ==> ring_push_all(Seq::<T>::empty(), cap, xs) == xs,
        xs.len() > cap ==> ring_push_all(Seq::<T>::empty(), cap, xs) == xs.skip(xs.len() - cap),
        ring_push_all(Seq::<T>::empty(), cap, xs).len() == if xs.len() <= cap {
            xs.len() as int
        } else {
            cap as int
        },
{
    lemma_capacity_invariant(Seq::<T>::empty(), cap, xs);
    lemma_fifo_eviction(Seq::<T>::empty(), cap, xs);
    assert(Seq::<T>::empty() + xs =~= xs);
    if xs.len() > cap {
        assert((Seq::<T>::empty() + xs).skip(xs.len() - cap) =~= xs.skip(xs.len() - cap));
    }
}

} // verus!
