//! An inline, fixed-capacity growable sequence.
use vstd::prelude::*;
use vstd::std_specs::cmp::PartialEqSpec;

verus! {

/// An inline, fixed-capacity growable sequence.
///
/// The storage lives inside the struct: there is no heap allocation and no
/// pointer indirection, and `InlineVec` is `Copy` because its payload is
/// embedded. It holds at most `N` elements and tracks the live length
/// separately; only the slots in `0..len` are ever observed.
#[derive(Copy)]
pub struct InlineVec<T: Copy, const N: usize> {
    buf: [Option<T>; N],
    len: usize,
}

impl<T: Copy, const N: usize> View for InlineVec<T, N> {
    type V = Seq<T>;

    /// The live elements, in order.
    closed spec fn view(&self) -> Seq<T> {
        self.buf@.subrange(0, self.len as int).map_values(|slot: Option<T>| slot->0)
    }
}

impl<T: Copy, const N: usize> InlineVec<T, N> {
    /// Every live slot holds a value, and the length fits the buffer.
    #[verifier::type_invariant]
    spec fn live_slots_filled(self) -> bool {
        &&& self.len <= N
        &&& forall|i: int| 0 <= i < self.len ==> (#[trigger] self.buf@[i]) is Some
    }

    /// An empty sequence.
    pub fn new() -> (r: Self)
        ensures
            r@ == Seq::<T>::empty(),
    {
        let r = InlineVec { buf: [None; N], len: 0 };
        assert(r@ =~= Seq::<T>::empty());
        r
    }

    /// Whether there are no live elements.
    pub fn is_empty(&self) -> (r: bool)
        ensures
            r == (self@.len() == 0),
    {
        proof {
            use_type_invariant(self);
        }
        self.len == 0
    }

    /// The number of live elements.
    pub fn len(&self) -> (r: usize)
        ensures
            r == self@.len(),
            r <= N,
    {
        proof {
            use_type_invariant(self);
        }
        self.len
    }

    /// The fixed maximum capacity.
    pub fn capacity() -> (r: usize)
        ensures
            r == N,
    {
        N
    }

    /// The element at `index`.
    pub fn get(&self, index: usize) -> (r: T)
        requires
            index < self@.len(),
        ensures
            r == self@[index as int],
    {
        proof {
            use_type_invariant(self);
        }
        self.buf[index].unwrap()
    }

    /// The live elements, copied out.
    pub fn to_vec(&self) -> (r: Vec<T>)
        ensures
            r@ == self@,
    {
        proof {
            use_type_invariant(self);
        }
        let mut out: Vec<T> = Vec::new();
        let mut i: usize = 0;
        while i < self.len
            invariant
                self.len <= N,
                forall|j: int| 0 <= j < self.len ==> (#[trigger] self.buf@[j]) is Some,
                i <= self.len,
                out@ == self@.subrange(0, i as int),
            decreases self.len - i,
        {
            out.push(self.buf[i].unwrap());
            i += 1;
            assert(out@ =~= self@.subrange(0, i as int));
        }
        assert(out@ =~= self@);
        out
    }

    /// Appends `value` at the end; the array must not be full.
    pub fn push(&mut self, value: T)
        requires
            old(self)@.len() < N,
        ensures
            final(self)@ == old(self)@.push(value),
    {
        proof {
            use_type_invariant(&*self);
        }
        let mut buf = self.buf;
        let len = self.len;
        buf.set(len, Some(value));
        *self = InlineVec { buf, len: len + 1 };
        assert(self@ =~= old(self)@.push(value));
    }

    /// Removes and returns the last element, or `None` when empty.
    pub fn pop(&mut self) -> (r: Option<T>)
        ensures
            old(self)@.len() == 0 ==> r is None && final(self)@ == old(self)@,
            old(self)@.len() > 0 ==> r == Some(old(self)@.last()) && final(self)@ == old(self)@.drop_last(),
    {
        proof {
            use_type_invariant(&*self);
        }
        if self.len == 0 {
            return None;
        }
        let len = self.len - 1;
        let value = self.buf[len].unwrap();
        *self = InlineVec { buf: self.buf, len };
        assert(self@ =~= old(self)@.drop_last());
        Some(value)
    }

    /// Inserts `value` at `index`, shifting the tail right by one; `index`
    /// must be at most the length and the array must not be full.
    pub fn insert(&mut self, index: usize, value: T)
        requires
            index <= old(self)@.len(),
            old(self)@.len() < N,
        ensures
            final(self)@ == old(self)@.insert(index as int, value),
    {
        proof {
            use_type_invariant(&*self);
        }
        let ghost before = self@;
        let len = self.len;
        let mut buf = self.buf;
        let mut i: usize = len;
        while i > index
            invariant
                len == before.len(),
                len < N,
                index <= i <= len,
                buf@.len() == N,
                forall|j: int| 0 <= j < i ==> #[trigger] buf@[j] is Some && buf@[j]->0 == before[j],
                forall|j: int| i < j <= len ==> #[trigger] buf@[j] is Some && buf@[j]->0 == before[j - 1],
            decreases i - index,
        {
            let moved = buf[i - 1];
            buf.set(i, moved);
            i -= 1;
        }
        buf.set(index, Some(value));
        *self = InlineVec { buf, len: len + 1 };
        assert(self@ =~= before.insert(index as int, value));
    }

    /// Removes and returns the element at `index`, shifting the tail left by
    /// one; `index` must be below the length.
    pub fn remove(&mut self, index: usize) -> (r: T)
        requires
            index < old(self)@.len(),
        ensures
            r == old(self)@[index as int],
            final(self)@ == old(self)@.remove(index as int),
    {
        proof {
            use_type_invariant(&*self);
        }
        let ghost before = self@;
        let len = self.len;
        let mut buf = self.buf;
        let removed = buf[index].unwrap();
        let mut i: usize = index;
        while i + 1 < len
            invariant
                len == before.len(),
                len <= N,
                index <= i < len,
                buf@.len() == N,
                forall|j: int| 0 <= j < i ==> #[trigger] buf@[j] is Some && buf@[j]->0 == before.remove(
                    index as int,
                )[j],
                forall|j: int| i <= j < len ==> #[trigger] buf@[j] is Some && (j > i ==> buf@[j]->0 == before[j]),
            decreases len - i,
        {
            let moved = buf[i + 1];
            buf.set(i, moved);
            i += 1;
        }
        *self = InlineVec { buf, len: len - 1 };
        assert(self@ =~= before.remove(index as int));
        removed
    }

    /// Clears all elements, keeping the capacity.
    pub fn clear(&mut self)
        ensures
            final(self)@ == Seq::<T>::empty(),
    {
        *self = InlineVec { buf: self.buf, len: 0 };
        assert(self@ =~= Seq::<T>::empty());
    }

    /// Appends every element of `values`; they must fit.
    pub fn extend_from_slice(&mut self, values: &[T])
        requires
            old(self)@.len() + values@.len() <= N,
        ensures
            final(self)@ == old(self)@ + values@,
    {
        proof {
            use_type_invariant(&*self);
        }
        let ghost before = self@;
        let len = self.len;
        let mut buf = self.buf;
        let mut k: usize = 0;
        while k < values.len()
            invariant
                len == before.len(),
                len + values@.len() <= N,
                k <= values.len(),
                buf@.len() == N,
                forall|j: int| 0 <= j < len ==> #[trigger] buf@[j] is Some && buf@[j]->0 == before[j],
                forall|j: int| len <= j < len + k ==> #[trigger] buf@[j] is Some && buf@[j]->0 == values@[j - len],
            decreases values.len() - k,
        {
            buf.set(len + k, Some(values[k]));
            k += 1;
        }
        *self = InlineVec { buf, len: len + values.len() };
        assert(self@ =~= before + values@);
    }
}

/// `pop` after `push` gives back the pushed value and the earlier contents.
pub proof fn lemma_pop_undoes_push<T>(contents: Seq<T>, value: T)
    ensures
        contents.push(value).len() > 0,
        contents.push(value).last() == value,
        contents.push(value).drop_last() == contents,
{
    assert(contents.push(value).drop_last() =~= contents);
}

/// `remove` at an index after `insert` at that index gives back the inserted
/// value and the earlier contents.
pub proof fn lemma_remove_undoes_insert<T>(contents: Seq<T>, index: int, value: T)
    requires
        0 <= index <= contents.len(),
    ensures
        contents.insert(index, value)[index] == value,
        contents.insert(index, value).remove(index) == contents,
{
    assert(contents.insert(index, value).remove(index) =~= contents);
}

impl<T: Copy, const N: usize> Clone for InlineVec<T, N> {
    fn clone(&self) -> (r: Self)
        ensures
            r@ == self@,
    {
        proof {
            use_type_invariant(self);
        }
        *self
    }
}

impl<T: Copy, const N: usize> Default for InlineVec<T, N> {
    fn default() -> (r: Self)
        ensures
            r@ == Seq::<T>::empty(),
    {
        Self::new()
    }
}

impl<T: Copy + PartialEq, const N: usize> PartialEq for InlineVec<T, N> {
    /// Whether the live elements are pairwise equal.
    fn eq(&self, other: &Self) -> (r: bool) {
        proof {
            use_type_invariant(self);
            use_type_invariant(other);
        }
        if self.len() != other.len() {
            return false;
        }
        let n = self.len();
        let mut i: usize = 0;
        while i < n
            invariant
                i <= n,
                n == self@.len(),
                n == other@.len(),
                T::obeys_eq_spec() ==> forall|j: int| 0 <= j < i ==> self@[j].eq_spec(&other@[j]),
            decreases n - i,
        {
            let a = self.get(i);
            let b = other.get(i);
            if !a.eq(&b) {
                return false;
            }
            i += 1;
        }
        true
    }
}

impl<T: Copy + PartialEq, const N: usize> vstd::std_specs::cmp::PartialEqSpecImpl for InlineVec<T, N> {
    open spec fn obeys_eq_spec() -> bool {
        T::obeys_eq_spec()
    }

    /// The live elements have the same number and are pairwise equal.
    open spec fn eq_spec(&self, other: &Self) -> bool {
        &&& self@.len() == other@.len()
        &&& forall|i: int| 0 <= i < self@.len() ==> self@[i].eq_spec(&other@[i])
    }
}

impl<T: Copy + Eq, const N: usize> Eq for InlineVec<T, N> {
}

impl<T: Copy, const N: usize> std::ops::Index<usize> for InlineVec<T, N> {
    type Output = T;

    /// The live element at `index`, which must be below the live length.
    fn index(&self, index: usize) -> (r: &T)
        ensures
            *r == self@[index as int],
    {
        proof {
            use_type_invariant(self);
        }
        self.buf[index].as_ref().unwrap()
    }
}

impl<T: Copy, const N: usize> vstd::std_specs::core::IndexSpecImpl<usize> for InlineVec<T, N> {
    open spec fn index_req(&self, index: &usize) -> bool {
        *index < self@.len()
    }
}

} // verus!
