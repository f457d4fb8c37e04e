//! `StackVec`: a fixed-capacity ordered container backed by a plain array,
//! with an explicit logical length. Slots at and beyond the logical length
//! always hold the fill element, so the raw storage is exactly the logical
//! content padded with fill — which is what fixed-size rendering passes rely
//! on when they walk the full capacity.

use vstd::prelude::*;

verus! {

/// Fixed-capacity sequence of `N` elements of `T` with logical length `len`.
#[derive(Debug, Copy, Clone)]
pub struct StackVec<T, const N: usize> {
    data: [T; N],
    default: T,
    len: usize,
}

/// Selects whether an iteration pass covers the logical content or the whole
/// physical storage.
pub enum IteratorType {
    Len,
    Capacity,
}

impl<T, const N: usize> View for StackVec<T, N> {
    type V = Seq<T>;

    /// The logical content: the first `len` stored elements.
    closed spec fn view(&self) -> Seq<T> {
        self.data@.take(self.len as int)
    }
}

impl<T: Copy, const N: usize> StackVec<T, N> {
    /// The whole physical storage, including the filled tail.
    pub closed spec fn raw(&self) -> Seq<T> {
        self.data@
    }

    /// The element used to fill vacated and never-written slots.
    pub closed spec fn fill_value(&self) -> T {
        self.default
    }

    /// Length and tail invariant: the logical length fits the capacity and
    /// every slot at or beyond it holds the fill element.
    pub closed spec fn well_formed(&self) -> bool {
        &&& self.len <= N
        &&& forall|i: int| self.len <= i < N ==> self.data@[i] == self.default
    }

    /// For a well-formed sequence the raw storage is the logical content
    /// padded to capacity with the fill element.
    pub proof fn lemma_raw_is_padded_content(&self)
        requires
            self.well_formed(),
        ensures
            self.raw().len() == N,
            self@.len() <= N,
            self@ == self.raw().take(self@.len() as int),
            forall|i: int| 0 <= i < self@.len() ==> self.raw()[i] == self@[i],
            forall|i: int| self@.len() <= i < N ==> self.raw()[i] == self.fill_value(),
    {
    }

    /// Capacity invariant: a well-formed sequence never holds more than `N`
    /// elements, however it was built. Together with the contract of `push`
    /// (which reports failure exactly when the length is already `N`) this is
    /// the guarantee that no sequence of insertions can overrun the storage.
    pub proof fn lemma_capacity_bound(&self)
        requires
            self.well_formed(),
        ensures
            self@.len() <= N,
    {
    }

    pub fn new(default: T) -> (s: Self)
        ensures
            s.well_formed(),
            s@ == Seq::<T>::empty(),
            s.fill_value() == default,
    {
        let s = Self { data: [default; N], default, len: 0 };
        proof {
            assert(s@ =~= Seq::<T>::empty());
        }
        s
    }

    /// Appends at the end; fails (and changes nothing) exactly when full.
    pub fn push(&mut self, value: T) -> (r: bool)
        requires
            old(self).well_formed(),
        ensures
            final(self).well_formed(),
            final(self).fill_value() == old(self).fill_value(),
            r == (old(self)@.len() < N),
            r ==> final(self)@ == old(self)@.push(value),
            !r ==> *final(self) == *old(self),
    {
        if self.len < N {
            self.data[self.len] = value;
            self.len = self.len + 1;
            proof {
                assert(self@ =~= old(self)@.push(value));
            }
            true
        } else {
            false
        }
    }

    /// Inserts at `index`, shifting `[index, len)` one slot right; fails (and
    /// changes nothing) when full or when `index` lies beyond the content.
    pub fn push_at(&mut self, index: usize, value: T) -> (r: bool)
        requires
            old(self).well_formed(),
        ensures
            final(self).well_formed(),
            final(self).fill_value() == old(self).fill_value(),
            r == (index <= old(self)@.len() && old(self)@.len() < N),
            r ==> final(self)@ == old(self)@.insert(index as int, value),
            !r ==> *final(self) == *old(self),
    {
        if index <= self.len && self.len < N {
            let ghost orig = *self;
            let mut i: usize = self.len;
            while i > index
                invariant
                    index <= i <= orig.len < N,
                    self.len == orig.len,
                    self.default == orig.default,
                    forall|k: int| 0 <= k <= i ==> self.data@[k] == orig.data@[k],
                    forall|k: int| i < k <= orig.len ==> self.data@[k] == orig.data@[k - 1],
                    forall|k: int| orig.len < k < N ==> self.data@[k] == orig.data@[k],
                decreases i,
            {
                i = i - 1;
                self.data[i + 1] = self.data[i];
            }
            self.data[index] = value;
            self.len = self.len + 1;
            proof {
                assert(self@ =~= orig@.insert(index as int, value));
                assert forall|k: int| self.len <= k < N implies self.data@[k] == self.default by {
                    assert(orig.data@[k] == orig.default);
                }
            }
            true
        } else {
            false
        }
    }

    /// Removes and returns the last element, restoring the fill element in
    /// its slot; returns `None` on an empty sequence.
    pub fn pop(&mut self) -> (r: Option<T>)
        requires
            old(self).well_formed(),
        ensures
            final(self).well_formed(),
            final(self).fill_value() == old(self).fill_value(),
            old(self)@.len() > 0 ==> r == Some(old(self)@.last())
                && final(self)@ == old(self)@.drop_last(),
            old(self)@.len() == 0 ==> r == None::<T> && *final(self) == *old(self),
    {
        if self.len > 0 {
            let value = self.data[self.len - 1];
            self.data[self.len - 1] = self.default;
            self.len = self.len - 1;
            proof {
                assert(self@ =~= old(self)@.drop_last());
            }
            Some(value)
        } else {
            None
        }
    }

    /// Removes and returns the element at `index`, shifting `[index + 1, len)`
    /// one slot left and restoring the fill element in the vacated slot.
    pub fn pop_at(&mut self, index: usize) -> (r: Option<T>)
        requires
            old(self).well_formed(),
        ensures
            final(self).well_formed(),
            final(self).fill_value() == old(self).fill_value(),
            index < old(self)@.len() ==> r == Some(old(self)@[index as int])
                && final(self)@ == old(self)@.remove(index as int),
            index >= old(self)@.len() ==> r == None::<T> && *final(self) == *old(self),
    {
        if index < self.len {
            let ghost orig = *self;
            let value = self.data[index];
            let mut i: usize = index;
            while i < self.len - 1
                invariant
                    index <= i < orig.len <= N,
                    self.len == orig.len,
                    self.default == orig.default,
                    forall|k: int| 0 <= k < index ==> self.data@[k] == orig.data@[k],
                    forall|k: int| index <= k < i ==> self.data@[k] == orig.data@[k + 1],
                    forall|k: int| i <= k < N ==> self.data@[k] == orig.data@[k],
                decreases orig.len - i,
            {
                self.data[i] = self.data[i + 1];
                i = i + 1;
            }
            self.data[self.len - 1] = self.default;
            self.len = self.len - 1;
            proof {
                assert(self@ =~= orig@.remove(index as int));
                assert forall|k: int| self.len <= k < N implies self.data@[k] == self.default by {
                    if k >= orig.len {
                        assert(orig.data@[k] == orig.default);
                    }
                }
            }
            Some(value)
        } else {
            None
        }
    }

    /// Writes into any in-capacity slot, extending the logical length to
    /// `index + 1` when the slot lay beyond it; fails only when `index` is
    /// outside the capacity.
    pub fn set_at(&mut self, index: usize, value: T) -> (r: bool)
        requires
            old(self).well_formed(),
        ensures
            final(self).well_formed(),
            final(self).fill_value() == old(self).fill_value(),
            r == (index < N),
            r && index < old(self)@.len() ==> final(self)@ == old(self)@.update(
                index as int,
                value,
            ),
            r && index >= old(self)@.len() ==> final(self)@.len() == index + 1
                && (forall|k: int| 0 <= k < old(self)@.len() ==> final(self)@[k] == old(self)@[k])
                && final(self)@[index as int] == value
                && (forall|k: int|
                    old(self)@.len() <= k < index ==> final(self)@[k] == old(self).fill_value()),
            !r ==> *final(self) == *old(self),
    {
        if index < N {
            self.data[index] = value;
            if index >= self.len {
                self.len = index + 1;
            }
            proof {
                if index < old(self)@.len() {
                    assert(self@ =~= old(self)@.update(index as int, value));
                }
            }
            true
        } else {
            false
        }
    }

    /// Read-only view of the logical content.
    pub fn data(&self) -> (r: &[T])
        requires
            self.well_formed(),
        ensures
            r@ == self@,
    {
        let r = &self.data.as_slice()[0..self.len];
        proof {
            assert(r@ =~= self@);
        }
        r
    }

    pub fn get(&self, index: usize) -> (r: Option<&T>)
        requires
            self.well_formed(),
        ensures
            index < self@.len() ==> r is Some && *r.unwrap() == self@[index as int],
            index >= self@.len() ==> r is None,
    {
        if index < self.len {
            Some(&self.data[index])
        } else {
            None
        }
    }

    pub fn get_mut(&mut self, index: usize) -> (r: Option<&mut T>)
        requires
            old(self).well_formed(),
        ensures
            index < old(self)@.len() ==> r is Some && *r.unwrap() == old(self)@[index as int]
                && final(self)@ == old(self)@.update(index as int, *final(r.unwrap()))
                && final(self).well_formed()
                && final(self).fill_value() == old(self).fill_value(),
            index >= old(self)@.len() ==> r is None && *final(self) == *old(self),
    {
        if index < self.len {
            Some(&mut self.data[index])
        } else {
            None
        }
    }

    /// Read-only window into the raw storage, irrespective of the logical
    /// length; the caller keeps the range inside the capacity.
    pub fn slice(&self, range: core::ops::Range<usize>) -> (r: &[T])
        requires
            range.start <= range.end <= N,
        ensures
            r@ == self.raw().subrange(range.start as int, range.end as int),
    {
        &self.data.as_slice()[range.start..range.end]
    }

    /// Raw in-capacity read; the surrounding protocol has already validated
    /// the index.
    pub fn get_unsafe(&self, index: usize) -> (r: &T)
        requires
            index < N,
        ensures
            *r == self.raw()[index as int],
    {
        &self.data[index]
    }

    /// Raw in-capacity write access; the surrounding protocol has already
    /// validated the index. Writing beyond the logical length can break the
    /// fill-tail invariant, which the contract records.
    pub fn get_mut_unsafe(&mut self, index: usize) -> (r: &mut T)
        requires
            index < N,
        ensures
            *r == old(self).raw()[index as int],
            final(self).raw() == old(self).raw().update(index as int, *final(r)),
            final(self).fill_value() == old(self).fill_value(),
            old(self).well_formed() && index < old(self)@.len() ==> final(self).well_formed()
                && final(self)@ == old(self)@.update(index as int, *final(r)),
            old(self).well_formed() && index >= old(self)@.len() ==> final(self)@ == old(self)@,
    {
        &mut self.data[index]
    }

    /// Empties the sequence, restoring the fill element everywhere.
    pub fn clear(&mut self)
        requires
            old(self).well_formed(),
        ensures
            final(self).well_formed(),
            final(self).fill_value() == old(self).fill_value(),
            final(self)@ == Seq::<T>::empty(),
    {
        while self.len > 0
            invariant
                self.well_formed(),
                self.default == old(self).default,
            decreases self@.len(),
        {
            let _ = self.pop();
        }
        proof {
            assert(self@ =~= Seq::<T>::empty());
        }
    }

    pub fn default(&self) -> (r: T)
        ensures
            r == self.fill_value(),
    {
        self.default
    }

    pub fn capacity(&self) -> (r: usize)
        ensures
            r == N,
    {
        N
    }

    pub fn len(&self) -> (r: usize)
        requires
            self.well_formed(),
        ensures
            r == self@.len(),
    {
        self.len
    }

    /// A lazy pass is just a borrowed window: either the logical content or
    /// the whole storage.
    pub fn iter(&self, it: IteratorType) -> (r: &[T])
        requires
            self.well_formed(),
        ensures
            match it {
                IteratorType::Len => r@ == self@,
                IteratorType::Capacity => r@ == self.raw(),
            },
    {
        match it {
            IteratorType::Len => self.data(),
            IteratorType::Capacity => {
                let r = self.data.as_slice();
                proof {
                    assert(r@ =~= self.raw());
                }
                r
            },
        }
    }

    /// A mutable pass over either extent. Writing within the logical content
    /// keeps the sequence well formed; writing into the full storage is raw
    /// access, and the contract records only what the storage then holds.
    pub fn iter_mut(&mut self, it: IteratorType) -> (r: &mut [T])
        requires
            old(self).well_formed(),
        ensures
            final(self).fill_value() == old(self).fill_value(),
            final(self)@.len() == old(self)@.len(),
            match it {
                IteratorType::Len => r@ == old(self)@ && final(self).raw() == final(r)@ + old(
                    self,
                ).raw().skip(old(self)@.len() as int) && (final(r)@.len() == old(self)@.len()
                    ==> final(self)@ == final(r)@ && final(self).well_formed()),
                IteratorType::Capacity => r@ == old(self).raw() && final(self).raw() == final(r)@,
            },
    {
        proof {
            self.lemma_raw_is_padded_content();
        }
        let len = self.len;
        let whole: &mut [T] = &mut self.data;
        match it {
            IteratorType::Len => {
                let (prefix, rest) = whole.split_at_mut(len);
                proof {
                    assert(final(rest)@ == rest@);
                    assert(final(prefix)@.len() == len ==> (final(prefix)@ + final(rest)@).take(
                        len as int,
                    ) =~= final(prefix)@);
                }
                prefix
            },
            IteratorType::Capacity => whole,
        }
    }

    /// Snapshot of the raw storage and the logical length, for bulk
    /// row-shift operations.
    pub fn copy(&self) -> (r: ([T; N], usize))
        ensures
            r.0@ == self.raw(),
            self.well_formed() ==> r.1 == self@.len(),
    {
        (self.data, self.len)
    }

    /// Bulk restore from a snapshot: the first `len` snapshot elements become
    /// the content and the rest of the storage is refilled.
    pub fn copy_from(&mut self, data: &[T; N], len: usize)
        requires
            old(self).well_formed(),
            len <= N,
        ensures
            final(self).well_formed(),
            final(self).fill_value() == old(self).fill_value(),
            final(self)@ == data@.take(len as int),
    {
        let ghost orig = *self;
        let mut i: usize = 0;
        while i < len
            invariant
                i <= len <= N,
                self.len == orig.len,
                self.default == orig.default,
                forall|k: int| 0 <= k < i ==> self.data@[k] == data@[k],
                forall|k: int| i <= k < N ==> self.data@[k] == orig.data@[k],
            decreases len - i,
        {
            self.data[i] = data[i];
            i = i + 1;
        }
        let mut j: usize = len;
        while j < self.len
            invariant
                len <= j <= N,
                orig.len <= N,
                j <= orig.len || j == len,
                self.len == orig.len,
                self.default == orig.default,
                forall|k: int| 0 <= k < len ==> self.data@[k] == data@[k],
                forall|k: int| len <= k < j ==> self.data@[k] == orig.default,
                forall|k: int| j <= k < N && orig.len <= k ==> self.data@[k] == orig.data@[k],
            decreases N - j,
        {
            self.data[j] = self.default;
            j = j + 1;
        }
        proof {
            assert forall|k: int| len <= k < N implies self.data@[k] == self.default by {
                if k >= j {
                    assert(orig.data@[k] == orig.default);
                }
            }
        }
        self.len = len;
        proof {
            assert(self@ =~= data@.take(len as int));
        }
    }
}

/// Inserting a value at a valid index and then removing at that same index
/// restores the original sequence, content and length alike. Combined with
/// the contracts of `push_at` and `pop_at` (which state their effects as
/// `insert` and `remove` on the view), this says that a successful
/// `push_at(i, v)` followed by `pop_at(i)` leaves a `StackVec` with its
/// original content.
pub proof fn lemma_insert_then_remove_restores<T>(s: Seq<T>, i: int, v: T)
    requires
        0 <= i <= s.len(),
    ensures
        s.insert(i, v).remove(i) == s,
{
    assert(s.insert(i, v).remove(i) =~= s);
}

} // verus!
