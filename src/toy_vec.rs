//! The container: a buffer of slots, of which a prefix is in use.

use vstd::prelude::*;
use vstd::std_specs::cmp::PartialEqSpec;
use crate::iter::{IntoIter, Iter, IterMut};

verus! {

/// A growable sequence. `elements` is the buffer: its length is the capacity.
/// Slots `[0, len)` hold the elements; the slots after them hold placeholders.
pub struct ToyVec<T> {
    elements: Vec<T>,
    len: usize,
}

impl<T> ToyVec<T> {
    #[verifier::type_invariant]
    spec fn inv(self) -> bool {
        self.len <= self.elements@.len()
    }

    /// The number of slots in the buffer.
    pub closed spec fn spec_capacity(&self) -> nat {
        self.elements@.len()
    }
}

/// The capacity after one `push` onto a container with `len` elements and
/// `cap` slots: unchanged while a slot is free, else 1 from 0, else doubled.
pub open spec fn capacity_after_push(len: nat, cap: nat) -> nat {
    if len < cap {
        cap
    } else if cap == 0 {
        1
    } else {
        2 * cap
    }
}

impl<T> View for ToyVec<T> {
    type V = Seq<T>;

    /// The elements in use, in order.
    closed spec fn view(&self) -> Seq<T> {
        self.elements@.subrange(0, self.len as int)
    }
}

impl<T: Default> ToyVec<T> {
    /// An empty container with no slots.
    pub fn new() -> (r: Self)
        ensures
            r@ == Seq::<T>::empty(),
            r.spec_capacity() == 0,
    {
        Self::with_capacity(0)
    }

    /// An empty container with `capacity` placeholder slots.
    pub fn with_capacity(capacity: usize) -> (r: Self)
        ensures
            r@ == Seq::<T>::empty(),
            r.spec_capacity() == capacity,
    {
        let r = Self { elements: Self::allocate_in_heap(capacity), len: 0 };
        assert(r@ =~= Seq::<T>::empty());
        r
    }

    /// A buffer of `size` slots, each holding `T`'s default value.
    pub fn allocate_in_heap(size: usize) -> (r: Vec<T>)
        ensures
            r@.len() == size,
            forall|j: int| 0 <= j < size ==> call_ensures(T::default, (), #[trigger] r@[j]),
    {
        let mut r: Vec<T> = Vec::with_capacity(size);
        let mut i: usize = 0;
        while i < size
            invariant
                i <= size,
                r@.len() == i,
                forall|j: int| 0 <= j < i ==> call_ensures(T::default, (), #[trigger] r@[j]),
            decreases size - i,
        {
            r.push(T::default());
            i += 1;
        }
        r
    }

    /// The number of elements.
    pub fn len(&self) -> (r: usize)
        ensures
            r == self@.len(),
            r <= self.spec_capacity(),
    {
        proof {
            use_type_invariant(self);
        }
        self.len
    }

    /// The number of slots in the buffer.
    pub fn capacity(&self) -> (r: usize)
        ensures
            r == self.spec_capacity(),
            self@.len() <= r,
    {
        proof {
            use_type_invariant(self);
        }
        self.elements.len()
    }

    /// Appends `element`, first growing the buffer if every slot is in use.
    pub fn push(&mut self, element: T)
        requires
            old(self)@.len() < old(self).spec_capacity() || old(self).spec_capacity() * 2
                <= usize::MAX,
        ensures
            final(self)@ == old(self)@.push(element),
            final(self).spec_capacity() == capacity_after_push(
                old(self)@.len(),
                old(self).spec_capacity(),
            ),
    {
        proof {
            use_type_invariant(&*self);
        }
        if self.len == self.capacity() {
            self.grow();
        }
        proof {
            use_type_invariant(&*self);
        }
        let ghost prev = self@;
        self.elements[self.len] = element;
        self.len += 1;
        assert(self@ =~= prev.push(element));
    }

    /// The element at `index`, or `None` where `index` is not in use.
    pub fn get(&self, index: usize) -> (r: Option<&T>)
        ensures
            index < self@.len() ==> r == Some(&self@[index as int]),
            index >= self@.len() ==> r is None,
    {
        proof {
            use_type_invariant(self);
        }
        if index < self.len {
            Some(&self.elements[index])
        } else {
            None
        }
    }

    /// The element at `index`, or `default` where `index` is not in use.
    pub fn get_or<'a>(&'a self, index: usize, default: &'a T) -> (r: &'a T)
        ensures
            index < self@.len() ==> *r == self@[index as int],
            index >= self@.len() ==> *r == *default,
    {
        self.get(index).unwrap_or(default)
    }

    /// Removes the last element and returns it, leaving a placeholder in its
    /// slot; `None`, with nothing changed, when the container is empty.
    pub fn pop(&mut self) -> (r: Option<T>)
        ensures
            old(self)@.len() == 0 ==> r is None && *final(self) == *old(self),
            old(self)@.len() > 0 ==> r == Some(old(self)@.last()) && final(self)@
                == old(self)@.drop_last(),
            final(self).spec_capacity() == old(self).spec_capacity(),
    {
        proof {
            use_type_invariant(&*self);
        }
        if self.len == 0 {
            None
        } else {
            let ghost prev = self@;
            self.len -= 1;
            let mut elem = T::default();
            std::mem::swap(&mut self.elements[self.len], &mut elem);
            assert(self@ =~= prev.drop_last());
            Some(elem)
        }
    }

    /// A cursor over the elements in use, by shared reference.
    pub fn iter<'vec>(&'vec self) -> (r: Iter<'vec, T>)
        ensures
            r.remaining() == self@,
    {
        proof {
            use_type_invariant(self);
        }
        Iter::new(&self.elements, self.len)
    }

    /// Moves the container into a cursor that lends each element in use
    /// once, by exclusive reference, and hands the container back after.
    pub fn iter_mut(self) -> (r: IterMut<T>)
        ensures
            r.items() == self@,
            r.position() == 0,
            r.spec_capacity() == self.spec_capacity(),
    {
        IterMut::new(self)
    }

    /// Consumes the container into a cursor that moves out each element in use.
    pub fn into_iter(self) -> (r: IntoIter<T>)
        ensures
            r.remaining() == self@,
    {
        proof {
            use_type_invariant(&self);
        }
        IntoIter::new(self.elements, self.len)
    }

    /// Exclusive access to the element at `index`.
    pub(crate) fn slot_mut(&mut self, index: usize) -> (r: &mut T)
        requires
            index < old(self)@.len(),
        ensures
            *r == old(self)@[index as int],
            final(self)@ == old(self)@.update(index as int, *final(r)),
            final(self).spec_capacity() == old(self).spec_capacity(),
        no_unwind
    {
        proof {
            use_type_invariant(&*self);
        }
        &mut self.elements[index]
    }

    /// Replaces the buffer by one of one slot, when it has none, or else of
    /// twice as many slots, and moves every element across to the same index.
    pub fn grow(&mut self)
        requires
            old(self).spec_capacity() * 2 <= usize::MAX,
        ensures
            final(self)@ == old(self)@,
            final(self).spec_capacity() == (if old(self).spec_capacity() == 0 {
                1
            } else {
                2 * old(self).spec_capacity()
            }),
    {
        proof {
            use_type_invariant(&*self);
        }
        let ghost prev = self.elements@;
        let ghost prev_view = self@;
        if self.capacity() == 0 {
            self.elements = Self::allocate_in_heap(1);
            assert(self@ =~= prev.subrange(0, self.len as int));
        } else {
            let mut old_elements = Self::allocate_in_heap(self.capacity() * 2);
            std::mem::swap(&mut self.elements, &mut old_elements);
            let mut i: usize = old_elements.len();
            while i > 0
                invariant
                    i <= prev.len(),
                    old_elements@ == prev.subrange(0, i as int),
                    self.elements@.len() == 2 * prev.len(),
                    self.len == old(self).len,
                    self.len <= prev.len(),
                    forall|j: int| i <= j < prev.len() ==> self.elements@[j] == prev[j],
                decreases i,
            {
                i -= 1;
                let elem = old_elements.pop().unwrap();
                self.elements[i] = elem;
            }
            assert(self@ =~= prev_view);
        }
    }
}

/// Two containers are equal when their elements in use are equal one by one;
/// capacity plays no part.
impl<T: PartialEq> PartialEq for ToyVec<T> {
    fn eq(&self, other: &Self) -> (r: bool) {
        proof {
            use_type_invariant(self);
            use_type_invariant(other);
        }
        if self.len != other.len {
            return false;
        }
        let mut i: usize = 0;
        while i < self.len
            invariant
                self.len == other.len,
                self.len <= self.elements@.len(),
                other.len <= other.elements@.len(),
                i <= self.len,
                T::obeys_eq_spec() ==> forall|j: int|
                    0 <= j < i ==> #[trigger] self@[j].eq_spec(&other@[j]),
            ensures
                i == self.len,
            decreases self.len - i,
        {
            if !self.elements[i].eq(&other.elements[i]) {
                proof {
                    if T::obeys_eq_spec() {
                        assert(!self@[i as int].eq_spec(&other@[i as int]));
                    }
                }
                return false;
            }
            proof {
                if T::obeys_eq_spec() {
                    assert(self@[i as int].eq_spec(&other@[i as int]));
                }
            }
            i += 1;
        }
        true
    }
}

impl<T: PartialEq> vstd::std_specs::cmp::PartialEqSpecImpl for ToyVec<T> {
    open spec fn obeys_eq_spec() -> bool {
        T::obeys_eq_spec()
    }

    open spec fn eq_spec(&self, other: &Self) -> bool {
        &&& self@.len() == other@.len()
        &&& forall|i: int| 0 <= i < self@.len() ==> #[trigger] self@[i].eq_spec(&other@[i])
    }
}

/// A copy of the elements in use, one clone each, in a fresh buffer with no
/// free slot.
impl<T: Clone + Default> Clone for ToyVec<T> {
    fn clone(&self) -> (r: Self)
        ensures
            r@.len() == self@.len(),
            forall|i: int| 0 <= i < self@.len() ==> cloned::<T>(self@[i], #[trigger] r@[i]),
            r.spec_capacity() == self@.len(),
    {
        proof {
            use_type_invariant(self);
        }
        let mut elements = Self::allocate_in_heap(self.len);
        let mut i: usize = 0;
        while i < self.len
            invariant
                self.len <= self.elements@.len(),
                i <= self.len,
                elements@.len() == self.len,
                forall|j: int| 0 <= j < i ==> cloned::<T>(self@[j], #[trigger] elements@[j]),
            decreases self.len - i,
        {
            elements[i] = self.elements[i].clone();
            i += 1;
        }
        let r = ToyVec { elements, len: self.len };
        assert(r@ =~= elements@);
        r
    }
}

} // verus!
