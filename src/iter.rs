//! The three ways to walk a container: by shared reference, by exclusive
//! reference, and by moving the elements out.

use vstd::prelude::*;
use crate::toy_vec::ToyVec;

verus! {

/// A cursor over a snapshot of a container's elements, by shared reference.
pub struct Iter<'vec, T> {
    elements: &'vec Vec<T>,
    len: usize,
    pos: usize,
}

impl<'vec, T> Iter<'vec, T> {
    #[verifier::type_invariant]
    spec fn inv(self) -> bool {
        self.pos <= self.len <= self.elements@.len()
    }

    /// The elements not yet handed out, in order.
    pub closed spec fn remaining(&self) -> Seq<T> {
        self.elements@.subrange(self.pos as int, self.len as int)
    }

    /// A cursor at the start of the first `len` slots of `elements`.
    pub(crate) fn new(elements: &'vec Vec<T>, len: usize) -> (r: Self)
        requires
            len <= elements@.len(),
        ensures
            r.remaining() == elements@.subrange(0, len as int),
    {
        Iter { elements, len, pos: 0 }
    }

    /// The next element, or `None` once all have been handed out.
    pub fn next(&mut self) -> (r: Option<&'vec T>)
        ensures
            old(self).remaining().len() > 0 ==> r == Some(&old(self).remaining()[0])
                && final(self).remaining() == old(self).remaining().drop_first(),
            old(self).remaining().len() == 0 ==> r is None && final(self).remaining() == old(
                self,
            ).remaining(),
    {
        proof {
            use_type_invariant(&*self);
        }
        if self.pos >= self.len {
            None
        } else {
            let ghost prev = self.remaining();
            let res = Some(&self.elements[self.pos]);
            self.pos += 1;
            assert(self.remaining() =~= prev.drop_first());
            res
        }
    }

    /// The exact number of elements left, as a lower and an upper bound.
    pub fn size_hint(&self) -> (r: (usize, Option<usize>))
        ensures
            r.0 == self.remaining().len(),
            r.1 == Some(r.0),
    {
        proof {
            use_type_invariant(self);
        }
        (self.len - self.pos, Some(self.len - self.pos))
    }
}

/// A cursor that owns a container and lends each element in use once, by
/// exclusive reference. The cursor only moves forward, so no slot is lent twice.
pub struct IterMut<T> {
    vec: ToyVec<T>,
    pos: usize,
}

impl<T> IterMut<T> {
    #[verifier::type_invariant]
    spec fn inv(self) -> bool {
        self.pos <= self.vec@.len()
    }

    /// The container's elements as they stand now.
    pub closed spec fn items(&self) -> Seq<T> {
        self.vec@
    }

    /// The index of the next element to lend.
    pub closed spec fn position(&self) -> nat {
        self.pos as nat
    }

    /// The capacity of the container held.
    pub closed spec fn spec_capacity(&self) -> nat {
        self.vec.spec_capacity()
    }

    /// A cursor at the start of `vec`.
    pub(crate) fn new(vec: ToyVec<T>) -> (r: Self)
        ensures
            r.items() == vec@,
            r.position() == 0,
            r.spec_capacity() == vec.spec_capacity(),
    {
        IterMut { vec, pos: 0 }
    }
}

impl<T: Default> IterMut<T> {
    /// Exclusive access to the next element, or `None` once all have been lent.
    pub fn next(&mut self) -> (r: Option<&mut T>)
        ensures
            old(self).position() < old(self).items().len() ==> match r {
                Some(e) => {
                    &&& *e == old(self).items()[old(self).position() as int]
                    &&& final(self).items() == old(self).items().update(
                        old(self).position() as int,
                        *final(e),
                    )
                    &&& final(self).position() == old(self).position() + 1
                },
                None => false,
            },
            old(self).position() >= old(self).items().len() ==> r is None && final(self).items()
                == old(self).items() && final(self).position() == old(self).position(),
            final(self).spec_capacity() == old(self).spec_capacity(),
    {
        proof {
            use_type_invariant(&*self);
        }
        if self.pos >= self.vec.len() {
            None
        } else {
            let i = self.pos;
            self.pos += 1;
            Some(self.vec.slot_mut(i))
        }
    }

    /// Ends the walk and hands the container back.
    pub fn into_inner(self) -> (r: ToyVec<T>)
        ensures
            r@ == self.items(),
            r.spec_capacity() == self.spec_capacity(),
    {
        self.vec
    }
}

/// A cursor that owns a container's buffer and moves each element in use out
/// of it, leaving a placeholder behind.
pub struct IntoIter<T> {
    elements: Vec<T>,
    len: usize,
    pos: usize,
}

impl<T> IntoIter<T> {
    #[verifier::type_invariant]
    spec fn inv(self) -> bool {
        self.pos <= self.len <= self.elements@.len()
    }

    /// The elements not yet moved out, in order.
    pub closed spec fn remaining(&self) -> Seq<T> {
        self.elements@.subrange(self.pos as int, self.len as int)
    }

    /// A cursor at the start of the first `len` slots of `elements`.
    pub(crate) fn new(elements: Vec<T>, len: usize) -> (r: Self)
        requires
            len <= elements@.len(),
        ensures
            r.remaining() == elements@.subrange(0, len as int),
    {
        IntoIter { elements, len, pos: 0 }
    }

    /// The exact number of elements left, as a lower and an upper bound.
    pub fn size_hint(&self) -> (r: (usize, Option<usize>))
        ensures
            r.0 == self.remaining().len(),
            r.1 == Some(r.0),
    {
        proof {
            use_type_invariant(self);
        }
        (self.len - self.pos, Some(self.len - self.pos))
    }
}

impl<T: Default> IntoIter<T> {
    /// Moves out the next element, or `None` once all have been moved out.
    pub fn next(&mut self) -> (r: Option<T>)
        ensures
            old(self).remaining().len() > 0 ==> r == Some(old(self).remaining()[0])
                && final(self).remaining() == old(self).remaining().drop_first(),
            old(self).remaining().len() == 0 ==> r is None && final(self).remaining() == old(
                self,
            ).remaining(),
    {
        proof {
            use_type_invariant(&*self);
        }
        if self.pos >= self.len {
            None
        } else {
            let ghost prev = self.remaining();
            let mut elem = T::default();
            std::mem::swap(&mut self.elements[self.pos], &mut elem);
            self.pos += 1;
            assert(self.remaining() =~= prev.drop_first());
            Some(elem)
        }
    }
}

} // verus!
