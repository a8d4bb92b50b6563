//! Laws that relate the container's operations to one another, stated over
//! the same spec functions and views as their contracts.

use vstd::prelude::*;
use vstd::arithmetic::power2::{lemma2_to64, lemma_pow2_unfold, pow2};
use vstd::std_specs::cmp::PartialEqSpec;
use crate::toy_vec::{capacity_after_push, ToyVec};

verus! {

/// The elements of a container that held `s`, after `push` of each of `xs` in order.
pub open spec fn after_pushes<T>(s: Seq<T>, xs: Seq<T>) -> Seq<T>
    decreases xs.len(),
{
    if xs.len() == 0 {
        s
    } else {
        after_pushes(s, xs.drop_last()).push(xs.last())
    }
}

/// The capacity of a new container after `n` calls of `push`.
pub open spec fn capacity_after_pushes(n: nat) -> nat
    decreases n,
{
    if n == 0 {
        0
    } else {
        capacity_after_push((n - 1) as nat, capacity_after_pushes((n - 1) as nat))
    }
}

/// Pushes append in order: a container that held `s` holds `s + xs` after
/// `push` of each of `xs`. Onto a new container that is exactly `xs` (so
/// `get(i)` gives the `i`-th pushed value), and its capacity is then at least
/// the number of pushes.
pub proof fn lemma_pushes_in_order<T>(s: Seq<T>, xs: Seq<T>)
    ensures
        after_pushes(s, xs) == s + xs,
        after_pushes(Seq::<T>::empty(), xs) == xs,
        capacity_after_pushes(xs.len()) >= xs.len(),
    decreases xs.len(),
{
    if xs.len() > 0 {
        lemma_pushes_in_order(s, xs.drop_last());
        assert((s + xs.drop_last()).push(xs.last()) =~= s + xs);
    } else {
        assert(s + xs =~= s);
    }
    assert(Seq::<T>::empty() + xs =~= xs);
    lemma_capacity_covers(xs.len());
}

/// The capacity of a new container after `n` pushes is at least `n`.
proof fn lemma_capacity_covers(n: nat)
    ensures
        capacity_after_pushes(n) >= n,
    decreases n,
{
    if n > 0 {
        lemma_capacity_covers((n - 1) as nat);
    }
}

/// Growth doubles: after `n >= 1` pushes onto a new container, the capacity is
/// the power of two `c` with `n <= c < 2 * n` (1, 2, 4, 8, ...).
pub proof fn lemma_capacity_doubles(n: nat)
    requires
        n >= 1,
    ensures
        exists|k: nat| capacity_after_pushes(n) == pow2(k),
        n <= capacity_after_pushes(n) < 2 * n,
    decreases n,
{
    if n == 1 {
        assert(capacity_after_pushes(0) == 0);
        assert(capacity_after_pushes(1) == 1);
        assert(pow2(0) == 1) by {
            lemma2_to64();
        }
    } else {
        let m = (n - 1) as nat;
        lemma_capacity_doubles(m);
        let k = choose|k: nat| capacity_after_pushes(m) == pow2(k);
        if m < capacity_after_pushes(m) {
            assert(capacity_after_pushes(n) == pow2(k));
        } else {
            lemma_pow2_unfold(k + 1);
            assert(capacity_after_pushes(n) == pow2(k + 1));
        }
    }
}

/// `pop` undoes `push`: after `push(x)` onto a container holding `s`, `pop`
/// returns `x` and leaves `s`.
pub proof fn lemma_pop_undoes_push<T>(s: Seq<T>, x: T)
    ensures
        s.push(x).len() > 0,
        s.push(x).last() == x,
        s.push(x).drop_last() == s,
{
    assert(s.push(x).drop_last() =~= s);
}

/// Equality ignores free slots: containers with the same elements are equal
/// whatever their capacities, where `==` on the elements is reflexive.
pub proof fn lemma_eq_ignores_capacity<T: PartialEq>(a: ToyVec<T>, b: ToyVec<T>)
    requires
        a@ == b@,
        forall|x: T| #[trigger] x.eq_spec(&x),
    ensures
        a.eq_spec(&b),
{
}

/// Containers of different lengths are never equal.
pub proof fn lemma_eq_needs_same_length<T: PartialEq>(a: ToyVec<T>, b: ToyVec<T>)
    requires
        a@.len() != b@.len(),
    ensures
        !a.eq_spec(&b),
{
}

} // verus!
