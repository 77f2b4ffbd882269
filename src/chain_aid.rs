//! Filling several variables from one value. The value is computed once, by
//! the caller, and each variable receives a duplicate of it made by `clone`.
//! `initialize` hands out fresh duplicates, to bind by destructuring the
//! vector; `assign` overwrites targets that exist already.
use vstd::prelude::*;

verus! {

/// Each element of `s` is a duplicate of `value`, as `T::clone` makes them.
pub open spec fn duplicates_of<T: Clone>(value: T, s: Seq<T>) -> bool {
    forall|i: int| 0 <= i < s.len() ==> #[trigger] cloned::<T>(value, s[i])
}

/// `count` duplicates of `value`.
pub fn initialize<T: Clone>(value: T, count: usize) -> (r: Vec<T>)
    ensures
        r@.len() == count,
        duplicates_of(value, r@),
{
    let mut r: Vec<T> = Vec::new();
    let mut i: usize = 0;
    while i < count
        invariant
            i <= count,
            r@.len() == i,
            duplicates_of(value, r@),
        decreases count - i,
    {
        r.push(value.clone());
        i = i + 1;
    }
    r
}

/// Overwrites every element of `targets` with a duplicate of `value`; the
/// number of targets stays the same.
pub fn assign<T: Clone>(value: T, targets: &mut Vec<T>)
    ensures
        final(targets)@.len() == old(targets)@.len(),
        duplicates_of(value, final(targets)@),
{
    let n = targets.len();
    let mut i: usize = 0;
    while i < n
        invariant
            n == old(targets)@.len(),
            targets@.len() == n,
            i <= n,
            forall|j: int| 0 <= j < i ==> #[trigger] cloned::<T>(value, targets@[j]),
        decreases n - i,
    {
        targets.set(i, value.clone());
        i = i + 1;
    }
}

/// Where `T::clone` gives back a value equal to its input, as it does for
/// integers, `bool` and `char`, duplicates of one value are that value: each
/// filled variable equals the single evaluation of the expression.
pub proof fn duplicates_equal_value<T: Clone>(value: T, s: Seq<T>)
    requires
        duplicates_of(value, s),
        forall|a: T, b: T| #[trigger] cloned::<T>(a, b) ==> a == b,
    ensures
        s == Seq::new(s.len(), |i: int| value),
{
    assert forall|i: int| 0 <= i < s.len() implies s[i] == value by {
        assert(cloned::<T>(value, s[i]));
    }
    assert(s =~= Seq::new(s.len(), |i: int| value));
}

} // verus!
