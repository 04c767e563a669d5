//! Integer helpers and a generic maximum over a slice.

use core::cmp::Ordering;
use vstd::prelude::*;
use vstd::std_specs::cmp::OrdSpec;

verus! {

/// `x` comes strictly after `y` in the order of `T`.
pub open spec fn exceeds<T: Ord>(x: T, y: T) -> bool {
    x.cmp_spec(&y) == Ordering::Greater
}

/// The comparison of `T` follows its specification, and "does not exceed"
/// is a total preorder: no two values exceed each other, and the relation is
/// transitive.
pub open spec fn orders_totally<T: Ord>() -> bool {
    &&& T::obeys_cmp_spec()
    &&& forall|x: T, y: T| #[trigger] exceeds(x, y) ==> !exceeds(y, x)
    &&& forall|x: T, y: T, z: T|
        !#[trigger] exceeds(x, y) && !#[trigger] exceeds(y, z) ==> !exceeds(x, z)
}

/// Position `i` holds a greatest element of `s`, and every later element is
/// strictly smaller: among equal greatest elements it is the last one.
pub open spec fn is_last_max<T: Ord>(s: Seq<T>, i: int) -> bool {
    &&& 0 <= i < s.len()
    &&& forall|j: int| 0 <= j < i ==> !exceeds(#[trigger] s[j], s[i])
    &&& forall|j: int| i < j < s.len() ==> exceeds(s[i], #[trigger] s[j])
}

/// The greatest element of `slice`, or `None` when it is empty. Where several
/// elements are equally great, the last of them is returned.
pub fn find_max<T: Ord + Copy>(slice: &[T]) -> (result: Option<T>)
    ensures
        result is None <==> slice@.len() == 0,
        result matches Some(m) ==> slice@.contains(m),
        orders_totally::<T>() ==> (result matches Some(m) ==> exists|i: int|
            is_last_max(slice@, i) && slice@[i] == m),
{
    if slice.len() == 0 {
        return None;
    }
    let mut best: T = slice[0];
    let ghost mut at: int = 0;
    let mut i: usize = 1;
    let ghost mut seen: int = 1;
    while i < slice.len()
        invariant
            1 <= i <= slice@.len(),
            seen == i,
            0 <= at < i,
            best == slice@[at],
            orders_totally::<T>() ==> is_last_max(slice@.take(seen), at),
        decreases slice@.len() - i,
    {
        let item: T = slice[i];
        let keep = match best.cmp(&item) {
            Ordering::Greater => true,
            Ordering::Less => false,
            Ordering::Equal => false,
        };
        proof {
            if orders_totally::<T>() {
                let before = slice@.take(seen);
                let now = slice@.take(seen + 1);
                assert(keep == exceeds(best, item));
                assert forall|j: int| 0 <= j < i implies #[trigger] now[j] == before[j] by {}
                if keep {
                    assert(is_last_max(now, at));
                } else {
                    assert forall|j: int| 0 <= j < i implies !exceeds(#[trigger] now[j], item) by {
                        if j < at {
                            assert(!exceeds(before[j], before[at]));
                        } else if j > at {
                            assert(exceeds(before[at], before[j]));
                        }
                    }
                    assert(is_last_max(now, seen));
                }
            }
            if !keep {
                at = seen;
            }
            seen = seen + 1;
        }
        if !keep {
            best = item;
        }
        i += 1;
    }
    proof {
        assert(slice@.take(seen) =~= slice@);
    }
    Some(best)
}

/// The product of two integers that fits in an `i32`.
pub fn multiply(a: i32, b: i32) -> (product: i32)
    requires
        i32::MIN <= a * b <= i32::MAX,
    ensures
        product == a * b,
{
    a * b
}

/// The difference of two integers that fits in an `i32`.
pub fn subtract(a: i32, b: i32) -> (difference: i32)
    requires
        i32::MIN <= a - b <= i32::MAX,
    ensures
        difference == a - b,
{
    a - b
}

} // verus!
