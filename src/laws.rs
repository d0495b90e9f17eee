use core::cmp::Ordering;
use vstd::prelude::*;
use vstd::std_specs::cmp::{PartialEqSpec, PartialOrdSpec};

use crate::integer::Integer;
use crate::model::{canonical_order, in_integer_range, int_cmp};

verus! {

/// Two integers that hold the same value are equal, whichever native widths
/// hold them: `==` holds, `partial_cmp` gives `Equal`, and so does the
/// canonical order.
pub proof fn lemma_equal_across_widths(a: Integer, b: Integer)
    requires
        a@ == b@,
    ensures
        a.eq_spec(&b),
        b.eq_spec(&a),
        a.partial_cmp_spec(&b) == Some(Ordering::Equal),
        canonical_order(a@, b@) == Ordering::Equal,
{
}

/// The order by value is a total order: reflexive, antisymmetric and
/// transitive, and `Equal` exactly on equal values.
pub proof fn lemma_numeric_order_total(a: int, b: int, c: int)
    ensures
        int_cmp(a, a) == Ordering::Equal,
        int_cmp(a, b) == Ordering::Equal <==> a == b,
        int_cmp(a, b) == Ordering::Less <==> int_cmp(b, a) == Ordering::Greater,
        int_cmp(a, b) == Ordering::Less && int_cmp(b, c) == Ordering::Less ==> int_cmp(a, c)
            == Ordering::Less,
{
}

/// The canonical order is a total order: reflexive, antisymmetric and
/// transitive, and `Equal` exactly on equal values.
pub proof fn lemma_canonical_order_total(a: int, b: int, c: int)
    ensures
        canonical_order(a, a) == Ordering::Equal,
        canonical_order(a, b) == Ordering::Equal <==> a == b,
        canonical_order(a, b) == Ordering::Less <==> canonical_order(b, a) == Ordering::Greater,
        canonical_order(a, b) == Ordering::Less && canonical_order(b, c) == Ordering::Less
            ==> canonical_order(a, c) == Ordering::Less,
{
}

/// Every value of a native width of at most 64 bits lies in the range that
/// an integer holds. With the contracts of the `from_*` and `to_*`
/// conversions, a value of such a width is held unchanged and converts back
/// to that width as itself.
pub proof fn lemma_native_widths_fit(v: int)
    requires
        u64::MIN <= v <= u64::MAX || i64::MIN <= v <= i64::MAX || usize::MIN <= v <= usize::MAX
            || isize::MIN <= v <= isize::MAX,
    ensures
        in_integer_range(v),
{
}

} // verus!
