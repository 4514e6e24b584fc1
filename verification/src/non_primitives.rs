//! Sequences and records, looked at more closely.

use vstd::prelude::*;
use crate::record::{destructure_record, Record};
use crate::sequence::{index_fixed_sequence, FixedSequence};

verus! {

/// The sum and the product of `x` and `y`, as one record of two. Both have to
/// fit the type.
pub fn calc(x: i32, y: i32) -> (r: (i32, i32))
    requires
        i32::MIN <= x + y <= i32::MAX,
        i32::MIN <= x * y <= i32::MAX,
    ensures
        r == ((x + y) as i32, (x * y) as i32),
{
    (x + y, x * y)
}

/// From three sequences the element at position 1 of each: of 10 to 50 in
/// steps of ten, of 1 to 3, and of five zeros. Then the first and the last
/// element of the first sequence, the last being found by the length.
pub fn arrays() -> (r: (i32, i32, i32, i32, i32))
    ensures
        r == (20i32, 2i32, 0i32, 10i32, 50i32),
{
    let arr: FixedSequence<i32, 5> = FixedSequence::new([10, 20, 30, 40, 50]);
    let arr_with_type: FixedSequence<i32, 3> = FixedSequence::new([1, 2, 3]);
    let arr_repeated: FixedSequence<i32, 5> = FixedSequence::repeated(0);
    let second = *index_fixed_sequence(&arr, 1).unwrap();
    let second_with_type = *index_fixed_sequence(&arr_with_type, 1).unwrap();
    let second_repeated = *index_fixed_sequence(&arr_repeated, 1).unwrap();
    let first = *index_fixed_sequence(&arr, 0).unwrap();
    let last = *index_fixed_sequence(&arr, arr.len() - 1).unwrap();
    (second, second_with_type, second_repeated, first, last)
}

/// Builds the record `(42, second, 'R')`, binds its fields to `x`, `y` and
/// `z`, and reads the first field once more by its position. Returns the three
/// bound values, that field, and what `calc` makes of 10 and 20.
pub fn tuples<F: Copy>(second: F) -> (r: (Record<i32, F, char>, i32, (i32, i32)))
    ensures
        r == ((42i32, second, 'R'), 42i32, (30i32, 200i32)),
{
    let tup: Record<i32, F, char> = (42, second, 'R');
    let (x, y, z) = destructure_record(tup, ("x", "y", "z"));
    ((*x.value(), *y.value(), *z.value()), tup.0, calc(10, 20))
}

} // verus!
