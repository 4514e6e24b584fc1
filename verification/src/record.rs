//! Records: a fixed number of values of whatever types, in a fixed order.
//!
//! A record of three fields is a tuple of three. A field is read by its
//! position, or all three are bound to names at once.

use vstd::prelude::*;
use crate::binding::{declare_immutable, Binding, BindingModel};

verus! {

/// Three values of whatever types, in order.
pub type Record<A, B, C> = (A, B, C);

/// Binds the fields of `record` to `names`, first to first and so on. Each
/// binding is immutable. That there are as many names as fields is a matter of
/// the types.
pub fn destructure_record<A, B, C>(record: Record<A, B, C>, names: (&str, &str, &str)) -> (bound: (
    Binding<A>,
    Binding<B>,
    Binding<C>,
))
    ensures
        bound.0@ == (BindingModel { name: names.0@, value: record.0, mutable: false }),
        bound.1@ == (BindingModel { name: names.1@, value: record.1, mutable: false }),
        bound.2@ == (BindingModel { name: names.2@, value: record.2, mutable: false }),
{
    let (first, second, third) = record;
    (
        declare_immutable(names.0, first),
        declare_immutable(names.1, second),
        declare_immutable(names.2, third),
    )
}

/// The sum of the three fields, exact: it is taken in a type wide enough for
/// any three 32-bit values. Dividing it by three gives their average.
pub fn sum_of_triple(triple: Record<i32, i32, i32>) -> (sum: i64)
    ensures
        sum == triple.0 + triple.1 + triple.2,
{
    triple.0 as i64 + triple.1 as i64 + triple.2 as i64
}

} // verus!
