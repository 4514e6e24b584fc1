//! A name bound to a value, with a fixed policy on whether the value may be
//! replaced.

use vstd::prelude::*;

verus! {

/// A name, the value it currently stands for, and whether that value may be
/// replaced by assignment.
#[derive(Debug)]
pub struct Binding<T> {
    name: String,
    value: T,
    mutable: bool,
}

/// What a [`Binding`] is to a contract: its name as a sequence of characters,
/// its value and its mutability.
pub struct BindingModel<T> {
    pub name: Seq<char>,
    pub value: T,
    pub mutable: bool,
}

impl<T> View for Binding<T> {
    type V = BindingModel<T>;

    closed spec fn view(&self) -> BindingModel<T> {
        BindingModel { name: self.name@, value: self.value, mutable: self.mutable }
    }
}

impl<T> Binding<T> {
    /// The name.
    pub fn name(&self) -> (name: &str)
        ensures
            name@ == self@.name,
    {
        self.name.as_str()
    }

    /// Whether the binding goes by `name`.
    pub(crate) fn has_name(&self, name: &String) -> (same: bool)
        ensures
            same == (self@.name == name@),
    {
        self.name == *name
    }

    /// The value that the name stands for now.
    pub fn value(&self) -> (value: &T)
        ensures
            *value == self@.value,
    {
        &self.value
    }

    /// Gives up the binding for its value.
    pub fn into_value(self) -> (value: T)
        ensures
            value == self@.value,
    {
        self.value
    }

    /// Whether the value may be replaced by assignment.
    pub fn is_mutable(&self) -> (mutable: bool)
        ensures
            mutable == self@.mutable,
    {
        self.mutable
    }
}

/// Binds `name` to `value` for good: the binding admits no assignment.
pub fn declare_immutable<T>(name: &str, value: T) -> (binding: Binding<T>)
    ensures
        binding@ == (BindingModel { name: name@, value, mutable: false }),
{
    Binding { name: name.to_owned(), value, mutable: false }
}

/// Binds `name` to `value`, which later assignments may replace.
pub fn declare_mutable<T>(name: &str, value: T) -> (binding: Binding<T>)
    ensures
        binding@ == (BindingModel { name: name@, value, mutable: true }),
{
    Binding { name: name.to_owned(), value, mutable: true }
}

/// Replaces the value of a mutable binding. Name and mutability stay as they
/// were. A binding that is not mutable admits no assignment: the caller has to
/// show that this one is.
pub fn assign<T>(binding: &mut Binding<T>, new_value: T)
    requires
        old(binding)@.mutable,
    ensures
        final(binding)@ == (BindingModel { value: new_value, ..old(binding)@ }),
{
    binding.value = new_value;
}

/// Declares the name of `current` anew, bound to what `transform` makes of the
/// current value. The new binding is immutable and its value may be of another
/// type. `current` is only read: it and whatever was taken from it stay as
/// they were.
pub fn shadow<'a, T, U, F>(current: &'a Binding<T>, transform: F) -> (next: Binding<U>) where
    F: FnOnce(&'a T) -> U,

    requires
        transform.requires((&current@.value,)),
    ensures
        next@.name == current@.name,
        !next@.mutable,
        transform.ensures((&current@.value,), next@.value),
{
    let value = transform(&current.value);
    Binding { name: current.name.clone(), value, mutable: false }
}

} // verus!
