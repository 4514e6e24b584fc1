//! The bindings of one run, in the order in which they were declared.
//!
//! A name stands for the binding that was declared last under it. Declaring a
//! name again hides the earlier binding and changes nothing else: every
//! binding keeps its position, and what is read at a position stays what it
//! was until the scope that holds it ends.

use vstd::prelude::*;
use crate::binding::{assign, declare_immutable, declare_mutable, shadow, Binding, BindingModel};

verus! {

/// Whether position `at` holds the binding that `name` stands for: the last
/// one declared under that name.
pub open spec fn is_visible_at<V>(bindings: Seq<BindingModel<V>>, name: Seq<char>, at: int) -> bool {
    &&& 0 <= at < bindings.len()
    &&& bindings[at].name == name
    &&& forall|later: int| at < later < bindings.len() ==> (#[trigger] bindings[later]).name != name
}

/// Whether any binding goes by `name`.
pub open spec fn is_declared<V>(bindings: Seq<BindingModel<V>>, name: Seq<char>) -> bool {
    exists|at: int| 0 <= at < bindings.len() && (#[trigger] bindings[at]).name == name
}

/// The bindings declared so far, oldest first.
#[derive(Debug)]
pub struct Scope<V> {
    bindings: Vec<Binding<V>>,
}

impl<V> View for Scope<V> {
    type V = Seq<BindingModel<V>>;

    closed spec fn view(&self) -> Seq<BindingModel<V>> {
        self.bindings@.map_values(|b: Binding<V>| b@)
    }
}

impl<V> Scope<V> {
    /// A scope without bindings.
    pub fn new() -> (scope: Self)
        ensures
            scope@ == Seq::<BindingModel<V>>::empty(),
    {
        let scope = Scope { bindings: Vec::new() };
        assert(scope@ =~= Seq::<BindingModel<V>>::empty());
        scope
    }

    /// The number of bindings, hidden ones included.
    pub fn len(&self) -> (n: usize)
        ensures
            n == self@.len(),
    {
        self.bindings.len()
    }

    /// The binding at `position`, if there is one.
    pub fn get(&self, position: usize) -> (found: Option<&Binding<V>>)
        ensures
            position < self@.len() ==> found.is_some() && found.unwrap()@ == self@[position as int],
            position >= self@.len() ==> found.is_none(),
    {
        if position < self.bindings.len() {
            Some(&self.bindings[position])
        } else {
            None
        }
    }

    /// The value that `name` stands for, if the name is declared.
    pub fn value_of(&self, name: &str) -> (found: Option<&V>)
        ensures
            match found {
                Some(value) => exists|at: int|
                    is_visible_at(self@, name@, at) && *value == self@[at].value,
                None => !is_declared(self@, name@),
            },
    {
        match self.lookup(name) {
            Some(at) => Some(self.bindings[at].value()),
            None => None,
        }
    }

    /// The position of the binding that `name` stands for, if the name is
    /// declared.
    pub fn lookup(&self, name: &str) -> (found: Option<usize>)
        ensures
            match found {
                Some(at) => is_visible_at(self@, name@, at as int),
                None => !is_declared(self@, name@),
            },
    {
        let key = name.to_owned();
        let mut at = self.bindings.len();
        while at > 0
            invariant
                at <= self@.len(),
                self@.len() == self.bindings@.len(),
                key@ == name@,
                forall|later: int| at <= later < self@.len() ==> (#[trigger] self@[later]).name != name@,
            decreases at,
        {
            at -= 1;
            if self.bindings[at].has_name(&key) {
                return Some(at);
            }
        }
        None
    }

    /// Declares `name` as an immutable binding of `value` and returns its
    /// position. Earlier bindings stay where and as they were; one of the same
    /// name is hidden from now on.
    pub fn declare_immutable(&mut self, name: &str, value: V) -> (position: usize)
        ensures
            position == old(self)@.len(),
            final(self)@ == old(self)@.push(BindingModel { name: name@, value, mutable: false }),
            is_visible_at(final(self)@, name@, position as int),
    {
        let position = self.bindings.len();
        self.bindings.push(declare_immutable(name, value));
        assert(self@ =~= old(self)@.push(BindingModel { name: name@, value, mutable: false }));
        position
    }

    /// Declares `name` as a mutable binding of `value` and returns its
    /// position. Earlier bindings stay where and as they were; one of the same
    /// name is hidden from now on.
    pub fn declare_mutable(&mut self, name: &str, value: V) -> (position: usize)
        ensures
            position == old(self)@.len(),
            final(self)@ == old(self)@.push(BindingModel { name: name@, value, mutable: true }),
            is_visible_at(final(self)@, name@, position as int),
    {
        let position = self.bindings.len();
        self.bindings.push(declare_mutable(name, value));
        assert(self@ =~= old(self)@.push(BindingModel { name: name@, value, mutable: true }));
        position
    }

    /// Replaces the value of the binding that `name` stands for, which has to
    /// be mutable. Nothing else changes: no binding is added, and every other
    /// binding, each immutable one among them, is as it was.
    pub fn assign(&mut self, name: &str, new_value: V) -> (position: usize)
        requires
            exists|at: int| is_visible_at(old(self)@, name@, at) && old(self)@[at].mutable,
        ensures
            is_visible_at(old(self)@, name@, position as int),
            is_visible_at(final(self)@, name@, position as int),
            final(self)@ == old(self)@.update(
                position as int,
                BindingModel { value: new_value, ..old(self)@[position as int] },
            ),
            forall|at: int|
                0 <= at < old(self)@.len() && !old(self)@[at].mutable ==> final(self)@[at] == old(
                    self,
                )@[at],
    {
        let position = self.lookup(name).unwrap();
        assign(&mut self.bindings[position], new_value);
        assert(self@ =~= old(self)@.update(
            position as int,
            BindingModel { value: new_value, ..old(self)@[position as int] },
        ));
        position
    }

    /// Declares `name` anew, bound to what `transform` makes of its current
    /// value, and returns the new binding's position. The new binding is
    /// immutable. The binding that `name` stood for is hidden, not changed: it
    /// and every other earlier binding stay where and as they were.
    pub fn shadow<F>(&mut self, name: &str, transform: F) -> (position: usize) where
        F: FnOnce(&V) -> V,

        requires
            exists|at: int|
                is_visible_at(old(self)@, name@, at) && transform.requires((&old(self)@[at].value,)),
        ensures
            position == old(self)@.len(),
            final(self)@.len() == old(self)@.len() + 1,
            forall|at: int| 0 <= at < old(self)@.len() ==> final(self)@[at] == old(self)@[at],
            final(self)@[position as int].name == name@,
            !final(self)@[position as int].mutable,
            forall|at: int|
                is_visible_at(old(self)@, name@, at) ==> transform.ensures(
                    (&old(self)@[at].value,),
                    final(self)@[position as int].value,
                ),
            is_visible_at(final(self)@, name@, position as int),
    {
        let hidden = self.lookup(name).unwrap();
        let next = shadow(&self.bindings[hidden], transform);
        let position = self.bindings.len();
        self.bindings.push(next);
        assert(self@ =~= old(self)@.push(next@));
        position
    }

    /// Ends the scope that began when there were `mark` bindings: every binding
    /// declared since then is gone, and the names they had hidden stand for
    /// their earlier bindings again. Where there are no more than `mark`
    /// bindings, nothing was declared since then and nothing changes.
    pub fn leave(&mut self, mark: usize)
        ensures
            mark <= old(self)@.len() ==> final(self)@ == old(self)@.take(mark as int),
            mark > old(self)@.len() ==> final(self)@ == old(self)@,
    {
        self.bindings.truncate(mark);
        proof {
            if mark <= old(self)@.len() {
                assert(self@ =~= old(self)@.take(mark as int));
            } else {
                assert(self@ =~= old(self)@);
            }
        }
    }
}

} // verus!
