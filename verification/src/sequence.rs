//! Fixed-length sequences and non-owning views of a contiguous part of one.

use vstd::prelude::*;
use crate::error::StepError;

verus! {

/// An ordered collection of `N` elements of one type. The length is part of the
/// type and there is no operation that changes an element.
#[derive(Debug)]
pub struct FixedSequence<T, const N: usize> {
    items: [T; N],
}

impl<T, const N: usize> View for FixedSequence<T, N> {
    type V = Seq<T>;

    closed spec fn view(&self) -> Seq<T> {
        self.items@
    }
}

/// A borrowed window of a [`FixedSequence`]: `len` elements from position
/// `start` on. It owns nothing and lives no longer than the sequence it was
/// taken from.
#[derive(Debug)]
pub struct SequenceView<'a, T, const N: usize> {
    parent: &'a FixedSequence<T, N>,
    start: usize,
    len: usize,
}

impl<'a, T, const N: usize> View for SequenceView<'a, T, N> {
    type V = Seq<T>;

    closed spec fn view(&self) -> Seq<T> {
        self.parent@.subrange(self.start as int, self.start + self.len)
    }
}

impl<T, const N: usize> FixedSequence<T, N> {
    /// Wraps an array.
    pub fn new(items: [T; N]) -> (s: Self)
        ensures
            s@ == items@,
    {
        FixedSequence { items }
    }

    /// The sequence that holds `value` at every position.
    pub fn repeated(value: T) -> (s: Self) where T: Copy
        ensures
            s@.len() == N,
            forall|i: int| 0 <= i < N ==> s@[i] == value,
    {
        let s = FixedSequence { items: [value;N] };
        proof {
            s.lemma_len();
        }
        s
    }

    /// The number of elements, which is always `N`.
    pub fn len(&self) -> (n: usize)
        ensures
            n == N,
            n == self@.len(),
    {
        proof {
            self.lemma_len();
        }
        N
    }

    /// Every sequence of this type has exactly `N` elements.
    pub proof fn lemma_len(&self)
        ensures
            self@.len() == N,
    {
        vstd::array::array_len_matches_n(&self.items);
    }
}

/// The element at position `i`, or `IndexOutOfRange` when `i` is not below the length.
pub fn index_fixed_sequence<T, const N: usize>(seq: &FixedSequence<T, N>, i: usize) -> (r: Result<
    &T,
    StepError,
>)
    ensures
        i < seq@.len() ==> r == Ok::<&T, StepError>(&seq@[i as int]),
        i >= seq@.len() ==> r == Err::<&T, StepError>(StepError::IndexOutOfRange),
{
    proof {
        seq.lemma_len();
    }
    if i < N {
        Ok(&seq.items[i])
    } else {
        Err(StepError::IndexOutOfRange)
    }
}

impl<'a, T, const N: usize> SequenceView<'a, T, N> {
    /// The window never reaches past the end of its parent.
    #[verifier::type_invariant]
    spec fn within_parent(&self) -> bool {
        self.start + self.len <= N
    }

    /// Where in the parent the window begins.
    pub closed spec fn offset(&self) -> nat {
        self.start as nat
    }

    /// The whole sequence that the window was taken from.
    pub closed spec fn parent(&self) -> Seq<T> {
        self.parent@
    }

    /// Where in the parent the window begins.
    pub fn start(&self) -> (n: usize)
        ensures
            n == self.offset(),
    {
        self.start
    }

    /// The number of elements in the window.
    pub fn len(&self) -> (n: usize)
        ensures
            n == self@.len(),
            self.offset() + n <= self.parent().len(),
            self.parent().len() == N,
    {
        proof {
            use_type_invariant(self);
            self.parent.lemma_len();
        }
        self.len
    }

    /// The element at offset `k` of the window, or `IndexOutOfRange` when `k`
    /// is not below the window's length.
    pub fn get(&self, k: usize) -> (r: Result<&'a T, StepError>)
        ensures
            k < self@.len() ==> r == Ok::<&T, StepError>(&self@[k as int]),
            k < self@.len() ==> self@[k as int] == self.parent()[self.offset() + k],
            k >= self@.len() ==> r == Err::<&T, StepError>(StepError::IndexOutOfRange),
    {
        proof {
            use_type_invariant(self);
            self.parent.lemma_len();
        }
        if k < self.len {
            Ok(&self.parent.items[self.start + k])
        } else {
            Err(StepError::IndexOutOfRange)
        }
    }

    /// The window as a slice of the parent's storage.
    pub fn as_slice(&self) -> (s: &'a [T])
        ensures
            s@ == self@,
    {
        proof {
            use_type_invariant(self);
            self.parent.lemma_len();
        }
        let whole: &[T] = self.parent.items.as_slice();
        vstd::slice::slice_subrange(whole, self.start, self.start + self.len)
    }
}

/// The window `[start, end)` of `seq`, or `IndexOutOfRange` when `start > end`
/// or `end` is past the length. The element at offset `k` of the window is the
/// element at position `start + k` of `seq`.
pub fn slice_fixed_sequence<'a, T, const N: usize>(
    seq: &'a FixedSequence<T, N>,
    start: usize,
    end: usize,
) -> (r: Result<SequenceView<'a, T, N>, StepError>)
    ensures
        match r {
            Ok(v) => {
                &&& start <= end <= seq@.len()
                &&& v@ == seq@.subrange(start as int, end as int)
                &&& v.offset() == start
                &&& v.parent() == seq@
                &&& forall|k: int| 0 <= k < end - start ==> v@[k] == seq@[start + k]
            },
            Err(e) => e == StepError::IndexOutOfRange && !(start <= end <= seq@.len()),
        },
{
    proof {
        seq.lemma_len();
    }
    if start <= end && end <= N {
        Ok(SequenceView { parent: seq, start, len: end - start })
    } else {
        Err(StepError::IndexOutOfRange)
    }
}

} // verus!
