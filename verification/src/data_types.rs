//! Scalar and compound values, one step for each kind.
//!
//! A step builds its values and hands them back, so that a caller can show
//! them. None takes input but the steps on tuples, which carry a field of the
//! caller's choosing through unchanged.

use vstd::prelude::*;
use crate::record::{destructure_record, sum_of_triple, Record};
use crate::sequence::{index_fixed_sequence, slice_fixed_sequence, FixedSequence};

verus! {

/// A signed value, an unsigned one, a byte, and the byte widened to sixteen
/// bits by an explicit cast.
pub fn integers() -> (r: (i32, u64, u8, u16))
    ensures
        r == (-42i32, 999_999u64, 10u8, 10u16),
{
    let x: i32 = -42;
    let y: u64 = 999_999;
    let a: u8 = 10;
    let b: u16 = a as u16;
    (x, y, a, b)
}

/// The largest byte, a copy of it, and the byte that wrapping addition of one
/// turns it into.
pub fn integer_overflow() -> (r: (u8, u8, u8))
    ensures
        r == (255u8, 255u8, 0u8),
{
    let x: u8 = 255;
    let y: u8 = x;
    let z: u8 = x.wrapping_add(1);
    (x, y, z)
}

/// Whether the run is ready, and the flag `f` where it is to be shown: only a
/// ready run looks at `f`, and shows it only while it is unset.
pub fn booleans() -> (r: (bool, Option<bool>))
    ensures
        r == (true, Some(false)),
{
    let is_ready: bool = true;
    let mut shown: Option<bool> = None;
    if is_ready {
        let f: bool = false;
        if !f {
            shown = Some(f);
        }
    }
    (is_ready, shown)
}

/// Three characters: a symbol, a letter and one from beyond the basic plane.
pub fn chars() -> (r: (char, char, char))
    ensures
        r == ('\u{2665}', 'A', '\u{1F980}'),
{
    let heart: char = '\u{2665}';
    let letter: char = 'A';
    let emoji: char = '\u{1F980}';
    (heart, letter, emoji)
}

/// Builds the record `(500, second, 'R')`, binds its fields to `x`, `y` and
/// `z`, and reads the second field once more by its position. Returns the
/// three bound values and that field.
pub fn tuples<F: Copy>(second: F) -> (r: (Record<i32, F, char>, F))
    ensures
        r == ((500i32, second, 'R'), second),
{
    let tup: Record<i32, F, char> = (500, second, 'R');
    let (x, y, z) = destructure_record(tup, ("x", "y", "z"));
    ((*x.value(), *y.value(), *z.value()), tup.1)
}

/// The third and the fifth element of the sequence 1 to 5.
pub fn arrays() -> (r: (i64, i64))
    ensures
        r == (3i64, 5i64),
{
    let arr: FixedSequence<i64, 5> = FixedSequence::new([1, 2, 3, 4, 5]);
    let third = *index_fixed_sequence(&arr, 2).unwrap();
    let ans = *index_fixed_sequence(&arr, 4).unwrap();
    (third, ans)
}

/// The first three elements of the sequence 1 to 5, then both elements of its
/// window `[1, 3)`.
pub fn slices() -> (r: ((i32, i32, i32), (i32, i32)))
    ensures
        r == ((1i32, 2i32, 3i32), (2i32, 3i32)),
{
    let arr: FixedSequence<i32, 5> = FixedSequence::new([1, 2, 3, 4, 5]);
    let head = (
        *index_fixed_sequence(&arr, 0).unwrap(),
        *index_fixed_sequence(&arr, 1).unwrap(),
        *index_fixed_sequence(&arr, 2).unwrap(),
    );
    let slice = slice_fixed_sequence(&arr, 1, 3).unwrap();
    (head, (*slice.get(0).unwrap(), *slice.get(1).unwrap()))
}

/// The record `(10, 28, 36)` and the sum of its fields. A third of the sum is
/// the average of the three.
pub fn challenge() -> (r: (Record<i32, i32, i32>, i64))
    ensures
        r == ((10i32, 28i32, 36i32), 74i64),
{
    let tup: Record<i32, i32, i32> = (10, 28, 36);
    (tup, sum_of_triple(tup))
}

/// One value of each kind. The type `F` is whatever the caller represents
/// fractions with.
#[derive(Debug)]
pub struct Cheatsheet<F> {
    /// A signed integer.
    pub a: i32,
    /// A fraction.
    pub b: F,
    /// A truth value.
    pub c: bool,
    /// A character.
    pub d: char,
    /// A record of an integer, a fraction and a character.
    pub tup: Record<i32, F, char>,
    /// A sequence of three.
    pub ar: [i32; 3],
    /// What the sequence holds from position 1 on.
    pub slice: Vec<i32>,
}

/// One value of each kind: four scalars, then a record, a sequence of three
/// and the window of that sequence from position 1 to its end. The fractions
/// `b` and `middle` are carried through unchanged.
pub fn summary_cheatsheet<F: Copy>(b: F, middle: F) -> (sheet: Cheatsheet<F>)
    ensures
        sheet.a == -100,
        sheet.b == b,
        sheet.c,
        sheet.d == '\u{1F980}',
        sheet.tup == (1i32, middle, 'c'),
        sheet.ar@ == seq![1i32, 2i32, 3i32],
        sheet.slice@ == seq![2i32, 3i32],
{
    let a: i32 = -100;
    let c: bool = true;
    let d: char = '\u{1F980}';
    let tup: Record<i32, F, char> = (1, middle, 'c');
    let ar: [i32; 3] = [1, 2, 3];
    let sequence = FixedSequence::new(ar);
    let tail = slice_fixed_sequence(&sequence, 1, 3).unwrap();
    let slice = vstd::slice::slice_to_vec(tail.as_slice());
    assert(slice@ =~= seq![2i32, 3i32]);
    assert(ar@ =~= seq![1i32, 2i32, 3i32]);
    Cheatsheet { a, b, c, d, tup, ar, slice }
}

} // verus!
