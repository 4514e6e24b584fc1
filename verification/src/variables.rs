//! Declaring, assigning, shadowing and scoping, one step for each.
//!
//! A step hands back the values that its bindings held, in the order in which
//! it read them.

use vstd::prelude::*;
use vstd::string::StringSliceAdditionalSpecFns;
use crate::binding::{assign, declare_immutable, declare_mutable, shadow};
use crate::scope::{is_visible_at, Scope};
use crate::error::StepError;
use crate::pipeline::parse_pipeline;
use crate::text::{
    lemma_decimal_value_push, lemma_trimmed_keeps_bare_text, parse_i32, parsed, trim, trimmed,
};

verus! {

/// The highest score.
pub const MAX_POINTS: u32 = 100_000;

/// The value of an immutable binding.
pub fn variable() -> (r: &'static str)
    ensures
        r@ == "Hello"@,
{
    let x = declare_immutable("x", "Hello");
    *x.value()
}

/// The value of a mutable binding before and after an assignment.
pub fn mutability() -> (r: (&'static str, &'static str))
    ensures
        r.0@ == "Hello"@,
        r.1@ == "6"@,
{
    let mut x = declare_mutable("x", "Hello");
    let before = *x.value();
    assign(&mut x, "6");
    let after = *x.value();
    (before, after)
}

/// A value whose type is written out.
pub fn explicit_typing() -> (r: u32)
    ensures
        r == 65538,
{
    let score = declare_immutable("score", 65538u32);
    *score.value()
}

/// The three values that `x` stands for in turn, each made from the one
/// before, and then a text and its length under one name. The text is read
/// before the name is declared anew and handed back afterwards.
pub fn shadowing1() -> (r: ((i32, i32, i32), (&'static str, usize)))
    ensures
        r.0 == (5i32, 6i32, 12i32),
        r.1.0@ == "   "@,
        r.1.1 == 3,
{
    let mut scope: Scope<i32> = Scope::new();
    scope.declare_immutable("x", 5);
    let first = *scope.value_of("x").unwrap();
    let add_one = |x: &i32| -> (next: i32)
        requires
            *x == 5,
        ensures
            next == *x + 1,
        { *x + 1 };
    scope.shadow("x", add_one);
    let second = *scope.value_of("x").unwrap();
    let double = |x: &i32| -> (next: i32)
        requires
            *x == 6,
        ensures
            next == *x * 2,
        { *x * 2 };
    scope.shadow("x", double);
    let third = *scope.value_of("x").unwrap();

    let spaces = declare_immutable("spaces", "   ");
    let text: &'static str = *spaces.value();
    let length = |spaces: &&'static str| -> (len: usize)
        ensures
            len == (*spaces).spec_bytes().len() as usize,
        { (*spaces).len() };
    let spaces = shadow(&spaces, length);
    proof {
        reveal_strlit("   ");
        vstd::utf8::is_ascii_chars_encode_utf8("   "@);
    }
    ((first, second, third), (text, *spaces.value()))
}

/// The number that the text `42` writes, by way of the pipeline.
pub fn shadowing2() -> (r: i32)
    ensures
        r == 42,
{
    proof {
        reveal_strlit("42");
        let s = "42"@;
        lemma_trimmed_keeps_bare_text(s);
        assert(s =~= Seq::<char>::empty().push('4').push('2'));
        lemma_decimal_value_push(Seq::<char>::empty(), '4');
        lemma_decimal_value_push(Seq::<char>::empty().push('4'), '2');
    }
    parse_pipeline("42").unwrap()
}

/// The three values that `input` stands for in turn: a text, the text
/// trimmed, and the number that it writes.
pub fn shadowing3() -> (r: (&'static str, &'static str, i32))
    ensures
        r.0@ == "123"@,
        r.1@ == "123"@,
        r.2 == 123,
{
    proof {
        reveal_strlit("123");
        let s = "123"@;
        lemma_trimmed_keeps_bare_text(s);
        assert(s =~= Seq::<char>::empty().push('1').push('2').push('3'));
        lemma_decimal_value_push(Seq::<char>::empty(), '1');
        lemma_decimal_value_push(Seq::<char>::empty().push('1'), '2');
        lemma_decimal_value_push(Seq::<char>::empty().push('1').push('2'), '3');
    }
    let input = declare_immutable("input", "123");
    let raw: &'static str = *input.value();
    let trimming = |text: &&'static str| -> (rest: &'static str)
        ensures
            rest@ == trimmed(text@),
        { trim(*text) };
    let input = shadow(&input, trimming);
    let bare: &'static str = *input.value();
    let parsing = |text: &&'static str| -> (number: Result<i32, StepError>)
        ensures
            number == parsed(text@),
        { parse_i32(*text) };
    let input = shadow(&input, parsing);
    (raw, bare, input.into_value().unwrap())
}

/// The value of a constant.
pub fn constant() -> (r: u32)
    ensures
        r == MAX_POINTS,
{
    MAX_POINTS
}

/// The value that `n` stands for inside a nested scope that declares it anew,
/// and the value that it stands for once that scope has ended.
pub fn variable_scope() -> (r: (i32, i32))
    ensures
        r == (20i32, 10i32),
{
    let mut scope: Scope<i32> = Scope::new();
    scope.declare_immutable("n", 10);
    let mark = scope.len();
    scope.declare_immutable("n", 20);
    let inside = *scope.value_of("n").unwrap();
    scope.leave(mark);
    assert(is_visible_at(scope@, "n"@, 0));
    let outside = *scope.value_of("n").unwrap();
    (inside, outside)
}

/// The four values of a counter that is raised by one three times, and the
/// text that its name stands for once it is declared anew.
pub fn challenge() -> (r: ((i32, i32, i32, i32), &'static str))
    ensures
        r.0 == (0i32, 1i32, 2i32, 3i32),
        r.1@ == "Demo counter"@,
{
    let mut scope: Scope<i32> = Scope::new();
    let at = scope.declare_mutable("counter", 0);
    let start = *scope.value_of("counter").unwrap();
    scope.assign("counter", start + 1);
    let once = *scope.value_of("counter").unwrap();
    scope.assign("counter", once + 1);
    let twice = *scope.value_of("counter").unwrap();
    scope.assign("counter", twice + 1);
    let thrice = *scope.value_of("counter").unwrap();

    let counter = scope.get(at).unwrap();
    let naming = |counter: &i32| -> (text: &'static str)
        ensures
            text@ == "Demo counter"@,
        { "Demo counter" };
    let counter = shadow(counter, naming);
    ((start, once, twice, thrice), *counter.value())
}

} // verus!
