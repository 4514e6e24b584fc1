//! From raw text to an integer, by way of one name declared three times.

use vstd::prelude::*;
use crate::binding::{declare_immutable, shadow};
use crate::error::StepError;
use crate::text::{parse_i32, parsed, trim, trimmed};

verus! {

/// Binds `raw_text` to a name, declares the name anew as the trimmed text, and
/// once more as that text read as a 32-bit signed integer. The result is the
/// integer where the trimmed text is an integer literal that fits, and
/// `ParseError` otherwise.
pub fn parse_pipeline<'a>(raw_text: &'a str) -> (r: Result<i32, StepError>)
    ensures
        r == parsed(trimmed(raw_text@)),
{
    let input = declare_immutable("input", raw_text);
    let trimming = |text: &&'a str| -> (rest: &'a str)
        ensures
            rest@ == trimmed(text@),
        { trim(*text) };
    let input = shadow(&input, trimming);
    let parsing = |text: &&'a str| -> (number: Result<i32, StepError>)
        ensures
            number == parsed(text@),
        { parse_i32(*text) };
    let input = shadow(&input, parsing);
    input.into_value()
}

} // verus!
