//! Slug allocation: a requested slug is granted if it is free, and a slug
//! that nobody asked for is the decimal form of a number drawn from the
//! clock.

use crate::clock::subsec_nanos_now;
use crate::domain::{ShortenerError, Slug};
use crate::projection::Projection;
use crate::state::State;
use vstd::prelude::*;
use vstd::string::*;

verus! {

/// How many candidates one allocation may try before it gives up.
pub const MAX_ATTEMPTS: u32 = 32;

/// Generated slugs are the decimal forms of the numbers below this bound.
pub const CANDIDATES: u32 = 1_000_000_000;

/// The number that a given attempt makes of a clock sample: the sample
/// moved on by the count of attempts before it, so that a clock that has
/// not advanced between two attempts still gives two numbers.
pub open spec fn candidate_number(sample: nat, attempt: nat) -> nat {
    (sample + attempt) % (CANDIDATES as nat)
}

/// The decimal digit for a number below ten.
pub open spec fn digit_char(digit: nat) -> char
    recommends
        digit < 10,
{
    seq!['0', '1', '2', '3', '4', '5', '6', '7', '8', '9'][digit as int]
}

/// The decimal form of a number, without leading zeros.
pub open spec fn decimal(number: nat) -> Seq<char>
    decreases number,
{
    if number < 10 {
        seq![digit_char(number)]
    } else {
        decimal(number / 10).push(digit_char(number % 10))
    }
}

/// A slug that allocation may have generated: the decimal form of a number
/// below [`CANDIDATES`].
pub open spec fn is_generated(slug: Seq<char>) -> bool {
    exists|number: nat| number < CANDIDATES && slug == #[trigger] decimal(number)
}

/// Some slug that allocation may generate names a link of `state`.
pub open spec fn some_generated_slug_taken(state: State) -> bool {
    exists|number: nat| number < CANDIDATES && state.links.contains_key(#[trigger] decimal(number))
}

fn digit_text(digit: u32) -> (text: &'static str)
    requires
        digit < 10,
    ensures
        text@ == seq![digit_char(digit as nat)],
{
    proof {
        reveal_strlit("0");
        reveal_strlit("1");
        reveal_strlit("2");
        reveal_strlit("3");
        reveal_strlit("4");
        reveal_strlit("5");
        reveal_strlit("6");
        reveal_strlit("7");
        reveal_strlit("8");
        reveal_strlit("9");
    }
    let text = if digit == 0 {
        "0"
    } else if digit == 1 {
        "1"
    } else if digit == 2 {
        "2"
    } else if digit == 3 {
        "3"
    } else if digit == 4 {
        "4"
    } else if digit == 5 {
        "5"
    } else if digit == 6 {
        "6"
    } else if digit == 7 {
        "7"
    } else if digit == 8 {
        "8"
    } else {
        "9"
    };
    text
}

fn append_decimal(text: &mut String, number: u32)
    ensures
        final(text)@ == old(text)@ + decimal(number as nat),
    decreases number,
{
    if number >= 10 {
        append_decimal(text, number / 10);
    }
    text.append(digit_text(number % 10));
}

/// The slug that stands for `number`: its decimal form.
pub fn candidate(number: u32) -> (slug: Slug)
    ensures
        slug@ == decimal(number as nat),
{
    let mut text = String::new();
    append_decimal(&mut text, number);
    Slug(text)
}

/// Makes the candidate of one attempt from one clock sample, and gives it
/// unless it is taken.
pub fn try_candidate(sample: u32, attempt: u32, taken: &Projection) -> (choice: Option<Slug>)
    ensures
        match choice {
            Some(slug) => {
                &&& slug@ == decimal(candidate_number(sample as nat, attempt as nat))
                &&& !taken@.links.contains_key(slug@)
            },
            None => taken@.links.contains_key(
                decimal(candidate_number(sample as nat, attempt as nat)),
            ),
        },
{
    let number: u64 = (sample as u64 + attempt as u64) % (CANDIDATES as u64);
    let slug = candidate(number as u32);
    if taken.contains(&slug) {
        None
    } else {
        Some(slug)
    }
}

/// Tries candidates until one is free, at most [`MAX_ATTEMPTS`] times. Every
/// attempt reads the clock anew. It gives up only after every candidate
/// tried was taken, so it succeeds whenever no slug of the generated form is
/// taken.
pub fn generate(taken: &Projection) -> (choice: Option<Slug>)
    ensures
        match choice {
            Some(slug) => is_generated(slug@) && !taken@.links.contains_key(slug@),
            None => some_generated_slug_taken(taken@),
        },
{
    let mut attempt: u32 = 0;
    while attempt < MAX_ATTEMPTS
        invariant
            attempt <= MAX_ATTEMPTS,
            attempt > 0 ==> some_generated_slug_taken(taken@),
        decreases MAX_ATTEMPTS - attempt,
    {
        let sample: u32 = subsec_nanos_now();
        match try_candidate(sample, attempt, taken) {
            Some(slug) => {
                return Some(slug);
            },
            None => {},
        }
        attempt += 1;
    }
    None
}

/// Decides the slug of a new link. A requested slug is granted exactly when
/// no link has it. Without a request a slug is generated, which fails only
/// when every attempt met a taken slug, and never while no slug of the
/// generated form is taken.
pub fn allocate(requested: Option<Slug>, taken: &Projection) -> (outcome: Result<
    Slug,
    ShortenerError,
>)
    ensures
        match outcome {
            Ok(slug) => {
                &&& !taken@.links.contains_key(slug@)
                &&& match requested {
                    Some(wanted) => slug@ == wanted@,
                    None => is_generated(slug@),
                }
            },
            Err(error) => {
                &&& error == ShortenerError::SlugAlreadyInUse
                &&& match requested {
                    Some(wanted) => taken@.links.contains_key(wanted@),
                    None => some_generated_slug_taken(taken@),
                }
            },
        },
{
    match requested {
        Some(wanted) => {
            if taken.contains(&wanted) {
                Err(ShortenerError::SlugAlreadyInUse)
            } else {
                Ok(wanted)
            }
        },
        None => {
            match generate(taken) {
                Some(slug) => Ok(slug),
                None => Err(ShortenerError::SlugAlreadyInUse),
            }
        },
    }
}

} // verus!
