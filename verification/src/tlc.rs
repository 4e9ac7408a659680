//! The worker-count argument handed to an external model-checker process.

use vstd::prelude::*;

verus! {

/// How many worker threads the external checker is asked to use: a count
/// picked automatically, or a fixed one.
pub enum Workers {
    Auto,
    Count(usize),
}

/// The character for one decimal digit.
pub open spec fn decimal_digit(d: nat) -> char {
    if d == 0 {
        '0'
    } else if d == 1 {
        '1'
    } else if d == 2 {
        '2'
    } else if d == 3 {
        '3'
    } else if d == 4 {
        '4'
    } else if d == 5 {
        '5'
    } else if d == 6 {
        '6'
    } else if d == 7 {
        '7'
    } else if d == 8 {
        '8'
    } else {
        '9'
    }
}

/// The base-10 representation of a number, most significant digit first and
/// without leading zeros (a lone zero for zero).
pub open spec fn decimal_digits(n: nat) -> Seq<char>
    decreases n,
{
    if n < 10 {
        seq![decimal_digit(n)]
    } else {
        decimal_digits(n / 10).push(decimal_digit(n % 10))
    }
}

/// Relies on `usize::to_string` (std's `ToString` through `Display`), whose
/// documentation gives the base-10 representation of the value.
#[verifier::external_body]
fn count_to_string(count: usize) -> (s: String)
    ensures
        s@ == decimal_digits(count as nat),
{
    count.to_string()
}

/// The text the given worker choice puts on the checker's command line.
pub open spec fn spec_workers(w: Workers) -> Seq<char> {
    match w {
        Workers::Auto => "auto"@,
        Workers::Count(count) => decimal_digits(count as nat),
    }
}

/// Renders a worker choice for the checker's command line: the word `auto`,
/// or the count in base 10.
pub fn workers(w: Workers) -> (s: String)
    ensures
        s@ == spec_workers(w),
{
    match w {
        Workers::Auto => String::from_str("auto"),
        Workers::Count(count) => count_to_string(count),
    }
}

} // verus!
