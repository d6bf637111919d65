use vstd::prelude::*;
use crate::text::{int_text, int_to_string};

verus! {

/// What is said for `number`: "fizz" for a multiple of three, "buzz" for a multiple
/// of five, "fizzbuzz" for a multiple of both, and the number itself otherwise.
pub open spec fn fizzbuzz_text(number: int) -> Seq<char> {
    if number % 3 == 0 && number % 5 == 0 {
        "fizzbuzz"@
    } else if number % 3 == 0 {
        "fizz"@
    } else if number % 5 == 0 {
        "buzz"@
    } else {
        int_text(number)
    }
}

pub fn fizzbuzz(number: i32) -> (r: String)
    ensures
        r@ == fizzbuzz_text(number as int),
{
    if number % 3 == 0 && number % 5 == 0 {
        return String::from_str("fizzbuzz");
    }
    if number % 3 == 0 {
        return String::from_str("fizz");
    }
    if number % 5 == 0 {
        return String::from_str("buzz");
    }
    int_to_string(number)
}

} // verus!
