//! Coding katas with verified contracts: a ten-pin bowling scorer, FizzBuzz, a rover
//! on a wrapping grid, a markdown link-to-footnote transformer, and a small
//! user-registration domain.

pub mod bowling;
pub mod fizzbuzz;
pub mod markdown;
pub mod rover;
pub mod text;
pub mod users;
