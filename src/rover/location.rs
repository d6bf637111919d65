use vstd::prelude::*;
use crate::text::{int_text, int_to_string};

verus! {

pub const WORLD_WIDTH: i32 = 10;

pub const WORLD_HEIGHT: i32 = 10;

/// Remainder of `v` divided by `d`, rounded toward zero as Rust's `%` rounds, so
/// that it takes the sign of `v`.
pub open spec fn trunc_rem(v: int, d: int) -> int {
    if v >= 0 {
        v % d
    } else {
        -((-v) % d)
    }
}

/// Text of a position: its column and its row, separated by a colon.
pub open spec fn location_text(x: int, y: int) -> Seq<char> {
    int_text(x) + seq![':'] + int_text(y)
}

/// A square of the wrapping world, by column and row.
#[derive(Clone, Copy, Debug)]
pub struct Location {
    x: i32,
    y: i32,
}

impl View for Location {
    type V = (int, int);

    closed spec fn view(&self) -> (int, int) {
        (self.x as int, self.y as int)
    }
}

impl Location {
    pub fn create(x: i32, y: i32) -> (r: Location)
        ensures
            r@ == (x as int, y as int),
    {
        Location { x, y }
    }

    /// One square to the east, coming back at column zero past the east edge.
    pub fn increase_x(&self) -> (r: Location)
        requires
            self@.0 < i32::MAX,
        ensures
            r@ == (trunc_rem(self@.0 + 1, WORLD_WIDTH as int), self@.1),
    {
        Location { x: (self.x + 1) % WORLD_WIDTH, y: self.y }
    }

    /// One square to the west, coming back at the last column past the west edge.
    pub fn decrease_x(&self) -> (r: Location)
        requires
            self@.0 <= i32::MAX - WORLD_WIDTH,
        ensures
            r@ == (trunc_rem(WORLD_WIDTH + self@.0 - 1, WORLD_WIDTH as int), self@.1),
    {
        Location { x: (WORLD_WIDTH + self.x - 1) % WORLD_WIDTH, y: self.y }
    }

    /// One square to the north, coming back at row zero past the north edge.
    pub fn increase_y(&self) -> (r: Location)
        requires
            self@.1 < i32::MAX,
        ensures
            r@ == (self@.0, trunc_rem(self@.1 + 1, WORLD_HEIGHT as int)),
    {
        Location { x: self.x, y: (self.y + 1) % WORLD_HEIGHT }
    }

    /// One square to the south, coming back at the last row past the south edge.
    pub fn decrease_y(&self) -> (r: Location)
        requires
            self@.1 <= i32::MAX - WORLD_HEIGHT,
        ensures
            r@ == (self@.0, trunc_rem(WORLD_HEIGHT + self@.1 - 1, WORLD_HEIGHT as int)),
    {
        Location { x: self.x, y: (WORLD_HEIGHT + self.y - 1) % WORLD_HEIGHT }
    }

    /// The position as text, `x:y`.
    pub fn to_string(&self) -> (r: String)
        ensures
            r@ == location_text(self@.0, self@.1),
    {
        let mut s = int_to_string(self.x);
        proof {
            reveal_strlit(":");
        }
        s.append(":");
        let y = int_to_string(self.y);
        s.append(y.as_str());
        s
    }
}

} // verus!
