use vstd::prelude::*;
use crate::rover::location::{location_text, trunc_rem, Location, WORLD_HEIGHT, WORLD_WIDTH};

verus! {

/// The way a navigator faces.
#[derive(Clone, Copy, Debug, PartialEq, Eq)]
pub enum Heading {
    North,
    East,
    South,
    West,
}

/// Where a navigator stands and which way it faces: heading, column, row.
pub type Pose = (Heading, int, int);

pub open spec fn left_of(h: Heading) -> Heading {
    match h {
        Heading::North => Heading::West,
        Heading::West => Heading::South,
        Heading::South => Heading::East,
        Heading::East => Heading::North,
    }
}

pub open spec fn right_of(h: Heading) -> Heading {
    match h {
        Heading::North => Heading::East,
        Heading::East => Heading::South,
        Heading::South => Heading::West,
        Heading::West => Heading::North,
    }
}

pub open spec fn heading_letter(h: Heading) -> char {
    match h {
        Heading::North => 'N',
        Heading::East => 'E',
        Heading::South => 'S',
        Heading::West => 'W',
    }
}

/// The pose one square ahead, wrapping round the edges of the world.
pub open spec fn forward(p: Pose) -> Pose {
    match p.0 {
        Heading::North => (p.0, p.1, trunc_rem(p.2 + 1, WORLD_HEIGHT as int)),
        Heading::East => (p.0, trunc_rem(p.1 + 1, WORLD_WIDTH as int), p.2),
        Heading::South => (p.0, p.1, trunc_rem(WORLD_HEIGHT + p.2 - 1, WORLD_HEIGHT as int)),
        Heading::West => (p.0, trunc_rem(WORLD_WIDTH + p.1 - 1, WORLD_WIDTH as int), p.2),
    }
}

/// The move ahead stays within `i32`.
pub open spec fn can_move(p: Pose) -> bool {
    match p.0 {
        Heading::North => p.2 < i32::MAX,
        Heading::East => p.1 < i32::MAX,
        Heading::South => p.2 <= i32::MAX - WORLD_HEIGHT,
        Heading::West => p.1 <= i32::MAX - WORLD_WIDTH,
    }
}

/// Text of a pose: `x:y:H`, with `H` the initial of the heading.
pub open spec fn pose_text(p: Pose) -> Seq<char> {
    location_text(p.1, p.2) + seq![':', heading_letter(p.0)]
}

/// A navigator of any heading.
pub enum AnyNavigator {
    North(NorthNavigator),
    East(EastNavigator),
    South(SouthNavigator),
    West(WestNavigator),
}

impl AnyNavigator {
    /// A navigator of the same heading on the same square.
    pub fn copy_navigator(&self) -> (r: AnyNavigator)
        ensures
            r@ == self@,
    {
        match self {
            AnyNavigator::North(n) => AnyNavigator::North(NorthNavigator { location: n.location }),
            AnyNavigator::East(n) => AnyNavigator::East(EastNavigator { location: n.location }),
            AnyNavigator::South(n) => AnyNavigator::South(SouthNavigator { location: n.location }),
            AnyNavigator::West(n) => AnyNavigator::West(WestNavigator { location: n.location }),
        }
    }
}

impl View for AnyNavigator {
    type V = Pose;

    open spec fn view(&self) -> Pose {
        match self {
            AnyNavigator::North(n) => (Heading::North, n.location@.0, n.location@.1),
            AnyNavigator::East(n) => (Heading::East, n.location@.0, n.location@.1),
            AnyNavigator::South(n) => (Heading::South, n.location@.0, n.location@.1),
            AnyNavigator::West(n) => (Heading::West, n.location@.0, n.location@.1),
        }
    }
}

/// Turns and moves a rover over the world.
pub trait Navigator {
    spec fn pose(&self) -> Pose;

    fn format(&self) -> (r: String)
        ensures
            r@ == pose_text(self.pose()),
    ;

    fn rotate_left(&self) -> (r: AnyNavigator)
        ensures
            r@ == (left_of(self.pose().0), self.pose().1, self.pose().2),
    ;

    fn rotate_right(&self) -> (r: AnyNavigator)
        ensures
            r@ == (right_of(self.pose().0), self.pose().1, self.pose().2),
    ;

    fn move_forward(&self) -> (r: AnyNavigator)
        requires
            can_move(self.pose()),
        ensures
            r@ == forward(self.pose()),
    ;
}

fn format_heading(location: &Location, letter: &str) -> (r: String)
    ensures
        r@ == location_text(location@.0, location@.1) + letter@,
{
    let mut s = location.to_string();
    s.append(letter);
    s
}

pub struct NorthNavigator {
    pub location: Location,
}

pub struct EastNavigator {
    pub location: Location,
}

pub struct SouthNavigator {
    pub location: Location,
}

pub struct WestNavigator {
    pub location: Location,
}

impl Navigator for NorthNavigator {
    open spec fn pose(&self) -> Pose {
        (Heading::North, self.location@.0, self.location@.1)
    }

    fn format(&self) -> (r: String) {
        proof {
            reveal_strlit(":N");
        }
        format_heading(&self.location, ":N")
    }

    fn rotate_left(&self) -> (r: AnyNavigator) {
        AnyNavigator::West(WestNavigator { location: self.location })
    }

    fn rotate_right(&self) -> (r: AnyNavigator) {
        AnyNavigator::East(EastNavigator { location: self.location })
    }

    fn move_forward(&self) -> (r: AnyNavigator) {
        AnyNavigator::North(NorthNavigator { location: self.location.increase_y() })
    }
}

impl Navigator for EastNavigator {
    open spec fn pose(&self) -> Pose {
        (Heading::East, self.location@.0, self.location@.1)
    }

    fn format(&self) -> (r: String) {
        proof {
            reveal_strlit(":E");
        }
        format_heading(&self.location, ":E")
    }

    fn rotate_left(&self) -> (r: AnyNavigator) {
        AnyNavigator::North(NorthNavigator { location: self.location })
    }

    fn rotate_right(&self) -> (r: AnyNavigator) {
        AnyNavigator::South(SouthNavigator { location: self.location })
    }

    fn move_forward(&self) -> (r: AnyNavigator) {
        AnyNavigator::East(EastNavigator { location: self.location.increase_x() })
    }
}

impl Navigator for SouthNavigator {
    open spec fn pose(&self) -> Pose {
        (Heading::South, self.location@.0, self.location@.1)
    }

    fn format(&self) -> (r: String) {
        proof {
            reveal_strlit(":S");
        }
        format_heading(&self.location, ":S")
    }

    fn rotate_left(&self) -> (r: AnyNavigator) {
        AnyNavigator::East(EastNavigator { location: self.location })
    }

    fn rotate_right(&self) -> (r: AnyNavigator) {
        AnyNavigator::West(WestNavigator { location: self.location })
    }

    fn move_forward(&self) -> (r: AnyNavigator) {
        AnyNavigator::South(SouthNavigator { location: self.location.decrease_y() })
    }
}

impl Navigator for WestNavigator {
    open spec fn pose(&self) -> Pose {
        (Heading::West, self.location@.0, self.location@.1)
    }

    fn format(&self) -> (r: String) {
        proof {
            reveal_strlit(":W");
        }
        format_heading(&self.location, ":W")
    }

    fn rotate_left(&self) -> (r: AnyNavigator) {
        AnyNavigator::South(SouthNavigator { location: self.location })
    }

    fn rotate_right(&self) -> (r: AnyNavigator) {
        AnyNavigator::North(NorthNavigator { location: self.location })
    }

    fn move_forward(&self) -> (r: AnyNavigator) {
        AnyNavigator::West(WestNavigator { location: self.location.decrease_x() })
    }
}

impl Navigator for AnyNavigator {
    open spec fn pose(&self) -> Pose {
        self@
    }

    fn format(&self) -> (r: String) {
        match self {
            AnyNavigator::North(n) => n.format(),
            AnyNavigator::East(n) => n.format(),
            AnyNavigator::South(n) => n.format(),
            AnyNavigator::West(n) => n.format(),
        }
    }

    fn rotate_left(&self) -> (r: AnyNavigator) {
        match self {
            AnyNavigator::North(n) => n.rotate_left(),
            AnyNavigator::East(n) => n.rotate_left(),
            AnyNavigator::South(n) => n.rotate_left(),
            AnyNavigator::West(n) => n.rotate_left(),
        }
    }

    fn rotate_right(&self) -> (r: AnyNavigator) {
        match self {
            AnyNavigator::North(n) => n.rotate_right(),
            AnyNavigator::East(n) => n.rotate_right(),
            AnyNavigator::South(n) => n.rotate_right(),
            AnyNavigator::West(n) => n.rotate_right(),
        }
    }

    fn move_forward(&self) -> (r: AnyNavigator) {
        match self {
            AnyNavigator::North(n) => n.move_forward(),
            AnyNavigator::East(n) => n.move_forward(),
            AnyNavigator::South(n) => n.move_forward(),
            AnyNavigator::West(n) => n.move_forward(),
        }
    }
}

} // verus!
