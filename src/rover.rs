pub mod location;
pub mod navigator;

use vstd::prelude::*;
use crate::rover::location::{Location, WORLD_HEIGHT, WORLD_WIDTH};
use crate::rover::navigator::{
    can_move, forward, left_of, pose_text, right_of, AnyNavigator, Heading, Navigator,
    NorthNavigator, Pose,
};

verus! {

/// A command sent to the rover: turn right, turn left, or move one square forward.
#[derive(Clone, Copy, Debug, PartialEq, Eq)]
pub enum Command {
    R,
    L,
    F,
}

/// The pose after one command.
pub open spec fn step(p: Pose, c: Command) -> Pose {
    match c {
        Command::R => (right_of(p.0), p.1, p.2),
        Command::L => (left_of(p.0), p.1, p.2),
        Command::F => forward(p),
    }
}

/// The pose after a list of commands, carried out in order.
pub open spec fn run(p: Pose, commands: Seq<Command>) -> Pose
    decreases commands.len(),
{
    if commands.len() == 0 {
        p
    } else {
        step(run(p, commands.drop_last()), commands.last())
    }
}

/// The pose stands on a square of the world.
pub open spec fn on_world(p: Pose) -> bool {
    0 <= p.1 < WORLD_WIDTH && 0 <= p.2 < WORLD_HEIGHT
}

/// A rover on the world stays on it whatever it is told.
pub proof fn lemma_step_on_world(p: Pose, c: Command)
    requires
        on_world(p),
    ensures
        can_move(p),
        on_world(step(p, c)),
{
}

/// A rover, driven by the navigator of its current heading.
pub struct Rover {
    navigator: AnyNavigator,
}

impl View for Rover {
    type V = Pose;

    closed spec fn view(&self) -> Pose {
        self.navigator@
    }
}

impl Rover {
    #[verifier::type_invariant]
    spec fn stays_on_world(&self) -> bool {
        on_world(self.navigator@)
    }

    /// The position and heading as text, `x:y:H`.
    pub fn format_position(&self) -> (r: String)
        ensures
            r@ == pose_text(self@),
    {
        self.navigator.format()
    }

    /// The rover after carrying out the commands in order.
    pub fn execute(&self, commands: Vec<Command>) -> (r: Rover)
        ensures
            r@ == run(self@, commands@),
            on_world(r@),
    {
        proof {
            use_type_invariant(self);
        }
        let mut rover = Rover { navigator: self.navigator.copy_navigator() };
        let mut i: usize = 0;
        proof {
            assert(commands@.subrange(0, 0) =~= Seq::<Command>::empty());
        }
        while i < commands.len()
            invariant
                i <= commands@.len(),
                rover@ == run(self@, commands@.subrange(0, i as int)),
            decreases commands@.len() - i,
        {
            rover = rover.execute_command(&commands[i]);
            proof {
                let done = commands@.subrange(0, i + 1);
                assert(done.drop_last() =~= commands@.subrange(0, i as int));
                assert(done.last() == commands@[i as int]);
            }
            i = i + 1;
        }
        proof {
            assert(commands@.subrange(0, i as int) =~= commands@);
            use_type_invariant(&rover);
        }
        rover
    }

    fn execute_command(&self, command: &Command) -> (r: Rover)
        ensures
            r@ == step(self@, *command),
    {
        proof {
            use_type_invariant(self);
            lemma_step_on_world(self@, *command);
        }
        match command {
            Command::R => Rover { navigator: self.navigator.rotate_right() },
            Command::L => Rover { navigator: self.navigator.rotate_left() },
            Command::F => Rover { navigator: self.navigator.move_forward() },
        }
    }
}

impl Default for Rover {
    /// A rover at the origin, facing north.
    fn default() -> (r: Self)
        ensures
            r@ == (Heading::North, 0int, 0int),
    {
        Self { navigator: AnyNavigator::North(NorthNavigator { location: Location::create(0, 0) }) }
    }
}

} // verus!
