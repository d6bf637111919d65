use vstd::prelude::*;

verus! {

/// Pins standing at the start of a frame.
pub const MAX_POINTS: i32 = 10;

/// Frames in one game.
pub const FRAMES: usize = 10;

/// A roll knocks down between zero and ten pins.
pub open spec fn valid_roll(points: i32) -> bool {
    0 <= points <= MAX_POINTS
}

pub open spec fn valid_rolls(rolls: Seq<i32>) -> bool {
    forall|i: int| 0 <= i < rolls.len() ==> valid_roll(#[trigger] rolls[i])
}

pub open spec fn is_strike_at(rolls: Seq<i32>, i: int) -> bool {
    rolls[i] == MAX_POINTS
}

pub open spec fn is_spare_at(rolls: Seq<i32>, i: int) -> bool {
    !is_strike_at(rolls, i) && rolls[i] + rolls[i + 1] == MAX_POINTS
}

/// Rolls that the frame starting at roll `i` consumes.
pub open spec fn frame_len(rolls: Seq<i32>, i: int) -> int {
    if is_strike_at(rolls, i) {
        1
    } else {
        2
    }
}

/// How many rolls must have been recorded to score the frame starting at roll `i`:
/// a strike or a spare looks two rolls past its first one.
pub open spec fn frame_reach(rolls: Seq<i32>, i: int) -> int {
    if is_strike_at(rolls, i) || is_spare_at(rolls, i) {
        i + 3
    } else {
        i + 2
    }
}

/// Points of the frame starting at roll `i`, bonus included.
pub open spec fn frame_points(rolls: Seq<i32>, i: int) -> int {
    if is_strike_at(rolls, i) {
        MAX_POINTS + rolls[i + 1] + rolls[i + 2]
    } else if is_spare_at(rolls, i) {
        MAX_POINTS + rolls[i + 2]
    } else {
        rolls[i] + rolls[i + 1]
    }
}

/// Index of the first roll of frame `f` (counting from zero).
pub open spec fn frame_start(rolls: Seq<i32>, f: nat) -> int
    decreases f,
{
    if f == 0 {
        0
    } else {
        let prev = frame_start(rolls, (f - 1) as nat);
        prev + frame_len(rolls, prev)
    }
}

/// Points of the first `f` frames.
pub open spec fn score_frames(rolls: Seq<i32>, f: nat) -> int
    decreases f,
{
    if f == 0 {
        0
    } else {
        score_frames(rolls, (f - 1) as nat) + frame_points(rolls, frame_start(rolls, (f - 1) as nat))
    }
}

/// Score of a game: the points of its ten frames.
pub open spec fn game_score(rolls: Seq<i32>) -> int {
    score_frames(rolls, FRAMES as nat)
}

/// Every one of the ten frames, bonus rolls included, has been recorded.
pub open spec fn is_complete(rolls: Seq<i32>) -> bool {
    forall|f: nat| f < FRAMES ==> frame_reach(rolls, #[trigger] frame_start(rolls, f)) <= rolls.len()
}

/// A game's rolls, in the order they were bowled.
pub struct BowlingGame {
    rolls: Vec<i32>,
}

impl View for BowlingGame {
    type V = Seq<i32>;

    closed spec fn view(&self) -> Seq<i32> {
        self.rolls@
    }
}

/// How a frame was closed.
pub enum Frame {
    Strike,
    Spare { first: i32, second: i32 },
    Open { first: i32, second: i32 },
}

impl Frame {
    /// The rolls of the frame itself, bonus excluded.
    pub open spec fn spec_len(&self) -> int {
        match self {
            Frame::Strike => 1,
            _ => 2,
        }
    }
}

proof fn lemma_frame_bounds(rolls: Seq<i32>, f: nat)
    requires
        valid_rolls(rolls),
        is_complete(rolls),
        f <= FRAMES,
    ensures
        0 <= score_frames(rolls, f) <= 30 * f,
        0 <= frame_start(rolls, f) <= 2 * f,
        f < FRAMES ==> frame_start(rolls, f) < rolls.len(),
    decreases f,
{
    if f > 0 {
        let p = frame_start(rolls, (f - 1) as nat);
        lemma_frame_bounds(rolls, (f - 1) as nat);
        assert(frame_reach(rolls, p) <= rolls.len());
        assert(valid_roll(rolls[p]));
        assert(valid_roll(rolls[p + 1]));
        if is_strike_at(rolls, p) || is_spare_at(rolls, p) {
            assert(valid_roll(rolls[p + 2]));
        }
        if f < FRAMES {
            let q = frame_start(rolls, f);
            assert(frame_reach(rolls, q) <= rolls.len());
        }
    }
}

impl BowlingGame {
    pub fn new() -> (r: BowlingGame)
        ensures
            r@ == Seq::<i32>::empty(),
    {
        BowlingGame { rolls: Vec::new() }
    }

    /// Records one roll after those already recorded.
    pub fn roll(&mut self, points: i32)
        ensures
            final(self)@ == old(self)@.push(points),
    {
        self.rolls.push(points);
    }

    fn is_strike(&self, i: usize) -> (r: bool)
        requires
            i < self@.len(),
        ensures
            r == is_strike_at(self@, i as int),
    {
        self.rolls[i] == MAX_POINTS
    }

    fn is_spare(&self, i: usize) -> (r: bool)
        requires
            i + 1 < self@.len(),
            valid_rolls(self@),
        ensures
            r == (self@[i as int] + self@[i + 1] == MAX_POINTS),
    {
        let _n = self.rolls.len();
        assert(valid_roll(self@[i as int]) && valid_roll(self@[i + 1]));
        self.rolls[i] + self.rolls[i + 1] == MAX_POINTS
    }

    /// Classifies the frame whose first roll is roll `i`.
    fn frame_at(&self, i: usize) -> (r: Frame)
        requires
            valid_rolls(self@),
            i < self@.len(),
            frame_reach(self@, i as int) <= self@.len(),
        ensures
            r.spec_len() == frame_len(self@, i as int),
            r is Strike <==> is_strike_at(self@, i as int),
            r is Spare <==> is_spare_at(self@, i as int),
            r matches Frame::Spare { first, second } ==> first == self@[i as int] && second == self@[i + 1],
            r matches Frame::Open { first, second } ==> first == self@[i as int] && second == self@[i + 1],
    {
        let _n = self.rolls.len();
        if self.is_strike(i) {
            Frame::Strike
        } else if self.is_spare(i) {
            Frame::Spare { first: self.rolls[i], second: self.rolls[i + 1] }
        } else {
            Frame::Open { first: self.rolls[i], second: self.rolls[i + 1] }
        }
    }

    /// Points of a frame whose first roll is roll `i`, bonus rolls included.
    fn frame_score(&self, frame: &Frame, i: usize) -> (r: i32)
        requires
            valid_rolls(self@),
            i < self@.len(),
            frame_reach(self@, i as int) <= self@.len(),
            frame is Strike <==> is_strike_at(self@, i as int),
            frame is Spare <==> is_spare_at(self@, i as int),
            frame matches Frame::Open { first, second } ==> first == self@[i as int] && second == self@[i + 1],
        ensures
            r == frame_points(self@, i as int),
    {
        let _n = self.rolls.len();
        assert(valid_roll(self@[i as int]));
        assert(valid_roll(self@[i + 1]));
        match frame {
            Frame::Strike => {
                assert(valid_roll(self@[i + 2]));
                MAX_POINTS + self.rolls[i + 1] + self.rolls[i + 2]
            },
            Frame::Spare { .. } => {
                assert(valid_roll(self@[i + 2]));
                MAX_POINTS + self.rolls[i + 2]
            },
            Frame::Open { first, second } => *first + *second,
        }
    }

    /// Total score of a complete game.
    pub fn calculate_result(&self) -> (r: i32)
        requires
            valid_rolls(self@),
            is_complete(self@),
        ensures
            r == game_score(self@),
    {
        let mut total: i32 = 0;
        let mut i: usize = 0;
        let mut f: usize = 0;
        while f < FRAMES
            invariant
                valid_rolls(self@),
                is_complete(self@),
                f <= FRAMES,
                i == frame_start(self@, f as nat),
                total == score_frames(self@, f as nat),
            decreases FRAMES - f,
        {
            proof {
                lemma_frame_bounds(self@, f as nat);
                lemma_frame_bounds(self@, (f + 1) as nat);
                assert(frame_reach(self@, frame_start(self@, f as nat)) <= self@.len());
            }
            let frame = self.frame_at(i);
            let points = self.frame_score(&frame, i);
            total = total + points;
            i = match frame {
                Frame::Strike => i + 1,
                _ => i + 2,
            };
            f = f + 1;
        }
        total
    }
}

/// Scoring only reads the recorded rolls: two games holding the same rolls, or one
/// game scored twice with no roll recorded in between, give the same score.
pub proof fn lemma_score_repeatable(first: BowlingGame, second: BowlingGame)
    requires
        first@ == second@,
    ensures
        game_score(first@) == game_score(second@),
{
}

/// Rolls keep the order in which they were recorded: a ten followed by a zero opens
/// the game with a strike whose bonus starts with that zero, and the second frame
/// starts at the zero.
pub proof fn lemma_strike_then_zero(rest: Seq<i32>)
    ensures
        ({
            let rolls = seq![10i32, 0i32] + rest;
            &&& is_strike_at(rolls, 0)
            &&& !is_spare_at(rolls, 0)
            &&& frame_points(rolls, 0) == MAX_POINTS + rolls[2]
            &&& frame_start(rolls, 1) == 1
        }),
{
    let rolls = seq![10i32, 0i32] + rest;
    assert(rolls[0] == 10 && rolls[1] == 0);
    assert(frame_start(rolls, 0) == 0);
}

/// The same two rolls the other way round, a zero then a ten, make a spare that
/// takes up the first two rolls.
pub proof fn lemma_zero_then_ten(rest: Seq<i32>)
    ensures
        ({
            let rolls = seq![0i32, 10i32] + rest;
            &&& !is_strike_at(rolls, 0)
            &&& is_spare_at(rolls, 0)
            &&& frame_points(rolls, 0) == MAX_POINTS + rolls[2]
            &&& frame_start(rolls, 1) == 2
        }),
{
    let rolls = seq![0i32, 10i32] + rest;
    assert(rolls[0] == 0 && rolls[1] == 10);
    assert(frame_start(rolls, 0) == 0);
}

proof fn lemma_open_frames(rolls: Seq<i32>, v: i32, f: nat)
    requires
        rolls == Seq::new(20, |i: int| v),
        0 <= v <= 4,
        f <= FRAMES,
    ensures
        frame_start(rolls, f) == 2 * f,
        score_frames(rolls, f) == 2 * v * f,
    decreases f,
{
    if f > 0 {
        lemma_open_frames(rolls, v, (f - 1) as nat);
        let p = frame_start(rolls, (f - 1) as nat);
        assert(rolls[p] == v && rolls[p + 1] == v);
        assert(2 * v * (f - 1) + 2 * v == 2 * v * f) by (nonlinear_arith);
    }
}

/// A game of twenty rolls that each knock down the same few pins, four at most, is
/// ten open frames: it scores twenty times that number.
pub proof fn lemma_same_small_rolls(v: i32)
    requires
        0 <= v <= 4,
    ensures
        is_complete(Seq::new(20, |i: int| v)),
        game_score(Seq::new(20, |i: int| v)) == 20 * v,
{
    let rolls = Seq::new(20, |i: int| v);
    lemma_open_frames(rolls, v, FRAMES as nat);
    assert forall|f: nat| f < FRAMES implies frame_reach(rolls, #[trigger] frame_start(rolls, f)) <= rolls.len() by {
        lemma_open_frames(rolls, v, f);
    }
}

proof fn lemma_strike_frames(rolls: Seq<i32>, f: nat)
    requires
        rolls == Seq::new(12, |i: int| MAX_POINTS),
        f <= FRAMES,
    ensures
        frame_start(rolls, f) == f,
        score_frames(rolls, f) == 30 * f,
    decreases f,
{
    if f > 0 {
        lemma_strike_frames(rolls, (f - 1) as nat);
    }
}

/// Twelve strikes make a perfect game of three hundred.
pub proof fn lemma_perfect_game()
    ensures
        is_complete(Seq::new(12, |i: int| MAX_POINTS)),
        game_score(Seq::new(12, |i: int| MAX_POINTS)) == 300,
{
    let rolls = Seq::new(12, |i: int| MAX_POINTS);
    lemma_strike_frames(rolls, FRAMES as nat);
    assert forall|f: nat| f < FRAMES implies frame_reach(rolls, #[trigger] frame_start(rolls, f)) <= rolls.len() by {
        lemma_strike_frames(rolls, f);
    }
}

impl Default for BowlingGame {
    fn default() -> (r: Self)
        ensures
            r@ == Seq::<i32>::empty(),
    {
        Self::new()
    }
}

} // verus!
