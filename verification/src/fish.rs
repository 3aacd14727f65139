//! Fish: their kinds, their life from spawning to the hold, and what the
//! rod, the trash and the boat do to them.

use crate::chance::{total_weight, uniform, weighted_index};
use crate::components::{
    Band, CanDie, Countdown, DecayTimer, Direction, Extent, FishStorage, Invincibility, Position,
    Speed, Weight,
};
use crate::events::{
    BoatCollisionEvent, CatchFishEvent, DropFishEvent, FishCollisionWithRodEvent,
    ReelingFishEvent, TrashCollisionEvent,
};
use crate::resources::{catch_weight, AliveFish, Catch, PlayerFishStored};
use crate::rod::Rod;
use crate::units::{in_world, is_in_world, KILOGRAM, PLAYFIELD_HALF_WIDTH, SECOND, UNIT};
use vstd::prelude::*;

verus! {

/// The kinds of fish, from the commonest to the rarest waters.
#[derive(Clone, Copy, Debug, PartialEq, Eq, Hash, Structural)]
pub enum FishVariant {
    One,
    Two,
    Three,
    Four,
    Five,
    Six,
    Seven,
    Eight,
}

/// How many kinds of fish there are.
pub const FISH_VARIANTS: usize = 8;

impl FishVariant {
    /// All kinds, in order.
    pub open spec fn catalog() -> Seq<FishVariant> {
        seq![
            FishVariant::One,
            FishVariant::Two,
            FishVariant::Three,
            FishVariant::Four,
            FishVariant::Five,
            FishVariant::Six,
            FishVariant::Seven,
            FishVariant::Eight,
        ]
    }

    /// The place of the kind in the catalog.
    pub open spec fn ordinal(self) -> int {
        match self {
            FishVariant::One => 0,
            FishVariant::Two => 1,
            FishVariant::Three => 2,
            FishVariant::Four => 3,
            FishVariant::Five => 4,
            FishVariant::Six => 5,
            FishVariant::Seven => 6,
            FishVariant::Eight => 7,
        }
    }

    /// The kind at a place of the catalog; the last kind for any place past
    /// the end.
    pub open spec fn at(index: int) -> FishVariant {
        if 0 <= index < 8 {
            Self::catalog()[index]
        } else {
            FishVariant::Eight
        }
    }

    /// The depths at which the kind spawns, in millionths of a world unit
    /// below the surface.
    pub open spec fn spawn_depth_range(self) -> Band {
        match self {
            FishVariant::One => Band { min: 100_000_000, max: 200_000_000 },
            FishVariant::Two => Band { min: 150_000_000, max: 500_000_000 },
            FishVariant::Three => Band { min: 400_000_000, max: 800_000_000 },
            FishVariant::Four => Band { min: 700_000_000, max: 1_000_000_000 },
            FishVariant::Five => Band { min: 950_000_000, max: 1_300_000_000 },
            FishVariant::Six => Band { min: 100_000_000, max: 2_000_000_000 },
            FishVariant::Seven => Band { min: 1_600_000_000, max: 2_000_000_000 },
            FishVariant::Eight => Band { min: 2_300_000_000, max: 2_800_000_000 },
        }
    }

    /// The weights of the kind, in hundredths of a kilogram.
    pub open spec fn weight_range(self) -> Band {
        match self {
            FishVariant::One => Band { min: 10, max: 30 },
            FishVariant::Two => Band { min: 30, max: 100 },
            FishVariant::Three => Band { min: 300, max: 600 },
            FishVariant::Four => Band { min: 600, max: 1_500 },
            FishVariant::Five => Band { min: 1_500, max: 2_500 },
            FishVariant::Six => Band { min: 10_000, max: 50_000 },
            FishVariant::Seven => Band { min: 3_500, max: 7_000 },
            FishVariant::Eight => Band { min: 8_000, max: 15_000 },
        }
    }

    /// How often the kind is spawned, relative to the others.
    pub open spec fn rarity(self) -> u32 {
        match self {
            FishVariant::One => 100,
            FishVariant::Two => 70,
            FishVariant::Three => 55,
            FishVariant::Four => 40,
            FishVariant::Five => 30,
            FishVariant::Six => 2,
            FishVariant::Seven => 15,
            FishVariant::Eight => 9,
        }
    }

    /// All kinds, in order.
    pub fn iterator() -> (all: Vec<FishVariant>)
        ensures
            all@ == Self::catalog(),
    {
        let all = vec![
            FishVariant::One,
            FishVariant::Two,
            FishVariant::Three,
            FishVariant::Four,
            FishVariant::Five,
            FishVariant::Six,
            FishVariant::Seven,
            FishVariant::Eight,
        ];
        assert(all@ =~= Self::catalog());
        all
    }

    /// The place of the kind in the catalog.
    pub fn index(self) -> (place: usize)
        ensures
            place == self.ordinal(),
            place < FISH_VARIANTS,
            Self::at(place as int) == self,
    {
        match self {
            FishVariant::One => 0,
            FishVariant::Two => 1,
            FishVariant::Three => 2,
            FishVariant::Four => 3,
            FishVariant::Five => 4,
            FishVariant::Six => 5,
            FishVariant::Seven => 6,
            FishVariant::Eight => 7,
        }
    }

    /// The kind at a place of the catalog; the last kind for any place past
    /// the end.
    pub fn from_index(index: usize) -> (variant: FishVariant)
        ensures
            variant == Self::at(index as int),
            index < FISH_VARIANTS ==> variant.ordinal() == index,
    {
        match index {
            0 => FishVariant::One,
            1 => FishVariant::Two,
            2 => FishVariant::Three,
            3 => FishVariant::Four,
            4 => FishVariant::Five,
            5 => FishVariant::Six,
            6 => FishVariant::Seven,
            _ => FishVariant::Eight,
        }
    }

    /// The depths at which the kind spawns, in millionths of a world unit
    /// below the surface.
    pub fn get_spawn_depth_range(self) -> (band: Band)
        ensures
            band == self.spawn_depth_range(),
            band.wf(),
            100 * UNIT <= band.min,
            band.max <= 2_800 * UNIT,
    {
        match self {
            FishVariant::One => Band { min: 100 * UNIT, max: 200 * UNIT },
            FishVariant::Two => Band { min: 150 * UNIT, max: 500 * UNIT },
            FishVariant::Three => Band { min: 400 * UNIT, max: 800 * UNIT },
            FishVariant::Four => Band { min: 700 * UNIT, max: 1_000 * UNIT },
            FishVariant::Five => Band { min: 950 * UNIT, max: 1_300 * UNIT },
            FishVariant::Six => Band { min: 100 * UNIT, max: 2_000 * UNIT },
            FishVariant::Seven => Band { min: 1_600 * UNIT, max: 2_000 * UNIT },
            FishVariant::Eight => Band { min: 2_300 * UNIT, max: 2_800 * UNIT },
        }
    }

    /// The weights of the kind, in hundredths of a kilogram.
    pub fn get_weight_range(self) -> (band: Band)
        ensures
            band == self.weight_range(),
            band.wf(),
            0 < band.min,
            band.max <= 500 * KILOGRAM,
    {
        match self {
            FishVariant::One => Band { min: 10, max: 30 },
            FishVariant::Two => Band { min: 30, max: 100 },
            FishVariant::Three => Band { min: 300, max: 600 },
            FishVariant::Four => Band { min: 600, max: 1_500 },
            FishVariant::Five => Band { min: 1_500, max: 2_500 },
            FishVariant::Six => Band { min: 10_000, max: 50_000 },
            FishVariant::Seven => Band { min: 3_500, max: 7_000 },
            FishVariant::Eight => Band { min: 8_000, max: 15_000 },
        }
    }

    /// How often the kind is spawned, relative to the others.
    pub fn spawn_weight(self) -> (weight: u32)
        ensures
            weight == self.rarity(),
            0 < weight <= 100,
    {
        match self {
            FishVariant::One => 100,
            FishVariant::Two => 70,
            FishVariant::Three => 55,
            FishVariant::Four => 40,
            FishVariant::Five => 30,
            FishVariant::Six => 2,
            FishVariant::Seven => 15,
            FishVariant::Eight => 9,
        }
    }
}

/// Whether a fish is free or on the hook.
#[derive(Clone, Copy, Debug, PartialEq, Eq, Structural)]
pub enum FishState {
    Swimming,
    Caught,
}

/// How long a fish that was shaken off the hook cannot be caught again, in
/// milliseconds.
pub const FISH_INVINCIBILITY_TIME: u32 = SECOND;

/// The slowest a fish swims, in thousandths of a world unit per second.
pub const FISH_SPEED_MIN: u32 = 150_000;

/// The fastest a fish swims, in thousandths of a world unit per second.
pub const FISH_SPEED_MAX: u32 = 250_000;

/// Fish above this line sink until they are below it.
pub const SINK_LINE: i64 = -100 * UNIT;

/// Width and height of a fish's bounding box.
pub const FISH_SIZE: u64 = 3_000_000;

/// No fish is spawned while this many are alive.
pub const FISH_POPULATION_CAP: u32 = 81;

/// How many fish the water starts with.
pub const INITIAL_FISH: usize = 20;

/// A weight is drawn in steps this many times finer than the hundredth of a
/// kilogram that it is rounded to.
pub const WEIGHT_DRAW_STEPS: i64 = 100;

/// A weight drawn in ten-thousandths of a kilogram, rounded to the nearest
/// hundredth; a half rounds up.
pub open spec fn rounded(raw: u64) -> u64 {
    ((raw + 50) / 100) as u64
}

/// Rounding keeps a weight that was drawn between two whole hundredths
/// between them.
pub proof fn lemma_rounded_stays_in_band(raw: u64, band: Band)
    requires
        0 <= band.min,
        band.min * 100 <= raw <= band.max * 100,
    ensures
        band.contains(rounded(raw) as int),
{
}

/// Rounds a weight drawn in ten-thousandths of a kilogram to the nearest
/// hundredth.
pub fn round_to_hundredths(raw: u64) -> (weight: u64)
    ensures
        weight == rounded(raw),
{
    if raw % 100 >= 50 {
        raw / 100 + 1
    } else {
        raw / 100
    }
}

/// A fish.
#[derive(Clone, Copy, Debug, PartialEq, Eq)]
pub struct Fish {
    pub position: Position,
    pub size: Extent,
    pub direction: Direction,
    pub speed: Speed,
    pub weight: Weight,
    pub state: FishState,
    pub variant: FishVariant,
    pub can_die: CanDie,
    pub decay_timer: DecayTimer,
    pub invincibility: Option<Invincibility>,
}

/// How a fish is drawn: mirrored or not, and turned or not.
#[derive(Clone, Copy, Debug, PartialEq, Eq)]
pub struct Orientation {
    pub flip_x: bool,
    pub rotation: Rotation,
}

/// The turn of a sprite about the axis that points out of the screen.
#[derive(Clone, Copy, Debug, PartialEq, Eq, Structural)]
pub enum Rotation {
    /// Not turned.
    Identity,
    /// A quarter turn counter-clockwise: nose up.
    QuarterUp,
    /// A quarter turn clockwise: nose down.
    QuarterDown,
}

/// The position of the rod, if there is one.
pub open spec fn hook(rod: Option<Rod>) -> Option<Position> {
    match rod {
        Some(rod) => Some(rod.position),
        None => None,
    }
}

/// How a sprite heading in `direction` is drawn.
pub open spec fn orientation(direction: Direction) -> Orientation {
    match direction {
        Direction::Left => Orientation { flip_x: true, rotation: Rotation::Identity },
        Direction::Right => Orientation { flip_x: false, rotation: Rotation::Identity },
        Direction::Up => Orientation { flip_x: false, rotation: Rotation::QuarterUp },
        Direction::Down => Orientation { flip_x: false, rotation: Rotation::QuarterDown },
    }
}

impl Fish {
    /// A fish is well formed when its weight is one that its kind can have
    /// and its speed is one that fish swim at.
    pub open spec fn wf(self) -> bool {
        &&& self.variant.weight_range().contains(self.weight.current as int)
        &&& FISH_SPEED_MIN <= self.speed.current <= FISH_SPEED_MAX
    }

    /// Whether both coordinates leave room for a tick of motion.
    pub open spec fn in_range(self) -> bool {
        in_world(self.position.x) && in_world(self.position.y)
    }

    /// Whether the fish is outside the playfield to the left or right.
    pub open spec fn out_of_bounds(self) -> bool {
        self.position.x > PLAYFIELD_HALF_WIDTH || self.position.x < -PLAYFIELD_HALF_WIDTH
    }

    /// Whether the rod may hook the fish: it swims and has no grace period.
    pub open spec fn catchable(self) -> bool {
        self.state == FishState::Swimming && self.invincibility is None
    }

    /// Whether the fish leaves the water now: it is dying and off-screen.
    pub open spec fn doomed(self) -> bool {
        self.can_die.dying && self.out_of_bounds()
    }

    /// The distance swum in `dt` milliseconds at full speed, in millionths
    /// of a world unit.
    pub open spec fn stride(self, dt: u32) -> int {
        self.speed.current * dt
    }

    /// The fish after `dt` milliseconds. A swimming fish moves by its
    /// stride to the left or right, or sinks by half its stride, rounded
    /// down; heading up it stays. A caught fish sits on the hook, wherever
    /// that is.
    pub open spec fn advanced(self, hook: Option<Position>, dt: u32) -> Fish {
        match self.state {
            FishState::Swimming => {
                let position = match self.direction {
                    Direction::Left => Position {
                        x: (self.position.x - self.stride(dt)) as i64,
                        y: self.position.y,
                    },
                    Direction::Right => Position {
                        x: (self.position.x + self.stride(dt)) as i64,
                        y: self.position.y,
                    },
                    Direction::Down => Position {
                        x: self.position.x,
                        y: (self.position.y - self.stride(dt) / 2) as i64,
                    },
                    Direction::Up => self.position,
                };
                Fish { position, ..self }
            },
            FishState::Caught => match hook {
                Some(position) => Fish { position, ..self },
                None => self,
            },
        }
    }

    /// The heading after the boundary rules, where `pick` is the horizontal
    /// heading that a fish takes up when it has sunk far enough. In order:
    /// a fish above the sink line heads down; a fish below it that heads
    /// down takes up `pick`; and a fish that is not dying and is outside
    /// the playfield heads back in.
    pub open spec fn turned(self, pick: Direction) -> Direction {
        let sinking = if self.position.y > SINK_LINE {
            Direction::Down
        } else {
            self.direction
        };
        let levelled = if self.position.y < SINK_LINE && sinking == Direction::Down {
            pick
        } else {
            sinking
        };
        if self.can_die.dying {
            levelled
        } else if self.position.x < -PLAYFIELD_HALF_WIDTH {
            Direction::Right
        } else if self.position.x > PLAYFIELD_HALF_WIDTH {
            Direction::Left
        } else {
            levelled
        }
    }

    /// The fish after the boundary rules.
    pub open spec fn bounded(self, pick: Direction) -> Fish {
        Fish { direction: self.turned(pick), ..self }
    }

    /// The fish once its time is checked: it is dying if it was, or if its
    /// decay timer has run out.
    pub open spec fn aged(self) -> Fish {
        Fish {
            can_die: CanDie { dying: self.can_die.dying || self.decay_timer.timer.is_finished() },
            ..self
        }
    }

    /// A fish as it enters the water: swimming, not dying, with no grace
    /// period and the bounding box of a fish.
    pub open spec fn fresh(
        variant: FishVariant,
        direction: Direction,
        position: Position,
        speed: Speed,
        weight: Weight,
        decay_timer: DecayTimer,
    ) -> Fish {
        Fish {
            position,
            size: Extent { width: FISH_SIZE, height: FISH_SIZE },
            direction,
            speed,
            weight,
            state: FishState::Swimming,
            variant,
            can_die: CanDie { dying: false },
            decay_timer,
            invincibility: None,
        }
    }

    /// Whether the fish is one that spawning may produce: fresh and well
    /// formed, heading left or right, inside the playfield, at a depth of
    /// its kind, with a life span that new fish get.
    pub open spec fn is_newborn(self) -> bool {
        &&& self == Fish::fresh(
            self.variant,
            self.direction,
            self.position,
            self.speed,
            self.weight,
            self.decay_timer,
        )
        &&& self.wf()
        &&& self.direction.is_horizontal()
        &&& -PLAYFIELD_HALF_WIDTH <= self.position.x <= PLAYFIELD_HALF_WIDTH
        &&& self.variant.spawn_depth_range().contains(-self.position.y)
        &&& self.decay_timer.is_fresh()
    }

    /// The fish on the hook.
    pub open spec fn hooked(self) -> Fish {
        Fish { state: FishState::Caught, ..self }
    }

    /// The fish let go.
    pub open spec fn released(self) -> Fish {
        Fish { state: FishState::Swimming, ..self }
    }

    /// The fish after the rod has run into trash: a caught fish is let go
    /// and given a grace period, any other fish is left alone.
    pub open spec fn shaken_off(self) -> Fish {
        if self.state == FishState::Caught {
            Fish {
                state: FishState::Swimming,
                invincibility: Some(
                    Invincibility {
                        invincibility_timer: Countdown { remaining: FISH_INVINCIBILITY_TIME },
                    },
                ),
                ..self
            }
        } else {
            self
        }
    }

    /// The fish after `dt` milliseconds of its grace period, if it has one:
    /// the period ends when its timer runs out.
    pub open spec fn after_grace(self, dt: u32) -> Fish {
        match self.invincibility {
            Some(grace) => {
                let timer = grace.invincibility_timer.after(dt);
                if timer.is_finished() {
                    Fish { invincibility: None, ..self }
                } else {
                    Fish {
                        invincibility: Some(Invincibility { invincibility_timer: timer }),
                        ..self
                    }
                }
            },
            None => self,
        }
    }

    /// The fish after `dt` milliseconds of its life.
    pub open spec fn older(self, dt: u32) -> Fish {
        Fish { decay_timer: DecayTimer { timer: self.decay_timer.timer.after(dt) }, ..self }
    }

    /// Whether the fish is well formed and in range.
    pub fn is_sound(&self) -> (sound: bool)
        ensures
            sound == (self.wf() && self.in_range()),
    {
        let band = self.variant.get_weight_range();
        band.min as u64 <= self.weight.current && self.weight.current <= band.max as u64
            && FISH_SPEED_MIN <= self.speed.current && self.speed.current <= FISH_SPEED_MAX
            && is_in_world(self.position.x) && is_in_world(self.position.y)
    }

    /// A fish as it enters the water.
    pub fn new(
        variant: FishVariant,
        direction: Direction,
        position: Position,
        speed: Speed,
        weight: Weight,
        decay_timer: DecayTimer,
    ) -> (fish: Fish)
        ensures
            fish == Fish::fresh(variant, direction, position, speed, weight, decay_timer),
    {
        Fish {
            position,
            size: Extent { width: FISH_SIZE, height: FISH_SIZE },
            direction,
            speed,
            weight,
            state: FishState::Swimming,
            variant,
            can_die: CanDie { dying: false },
            decay_timer,
            invincibility: None,
        }
    }

    /// A fish as it enters the water, its weight rounded from a finer draw
    /// in ten-thousandths of a kilogram.
    pub fn spawned(
        variant: FishVariant,
        direction: Direction,
        position: Position,
        speed: Speed,
        raw_weight: u64,
        decay_timer: DecayTimer,
    ) -> (fish: Fish)
        ensures
            fish == Fish::fresh(
                variant,
                direction,
                position,
                speed,
                Weight { current: rounded(raw_weight) },
                decay_timer,
            ),
    {
        let weight = Weight { current: round_to_hundredths(raw_weight) };
        Fish::new(variant, direction, position, speed, weight, decay_timer)
    }

    /// Moves the fish as `dt` milliseconds demand.
    pub fn advance(&mut self, hook: Option<Position>, dt: u32)
        requires
            old(self).wf(),
            old(self).in_range(),
        ensures
            *final(self) == old(self).advanced(hook, dt),
    {
        assert(0 <= self.speed.current * dt <= 250_000 * 0xffff_ffff) by (nonlinear_arith)
            requires
                self.speed.current <= 250_000,
                dt <= 0xffff_ffff,
        ;
        let stride: i64 = (self.speed.current as i64) * (dt as i64);
        match self.state {
            FishState::Swimming => {
                match self.direction {
                    Direction::Left => { self.position.x = self.position.x - stride },
                    Direction::Right => { self.position.x = self.position.x + stride },
                    Direction::Down => { self.position.y = self.position.y - stride / 2 },
                    _ => {},
                }
            },
            FishState::Caught => {
                if let Some(position) = hook {
                    self.position = position;
                }
            },
        }
    }

    /// Applies the boundary rules with `pick` as the heading to take up.
    pub fn apply_boundary(&mut self, pick: Direction)
        ensures
            *final(self) == old(self).bounded(pick),
    {
        if self.position.y > SINK_LINE && self.direction != Direction::Down {
            self.direction = Direction::Down
        }
        if self.position.y < SINK_LINE && self.direction == Direction::Down {
            self.direction = pick;
        }
        if self.can_die.dying {
            return ;
        }
        if self.position.x < -PLAYFIELD_HALF_WIDTH {
            self.direction = Direction::Right;
        } else if self.position.x > PLAYFIELD_HALF_WIDTH {
            self.direction = Direction::Left;
        }
    }

    /// Whether the fish leaves the water now: it is dying and off-screen.
    pub fn is_doomed(&self) -> (doomed: bool)
        ensures
            doomed == self.doomed(),
    {
        let fish_out_of_bounds = self.position.x > PLAYFIELD_HALF_WIDTH || self.position.x
            < -PLAYFIELD_HALF_WIDTH;
        self.can_die.dying && fish_out_of_bounds
    }
}

/// Moves every fish as `dt` milliseconds demand: swimming fish swim, caught
/// fish are put on the hook.
pub fn fish_movement(dt: u32, rod: &Option<Rod>, fish: &mut Vec<Fish>)
    requires
        forall|i: int|
            0 <= i < old(fish)@.len() ==>
                (#[trigger] old(fish)@[i]).wf() && old(fish)@[i].in_range(),
    ensures
        final(fish)@.len() == old(fish)@.len(),
        forall|i: int|
            0 <= i < old(fish)@.len() ==> #[trigger] final(fish)@[i] == old(fish)@[i].advanced(
                hook(*rod),
                dt,
            ),
{
    let target = match rod {
        Some(rod) => Some(rod.position),
        None => None,
    };
    let mut i: usize = 0;
    while i < fish.len()
        invariant
            fish@.len() == old(fish)@.len(),
            i <= fish@.len(),
            target == hook(*rod),
            forall|j: int|
                0 <= j < old(fish)@.len() ==>
                    (#[trigger] old(fish)@[j]).wf() && old(fish)@[j].in_range(),
            forall|j: int| 0 <= j < i ==> #[trigger] fish@[j] == old(fish)@[j].advanced(target, dt),
            forall|j: int| i <= j < fish@.len() ==> #[trigger] fish@[j] == old(fish)@[j],
        decreases fish@.len() - i,
    {
        fish[i].advance(target, dt);
        i += 1;
    }
}

/// Applies the boundary rules to every fish. A fish that has sunk below the
/// sink line takes up a heading drawn by a fair coin.
pub fn fish_boundary(fish: &mut Vec<Fish>)
    ensures
        final(fish)@.len() == old(fish)@.len(),
        forall|i: int|
            0 <= i < old(fish)@.len() ==> {
                ||| #[trigger] final(fish)@[i] == old(fish)@[i].bounded(Direction::Left)
                ||| final(fish)@[i] == old(fish)@[i].bounded(Direction::Right)
            },
{
    let mut i: usize = 0;
    while i < fish.len()
        invariant
            fish@.len() == old(fish)@.len(),
            i <= fish@.len(),
            forall|j: int|
                0 <= j < i ==> {
                    ||| #[trigger] fish@[j] == old(fish)@[j].bounded(Direction::Left)
                    ||| fish@[j] == old(fish)@[j].bounded(Direction::Right)
                },
            forall|j: int| i <= j < fish@.len() ==> #[trigger] fish@[j] == old(fish)@[j],
        decreases fish@.len() - i,
    {
        let levels_off = fish[i].position.y < SINK_LINE && fish[i].direction == Direction::Down;
        let pick = if levels_off {
            Direction::random_y()
        } else {
            Direction::Left
        };
        fish[i].apply_boundary(pick);
        i += 1;
    }
}

/// How each fish is drawn, in the order of the list.
pub fn orient_fish(fish: &Vec<Fish>) -> (poses: Vec<Orientation>)
    ensures
        poses@.len() == fish@.len(),
        forall|i: int|
            0 <= i < fish@.len() ==> #[trigger] poses@[i] == orientation(fish@[i].direction),
{
    let mut poses: Vec<Orientation> = Vec::new();
    let mut i: usize = 0;
    while i < fish.len()
        invariant
            i <= fish@.len(),
            poses@.len() == i,
            forall|j: int| 0 <= j < i ==> #[trigger] poses@[j] == orientation(fish@[j].direction),
        decreases fish@.len() - i,
    {
        let pose = match fish[i].direction {
            Direction::Left => Orientation { flip_x: true, rotation: Rotation::Identity },
            Direction::Right => Orientation { flip_x: false, rotation: Rotation::Identity },
            Direction::Up => Orientation { flip_x: false, rotation: Rotation::QuarterUp },
            Direction::Down => Orientation { flip_x: false, rotation: Rotation::QuarterDown },
        };
        poses.push(pose);
        i += 1;
    }
    poses
}

/// Marks every fish whose decay timer has run out as dying.
pub fn die_the_fish(fish: &mut Vec<Fish>)
    ensures
        final(fish)@.len() == old(fish)@.len(),
        forall|i: int|
            0 <= i < old(fish)@.len() ==> #[trigger] final(fish)@[i] == old(fish)@[i].aged(),
{
    let mut i: usize = 0;
    while i < fish.len()
        invariant
            fish@.len() == old(fish)@.len(),
            i <= fish@.len(),
            forall|j: int| 0 <= j < i ==> #[trigger] fish@[j] == old(fish)@[j].aged(),
            forall|j: int| i <= j < fish@.len() ==> #[trigger] fish@[j] == old(fish)@[j],
        decreases fish@.len() - i,
    {
        if fish[i].decay_timer.timer.finished() && !fish[i].can_die.dying {
            fish[i].can_die.dying = true;
        }
        i += 1;
    }
}

/// The predicate "stays in the water" on fish.
pub open spec fn survives() -> spec_fn(Fish) -> bool {
    |fish: Fish| !fish.doomed()
}

/// Removes every fish that is dying and outside the playfield, and keeps
/// the others in their order. A dying fish that is still on-screen stays.
pub fn cull_fish(fish: &mut Vec<Fish>)
    ensures
        final(fish)@ == old(fish)@.filter(survives()),
{
    let mut kept: Vec<Fish> = Vec::new();
    let mut i: usize = 0;
    while i < fish.len()
        invariant
            fish@ == old(fish)@,
            i <= fish@.len(),
            kept@ == fish@.take(i as int).filter(survives()),
        decreases fish@.len() - i,
    {
        proof {
            let seen = fish@.take(i as int);
            assert(fish@.take(i + 1) == seen.push(fish@[i as int]));
            seen.lemma_filter_push(fish@[i as int], survives());
        }
        if !fish[i].is_doomed() {
            kept.push(fish[i]);
        }
        i += 1;
    }
    assert(fish@.take(fish@.len() as int) == fish@);
    *fish = kept;
}

/// The spawn weights of all kinds, in the order of the catalog.
fn spawn_weights() -> (weights: Vec<u32>)
    ensures
        weights@.len() == FISH_VARIANTS,
        0 < total_weight(weights@) <= u32::MAX,
{
    let kinds = FishVariant::iterator();
    let mut weights: Vec<u32> = Vec::new();
    let mut i: usize = 0;
    while i < kinds.len()
        invariant
            kinds@ == FishVariant::catalog(),
            i <= kinds@.len(),
            weights@.len() == i,
            i <= total_weight(weights@) <= 100 * i,
        decreases kinds@.len() - i,
    {
        let weight = kinds[i].spawn_weight();
        assert(weights@.push(weight).drop_last() == weights@);
        weights.push(weight);
        i += 1;
    }
    weights
}

/// Draws a new fish of the given kind: heading, place, speed, weight and
/// life span each come from their own draw.
fn draw_fish(variant: FishVariant) -> (fish: Fish)
    ensures
        fish.is_newborn(),
        fish.variant == variant,
{
    let direction = Direction::random_y();

    let vertical_position = variant.get_spawn_depth_range().sample();
    let horizontal_position = uniform(-PLAYFIELD_HALF_WIDTH, PLAYFIELD_HALF_WIDTH);
    let speed = uniform(FISH_SPEED_MIN as i64, FISH_SPEED_MAX as i64);
    let weights = variant.get_weight_range();
    let raw_weight = uniform(weights.min * WEIGHT_DRAW_STEPS, weights.max * WEIGHT_DRAW_STEPS);
    proof {
        lemma_rounded_stays_in_band(raw_weight as u64, weights);
    }
    Fish::spawned(
        variant,
        direction,
        Position { x: horizontal_position, y: -vertical_position },
        Speed { current: speed as u32 },
        raw_weight as u64,
        DecayTimer::default(),
    )
}

/// Draws a new fish of a kind drawn with the chances that
/// [`FishVariant::spawn_weight`] gives.
pub fn draw_newborn() -> (fish: Fish)
    ensures
        fish.is_newborn(),
{
    let fish_weights = spawn_weights();
    let fish_index = weighted_index(&fish_weights);
    draw_fish(FishVariant::from_index(fish_index))
}

/// Puts the first fish into the water: [`INITIAL_FISH`] of them, each of a
/// kind drawn evenly from the catalog.
pub fn setup(fish: &mut Vec<Fish>)
    requires
        old(fish)@.len() + INITIAL_FISH <= usize::MAX,
    ensures
        final(fish)@.len() == old(fish)@.len() + INITIAL_FISH,
        final(fish)@.take(old(fish)@.len() as int) == old(fish)@,
        forall|i: int|
            old(fish)@.len() <= i < final(fish)@.len() ==>
                (#[trigger] final(fish)@[i]).is_newborn(),
{
    let mut spawned: usize = 0;
    while spawned < INITIAL_FISH
        invariant
            spawned <= INITIAL_FISH,
            fish@.len() == old(fish)@.len() + spawned,
            fish@.take(old(fish)@.len() as int) == old(fish)@,
            forall|i: int|
                old(fish)@.len() <= i < fish@.len() ==> (#[trigger] fish@[i]).is_newborn(),
        decreases INITIAL_FISH - spawned,
    {
        let place = uniform(0, 7);
        let newcomer = draw_fish(FishVariant::from_index(place as usize));
        let ghost before = fish@;
        fish.push(newcomer);
        assert(fish@.take(old(fish)@.len() as int) == before.take(old(fish)@.len() as int));
        spawned += 1;
    }
}

/// Spawns one fish unless the water is full. The kind is drawn with the
/// chances that [`FishVariant::spawn_weight`] gives; a full water is no
/// fault and leaves the list as it is.
pub fn spawn_fish(alive_fish: &AliveFish, fish: &mut Vec<Fish>)
    ensures
        alive_fish.count >= FISH_POPULATION_CAP ==> final(fish)@ == old(fish)@,
        alive_fish.count < FISH_POPULATION_CAP ==> {
            &&& final(fish)@.len() == old(fish)@.len() + 1
            &&& final(fish)@.drop_last() == old(fish)@
            &&& final(fish)@.last().is_newborn()
        },
{
    if alive_fish.count >= FISH_POPULATION_CAP {
        return ;
    }
    let newcomer = draw_newborn();
    fish.push(newcomer);
    assert(fish@.drop_last() == old(fish)@);
}

/// What becomes of the fish when the rod comes back to the boat.
pub struct Haul {
    /// The fish that stay in the water, in their order.
    pub fish: Seq<Fish>,
    /// The fish taken into the hold, in the order in which they were taken.
    pub stored: Seq<Catch>,
    /// The weight in the hold afterwards.
    pub current: u64,
    /// One event for each fish taken.
    pub caught: Seq<CatchFishEvent>,
    /// One event for each fish that did not fit.
    pub dropped: Seq<DropFishEvent>,
}

/// The outcome of landing the fish of `fish`, one after the other, into a
/// hold of capacity `max` that carries `current`.
///
/// A fish that is not on the hook stays as it is. A caught fish whose
/// weight still fits is taken: it leaves the water, its weight is added to
/// the hold and a catch is reported. A caught fish that does not fit is let
/// go and a drop is reported; the hold is never filled in part.
pub open spec fn landed(fish: Seq<Fish>, current: u64, max: u64) -> Haul
    decreases fish.len(),
{
    if fish.len() == 0 {
        Haul {
            fish: Seq::empty(),
            stored: Seq::empty(),
            current,
            caught: Seq::empty(),
            dropped: Seq::empty(),
        }
    } else {
        let before = landed(fish.drop_last(), current, max);
        let next = fish.last();
        if next.state != FishState::Caught {
            Haul { fish: before.fish.push(next), ..before }
        } else if next.weight.current + before.current > max {
            Haul {
                fish: before.fish.push(next.released()),
                dropped: before.dropped.push(DropFishEvent),
                ..before
            }
        } else {
            Haul {
                stored: before.stored.push((next.variant, next.weight)),
                current: (before.current + next.weight.current) as u64,
                caught: before.caught.push(
                    CatchFishEvent { weight: next.weight, fish_variant: next.variant },
                ),
                ..before
            }
        }
    }
}

/// Landing never overfills the hold, takes in exactly the weight that it
/// adds to the hold, leaves no fish on the hook, and accounts for every
/// fish: each one stays in the water or is in the hold.
pub proof fn lemma_landed(fish: Seq<Fish>, current: u64, max: u64)
    requires
        current <= max,
    ensures
        current <= landed(fish, current, max).current <= max,
        landed(fish, current, max).current == current + catch_weight(
            landed(fish, current, max).stored,
        ),
        landed(fish, current, max).fish.len() + landed(fish, current, max).stored.len()
            == fish.len(),
        landed(fish, current, max).caught.len() == landed(fish, current, max).stored.len(),
        landed(fish, current, max).dropped.len() <= landed(fish, current, max).fish.len(),
        forall|i: int|
            0 <= i < landed(fish, current, max).fish.len() ==> (#[trigger] landed(
                fish,
                current,
                max,
            ).fish[i]).state == FishState::Swimming,
    decreases fish.len(),
{
    if fish.len() > 0 {
        lemma_landed(fish.drop_last(), current, max);
        let before = landed(fish.drop_last(), current, max);
        let next = fish.last();
        if next.state == FishState::Caught && next.weight.current + before.current <= max {
            let entry = (next.variant, next.weight);
            assert(before.stored.push(entry).drop_last() == before.stored);
        }
    }
}

/// Landing keeps every fish that stays in the water as it was, but for
/// letting it off the hook: well-formed fish stay well formed.
pub proof fn lemma_landed_keeps_wf(fish: Seq<Fish>, current: u64, max: u64)
    requires
        forall|i: int| 0 <= i < fish.len() ==> (#[trigger] fish[i]).wf(),
    ensures
        forall|i: int|
            0 <= i < landed(fish, current, max).fish.len() ==> (#[trigger] landed(
                fish,
                current,
                max,
            ).fish[i]).wf(),
    decreases fish.len(),
{
    if fish.len() > 0 {
        lemma_landed_keeps_wf(fish.drop_last(), current, max);
        let before = landed(fish.drop_last(), current, max);
        let after = landed(fish, current, max);
        let next = fish[fish.len() - 1];
        assert forall|i: int| 0 <= i < after.fish.len() implies (#[trigger] after.fish[i]).wf() by {
            if i < before.fish.len() {
                assert(after.fish[i] == before.fish[i]);
            } else {
                assert(after.fish[i] == next || after.fish[i] == next.released());
                assert(next.wf());
            }
        }
    }
}

/// The events of one landing.
#[derive(Clone, Debug, PartialEq, Eq)]
pub struct Landing {
    pub caught: Vec<CatchFishEvent>,
    pub dropped: Vec<DropFishEvent>,
}

/// Lands every fish on the hook when the rod is back at the boat, in the
/// order of the list: see [`landed`].
pub fn check_for_boat_collisions(
    event: &BoatCollisionEvent,
    fish_storage: &mut FishStorage,
    fish_stored: &mut PlayerFishStored,
    fish: &mut Vec<Fish>,
) -> (out: Landing)
    requires
        old(fish_storage).wf(),
    ensures
        final(fish_storage).wf(),
        final(fish_storage).max == old(fish_storage).max,
        final(fish_storage).current == landed(
            old(fish)@,
            old(fish_storage).current,
            old(fish_storage).max,
        ).current,
        final(fish)@ == landed(old(fish)@, old(fish_storage).current, old(fish_storage).max).fish,
        final(fish_stored).fish@ == old(fish_stored).fish@ + landed(
            old(fish)@,
            old(fish_storage).current,
            old(fish_storage).max,
        ).stored,
        out.caught@ == landed(
            old(fish)@,
            old(fish_storage).current,
            old(fish_storage).max,
        ).caught,
        out.dropped@ == landed(
            old(fish)@,
            old(fish_storage).current,
            old(fish_storage).max,
        ).dropped,
{
    let ghost start = old(fish_storage).current;
    let ghost max = old(fish_storage).max;
    let mut remaining: Vec<Fish> = Vec::new();
    let mut caught: Vec<CatchFishEvent> = Vec::new();
    let mut dropped: Vec<DropFishEvent> = Vec::new();
    let mut i: usize = 0;
    assert(fish@.take(0) == Seq::<Fish>::empty());
    while i < fish.len()
        invariant
            fish@ == old(fish)@,
            i <= fish@.len(),
            start <= max,
            fish_storage.max == max,
            fish_storage.current == landed(fish@.take(i as int), start, max).current,
            remaining@ == landed(fish@.take(i as int), start, max).fish,
            fish_stored.fish@ == old(fish_stored).fish@ + landed(
                fish@.take(i as int),
                start,
                max,
            ).stored,
            caught@ == landed(fish@.take(i as int), start, max).caught,
            dropped@ == landed(fish@.take(i as int), start, max).dropped,
        decreases fish@.len() - i,
    {
        proof {
            assert(fish@.take(i + 1).drop_last() == fish@.take(i as int));
            lemma_landed(fish@.take(i as int), start, max);
        }
        let mut next = fish[i];
        match next.state {
            FishState::Swimming => {
                remaining.push(next);
            },
            FishState::Caught => {
                if !fish_storage.has_room_for(next.weight) {
                    next.state = FishState::Swimming;
                    remaining.push(next);
                    dropped.push(DropFishEvent);
                } else {
                    fish_storage.current = fish_storage.current + next.weight.current;
                    fish_stored.fish.push((next.variant, next.weight));
                    caught.push(CatchFishEvent { weight: next.weight, fish_variant: next.variant });
                }
            },
        }
        i += 1;
    }
    proof {
        assert(fish@.take(fish@.len() as int) == fish@);
        lemma_landed(fish@, start, max);
    }
    *fish = remaining;
    Landing { caught, dropped }
}

/// Whether the event names a fish of the list that can be caught.
pub open spec fn takes(event: FishCollisionWithRodEvent, fish: Seq<Fish>) -> bool {
    event.fish < fish.len() && fish[event.fish as int].catchable()
}

/// The fish after the rod's claim: the fish that the event names is on the
/// hook, if it could be caught.
pub open spec fn hooked_by(event: FishCollisionWithRodEvent, fish: Seq<Fish>) -> Seq<Fish> {
    if takes(event, fish) {
        fish.update(event.fish as int, fish[event.fish as int].hooked())
    } else {
        fish
    }
}

/// The report of the fish that the rod's claim has put on the hook.
pub open spec fn reeling(
    event: FishCollisionWithRodEvent,
    fish: Seq<Fish>,
) -> Option<ReelingFishEvent> {
    if takes(event, fish) {
        Some(
            ReelingFishEvent {
                weight: fish[event.fish as int].weight,
                fish_variant: fish[event.fish as int].variant,
            },
        )
    } else {
        None
    }
}

/// Puts the fish that the rod has found on the hook, if it still swims and
/// has no grace period, and reports that it is being reeled in. An event
/// that names no such fish changes nothing.
pub fn check_for_rod_collisions(
    event: &FishCollisionWithRodEvent,
    fish: &mut Vec<Fish>,
) -> (out: Option<
    ReelingFishEvent,
>)
    ensures
        final(fish)@ == hooked_by(*event, old(fish)@),
        out == reeling(*event, old(fish)@),
{
    if event.fish >= fish.len() {
        return None;
    }
    let target = fish[event.fish];
    if target.state != FishState::Swimming || target.invincibility.is_some() {
        return None;
    }
    let mut caught = target;
    caught.state = FishState::Caught;
    fish.set(event.fish, caught);
    Some(ReelingFishEvent { weight: target.weight, fish_variant: target.variant })
}

/// Lets every caught fish go when the rod has run into trash, and gives
/// each of them a grace period of [`FISH_INVINCIBILITY_TIME`].
pub fn check_for_trash_collisions(event: &TrashCollisionEvent, fish: &mut Vec<Fish>)
    ensures
        final(fish)@.len() == old(fish)@.len(),
        forall|i: int|
            0 <= i < old(fish)@.len() ==> #[trigger] final(fish)@[i] == old(fish)@[i].shaken_off(),
{
    let mut i: usize = 0;
    while i < fish.len()
        invariant
            fish@.len() == old(fish)@.len(),
            i <= fish@.len(),
            forall|j: int| 0 <= j < i ==> #[trigger] fish@[j] == old(fish)@[j].shaken_off(),
            forall|j: int| i <= j < fish@.len() ==> #[trigger] fish@[j] == old(fish)@[j],
        decreases fish@.len() - i,
    {
        match fish[i].state {
            FishState::Swimming => {},
            FishState::Caught => {
                fish[i].invincibility = Some(
                    Invincibility {
                        invincibility_timer: Countdown::from_millis(FISH_INVINCIBILITY_TIME),
                    },
                );
                fish[i].state = FishState::Swimming;
            },
        }
        i += 1;
    }
}

/// A fish that was shaken off the hook cannot be caught until its grace
/// period is over: not at once, and not after a tick shorter than the
/// period.
pub proof fn lemma_grace_prevents_catch(fish: Fish, dt: u32)
    requires
        fish.state == FishState::Caught,
        dt < FISH_INVINCIBILITY_TIME,
    ensures
        fish.shaken_off().state == FishState::Swimming,
        !fish.shaken_off().catchable(),
        !fish.shaken_off().older(dt).after_grace(dt).catchable(),
{
}

/// Lets `dt` milliseconds of every grace period pass, and ends those that
/// have run out.
pub fn handle_invincibilities(fish: &mut Vec<Fish>, dt: u32)
    ensures
        final(fish)@.len() == old(fish)@.len(),
        forall|i: int|
            0 <= i < old(fish)@.len() ==> #[trigger] final(fish)@[i] == old(fish)@[i].after_grace(
                dt,
            ),
{
    let mut i: usize = 0;
    while i < fish.len()
        invariant
            fish@.len() == old(fish)@.len(),
            i <= fish@.len(),
            forall|j: int| 0 <= j < i ==> #[trigger] fish@[j] == old(fish)@[j].after_grace(dt),
            forall|j: int| i <= j < fish@.len() ==> #[trigger] fish@[j] == old(fish)@[j],
        decreases fish@.len() - i,
    {
        if let Some(grace) = fish[i].invincibility {
            let mut timer = grace.invincibility_timer;
            timer.tick(dt);
            if timer.finished() {
                fish[i].invincibility = None;
            } else {
                fish[i].invincibility = Some(Invincibility { invincibility_timer: timer });
            }
        }
        i += 1;
    }
}

/// Counts the fish in the water.
pub fn update_fish_count(fish: &Vec<Fish>, alive_fish: &mut AliveFish)
    requires
        fish@.len() <= u32::MAX,
    ensures
        final(alive_fish).count == fish@.len(),
{
    alive_fish.count = fish.len() as u32;
}

} // verus!
