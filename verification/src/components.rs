//! The plain values that fish, trash, rod and player are made of.

use crate::chance::{coin_flip, uniform};
use crate::units::SECOND;
use vstd::prelude::*;

verus! {

/// A point of the playfield, in millionths of a world unit. The water
/// surface is at `y == 0` and depth grows towards negative `y`.
#[derive(Clone, Copy, Debug, PartialEq, Eq)]
pub struct Position {
    pub x: i64,
    pub y: i64,
}

/// The width and height of a bounding box, in millionths of a world unit.
#[derive(Clone, Copy, Debug, PartialEq, Eq)]
pub struct Extent {
    pub width: u64,
    pub height: u64,
}

/// A closed interval `min..=max` of a tunable quantity.
#[derive(Clone, Copy, Debug, PartialEq, Eq)]
pub struct Band {
    pub min: i64,
    pub max: i64,
}

/// Why a [`Band`] could not be built.
#[derive(Clone, Copy, Debug, PartialEq, Eq)]
pub enum BandError {
    /// The lower end lies above the upper end.
    Inverted,
}

impl Band {
    /// A band is well formed when it is not empty.
    pub open spec fn wf(self) -> bool {
        self.min <= self.max
    }

    /// Whether `value` lies in the band, both ends included.
    pub open spec fn contains(self, value: int) -> bool {
        self.min <= value <= self.max
    }

    /// Builds the band `min..=max`, and rejects the pair when `min > max`.
    /// A band of one value is accepted.
    pub fn new(min: i64, max: i64) -> (band: Result<Band, BandError>)
        ensures
            min <= max ==> band == Ok::<Band, BandError>(Band { min, max }),
            min > max ==> band == Err::<Band, BandError>(BandError::Inverted),
    {
        if min <= max {
            Ok(Band { min, max })
        } else {
            Err(BandError::Inverted)
        }
    }

    /// A value drawn uniformly from the band, both ends included.
    pub fn sample(&self) -> (drawn: i64)
        requires
            self.wf(),
        ensures
            self.contains(drawn as int),
    {
        uniform(self.min, self.max)
    }
}

/// A speed, in thousandths of a world unit per second.
#[derive(Clone, Copy, Debug, PartialEq, Eq)]
pub struct Speed {
    pub current: u32,
}

/// A weight, in hundredths of a kilogram.
#[derive(Clone, Copy, Debug, PartialEq, Eq)]
pub struct Weight {
    pub current: u64,
}

/// The heading of a fish or of a piece of trash.
#[derive(Clone, Copy, Debug, PartialEq, Eq, Structural)]
pub enum Direction {
    Left,
    Right,
    Up,
    Down,
}

impl Direction {
    /// The horizontal heading that a coin flip selects: `Left` on `true`.
    pub open spec fn horizontal(flip: bool) -> Direction {
        if flip {
            Direction::Left
        } else {
            Direction::Right
        }
    }

    /// The vertical heading that a coin flip selects: `Up` on `true`.
    pub open spec fn vertical(flip: bool) -> Direction {
        if flip {
            Direction::Up
        } else {
            Direction::Down
        }
    }

    /// Whether the heading is `Left` or `Right`.
    pub open spec fn is_horizontal(self) -> bool {
        self == Direction::Left || self == Direction::Right
    }

    /// The heading turned around.
    pub open spec fn reversed(self) -> Direction {
        match self {
            Direction::Left => Direction::Right,
            Direction::Right => Direction::Left,
            Direction::Up => Direction::Down,
            Direction::Down => Direction::Up,
        }
    }

    /// The horizontal heading for a given coin flip.
    pub fn pick_horizontal(flip: bool) -> (heading: Direction)
        ensures
            heading == Self::horizontal(flip),
    {
        match flip {
            true => Self::Left,
            false => Self::Right,
        }
    }

    /// The vertical heading for a given coin flip.
    pub fn pick_vertical(flip: bool) -> (heading: Direction)
        ensures
            heading == Self::vertical(flip),
    {
        match flip {
            true => Self::Up,
            false => Self::Down,
        }
    }

    /// `Left` or `Right`, chosen by a fair coin.
    pub fn random_y() -> (heading: Direction)
        ensures
            heading.is_horizontal(),
    {
        Self::pick_horizontal(coin_flip())
    }

    /// `Up` or `Down`, chosen by a fair coin.
    pub fn random_x() -> (heading: Direction)
        ensures
            !heading.is_horizontal(),
    {
        Self::pick_vertical(coin_flip())
    }

    /// The heading turned around.
    pub fn opposite(self) -> (turned: Direction)
        ensures
            turned == self.reversed(),
    {
        match self {
            Direction::Left => Direction::Right,
            Direction::Right => Direction::Left,
            Direction::Up => Direction::Down,
            Direction::Down => Direction::Up,
        }
    }
}

/// The boat's hold: the weight carried and the weight it can carry.
#[derive(Clone, Copy, Debug, PartialEq, Eq)]
pub struct FishStorage {
    pub current: u64,
    pub max: u64,
}

impl FishStorage {
    /// The hold never carries more than its capacity.
    pub open spec fn wf(self) -> bool {
        self.current <= self.max
    }

    /// Whether a catch of the given weight still fits.
    pub open spec fn fits(self, weight: Weight) -> bool {
        weight.current + self.current <= self.max
    }

    /// Whether a catch of the given weight still fits.
    pub fn has_room_for(&self, weight: Weight) -> (room: bool)
        requires
            self.wf(),
        ensures
            room == self.fits(weight),
    {
        weight.current <= self.max - self.current
    }

    /// Sets the carried weight, and the capacity too where one is given.
    pub fn update_storage(new_current: u64, new_max: Option<u64>, storage: &mut FishStorage)
        ensures
            final(storage).current == new_current,
            final(storage).max == match new_max {
                Some(max) => max,
                None => old(storage).max,
            },
    {
        storage.current = new_current;

        if let Some(new_max) = new_max {
            storage.max = new_max
        }
    }
}

/// A countdown in milliseconds that stops at zero.
#[derive(Clone, Copy, Debug, PartialEq, Eq)]
pub struct Countdown {
    pub remaining: u32,
}

impl Countdown {
    /// The countdown after `dt` more milliseconds.
    pub open spec fn after(self, dt: u32) -> Countdown {
        Countdown {
            remaining: if dt >= self.remaining {
                0u32
            } else {
                (self.remaining - dt) as u32
            },
        }
    }

    /// Whether the countdown has run out.
    pub open spec fn is_finished(self) -> bool {
        self.remaining == 0
    }

    /// A countdown of `duration` milliseconds.
    pub fn from_millis(duration: u32) -> (countdown: Countdown)
        ensures
            countdown.remaining == duration,
    {
        Countdown { remaining: duration }
    }

    /// Lets `dt` milliseconds pass.
    pub fn tick(&mut self, dt: u32)
        ensures
            *final(self) == old(self).after(dt),
    {
        if dt >= self.remaining {
            self.remaining = 0;
        } else {
            self.remaining = self.remaining - dt;
        }
    }

    /// Whether the countdown has run out.
    pub fn finished(&self) -> (done: bool)
        ensures
            done == self.is_finished(),
    {
        self.remaining == 0
    }
}

/// The grace period during which a fish that was dropped cannot be caught
/// again.
#[derive(Clone, Copy, Debug, PartialEq, Eq)]
pub struct Invincibility {
    pub invincibility_timer: Countdown,
}

/// Whether a fish has outlived its time and leaves once it is off-screen.
#[derive(Clone, Copy, Debug, PartialEq, Eq)]
pub struct CanDie {
    pub dying: bool,
}

/// The time a fish has left before it starts dying.
#[derive(Clone, Copy, Debug, PartialEq, Eq)]
pub struct DecayTimer {
    pub timer: Countdown,
}

/// The shortest life of a fish, in milliseconds.
pub const DECAY_TIME_MIN: u32 = 30 * SECOND;

/// The longest life of a fish, in milliseconds.
pub const DECAY_TIME_MAX: u32 = 120 * SECOND;

impl DecayTimer {
    /// Whether the timer was set to a life span that a new fish may get.
    pub open spec fn is_fresh(self) -> bool {
        DECAY_TIME_MIN <= self.timer.remaining <= DECAY_TIME_MAX
    }

    /// A timer set to `millis`.
    pub fn lasting(millis: u32) -> (timer: DecayTimer)
        ensures
            timer.timer.remaining == millis,
    {
        DecayTimer { timer: Countdown::from_millis(millis) }
    }
}

impl Default for DecayTimer {
    /// A timer set to a life span drawn uniformly between the shortest and
    /// the longest.
    fn default() -> (timer: DecayTimer)
        ensures
            timer.is_fresh(),
    {
        let time_to_death: i64 = uniform(DECAY_TIME_MIN as i64, DECAY_TIME_MAX as i64);
        DecayTimer::lasting(time_to_death as u32)
    }
}

/// The first and last frame of a sprite sheet's animation.
#[derive(Clone, Copy, Debug, PartialEq, Eq)]
pub struct AnimationIndices {
    pub first: usize,
    pub last: usize,
}

impl AnimationIndices {
    /// The frame that follows `index`: the first one after the last, the
    /// next one otherwise.
    pub open spec fn following(self, index: usize) -> usize {
        if index == self.last {
            self.first
        } else {
            (index + 1) as usize
        }
    }

    /// The frame to show after `index`.
    pub fn next_index(&self, index: usize) -> (next: usize)
        requires
            index < usize::MAX,
        ensures
            next == self.following(index),
    {
        if index == self.last {
            self.first
        } else {
            index + 1
        }
    }
}

} // verus!
