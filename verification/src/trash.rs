//! Trash: it drifts to and fro and knocks fish off the hook.

use crate::chance::uniform;
use crate::components::{Direction, Extent, Position, Speed};
use crate::units::{in_world, is_in_world, PLAYFIELD_HALF_WIDTH, UNIT};
use vstd::prelude::*;

verus! {

/// The kinds of trash.
#[derive(Clone, Copy, Debug, PartialEq, Eq, Structural)]
pub enum TrashVariant {
    Newspaper,
    OldShoe,
}

impl TrashVariant {
    /// The kind at a place of the list of kinds; the last kind for any
    /// place past the end.
    pub open spec fn at(index: int) -> TrashVariant {
        if index == 0 {
            TrashVariant::Newspaper
        } else {
            TrashVariant::OldShoe
        }
    }

    /// The kind at a place of the list of kinds; the last kind for any
    /// place past the end.
    pub fn from_index(index: usize) -> (variant: TrashVariant)
        ensures
            variant == Self::at(index as int),
    {
        match index {
            0 => TrashVariant::Newspaper,
            _ => TrashVariant::OldShoe,
        }
    }
}

/// The slowest a piece of trash drifts, in thousandths of a world unit per
/// second.
pub const TRASH_SPEED_MIN: u32 = 150_000;

/// The fastest a piece of trash drifts, in thousandths of a world unit per
/// second.
pub const TRASH_SPEED_MAX: u32 = 300_000;

/// The shallowest depth at which trash starts out, in millionths of a world
/// unit.
pub const TRASH_DEPTH_MIN: i64 = 50 * UNIT;

/// The greatest depth at which trash starts out, in millionths of a world
/// unit.
pub const TRASH_DEPTH_MAX: i64 = 400 * UNIT;

/// Width and height of the bounding box of a piece of trash.
pub const TRASH_SIZE: u64 = 3_000_000;

/// How many pieces of trash the water starts with.
pub const INITIAL_TRASH: usize = 10;

/// A piece of trash.
#[derive(Clone, Copy, Debug, PartialEq, Eq)]
pub struct Trash {
    pub position: Position,
    pub size: Extent,
    pub direction: Direction,
    pub speed: Speed,
    pub variant: TrashVariant,
}

impl Trash {
    /// A piece of trash is well formed when its speed is one that trash
    /// drifts at.
    pub open spec fn wf(self) -> bool {
        TRASH_SPEED_MIN <= self.speed.current <= TRASH_SPEED_MAX
    }

    /// Whether both coordinates leave room for a tick of motion.
    pub open spec fn in_range(self) -> bool {
        in_world(self.position.x) && in_world(self.position.y)
    }

    /// A piece of trash as it enters the water.
    pub open spec fn fresh(
        variant: TrashVariant,
        direction: Direction,
        position: Position,
        speed: Speed,
    ) -> Trash {
        Trash {
            position,
            size: Extent { width: TRASH_SIZE, height: TRASH_SIZE },
            direction,
            speed,
            variant,
        }
    }

    /// Whether the piece is one that the set-up may produce: fresh and well
    /// formed, heading left or right, inside the playfield, at a depth
    /// where trash starts out.
    pub open spec fn is_new(self) -> bool {
        &&& self == Trash::fresh(self.variant, self.direction, self.position, self.speed)
        &&& self.wf()
        &&& self.direction.is_horizontal()
        &&& -PLAYFIELD_HALF_WIDTH <= self.position.x <= PLAYFIELD_HALF_WIDTH
        &&& TRASH_DEPTH_MIN <= -self.position.y <= TRASH_DEPTH_MAX
    }

    /// The distance drifted in `dt` milliseconds, in millionths of a world
    /// unit.
    pub open spec fn stride(self, dt: u32) -> int {
        self.speed.current * dt
    }

    /// The horizontal coordinate after `dt` milliseconds: a stride to the
    /// left or right, or the same when heading up or down.
    pub open spec fn drifted_x(self, dt: u32) -> i64 {
        match self.direction {
            Direction::Left => (self.position.x - self.stride(dt)) as i64,
            Direction::Right => (self.position.x + self.stride(dt)) as i64,
            _ => self.position.x,
        }
    }

    /// The piece after `dt` milliseconds: it has drifted, and where that
    /// took it outside the playfield it heads back in.
    pub open spec fn drifted(self, dt: u32) -> Trash {
        let x = self.drifted_x(dt);
        let direction = if x < -PLAYFIELD_HALF_WIDTH {
            Direction::Right
        } else if x > PLAYFIELD_HALF_WIDTH {
            Direction::Left
        } else {
            self.direction
        };
        Trash { position: Position { x, y: self.position.y }, direction, ..self }
    }

    /// Whether the piece is well formed and in range.
    pub fn is_sound(&self) -> (sound: bool)
        ensures
            sound == (self.wf() && self.in_range()),
    {
        TRASH_SPEED_MIN <= self.speed.current && self.speed.current <= TRASH_SPEED_MAX
            && is_in_world(self.position.x) && is_in_world(self.position.y)
    }

    /// A piece of trash as it enters the water.
    pub fn new(
        variant: TrashVariant,
        direction: Direction,
        position: Position,
        speed: Speed,
    ) -> (trash: Trash)
        ensures
            trash == Trash::fresh(variant, direction, position, speed),
    {
        Trash {
            position,
            size: Extent { width: TRASH_SIZE, height: TRASH_SIZE },
            direction,
            speed,
            variant,
        }
    }

    /// Lets the piece drift for `dt` milliseconds.
    pub fn drift(&mut self, dt: u32)
        requires
            old(self).wf(),
            old(self).in_range(),
        ensures
            *final(self) == old(self).drifted(dt),
    {
        assert(0 <= self.speed.current * dt <= 300_000 * 0xffff_ffff) by (nonlinear_arith)
            requires
                self.speed.current <= 300_000,
                dt <= 0xffff_ffff,
        ;
        let stride: i64 = (self.speed.current as i64) * (dt as i64);
        match self.direction {
            Direction::Left => { self.position.x = self.position.x - stride },
            Direction::Right => { self.position.x = self.position.x + stride },
            _ => {},
        }

        if self.position.x < -PLAYFIELD_HALF_WIDTH {
            self.direction = Direction::Right;
        } else if self.position.x > PLAYFIELD_HALF_WIDTH {
            self.direction = Direction::Left;
        }
    }
}

/// Puts the trash into the water: [`INITIAL_TRASH`] pieces, each with a
/// kind, a place, a heading and a speed of its own draw.
pub fn setup(trash: &mut Vec<Trash>)
    requires
        old(trash)@.len() + INITIAL_TRASH <= usize::MAX,
    ensures
        final(trash)@.len() == old(trash)@.len() + INITIAL_TRASH,
        final(trash)@.take(old(trash)@.len() as int) == old(trash)@,
        forall|i: int|
            old(trash)@.len() <= i < final(trash)@.len() ==> (#[trigger] final(trash)@[i]).is_new(),
{
    let mut spawned: usize = 0;
    while spawned < INITIAL_TRASH
        invariant
            spawned <= INITIAL_TRASH,
            trash@.len() == old(trash)@.len() + spawned,
            trash@.take(old(trash)@.len() as int) == old(trash)@,
            forall|i: int|
                old(trash)@.len() <= i < trash@.len() ==> (#[trigger] trash@[i]).is_new(),
        decreases INITIAL_TRASH - spawned,
    {
        let vertical_position = uniform(TRASH_DEPTH_MIN, TRASH_DEPTH_MAX);
        let horizontal_position = uniform(-PLAYFIELD_HALF_WIDTH, PLAYFIELD_HALF_WIDTH);
        let variant = TrashVariant::from_index(uniform(0, 1) as usize);
        let speed = uniform(TRASH_SPEED_MIN as i64, TRASH_SPEED_MAX as i64);
        let piece = Trash::new(
            variant,
            Direction::random_y(),
            Position { x: horizontal_position, y: -vertical_position },
            Speed { current: speed as u32 },
        );
        let ghost before = trash@;
        trash.push(piece);
        assert(trash@.take(old(trash)@.len() as int) == before.take(old(trash)@.len() as int));
        spawned += 1;
    }
}

/// Lets every piece of trash drift for `dt` milliseconds.
pub fn trash_movement(dt: u32, trash: &mut Vec<Trash>)
    requires
        forall|i: int|
            0 <= i < old(trash)@.len() ==>
                (#[trigger] old(trash)@[i]).wf() && old(trash)@[i].in_range(),
    ensures
        final(trash)@.len() == old(trash)@.len(),
        forall|i: int|
            0 <= i < old(trash)@.len() ==>
                #[trigger] final(trash)@[i] == old(trash)@[i].drifted(dt),
{
    let mut i: usize = 0;
    while i < trash.len()
        invariant
            trash@.len() == old(trash)@.len(),
            i <= trash@.len(),
            forall|j: int|
                0 <= j < old(trash)@.len() ==>
                    (#[trigger] old(trash)@[j]).wf() && old(trash)@[j].in_range(),
            forall|j: int| 0 <= j < i ==> #[trigger] trash@[j] == old(trash)@[j].drifted(dt),
            forall|j: int| i <= j < trash@.len() ==> #[trigger] trash@[j] == old(trash)@[j],
        decreases trash@.len() - i,
    {
        trash[i].drift(dt);
        i += 1;
    }
}

} // verus!
