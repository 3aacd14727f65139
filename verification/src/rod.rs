//! The rod: its tiers, how it is cast, how it sinks and is jerked up, and
//! what it runs into.

use crate::collide::{overlapping, overlaps};
use crate::components::{Extent, Position};
use crate::events::{BoatCollisionEvent, FishCollisionWithRodEvent, TrashCollisionEvent};
use crate::fish::{Fish, FishState};
use crate::player::{Boat, Player};
use crate::trash::Trash;
use crate::units::{in_world, is_in_world, UNIT, UNIT_PER_SECOND};
use vstd::prelude::*;

verus! {

/// What a tier of rod can do.
#[derive(Clone, Copy, Debug, PartialEq, Eq)]
pub struct RodProperties {
    /// How deep the rod reaches, in millionths of a world unit.
    pub length: i64,
    /// How hard a jerk pulls, in thousandths of a world unit per second.
    pub pull: i64,
}

impl Default for RodProperties {
    /// A rod of no length and no pull.
    fn default() -> (properties: RodProperties)
        ensures
            properties == (RodProperties { length: 0, pull: 0 }),
    {
        RodProperties { length: 0, pull: 0 }
    }
}

/// The tiers of rod, from the weakest to the strongest.
#[derive(Clone, Copy, Debug, PartialEq, Eq, Structural)]
pub enum RodVariant {
    StickWithString,
    TwigAndTwineTackler,
    ReedReelRig,
    WillowWhiskerWeaver,
    BambooBlisscaster,
    FiberFusion,
    GraphiteGuardian,
    CarbonCaster9000,
}

/// The highest tier.
pub const TOP_TIER: u8 = 7;

impl RodVariant {
    /// The rank of the variant: 0 for the weakest rod, [`TOP_TIER`] for the
    /// strongest.
    pub open spec fn tier(self) -> int {
        match self {
            RodVariant::StickWithString => 0,
            RodVariant::TwigAndTwineTackler => 1,
            RodVariant::ReedReelRig => 2,
            RodVariant::WillowWhiskerWeaver => 3,
            RodVariant::BambooBlisscaster => 4,
            RodVariant::FiberFusion => 5,
            RodVariant::GraphiteGuardian => 6,
            RodVariant::CarbonCaster9000 => 7,
        }
    }

    /// The variant of a given rank; the strongest for any rank past the top.
    pub open spec fn of_tier(tier: int) -> RodVariant {
        if tier <= 0 {
            RodVariant::StickWithString
        } else if tier == 1 {
            RodVariant::TwigAndTwineTackler
        } else if tier == 2 {
            RodVariant::ReedReelRig
        } else if tier == 3 {
            RodVariant::WillowWhiskerWeaver
        } else if tier == 4 {
            RodVariant::BambooBlisscaster
        } else if tier == 5 {
            RodVariant::FiberFusion
        } else if tier == 6 {
            RodVariant::GraphiteGuardian
        } else {
            RodVariant::CarbonCaster9000
        }
    }

    /// Length and pull of the variant.
    pub open spec fn properties(self) -> RodProperties {
        match self {
            RodVariant::StickWithString => RodProperties { length: 200_000_000, pull: 100_000 },
            RodVariant::TwigAndTwineTackler => RodProperties { length: 335_000_000, pull: 105_000 },
            RodVariant::ReedReelRig => RodProperties { length: 450_000_000, pull: 115_000 },
            RodVariant::WillowWhiskerWeaver => RodProperties { length: 650_000_000, pull: 118_000 },
            RodVariant::BambooBlisscaster => RodProperties { length: 1_000_000_000, pull: 123_000 },
            RodVariant::FiberFusion => RodProperties { length: 1_300_000_000, pull: 127_000 },
            RodVariant::GraphiteGuardian => RodProperties { length: 1_800_000_000, pull: 130_000 },
            RodVariant::CarbonCaster9000 => RodProperties { length: 2_400_000_000, pull: 135_000 },
        }
    }

    /// The rank of the variant.
    pub fn rank(self) -> (tier: u8)
        ensures
            tier == self.tier(),
            tier <= TOP_TIER,
            Self::of_tier(tier as int) == self,
    {
        match self {
            RodVariant::StickWithString => 0,
            RodVariant::TwigAndTwineTackler => 1,
            RodVariant::ReedReelRig => 2,
            RodVariant::WillowWhiskerWeaver => 3,
            RodVariant::BambooBlisscaster => 4,
            RodVariant::FiberFusion => 5,
            RodVariant::GraphiteGuardian => 6,
            RodVariant::CarbonCaster9000 => 7,
        }
    }

    /// The variant of a given rank; the strongest for any rank past the top.
    pub fn from_rank(tier: u8) -> (variant: RodVariant)
        ensures
            variant == Self::of_tier(tier as int),
            tier <= TOP_TIER ==> variant.tier() == tier,
    {
        match tier {
            0 => RodVariant::StickWithString,
            1 => RodVariant::TwigAndTwineTackler,
            2 => RodVariant::ReedReelRig,
            3 => RodVariant::WillowWhiskerWeaver,
            4 => RodVariant::BambooBlisscaster,
            5 => RodVariant::FiberFusion,
            6 => RodVariant::GraphiteGuardian,
            _ => RodVariant::CarbonCaster9000,
        }
    }

    /// Length and pull of the variant.
    pub fn get_rod_properties(self) -> (properties: RodProperties)
        ensures
            properties == self.properties(),
            200 * UNIT <= properties.length <= 2_400 * UNIT,
            100 * UNIT_PER_SECOND <= properties.pull <= 135 * UNIT_PER_SECOND,
    {
        let (length, pull): (i64, i64) = match self {
            RodVariant::StickWithString => (200, 100),
            RodVariant::TwigAndTwineTackler => (335, 105),
            RodVariant::ReedReelRig => (450, 115),
            RodVariant::WillowWhiskerWeaver => (650, 118),
            RodVariant::BambooBlisscaster => (1000, 123),
            RodVariant::FiberFusion => (1300, 127),
            RodVariant::GraphiteGuardian => (1800, 130),
            RodVariant::CarbonCaster9000 => (2400, 135),
        };

        RodProperties { length: length * UNIT, pull: pull * UNIT_PER_SECOND }
    }
}

/// How fast the rod sinks, in thousandths of a world unit per second.
pub const ROD_MOVEMENT_DOWN: i64 = 75_000;

/// How far below the player the rod enters the water, in millionths of a
/// world unit.
pub const CAST_DEPTH: i64 = 50 * UNIT;

/// A jerk is only admitted while the impulse left from earlier jerks is
/// below this, in thousandths of a world unit per second.
pub const IMPULSE_CEILING: i64 = 150_000;

/// How much of its impulse the rod loses in every tick, in thousandths of a
/// world unit per second.
pub const IMPULSE_DECAY: i64 = 3_000;

/// No rod ever has an impulse above this: the ceiling and the strongest
/// jerk together.
pub const IMPULSE_LIMIT: i64 = 352_500;

/// Whether the rod is free to hook a fish or already has one on the line.
#[derive(Clone, Copy, Debug, PartialEq, Eq, Structural)]
pub enum RodState {
    Idle,
    Reeling,
}

/// The hook at the end of the player's line.
#[derive(Clone, Copy, Debug, PartialEq, Eq)]
pub struct Rod {
    pub position: Position,
    pub size: Extent,
    /// Vertical velocity, in thousandths of a world unit per second.
    pub velocity: i64,
    /// Upward impulse left from jerks, in thousandths of a world unit per
    /// second.
    pub acceleration: i64,
    pub state: RodState,
}

impl Rod {
    /// A rod is well formed when it sinks at the one speed rods sink at, or
    /// not at all, and its impulse is within limits.
    pub open spec fn wf(self) -> bool {
        &&& self.velocity == 0 || self.velocity == -ROD_MOVEMENT_DOWN
        &&& 0 <= self.acceleration <= IMPULSE_LIMIT
    }

    /// Whether both coordinates leave room for a tick of motion.
    pub open spec fn in_range(self) -> bool {
        in_world(self.position.x) && in_world(self.position.y)
    }

    /// The rod as it is cast by a player at `player`: a fixed depth below
    /// the player, at rest, with no impulse, and free to hook a fish.
    pub open spec fn cast_from(player: Position, size: Extent) -> Rod {
        Rod {
            position: Position { x: player.x, y: (player.y - CAST_DEPTH) as i64 },
            size,
            velocity: 0,
            acceleration: 0,
            state: RodState::Idle,
        }
    }

    /// The impulse that one jerk of a rod with the given pull adds: one and
    /// a half times the pull.
    pub open spec fn jerk_impulse(properties: RodProperties) -> int {
        properties.pull * 3 / 2
    }

    /// The impulse after a jerk, if there is one and it is admitted.
    pub open spec fn jerked(self, properties: RodProperties, jerk: bool) -> int {
        if jerk && self.acceleration < IMPULSE_CEILING {
            self.acceleration + Self::jerk_impulse(properties)
        } else {
            self.acceleration as int
        }
    }

    /// The depth that the rod would reach in `dt` milliseconds if nothing
    /// held it back: velocity and impulse act together.
    pub open spec fn reach(self, properties: RodProperties, jerk: bool, dt: u32) -> int {
        self.position.y + (self.velocity + self.jerked(properties, jerk)) * dt
    }

    /// The rod after a tick of `dt` milliseconds.
    ///
    /// It stays right below the player. A jerk adds its impulse if the
    /// impulse left is below the ceiling. Velocity and impulse move the rod;
    /// the impulse then decays, never below zero. A rod that would pass the
    /// end of its line is held there and stops sinking; any other rod sinks
    /// on at its steady speed.
    pub open spec fn moved(
        self,
        player_x: i64,
        properties: RodProperties,
        jerk: bool,
        dt: u32,
    ) -> Rod {
        let impulse = self.jerked(properties, jerk);
        let reach = self.reach(properties, jerk, dt);
        let held = reach < -properties.length;
        Rod {
            position: Position {
                x: player_x,
                y: if held {
                    (-properties.length) as i64
                } else {
                    reach as i64
                },
            },
            velocity: if held {
                0
            } else {
                (-ROD_MOVEMENT_DOWN) as i64
            },
            acceleration: if impulse > IMPULSE_DECAY {
                (impulse - IMPULSE_DECAY) as i64
            } else {
                0
            },
            ..self
        }
    }

    /// Whether the rod can hook `fish` where both are now: the fish can be
    /// caught and its box overlaps the rod's.
    pub open spec fn bites(self, fish: Fish) -> bool {
        fish.catchable() && overlapping(fish.position, fish.size, self.position, self.size)
    }

    /// The place of the first fish of the list that the rod can hook, if
    /// there is one.
    pub open spec fn first_bite(self, fish: Seq<Fish>) -> Option<int>
        decreases fish.len(),
    {
        if fish.len() == 0 {
            None
        } else {
            match self.first_bite(fish.drop_last()) {
                Some(place) => Some(place),
                None => if self.bites(fish.last()) {
                    Some(fish.len() - 1)
                } else {
                    None
                },
            }
        }
    }

    /// The first bite is a fish that the rod can hook, and no fish before
    /// it is one; where there is no first bite, the rod can hook none.
    pub proof fn lemma_first_bite(self, fish: Seq<Fish>)
        ensures
            match self.first_bite(fish) {
                Some(place) => {
                    &&& 0 <= place < fish.len()
                    &&& self.bites(fish[place])
                    &&& forall|j: int| 0 <= j < place ==> !self.bites(#[trigger] fish[j])
                },
                None => forall|j: int| 0 <= j < fish.len() ==> !self.bites(#[trigger] fish[j]),
            },
        decreases fish.len(),
    {
        if fish.len() > 0 {
            self.lemma_first_bite(fish.drop_last());
            assert forall|j: int| 0 <= j < fish.len() - 1 implies fish.drop_last()[j]
                == fish[j] by {}
        }
    }

    /// A bite found in the first fish of a list is the first bite of the
    /// whole list.
    pub proof fn lemma_first_bite_extends(self, seen: Seq<Fish>, fish: Seq<Fish>)
        requires
            seen.len() <= fish.len(),
            seen == fish.take(seen.len() as int),
            self.first_bite(seen) is Some,
        ensures
            self.first_bite(fish) == self.first_bite(seen),
        decreases fish.len(),
    {
        if seen.len() < fish.len() {
            assert(fish.drop_last().take(seen.len() as int) == seen);
            self.lemma_first_bite_extends(seen, fish.drop_last());
        } else {
            assert(fish.take(fish.len() as int) == fish);
        }
    }

    /// Whether the rod's box overlaps that of `trash`.
    pub open spec fn snags(self, trash: Trash) -> bool {
        overlapping(trash.position, trash.size, self.position, self.size)
    }

    /// Whether the rod's box overlaps the boat in which `player` sits.
    pub open spec fn reeled_in(self, player: Player, boat: Boat) -> bool {
        overlapping(boat.world_position(player), boat.size, self.position, self.size)
    }

    /// Whether the rod is well formed and in range.
    pub fn is_sound(&self) -> (sound: bool)
        ensures
            sound == (self.wf() && self.in_range()),
    {
        (self.velocity == 0 || self.velocity == -ROD_MOVEMENT_DOWN) && 0 <= self.acceleration
            && self.acceleration <= IMPULSE_LIMIT && is_in_world(self.position.x) && is_in_world(
            self.position.y,
        )
    }

    /// Moves the rod through a tick of `dt` milliseconds.
    pub fn advance(&mut self, player_x: i64, properties: RodProperties, jerk: bool, dt: u32)
        requires
            old(self).wf(),
            in_world(old(self).position.y),
            0 <= properties.pull <= 135 * UNIT_PER_SECOND,
            properties.length > i64::MIN,
        ensures
            *final(self) == old(self).moved(player_x, properties, jerk, dt),
            final(self).wf(),
    {
        // Keep rod x aligned with player
        self.position.x = player_x;

        // Move rod
        if jerk && self.acceleration < IMPULSE_CEILING {
            self.acceleration = self.acceleration + properties.pull * 3 / 2;
        }
        let calculated_velocity = self.velocity + self.acceleration;
        assert(-75_000 * 0xffff_ffff <= calculated_velocity * dt <= 352_500 * 0xffff_ffff)
            by (nonlinear_arith)
            requires
                -75_000 <= calculated_velocity <= 352_500,
                dt <= 0xffff_ffff,
        ;
        self.position.y = self.position.y + calculated_velocity * (dt as i64);

        // Decay acceleration
        if self.acceleration > IMPULSE_DECAY {
            self.acceleration = self.acceleration - IMPULSE_DECAY;
        } else {
            self.acceleration = 0;
        }

        // Ensure rod doesn't move further than its length
        if self.position.y < -properties.length {
            self.position.y = -properties.length;
            self.velocity = 0;
        } else {
            self.velocity = -ROD_MOVEMENT_DOWN;
        }
    }
}

/// The event with which an idle rod claims the first fish that it can hook;
/// no rod, a reeling rod and a rod that can hook no fish claim nothing.
pub open spec fn claim(rod: Option<Rod>, fish: Seq<Fish>) -> Option<FishCollisionWithRodEvent> {
    match rod {
        Some(hook) => match hook.first_bite(fish) {
            Some(place) => if hook.state == RodState::Idle {
                Some(FishCollisionWithRodEvent { fish: place as usize })
            } else {
                None
            },
            None => None,
        },
        None => None,
    }
}

/// The rod after it has or has not claimed a fish: reeling if it has.
pub open spec fn after_claim(rod: Option<Rod>, fish: Seq<Fish>) -> Option<Rod> {
    match rod {
        Some(hook) => if claim(rod, fish) is Some {
            Some(Rod { state: RodState::Reeling, ..hook })
        } else {
            rod
        },
        None => None,
    }
}

/// Whether a reeling rod overlaps a piece of trash.
pub open spec fn fouled(rod: Option<Rod>, trash: Seq<Trash>) -> bool {
    match rod {
        Some(hook) => hook.state == RodState::Reeling && exists|j: int|
            0 <= j < trash.len() && hook.snags(#[trigger] trash[j]),
        None => false,
    }
}

/// The rod after it has or has not run into trash: idle if it has.
pub open spec fn after_trash(rod: Option<Rod>, trash: Seq<Trash>) -> Option<Rod> {
    match rod {
        Some(hook) => if fouled(rod, trash) {
            Some(Rod { state: RodState::Idle, ..hook })
        } else {
            rod
        },
        None => None,
    }
}

/// Whether a rod is out and back at the boat in which `player` sits.
pub open spec fn landed_rod(rod: Option<Rod>, player: Player, boat: Boat) -> bool {
    match rod {
        Some(hook) => hook.reeled_in(player, boat),
        None => false,
    }
}

/// The rod as cast or not cast: a rod that is out stays, and without one
/// the cast key puts a new one below the player.
pub open spec fn after_cast(
    rod: Option<Rod>,
    cast: bool,
    player: Position,
    size: Extent,
) -> Option<Rod> {
    match rod {
        Some(_) => rod,
        None => if cast {
            Some(Rod::cast_from(player, size))
        } else {
            None
        },
    }
}

/// The rod, if one is out, after a tick of `dt` milliseconds.
pub open spec fn after_movement(
    rod: Option<Rod>,
    player_x: i64,
    properties: RodProperties,
    jerk: bool,
    dt: u32,
) -> Option<Rod> {
    match rod {
        Some(hook) => Some(hook.moved(player_x, properties, jerk, dt)),
        None => None,
    }
}

/// Casts the rod if the cast key was pressed and no rod is out. While a rod
/// is out, casting does nothing.
pub fn cast_rod(cast: bool, player: &Player, size: Extent, rod: &mut Option<Rod>)
    requires
        in_world(player.position.y),
    ensures
        *final(rod) == after_cast(*old(rod), cast, player.position, size),
        *old(rod) is Some ==> *final(rod) == *old(rod),
{
    // Only spawn a new rod if there isn't already one spawned
    if rod.is_some() {
        return ;
    }
    if cast {
        *rod = Some(
            Rod {
                position: Position { x: player.position.x, y: player.position.y - CAST_DEPTH },
                size,
                velocity: 0,
                acceleration: 0,
                state: RodState::Idle,
            },
        );
    }
}

/// Moves the rod, if one is out, through a tick of `dt` milliseconds: see
/// [`Rod::moved`]. With no rod out there is nothing to do.
pub fn rod_movement(
    dt: u32,
    jerk: bool,
    player: &Player,
    rod_stats: RodVariant,
    rod: &mut Option<Rod>,
)
    requires
        *old(rod) matches Some(rod) ==> rod.wf() && in_world(rod.position.y),
    ensures
        *final(rod) == after_movement(
            *old(rod),
            player.position.x,
            rod_stats.properties(),
            jerk,
            dt,
        ),
        *final(rod) matches Some(rod) ==> rod.wf(),
{
    let rod_stats = rod_stats.get_rod_properties();
    match rod {
        Some(rod) => {
            rod.advance(player.position.x, rod_stats, jerk, dt);
        },
        None => {},
    }
}

/// Reels the rod in when it has come back to the boat: the rod is gone and
/// the event is raised. With no rod out, or a rod away from the boat,
/// nothing happens.
pub fn check_for_boat_collisions(
    player: &Player,
    boat: &Boat,
    rod: &mut Option<Rod>,
) -> (out: Option<
    BoatCollisionEvent,
>)
    requires
        boat.reaches(*player),
    ensures
        landed_rod(*old(rod), *player, *boat) ==> *final(rod) is None && out == Some(
            BoatCollisionEvent,
        ),
        !landed_rod(*old(rod), *player, *boat) ==> *final(rod) == *old(rod) && out is None,
{
    let hit = match rod {
        Some(rod) => overlaps(boat.position_with(player), boat.size, rod.position, rod.size),
        None => false,
    };
    if !hit {
        return None;
    }
    // Despawn rod when it's reeled back in
    *rod = None;
    Some(BoatCollisionEvent)
}

/// Lets an idle rod claim a fish. The fish are tried in the order of the
/// list, and the first one that the rod can hook is named in the event; the
/// rod is reeling from then on, so that no second fish is claimed. A rod
/// that is reeling, or that finds no fish, is left as it is.
pub fn check_for_fish_collisions(fish: &Vec<Fish>, rod: &mut Option<Rod>) -> (out: Option<
    FishCollisionWithRodEvent,
>)
    ensures
        out == claim(*old(rod), fish@),
        *final(rod) == after_claim(*old(rod), fish@),
{
    let idle = match rod {
        Some(rod) => {
            match rod.state {
                RodState::Idle => true,
                RodState::Reeling => false,
            }
        },
        None => false,
    };
    if !idle {
        return None;
    }
    let hook = rod.unwrap();
    let mut i: usize = 0;
    assert(fish@.take(0) == Seq::<Fish>::empty());
    while i < fish.len()
        invariant
            i <= fish@.len(),
            *rod == *old(rod),
            *rod == Some(hook),
            hook.state == RodState::Idle,
            hook.first_bite(fish@.take(i as int)) is None,
        decreases fish@.len() - i,
    {
        let candidate = fish[i];
        let free = match candidate.state {
            FishState::Swimming => candidate.invincibility.is_none(),
            FishState::Caught => false,
        };
        proof {
            assert(fish@.take(i + 1).drop_last() == fish@.take(i as int));
        }
        if free && overlaps(candidate.position, candidate.size, hook.position, hook.size) {
            proof {
                hook.lemma_first_bite_extends(fish@.take(i + 1), fish@);
            }
            *rod = Some(Rod { state: RodState::Reeling, ..hook });
            return Some(FishCollisionWithRodEvent { fish: i });
        }
        i += 1;
    }
    assert(fish@.take(fish@.len() as int) == fish@);
    None
}

/// Knocks the catch off a reeling rod that overlaps a piece of trash: the
/// rod is idle again and the event is raised, once, however many pieces it
/// overlaps. An idle rod passes through trash.
pub fn check_for_trash_collisions(trash: &Vec<Trash>, rod: &mut Option<Rod>) -> (out: Option<
    TrashCollisionEvent,
>)
    ensures
        *final(rod) == after_trash(*old(rod), trash@),
        out == if fouled(*old(rod), trash@) {
            Some(TrashCollisionEvent)
        } else {
            None
        },
{
    let reeling = match rod {
        Some(rod) => {
            match rod.state {
                RodState::Idle => false,
                RodState::Reeling => true,
            }
        },
        None => false,
    };
    if !reeling {
        return None;
    }
    let hook = rod.unwrap();
    let mut i: usize = 0;
    while i < trash.len()
        invariant
            i <= trash@.len(),
            *rod == *old(rod),
            *rod == Some(hook),
            hook.state == RodState::Reeling,
            forall|j: int| 0 <= j < i ==> !hook.snags(#[trigger] trash@[j]),
        decreases trash@.len() - i,
    {
        let piece = trash[i];
        if overlaps(piece.position, piece.size, hook.position, hook.size) {
            *rod = Some(Rod { state: RodState::Idle, ..hook });
            return Some(TrashCollisionEvent);
        }
        i += 1;
    }
    None
}

} // verus!
