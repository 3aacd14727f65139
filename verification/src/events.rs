//! What the simulation tells its surroundings: one type per kind of event.

use crate::collide::Collision;
use crate::components::Weight;
use crate::fish::FishVariant;
use vstd::prelude::*;

verus! {

/// The rod was reeled back into the boat.
#[derive(Clone, Copy, Debug, PartialEq, Eq, Default)]
pub struct BoatCollisionEvent;

/// The idle rod has found a fish to catch, named by its place in the list
/// of fish.
#[derive(Clone, Copy, Debug, PartialEq, Eq)]
pub struct FishCollisionWithRodEvent {
    pub fish: usize,
}

/// The reeling rod ran into a piece of trash.
#[derive(Clone, Copy, Debug, PartialEq, Eq, Default)]
pub struct TrashCollisionEvent;

/// The player's boat lies at the port.
#[derive(Clone, Copy, Debug, PartialEq, Eq)]
pub struct PortCollisionEvent {
    pub collision_direction: Collision,
}

/// The hold was emptied at the port.
#[derive(Clone, Copy, Debug, PartialEq, Eq)]
pub struct DepositFishEvent {
    /// The weight ever brought to the port, this deposit included.
    pub port_weight: u64,
    /// The hold's capacity, when a threshold has been passed.
    pub new_max: Option<u64>,
    /// The threshold that unlocks the next rod, if there is a next rod.
    pub next_upgrade: Option<u64>,
}

/// A fish on the hook was let go.
#[derive(Clone, Copy, Debug, PartialEq, Eq, Default)]
pub struct DropFishEvent;

/// The hold is full.
#[derive(Clone, Copy, Debug, PartialEq, Eq, Default)]
pub struct WeightLimitEvent;

/// The player was given a better rod.
#[derive(Clone, Copy, Debug, PartialEq, Eq, Default)]
pub struct UpgradeEvent;

/// A fish was hooked and is being reeled in.
#[derive(Clone, Copy, Debug, PartialEq, Eq)]
pub struct ReelingFishEvent {
    pub weight: Weight,
    pub fish_variant: FishVariant,
}

/// A fish was taken into the hold.
#[derive(Clone, Copy, Debug, PartialEq, Eq)]
pub struct CatchFishEvent {
    pub weight: Weight,
    pub fish_variant: FishVariant,
}

} // verus!
