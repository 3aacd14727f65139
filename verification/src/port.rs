//! The port: where the hold is emptied, and where the weight brought in so
//! far decides which rod the player fishes with.

use crate::components::{Extent, FishStorage, Position};
use crate::events::{DepositFishEvent, PortCollisionEvent, UpgradeEvent};
use crate::fish::FishVariant;
use crate::resources::{caught, of_variant, Catch, PlayerFishStored, PortStorage};
use crate::rod::{RodVariant, TOP_TIER};
use vstd::prelude::*;

verus! {

/// The port: a bounding box around a position.
#[derive(Clone, Copy, Debug, PartialEq, Eq)]
pub struct Port {
    pub position: Position,
    pub size: Extent,
}

/// The weight, in hundredths of a kilogram, that the port's total must
/// exceed before the variant is handed out. The first rod needs none.
pub open spec fn threshold(variant: RodVariant) -> u64 {
    match variant {
        RodVariant::StickWithString => 0,
        RodVariant::TwigAndTwineTackler => 400,
        RodVariant::ReedReelRig => 800,
        RodVariant::WillowWhiskerWeaver => 1_500,
        RodVariant::BambooBlisscaster => 5_000,
        RodVariant::FiberFusion => 15_000,
        RodVariant::GraphiteGuardian => 20_000,
        RodVariant::CarbonCaster9000 => 120_000,
    }
}

/// The capacity of the hold, in hundredths of a kilogram, that comes with
/// the variant.
pub open spec fn capacity(variant: RodVariant) -> u64 {
    match variant {
        RodVariant::StickWithString => 300,
        RodVariant::TwigAndTwineTackler => 600,
        RodVariant::ReedReelRig => 1_000,
        RodVariant::WillowWhiskerWeaver => 3_000,
        RodVariant::BambooBlisscaster => 7_000,
        RodVariant::FiberFusion => 10_000,
        RodVariant::GraphiteGuardian => 20_000,
        RodVariant::CarbonCaster9000 => 100_000,
    }
}

/// Whether a port total of `total` entitles the player to the variant: the
/// first rod always, any other once the total exceeds its threshold.
pub open spec fn unlocked(variant: RodVariant, total: u64) -> bool {
    variant.tier() == 0 || total > threshold(variant)
}

/// The variant found by going down from rank `tier` to the first whose
/// threshold `total` exceeds; the first rod if there is none.
pub open spec fn best_up_to(total: u64, tier: int) -> RodVariant
    decreases tier,
{
    if tier <= 0 {
        RodVariant::StickWithString
    } else if total > threshold(RodVariant::of_tier(tier)) {
        RodVariant::of_tier(tier)
    } else {
        best_up_to(total, tier - 1)
    }
}

/// The variant that a port total of `total` selects: thresholds are tried
/// from the highest down, and the first one exceeded decides.
pub open spec fn selected(total: u64) -> RodVariant {
    best_up_to(total, TOP_TIER as int)
}

/// Whether `total` exceeds any threshold at all.
pub open spec fn upgrades(total: u64) -> bool {
    selected(total).tier() > 0
}

/// The threshold of the rod that follows the one selected by `total`;
/// `None` once the strongest rod is selected.
pub open spec fn next_threshold(total: u64) -> Option<u64> {
    let tier = selected(total).tier();
    if tier < TOP_TIER {
        Some(threshold(RodVariant::of_tier(tier + 1)))
    } else {
        None
    }
}

/// Thresholds and capacities grow with the rank of the rod.
pub proof fn lemma_table_increases(weaker: RodVariant, stronger: RodVariant)
    requires
        weaker.tier() < stronger.tier(),
    ensures
        threshold(weaker) < threshold(stronger),
        capacity(weaker) < capacity(stronger),
{
}

/// What going down from `tier` finds is unlocked, is of rank `tier` at
/// most, and no variant between it and `tier` is unlocked.
proof fn lemma_best_up_to(total: u64, tier: int)
    requires
        0 <= tier <= TOP_TIER,
    ensures
        unlocked(best_up_to(total, tier), total),
        best_up_to(total, tier).tier() <= tier,
        forall|other: RodVariant|
            best_up_to(total, tier).tier() < #[trigger] other.tier() <= tier ==> !unlocked(
                other,
                total,
            ),
    decreases tier,
{
    if tier > 0 && !(total > threshold(RodVariant::of_tier(tier))) {
        lemma_best_up_to(total, tier - 1);
    }
}

/// The selected variant is the strongest one that `total` unlocks.
pub proof fn lemma_selected_is_best(total: u64)
    ensures
        unlocked(selected(total), total),
        forall|other: RodVariant| #[trigger]
            unlocked(other, total) ==> other.tier() <= selected(total).tier(),
{
    lemma_best_up_to(total, TOP_TIER as int);
}

/// A larger total never selects a weaker rod: once a rod has been handed
/// out, no later deposit takes it back.
pub proof fn lemma_selected_monotone(before: u64, after: u64)
    requires
        before <= after,
    ensures
        selected(before).tier() <= selected(after).tier(),
        capacity(selected(before)) <= capacity(selected(after)),
{
    lemma_selected_is_best(before);
    lemma_selected_is_best(after);
    assert(unlocked(selected(before), after));
    if selected(before).tier() < selected(after).tier() {
        lemma_table_increases(selected(before), selected(after));
    }
}

/// The next threshold, where there is one, is the lowest threshold that
/// `total` does not exceed; where there is none, `total` exceeds them all.
pub proof fn lemma_next_threshold_is_unmet(total: u64)
    ensures
        match next_threshold(total) {
            Some(next) => {
                &&& total <= next
                &&& forall|variant: RodVariant|
                    variant.tier() > 0 && total <= #[trigger] threshold(variant) ==> next
                        <= threshold(variant)
            },
            None => forall|variant: RodVariant| #[trigger] unlocked(variant, total),
        },
{
    lemma_selected_is_best(total);
    let best = selected(total);
    if best.tier() < TOP_TIER {
        let follower = RodVariant::of_tier(best.tier() + 1);
        assert(!unlocked(follower, total));
        assert forall|variant: RodVariant|
            variant.tier() > 0 && total <= #[trigger] threshold(variant) implies threshold(follower)
            <= threshold(variant) by {
            assert(!unlocked(variant, total));
            if variant.tier() < best.tier() {
                lemma_table_increases(variant, best);
            } else if variant.tier() > follower.tier() {
                lemma_table_increases(follower, variant);
            }
        }
    } else {
        assert forall|variant: RodVariant| #[trigger] unlocked(variant, total) by {
            if variant.tier() < best.tier() {
                lemma_table_increases(variant, best);
            }
        }
    }
}

/// The weight that the port's total must exceed before the variant is
/// handed out.
pub fn upgrade_threshold(variant: RodVariant) -> (weight: u64)
    ensures
        weight == threshold(variant),
{
    match variant {
        RodVariant::StickWithString => 0,
        RodVariant::TwigAndTwineTackler => 400,
        RodVariant::ReedReelRig => 800,
        RodVariant::WillowWhiskerWeaver => 1_500,
        RodVariant::BambooBlisscaster => 5_000,
        RodVariant::FiberFusion => 15_000,
        RodVariant::GraphiteGuardian => 20_000,
        RodVariant::CarbonCaster9000 => 120_000,
    }
}

/// The capacity of the hold that comes with the variant.
pub fn storage_capacity(variant: RodVariant) -> (weight: u64)
    ensures
        weight == capacity(variant),
{
    match variant {
        RodVariant::StickWithString => 300,
        RodVariant::TwigAndTwineTackler => 600,
        RodVariant::ReedReelRig => 1_000,
        RodVariant::WillowWhiskerWeaver => 3_000,
        RodVariant::BambooBlisscaster => 7_000,
        RodVariant::FiberFusion => 10_000,
        RodVariant::GraphiteGuardian => 20_000,
        RodVariant::CarbonCaster9000 => 100_000,
    }
}

/// The variant that a port total of `total` selects.
pub fn select_rod(total: u64) -> (variant: RodVariant)
    ensures
        variant == selected(total),
{
    let mut tier: u8 = TOP_TIER;
    while tier > 0
        invariant
            tier <= TOP_TIER,
            selected(total) == best_up_to(total, tier as int),
        decreases tier,
    {
        let candidate = RodVariant::from_rank(tier);
        if total > upgrade_threshold(candidate) {
            return candidate;
        }
        tier = tier - 1;
    }
    RodVariant::StickWithString
}

/// The threshold that a port total of `total` has yet to exceed.
pub fn next_upgrade(total: u64) -> (next: Option<u64>)
    ensures
        next == next_threshold(total),
{
    let tier = select_rod(total).rank();
    if tier < TOP_TIER {
        Some(upgrade_threshold(RodVariant::from_rank(tier + 1)))
    } else {
        None
    }
}

/// The port's counts after the fish of `catch` were added, each to the
/// count of its kind.
pub open spec fn tallied(counts: Seq<u64>, catch: Seq<Catch>) -> Seq<u64> {
    Seq::new(8, |place: int| (counts[place] + caught(catch, FishVariant::at(place))) as u64)
}

/// What a visit to the port brought about.
#[derive(Clone, Copy, Debug, PartialEq, Eq)]
pub struct Deposit {
    pub deposit: DepositFishEvent,
    pub upgrade: Option<UpgradeEvent>,
}

/// The events of a deposit that raises the port's total to `total` while
/// the player holds the rod `equipped`.
pub open spec fn deposit_events(total: u64, equipped: RodVariant) -> Deposit {
    Deposit {
        deposit: DepositFishEvent {
            port_weight: total,
            new_max: if upgrades(total) {
                Some(capacity(selected(total)))
            } else {
                None
            },
            next_upgrade: next_threshold(total),
        },
        upgrade: if upgrades(total) && equipped != selected(total) {
            Some(UpgradeEvent)
        } else {
            None
        },
    }
}

/// Adds every fish of `catch` to the port's count of its kind.
fn tally(port_fish: &mut PortStorage, catch: &Vec<Catch>)
    requires
        forall|variant: FishVariant| #[trigger]
            old(port_fish).count(variant) + caught(catch@, variant) <= u64::MAX,
    ensures
        final(port_fish).weight == old(port_fish).weight,
        forall|variant: FishVariant| #[trigger]
            final(port_fish).count(variant) == old(port_fish).count(variant) + caught(
                catch@,
                variant,
            ),
{
    let mut i: usize = 0;
    while i < catch.len()
        invariant
            i <= catch@.len(),
            port_fish.weight == old(port_fish).weight,
            forall|variant: FishVariant| #[trigger]
                old(port_fish).count(variant) + caught(catch@, variant) <= u64::MAX,
            forall|variant: FishVariant| #[trigger]
                port_fish.count(variant) == old(port_fish).count(variant) + caught(
                    catch@.take(i as int),
                    variant,
                ),
        decreases catch@.len() - i,
    {
        let kind = catch[i].0;
        let place = kind.index();
        proof {
            let seen = catch@.take(i as int);
            assert(catch@.take(i + 1) == seen.push(catch@[i as int]));
            assert forall|variant: FishVariant|
                caught(catch@.take(i + 1), variant) == #[trigger] caught(seen, variant) + (if variant
                    == kind {
                    1int
                } else {
                    0int
                }) by {
                seen.lemma_filter_push(catch@[i as int], of_variant(variant));
            }
            catch@.lemma_filter_take_len(of_variant(kind), i + 1);
            assert(port_fish.count(kind) + 1 <= old(port_fish).count(kind) + caught(catch@, kind));
        }
        let ghost before = *port_fish;
        port_fish.fish[place] = port_fish.fish[place] + 1;
        proof {
            assert forall|variant: FishVariant| #[trigger]
                port_fish.count(variant) == old(port_fish).count(variant) + caught(
                    catch@.take(i + 1),
                    variant,
                ) by {
                assert(before.count(variant) == old(port_fish).count(variant) + caught(
                    catch@.take(i as int),
                    variant,
                ));
                assert(variant != kind ==> variant.ordinal() != place);
            }
        }
        i += 1;
    }
    assert(catch@.take(catch@.len() as int) == catch@);
}

/// Empties the hold at the port.
///
/// With nothing in the hold the visit changes nothing and reports nothing.
/// Otherwise every fish carried is added to the port's count of its kind,
/// the carried weight is added to the port's total and the hold is emptied.
/// The new total then selects a rod: where it exceeds a threshold, the
/// player is given the selected rod and the capacity that comes with it,
/// and an upgrade is reported if that rod is not the one already held.
pub fn check_for_port_collisions(
    event: &PortCollisionEvent,
    port_fish: &mut PortStorage,
    player_fish: &mut PlayerFishStored,
    player_storage: &mut FishStorage,
    rod_variant: &mut RodVariant,
) -> (out: Option<Deposit>)
    requires
        old(port_fish).has_room_for(old(player_fish).fish@, old(player_storage).current),
    ensures
        old(player_fish).fish@.len() == 0 ==> {
            &&& out is None
            &&& *final(port_fish) == *old(port_fish)
            &&& final(player_fish).fish@ == old(player_fish).fish@
            &&& *final(player_storage) == *old(player_storage)
            &&& *final(rod_variant) == *old(rod_variant)
        },
        old(player_fish).fish@.len() > 0 ==> {
            let total = (old(port_fish).weight + old(player_storage).current) as u64;
            &&& out == Some(deposit_events(total, *old(rod_variant)))
            &&& final(port_fish).weight == total
            &&& final(port_fish).fish@ == tallied(old(port_fish).fish@, old(player_fish).fish@)
            &&& forall|variant: FishVariant| #[trigger]
                final(port_fish).count(variant) == old(port_fish).count(variant) + caught(
                    old(player_fish).fish@,
                    variant,
                )
            &&& final(player_fish).fish@.len() == 0
            &&& final(player_storage).current == 0
            &&& upgrades(total) ==> {
                &&& *final(rod_variant) == selected(total)
                &&& final(player_storage).max == capacity(selected(total))
            }
            &&& !upgrades(total) ==> {
                &&& *final(rod_variant) == *old(rod_variant)
                &&& final(player_storage).max == old(player_storage).max
            }
        },
{
    if player_fish.fish.len() == 0 {
        return None;
    }
    tally(port_fish, &player_fish.fish);
    player_fish.fish.clear();

    let ghost tallied = *port_fish;
    port_fish.weight = port_fish.weight + player_storage.current;
    let total = port_fish.weight;
    assert forall|variant: FishVariant| #[trigger]
        port_fish.count(variant) == old(port_fish).count(variant) + caught(
            old(player_fish).fish@,
            variant,
        ) by {
        assert(port_fish.count(variant) == tallied.count(variant));
    }
    assert(port_fish.fish@ =~= self::tallied(old(port_fish).fish@, old(player_fish).fish@)) by {
        assert forall|place: int| 0 <= place < 8 implies port_fish.fish@[place] == old(
            port_fish,
        ).fish@[place] + caught(old(player_fish).fish@, FishVariant::at(place)) by {
            assert(FishVariant::at(place).ordinal() == place);
            assert(port_fish.count(FishVariant::at(place)) == port_fish.fish@[place]);
        }
    }

    let choice = select_rod(total);
    let next_upgrade = next_upgrade(total);
    let mut upgrade: Option<UpgradeEvent> = None;
    let new_max = if choice.rank() > 0 {
        if *rod_variant != choice {
            upgrade = Some(UpgradeEvent);
        }
        *rod_variant = choice;
        Some(storage_capacity(choice))
    } else {
        None
    };

    FishStorage::update_storage(0, new_max, player_storage);

    Some(
        Deposit { deposit: DepositFishEvent { port_weight: total, new_max, next_upgrade }, upgrade },
    )
}

} // verus!
