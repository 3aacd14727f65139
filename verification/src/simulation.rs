//! The whole game as one value, and the tick that advances it.
//!
//! A tick runs the rules in a fixed order: the water is stocked, the boat
//! and the rod move, fish and trash move, fish turn at the boundaries, old
//! fish die and leave, the rod meets fish, trash and boat, the catch is
//! taken into the hold, the hold is emptied at the port, and the timers
//! run. What chance decides in a tick is drawn before the tick and handed
//! to it, so that the tick itself is a function.

use crate::collide::collision;
use crate::components::{Direction, Extent, FishStorage};
use crate::events::{
    BoatCollisionEvent, CatchFishEvent, DepositFishEvent, DropFishEvent, PortCollisionEvent,
    ReelingFishEvent, TrashCollisionEvent, UpgradeEvent,
};
use crate::fish::{
    check_for_boat_collisions, check_for_rod_collisions, check_for_trash_collisions, cull_fish,
    die_the_fish, draw_newborn, fish_movement, handle_invincibilities, hook, hooked_by, landed,
    lemma_landed, lemma_landed_keeps_wf, reeling, survives, update_fish_count, Fish, FishVariant,
    Landing, FISH_POPULATION_CAP,
};
use crate::player::{player_movement, Boat, Player};
use crate::port::{
    capacity, deposit_events, lemma_selected_is_best, lemma_selected_monotone, select_rod, selected,
    storage_capacity, tallied, upgrades, Deposit, Port,
};
use crate::resources::{
    catch_weight, caught, of_variant, AliveFish, Catch, PlayerFishStored, PortStorage,
};
use crate::rod::{
    after_cast, after_claim, after_movement, after_trash, cast_rod, check_for_fish_collisions,
    claim, fouled, landed_rod, rod_movement, Rod, RodVariant,
};
use crate::systems::tick_decay_timers;
use crate::trash::{trash_movement, Trash};
use vstd::prelude::*;

verus! {

/// The keys that matter to a tick.
#[derive(Clone, Copy, Debug, PartialEq, Eq)]
pub struct Input {
    /// The cast key went down in this tick.
    pub cast: bool,
    /// The jerk key went down in this tick.
    pub jerk: bool,
    /// The left key is held.
    pub left: bool,
    /// The right key is held.
    pub right: bool,
}

/// The game.
#[derive(Clone, Debug, PartialEq, Eq)]
pub struct Simulation {
    pub fish: Vec<Fish>,
    pub trash: Vec<Trash>,
    pub rod: Option<Rod>,
    pub player: Player,
    pub boat: Boat,
    pub port: Port,
    pub storage: FishStorage,
    pub rod_variant: RodVariant,
    pub fish_stored: PlayerFishStored,
    pub port_storage: PortStorage,
    pub alive_fish: AliveFish,
    /// The bounding box that a rod is cast with.
    pub rod_size: Extent,
    /// How far the window reaches to either side of the origin.
    pub window_half_width: i64,
}

/// The game as a mathematical value.
pub struct Scene {
    pub fish: Seq<Fish>,
    pub trash: Seq<Trash>,
    pub rod: Option<Rod>,
    pub player: Player,
    pub boat: Boat,
    pub port: Port,
    pub storage: FishStorage,
    pub rod_variant: RodVariant,
    pub stored: Seq<Catch>,
    pub port_weight: u64,
    pub port_fish: Seq<u64>,
    pub alive: u32,
    pub rod_size: Extent,
    pub window_half_width: i64,
}

/// What a tick reports, as a mathematical value.
pub struct Report {
    pub reeling: Option<ReelingFishEvent>,
    pub trash_collision: Option<TrashCollisionEvent>,
    pub boat_collision: Option<BoatCollisionEvent>,
    pub caught: Seq<CatchFishEvent>,
    pub dropped: Seq<DropFishEvent>,
    pub port_collision: Option<PortCollisionEvent>,
    pub deposit: Option<DepositFishEvent>,
    pub upgrade: Option<UpgradeEvent>,
}

/// A tick: the game after it and what it reports.
pub struct Tick {
    pub scene: Scene,
    pub report: Report,
}

impl View for Simulation {
    type V = Scene;

    open spec fn view(&self) -> Scene {
        Scene {
            fish: self.fish@,
            trash: self.trash@,
            rod: self.rod,
            player: self.player,
            boat: self.boat,
            port: self.port,
            storage: self.storage,
            rod_variant: self.rod_variant,
            stored: self.fish_stored.fish@,
            port_weight: self.port_storage.weight,
            port_fish: self.port_storage.fish@,
            alive: self.alive_fish.count,
            rod_size: self.rod_size,
            window_half_width: self.window_half_width,
        }
    }
}

/// The heading that the `place`-th fish takes up when it levels off: the
/// `place`-th pick, or `Left` where the picks have run out.
pub open spec fn pick_at(picks: Seq<Direction>, place: int) -> Direction {
    if 0 <= place < picks.len() {
        picks[place]
    } else {
        Direction::Left
    }
}

impl Scene {
    /// What holds of the game at every tick.
    ///
    /// Every fish, every piece of trash and the rod are well formed; the
    /// fish can be counted; the hold carries no more than its capacity, and
    /// exactly the weight of the catch in it; the player's rod is the one
    /// that the port's total selects, and the hold's capacity is the one
    /// that comes with that rod.
    pub open spec fn wf(self) -> bool {
        &&& forall|i: int| 0 <= i < self.fish.len() ==> (#[trigger] self.fish[i]).wf()
        &&& forall|i: int| 0 <= i < self.trash.len() ==> (#[trigger] self.trash[i]).wf()
        &&& self.rod matches Some(rod) ==> rod.wf()
        &&& self.fish.len() <= u32::MAX
        &&& self.storage.wf()
        &&& self.storage.current == catch_weight(self.stored)
        &&& self.rod_variant == selected(self.port_weight)
        &&& self.storage.max == capacity(self.rod_variant)
        &&& self.port_fish.len() == 8
    }

    /// Whether every position leaves room for a tick of motion.
    pub open spec fn in_range(self) -> bool {
        &&& forall|i: int| 0 <= i < self.fish.len() ==> (#[trigger] self.fish[i]).in_range()
        &&& forall|i: int| 0 <= i < self.trash.len() ==> (#[trigger] self.trash[i]).in_range()
        &&& self.rod matches Some(rod) ==> rod.in_range()
        &&& self.player.in_range()
        &&& self.boat.in_range()
    }

    /// Whether the port's record can take the whole hold, and `spare` more
    /// fish beside all that are in the hold or in the water, without a
    /// counter running over.
    pub open spec fn has_room(self, spare: int) -> bool {
        &&& self.port_weight + self.storage.max <= u64::MAX
        &&& forall|place: int|
            0 <= place < 8 ==> (#[trigger] self.port_fish[place]) + self.stored.len() + self.fish.len()
                + spare <= u64::MAX
    }

    /// The game before the first tick: an empty water, no rod out, an empty
    /// hold with the capacity of the first rod, the first rod in hand, and a
    /// port that has been brought nothing.
    pub open spec fn opening(
        player: Player,
        boat: Boat,
        port: Port,
        rod_size: Extent,
        window_half_width: i64,
    ) -> Scene {
        Scene {
            fish: Seq::empty(),
            trash: Seq::empty(),
            rod: None,
            player,
            boat,
            port,
            storage: FishStorage { current: 0, max: capacity(RodVariant::StickWithString) },
            rod_variant: RodVariant::StickWithString,
            stored: Seq::empty(),
            port_weight: 0,
            port_fish: Seq::new(8, |place: int| 0u64),
            alive: 0,
            rod_size,
            window_half_width,
        }
    }

    /// Whether a tick may be made: the game is well formed, every position
    /// is in range, and the port has room for one more fish than there are.
    pub open spec fn ready(self) -> bool {
        self.wf() && self.in_range() && self.has_room(1)
    }

    /// The water stocked: the fish are counted, and the newcomer joins them
    /// unless the count has reached the cap.
    pub open spec fn populated(self, newborn: Fish) -> Scene {
        Scene {
            alive: self.fish.len() as u32,
            fish: if self.fish.len() < FISH_POPULATION_CAP {
                self.fish.push(newborn)
            } else {
                self.fish
            },
            ..self
        }
    }

    /// Boat and rod moved: the boat is rowed, a rod that is out moves
    /// through its tick below the boat's new place, and a rod is cast if
    /// none is out.
    pub open spec fn steered(self, input: Input, dt: u32) -> Scene {
        let player = self.player.rowed(input.left, input.right, self.window_half_width, dt);
        let moved = after_movement(
            self.rod,
            player.position.x,
            self.rod_variant.properties(),
            input.jerk,
            dt,
        );
        Scene { player, rod: after_cast(moved, input.cast, player.position, self.rod_size), ..self }
    }

    /// Fish and trash moved.
    pub open spec fn drifted(self, dt: u32) -> Scene {
        Scene {
            fish: self.fish.map_values(|fish: Fish| fish.advanced(hook(self.rod), dt)),
            trash: self.trash.map_values(|trash: Trash| trash.drifted(dt)),
            ..self
        }
    }

    /// The fish turned at the boundaries, each with its own pick.
    pub open spec fn turned(self, picks: Seq<Direction>) -> Scene {
        Scene {
            fish: Seq::new(self.fish.len(), |i: int| self.fish[i].bounded(pick_at(picks, i))),
            ..self
        }
    }

    /// Old fish marked as dying, and dying fish outside the playfield gone.
    pub open spec fn decayed(self) -> Scene {
        Scene { fish: self.fish.map_values(|fish: Fish| fish.aged()).filter(survives()), ..self }
    }

    /// The rod's claim on a fish, made and answered.
    pub open spec fn claimed(self) -> Scene {
        Scene {
            rod: after_claim(self.rod, self.fish),
            fish: match claim(self.rod, self.fish) {
                Some(event) => hooked_by(event, self.fish),
                None => self.fish,
            },
            ..self
        }
    }

    /// The report of the fish that the rod has claimed.
    pub open spec fn reeling(self) -> Option<ReelingFishEvent> {
        match claim(self.rod, self.fish) {
            Some(event) => reeling(event, self.fish),
            None => None,
        }
    }

    /// The rod's run into trash, if it has one: the rod is idle and every
    /// caught fish is off the hook.
    pub open spec fn shaken(self) -> Scene {
        if fouled(self.rod, self.trash) {
            Scene {
                rod: after_trash(self.rod, self.trash),
                fish: self.fish.map_values(|fish: Fish| fish.shaken_off()),
                ..self
            }
        } else {
            self
        }
    }

    /// Whether the rod is back at the boat.
    pub open spec fn reels_in(self) -> bool {
        landed_rod(self.rod, self.player, self.boat)
    }

    /// The rod's return to the boat, if it has returned: the rod is gone
    /// and the fish on the hook are landed.
    pub open spec fn reeled(self) -> Scene {
        if self.reels_in() {
            let haul = landed(self.fish, self.storage.current, self.storage.max);
            Scene {
                rod: None,
                fish: haul.fish,
                stored: self.stored + haul.stored,
                storage: FishStorage { current: haul.current, max: self.storage.max },
                ..self
            }
        } else {
            self
        }
    }

    /// Whether the boat lies at the port with a catch to deposit.
    pub open spec fn deposits(self) -> bool {
        collision(self.player.position, self.player.size, self.port.position, self.port.size)
            is Some && self.stored.len() > 0
    }

    /// The port's total after the hold is emptied there.
    pub open spec fn total(self) -> u64 {
        (self.port_weight + self.storage.current) as u64
    }

    /// The visit to the port, if the boat lies there with a catch: the hold
    /// is emptied into the port's record, and the new total selects rod and
    /// capacity.
    pub open spec fn docked(self) -> Scene {
        if self.deposits() {
            let total = self.total();
            Scene {
                port_weight: total,
                port_fish: tallied(self.port_fish, self.stored),
                stored: Seq::empty(),
                storage: FishStorage {
                    current: 0,
                    max: if upgrades(total) {
                        capacity(selected(total))
                    } else {
                        self.storage.max
                    },
                },
                rod_variant: if upgrades(total) {
                    selected(total)
                } else {
                    self.rod_variant
                },
                ..self
            }
        } else {
            self
        }
    }

    /// The timers run: every fish is older, and grace periods end.
    pub open spec fn timed(self, dt: u32) -> Scene {
        Scene { fish: self.fish.map_values(|fish: Fish| fish.older(dt).after_grace(dt)), ..self }
    }

    /// One tick of `dt` milliseconds with the given keys, the given
    /// newcomer and the given picks: the rules in their order, and what
    /// they report.
    pub open spec fn stepped(
        self,
        input: Input,
        dt: u32,
        newborn: Fish,
        picks: Seq<Direction>,
    ) -> Tick {
        let moved = self.populated(newborn).steered(input, dt).drifted(dt);
        let aged = moved.turned(picks).decayed();
        let hooked = aged.claimed();
        let shaken = hooked.shaken();
        let reeled = shaken.reeled();
        let docked = reeled.docked();
        let haul = landed(shaken.fish, shaken.storage.current, shaken.storage.max);
        Tick {
            scene: docked.timed(dt),
            report: Report {
                reeling: aged.reeling(),
                trash_collision: if fouled(hooked.rod, hooked.trash) {
                    Some(TrashCollisionEvent)
                } else {
                    None
                },
                boat_collision: if shaken.reels_in() {
                    Some(BoatCollisionEvent)
                } else {
                    None
                },
                caught: if shaken.reels_in() {
                    haul.caught
                } else {
                    Seq::empty()
                },
                dropped: if shaken.reels_in() {
                    haul.dropped
                } else {
                    Seq::empty()
                },
                port_collision: match collision(
                    reeled.player.position,
                    reeled.player.size,
                    reeled.port.position,
                    reeled.port.size,
                ) {
                    Some(side) => Some(PortCollisionEvent { collision_direction: side }),
                    None => None,
                },
                deposit: if reeled.deposits() {
                    Some(deposit_events(reeled.total(), reeled.rod_variant).deposit)
                } else {
                    None
                },
                upgrade: if reeled.deposits() {
                    deposit_events(reeled.total(), reeled.rod_variant).upgrade
                } else {
                    None
                },
            },
        }
    }
}

/// What chance decides in one tick.
#[derive(Clone, Debug, PartialEq, Eq)]
pub struct Chance {
    /// The fish that joins the others if the water is not full.
    pub newborn: Fish,
    /// For each fish, by its place in the list, the heading that it takes
    /// up if it levels off in this tick.
    pub picks: Vec<Direction>,
}

impl Chance {
    /// Whether the value is one that a draw may produce: the newcomer is a
    /// fish as spawning makes them, and every pick is left or right.
    pub open spec fn wf(self) -> bool {
        &&& self.newborn.is_newborn()
        &&& forall|i: int|
            0 <= i < self.picks@.len() ==> (#[trigger] self.picks@[i]).is_horizontal()
    }

    /// Draws the newcomer and `count` picks.
    pub fn draw(count: usize) -> (chance: Chance)
        ensures
            chance.wf(),
            chance.picks@.len() == count,
    {
        let newborn = draw_newborn();
        let mut picks: Vec<Direction> = Vec::new();
        while picks.len() < count
            invariant
                picks@.len() <= count,
                forall|i: int| 0 <= i < picks@.len() ==> (#[trigger] picks@[i]).is_horizontal(),
            decreases count - picks@.len(),
        {
            picks.push(Direction::random_y());
        }
        Chance { newborn, picks }
    }
}

/// What a tick reports.
#[derive(Clone, Debug, PartialEq, Eq)]
pub struct Events {
    pub reeling: Option<ReelingFishEvent>,
    pub trash_collision: Option<TrashCollisionEvent>,
    pub boat_collision: Option<BoatCollisionEvent>,
    pub caught: Vec<CatchFishEvent>,
    pub dropped: Vec<DropFishEvent>,
    pub port_collision: Option<PortCollisionEvent>,
    pub deposit: Option<DepositFishEvent>,
    pub upgrade: Option<UpgradeEvent>,
}

impl View for Events {
    type V = Report;

    open spec fn view(&self) -> Report {
        Report {
            reeling: self.reeling,
            trash_collision: self.trash_collision,
            boat_collision: self.boat_collision,
            caught: self.caught@,
            dropped: self.dropped@,
            port_collision: self.port_collision,
            deposit: self.deposit,
            upgrade: self.upgrade,
        }
    }
}

/// Filtering keeps a property that every element has.
proof fn lemma_filter_keeps<A>(
    items: Seq<A>,
    pred: spec_fn(A) -> bool, property: spec_fn(A) -> bool,
)
    requires
        forall|i: int| 0 <= i < items.len() ==> #[trigger] property(items[i]),
    ensures
        forall|i: int|
            0 <= i < items.filter(pred).len() ==> #[trigger] property(items.filter(pred)[i]),
        items.filter(pred).len() <= items.len(),
    decreases items.len(),
{
    reveal(Seq::filter);
    if items.len() > 0 {
        lemma_filter_keeps(items.drop_last(), pred, property);
    }
}

/// The weight of two catches together is the sum of their weights.
pub proof fn lemma_catch_weight_adds(first: Seq<Catch>, second: Seq<Catch>)
    ensures
        catch_weight(first + second) == catch_weight(first) + catch_weight(second),
    decreases second.len(),
{
    if second.len() == 0 {
        assert(first + second == first);
    } else {
        lemma_catch_weight_adds(first, second.drop_last());
        assert((first + second).drop_last() == first + second.drop_last());
    }
}

impl Scene {
    /// A well-formed game whose port has room can deposit its hold.
    pub proof fn lemma_room_to_deposit(self)
        requires
            self.wf(),
            self.has_room(0),
        ensures
            self.port_weight + self.storage.current <= u64::MAX,
            forall|variant: FishVariant| #[trigger]
                self.port_fish[variant.ordinal()] + caught(self.stored, variant) <= u64::MAX,
    {
        assert forall|variant: FishVariant| #[trigger]
            self.port_fish[variant.ordinal()] + caught(self.stored, variant) <= u64::MAX by {
            self.stored.lemma_filter_len(of_variant(variant));
        }
    }

    /// A deposit keeps the game well formed, and neither the port's total
    /// nor the rank of the player's rod goes down; an upgrade is reported
    /// exactly when the rank goes up.
    pub proof fn lemma_docked(self)
        requires
            self.wf(),
            self.port_weight + self.storage.current <= u64::MAX,
        ensures
            self.docked().wf(),
            self.docked().port_weight >= self.port_weight,
            self.docked().rod_variant.tier() >= self.rod_variant.tier(),
            self.docked().storage.max >= self.storage.max,
            self.deposits() ==> (deposit_events(self.total(), self.rod_variant).upgrade is Some
                <==> self.docked().rod_variant.tier() > self.rod_variant.tier()),
    {
        if self.deposits() {
            lemma_selected_monotone(self.port_weight, self.total());
            lemma_selected_is_best(self.total());
        }
    }
}

impl Simulation {
    /// The game before the first tick.
    pub fn new(
        player: Player,
        boat: Boat,
        port: Port,
        rod_size: Extent,
        window_half_width: i64,
    ) -> (game:
        Simulation)
        ensures
            game@ == Scene::opening(player, boat, port, rod_size, window_half_width),
            game@.wf(),
    {
        let game = Simulation {
            fish: Vec::new(),
            trash: Vec::new(),
            rod: None,
            player,
            boat,
            port,
            storage: FishStorage { current: 0, max: storage_capacity(RodVariant::StickWithString) },
            rod_variant: RodVariant::StickWithString,
            fish_stored: PlayerFishStored::default(),
            port_storage: PortStorage::default(),
            alive_fish: AliveFish::default(),
            rod_size,
            window_half_width,
        };
        proof {
            assert(game@.port_fish =~= Seq::new(8, |place: int| 0u64)) by {
                assert forall|place: int| 0 <= place < 8 implies game@.port_fish[place] == 0 by {
                    assert(game.port_storage.count(FishVariant::at(place)) == 0);
                }
            }
            lemma_selected_is_best(0);
        }
        game
    }

    /// Stocks the water with its first fish and its trash.
    pub fn setup(&mut self)
        requires
            old(self)@.wf(),
            old(self)@.fish.len() + crate::fish::INITIAL_FISH <= u32::MAX,
            old(self)@.trash.len() + crate::trash::INITIAL_TRASH <= usize::MAX,
        ensures
            final(self)@ == (Scene {
                fish: final(self)@.fish,
                trash: final(self)@.trash,
                ..old(self)@
            }),
            final(self)@.wf(),
            final(self)@.fish.len() == old(self)@.fish.len() + crate::fish::INITIAL_FISH,
            final(self)@.fish.take(old(self)@.fish.len() as int) == old(self)@.fish,
            forall|i: int|
                old(self)@.fish.len() <= i < final(self)@.fish.len() ==> (#[trigger] final(
                    self
                )@.fish[i]).is_newborn(),
            final(self)@.trash.len() == old(self)@.trash.len() + crate::trash::INITIAL_TRASH,
            final(self)@.trash.take(old(self)@.trash.len() as int) == old(self)@.trash,
            forall|i: int|
                old(self)@.trash.len() <= i < final(self)@.trash.len() ==> (#[trigger] final(
                    self
                )@.trash[i]).is_new(),
    {
        crate::fish::setup(&mut self.fish);
        crate::trash::setup(&mut self.trash);
        proof {
            assert forall|i: int| 0 <= i < self@.fish.len() implies (#[trigger] self@.fish[i]).wf(
            ) by {
                if i < old(self)@.fish.len() {
                    assert(self@.fish[i] == self@.fish.take(old(self)@.fish.len() as int)[i]);
                } else {
                    assert(self@.fish[i].is_newborn());
                }
            }
            assert forall|i: int| 0 <= i < self@.trash.len() implies (#[trigger] self@.trash[i]).wf(
            ) by {
                if i < old(self)@.trash.len() {
                    assert(self@.trash[i] == self@.trash.take(old(self)@.trash.len() as int)[i]);
                } else {
                    assert(self@.trash[i].is_new());
                }
            }
        }
    }

    /// Whether a tick may be made: see [`Scene::ready`].
    pub fn can_tick(&self) -> (ready: bool)
        ensures
            ready == self@.ready(),
    {
        let mut i: usize = 0;
        while i < self.fish.len()
            invariant
                i <= self.fish@.len(),
                forall|j: int|
                    0 <= j < i ==> (#[trigger] self.fish@[j]).wf() && self.fish@[j].in_range(),
            decreases self.fish@.len() - i,
        {
            if !self.fish[i].is_sound() {
                assert(!(self@.fish[i as int].wf() && self@.fish[i as int].in_range()));
                return false;
            }
            i += 1;
        }
        let mut i: usize = 0;
        while i < self.trash.len()
            invariant
                i <= self.trash@.len(),
                forall|j: int|
                    0 <= j < i ==> (#[trigger] self.trash@[j]).wf() && self.trash@[j].in_range(),
            decreases self.trash@.len() - i,
        {
            if !self.trash[i].is_sound() {
                assert(!(self@.trash[i as int].wf() && self@.trash[i as int].in_range()));
                return false;
            }
            i += 1;
        }
        let rod_sound = match &self.rod {
            Some(rod) => rod.is_sound(),
            None => true,
        };
        if !rod_sound || !self.player.is_in_range() || !self.boat.is_in_range() {
            return false;
        }
        if self.fish.len() > 0xffff_ffff {
            return false;
        }
        if self.storage.current > self.storage.max || !self.fish_stored.weighs(
            self.storage.current,
        ) {
            return false;
        }
        if self.rod_variant != select_rod(self.port_storage.weight) || self.storage.max
            != storage_capacity(self.rod_variant) {
            return false;
        }
        if self.port_storage.weight > u64::MAX - self.storage.max {
            return false;
        }
        let load: u128 = self.fish_stored.fish.len() as u128 + self.fish.len() as u128 + 1;
        let mut place: usize = 0;
        while place < 8
            invariant
                place <= 8,
                load == self@.stored.len() + self@.fish.len() + 1,
                load <= 2 * usize::MAX + 1,
                forall|seen: int|
                    0 <= seen < place ==> (#[trigger] self@.port_fish[seen]) + self@.stored.len()
                        + self@.fish.len() + 1 <= u64::MAX,
            decreases 8 - place,
        {
            if self.port_storage.fish[place] as u128 + load > u64::MAX as u128 {
                assert(self@.port_fish[place as int] + self@.stored.len() + self@.fish.len() + 1
                    > u64::MAX);
                return false;
            }
            place += 1;
        }
        true
    }

    /// Advances the game by one tick of `dt` milliseconds if a tick may be
    /// made, and leaves it alone if not. Either way a well-formed game
    /// stays well formed, and neither the port's total nor the rank of the
    /// player's rod nor the capacity of the hold goes down.
    pub fn try_tick(&mut self, input: &Input, dt: u32) -> (events: Option<Events>)
        ensures
            old(self)@.wf() ==> final(self)@.wf(),
            final(self)@.port_weight >= old(self)@.port_weight,
            final(self)@.rod_variant.tier() >= old(self)@.rod_variant.tier(),
            final(self)@.storage.max >= old(self)@.storage.max,
            !old(self)@.ready() ==> events is None && final(self)@ == old(self)@,
            old(self)@.ready() ==> events is Some && final(self)@.wf() && exists|
                newborn: Fish,
                picks: Seq<Direction>,
            |
                {
                    &&& newborn.is_newborn()
                    &&& forall|i: int|
                        0 <= i < picks.len() ==> (#[trigger] picks[i]).is_horizontal()
                    &&& final(self)@ == (#[trigger] old(self)@.stepped(
                        *input,
                        dt,
                        newborn,
                        picks,
                    )).scene
                    &&& events->0@ == old(self)@.stepped(*input, dt, newborn, picks).report
                },
    {
        if self.can_tick() {
            Some(self.tick(input, dt))
        } else {
            None
        }
    }

    /// Counts the fish and lets the newcomer join them unless the count has
    /// reached the cap.
    fn populate(&mut self, newborn: Fish)
        requires
            old(self)@.wf(),
            newborn.wf(),
        ensures
            final(self)@ == old(self)@.populated(newborn),
            final(self)@.wf(),
            final(self)@.fish.len() <= old(self)@.fish.len() + 1,
    {
        update_fish_count(&self.fish, &mut self.alive_fish);
        if self.alive_fish.count < FISH_POPULATION_CAP {
            self.fish.push(newborn);
        }
    }

    /// Rows the boat, moves a rod that is out, and casts one if none is.
    fn steer(&mut self, input: &Input, dt: u32)
        requires
            old(self)@.wf(),
            old(self)@.player.in_range(),
            old(self)@.boat.in_range(),
            old(self)@.rod matches Some(rod) ==> rod.in_range(),
        ensures
            final(self)@ == old(self)@.steered(*input, dt),
            final(self)@.wf(),
            final(self)@.boat.reaches(final(self)@.player),
    {
        player_movement(dt, input.left, input.right, self.window_half_width, &mut self.player);
        rod_movement(dt, input.jerk, &self.player, self.rod_variant, &mut self.rod);
        cast_rod(input.cast, &self.player, self.rod_size, &mut self.rod);
        assert(self@.fish == old(self)@.fish);
    }

    /// Moves fish and trash.
    fn drift(&mut self, dt: u32)
        requires
            old(self)@.wf(),
            forall|i: int|
                0 <= i < old(self)@.fish.len() ==> (#[trigger] old(self)@.fish[i]).in_range(),
            forall|i: int|
                0 <= i < old(self)@.trash.len() ==> (#[trigger] old(self)@.trash[i]).in_range(),
        ensures
            final(self)@ == old(self)@.drifted(dt),
            final(self)@.wf(),
    {
        fish_movement(dt, &self.rod, &mut self.fish);
        trash_movement(dt, &mut self.trash);
        assert(self@.fish =~= old(self)@.drifted(dt).fish);
        assert(self@.trash =~= old(self)@.drifted(dt).trash);
    }

    /// Turns the fish at the boundaries, each with its own pick.
    fn turn(&mut self, picks: &Vec<Direction>)
        requires
            old(self)@.wf(),
        ensures
            final(self)@ == old(self)@.turned(picks@),
            final(self)@.wf(),
    {
        let mut i: usize = 0;
        while i < self.fish.len()
            invariant
                i <= self.fish@.len(),
                self.fish@.len() == old(self)@.fish.len(),
                forall|j: int|
                    0 <= j < i ==> #[trigger] self.fish@[j] == old(self).fish@[j].bounded(
                        pick_at(picks@, j),
                    ),
                forall|j: int|
                    i <= j < self.fish@.len() ==> #[trigger] self.fish@[j] == old(self).fish@[j],
                self@ == (Scene { fish: self.fish@, ..old(self)@ }),
            decreases self.fish@.len() - i,
        {
            let pick = if i < picks.len() {
                picks[i]
            } else {
                Direction::Left
            };
            self.fish[i].apply_boundary(pick);
            i += 1;
        }
        assert(self@.fish =~= old(self)@.turned(picks@).fish);
    }

    /// Marks old fish as dying and removes dying fish outside the
    /// playfield.
    fn decay(&mut self)
        requires
            old(self)@.wf(),
        ensures
            final(self)@ == old(self)@.decayed(),
            final(self)@.wf(),
            final(self)@.fish.len() <= old(self)@.fish.len(),
    {
        die_the_fish(&mut self.fish);
        let ghost aged = self.fish@;
        assert(aged =~= old(self)@.fish.map_values(|fish: Fish| fish.aged()));
        cull_fish(&mut self.fish);
        proof {
            let sound = |fish: Fish| fish.wf();
            assert forall|i: int| 0 <= i < aged.len() implies #[trigger] sound(aged[i]) by {
                assert(old(self)@.fish[i].wf());
            }
            lemma_filter_keeps(aged, survives(), sound);
            assert forall|i: int| 0 <= i < self@.fish.len() implies (#[trigger] self@.fish[i]).wf(
            ) by {
                assert(sound(aged.filter(survives())[i]));
            }
        }
    }

    /// Lets an idle rod claim the first fish that it can hook, and puts
    /// that fish on the hook.
    fn claim_fish(&mut self) -> (out: Option<ReelingFishEvent>)
        requires
            old(self)@.wf(),
        ensures
            final(self)@ == old(self)@.claimed(),
            out == old(self)@.reeling(),
            final(self)@.wf(),
            final(self)@.fish.len() == old(self)@.fish.len(),
    {
        match check_for_fish_collisions(&self.fish, &mut self.rod) {
            Some(event) => check_for_rod_collisions(&event, &mut self.fish),
            None => None,
        }
    }

    /// Lets a reeling rod that overlaps trash lose its catch.
    fn shake(&mut self) -> (out: Option<TrashCollisionEvent>)
        requires
            old(self)@.wf(),
        ensures
            final(self)@ == old(self)@.shaken(),
            out == if fouled(old(self)@.rod, old(self)@.trash) {
                Some(TrashCollisionEvent)
            } else {
                None
            },
            final(self)@.wf(),
            final(self)@.fish.len() == old(self)@.fish.len(),
    {
        match crate::rod::check_for_trash_collisions(&self.trash, &mut self.rod) {
            Some(event) => {
                check_for_trash_collisions(&event, &mut self.fish);
                assert(self@.fish =~= old(self)@.shaken().fish);
                Some(event)
            },
            None => None,
        }
    }

    /// Takes the rod in when it is back at the boat, and lands the fish on
    /// the hook.
    fn reel(&mut self) -> (out: (Option<BoatCollisionEvent>, Landing))
        requires
            old(self)@.wf(),
            old(self)@.boat.reaches(old(self)@.player),
        ensures
            final(self)@ == old(self)@.reeled(),
            out.0 == if old(self)@.reels_in() {
                Some(BoatCollisionEvent)
            } else {
                None
            },
            out.1.caught@ == if old(self)@.reels_in() {
                landed(
                    old(self)@.fish,
                    old(self)@.storage.current,
                    old(self)@.storage.max,
                ).caught
            } else {
                Seq::empty()
            },
            out.1.dropped@ == if old(self)@.reels_in() {
                landed(
                    old(self)@.fish,
                    old(self)@.storage.current,
                    old(self)@.storage.max,
                ).dropped
            } else {
                Seq::empty()
            },
            final(self)@.wf(),
            final(self)@.fish.len() + final(self)@.stored.len() == old(self)@.fish.len() + old(
                self
            )@.stored.len(),
    {
        match crate::rod::check_for_boat_collisions(&self.player, &self.boat, &mut self.rod) {
            Some(event) => {
                proof {
                    let haul = landed(self@.fish, self@.storage.current, self@.storage.max);
                    lemma_landed(self@.fish, self@.storage.current, self@.storage.max);
                    lemma_landed_keeps_wf(self@.fish, self@.storage.current, self@.storage.max);
                    lemma_catch_weight_adds(self@.stored, haul.stored);
                }
                let landing = check_for_boat_collisions(
                    &event,
                    &mut self.storage,
                    &mut self.fish_stored,
                    &mut self.fish,
                );
                (Some(event), landing)
            },
            None => (None, Landing { caught: Vec::new(), dropped: Vec::new() }),
        }
    }

    /// Empties the hold at the port when the boat lies there.
    fn dock(&mut self) -> (out: (Option<PortCollisionEvent>, Option<Deposit>))
        requires
            old(self)@.wf(),
            old(self)@.has_room(0),
        ensures
            final(self)@ == old(self)@.docked(),
            out.0 == match collision(
                old(self)@.player.position,
                old(self)@.player.size,
                old(self)@.port.position,
                old(self)@.port.size,
            ) {
                Some(side) => Some(PortCollisionEvent { collision_direction: side }),
                None => None,
            },
            out.1 == if old(self)@.deposits() {
                Some(deposit_events(old(self)@.total(), old(self)@.rod_variant))
            } else {
                None
            },
            final(self)@.wf(),
            final(self)@.fish.len() == old(self)@.fish.len(),
    {
        proof {
            self@.lemma_room_to_deposit();
            self@.lemma_docked();
            assert forall|variant: FishVariant| #[trigger]
                self.port_storage.count(variant) + caught(self.fish_stored.fish@, variant)
                    <= u64::MAX by {
                assert(self@.port_fish[variant.ordinal()] + caught(self@.stored, variant)
                    <= u64::MAX);
            }
        }
        match crate::player::check_for_port_collisions(&self.player, &self.port) {
            Some(event) => {
                let deposit = crate::port::check_for_port_collisions(
                    &event,
                    &mut self.port_storage,
                    &mut self.fish_stored,
                    &mut self.storage,
                    &mut self.rod_variant,
                );
                assert(self@.stored =~= old(self)@.docked().stored);
                (Some(event), deposit)
            },
            None => (None, None),
        }
    }

    /// Lets `dt` milliseconds pass for decay timers and grace periods.
    fn run_timers(&mut self, dt: u32)
        requires
            old(self)@.wf(),
        ensures
            final(self)@ == old(self)@.timed(dt),
            final(self)@.wf(),
    {
        tick_decay_timers(&mut self.fish, dt);
        handle_invincibilities(&mut self.fish, dt);
        assert(self@.fish =~= old(self)@.timed(dt).fish);
    }

    /// Advances the game by one tick of `dt` milliseconds, with what chance
    /// has decided handed in: see [`Scene::stepped`].
    ///
    /// The game stays well formed. The port's total, the rank of the
    /// player's rod and the capacity of the hold never go down, and an
    /// upgrade is reported exactly when the rank goes up.
    pub fn step(&mut self, input: &Input, dt: u32, chance: &Chance) -> (events: Events)
        requires
            old(self)@.ready(),
            chance.newborn.is_newborn(),
        ensures
            final(self)@ == old(self)@.stepped(*input, dt, chance.newborn, chance.picks@).scene,
            events@ == old(self)@.stepped(*input, dt, chance.newborn, chance.picks@).report,
            final(self)@.wf(),
            final(self)@.port_weight >= old(self)@.port_weight,
            final(self)@.rod_variant.tier() >= old(self)@.rod_variant.tier(),
            final(self)@.storage.max >= old(self)@.storage.max,
            events.upgrade is Some <==> final(self)@.rod_variant.tier() > old(
                self
            )@.rod_variant.tier(),
    {
        self.populate(chance.newborn);
        self.steer(input, dt);
        self.drift(dt);
        self.turn(&chance.picks);
        self.decay();
        let reeling = self.claim_fish();
        let trash_collision = self.shake();
        let (boat_collision, landing) = self.reel();
        let ghost reeled = self@;
        proof {
            reeled.lemma_room_to_deposit();
            reeled.lemma_docked();
        }
        let (port_collision, deposit) = self.dock();
        self.run_timers(dt);
        let (deposit, upgrade) = match deposit {
            Some(visit) => (Some(visit.deposit), visit.upgrade),
            None => (None, None),
        };
        Events {
            reeling,
            trash_collision,
            boat_collision,
            caught: landing.caught,
            dropped: landing.dropped,
            port_collision,
            deposit,
            upgrade,
        }
    }

    /// Advances the game by one tick of `dt` milliseconds: draws what
    /// chance decides, then steps. Whatever is drawn, the tick is the step
    /// for some newcomer as spawning makes them and some picks of left and
    /// right.
    pub fn tick(&mut self, input: &Input, dt: u32) -> (events: Events)
        requires
            old(self)@.ready(),
        ensures
            exists|newborn: Fish, picks: Seq<Direction>|
                {
                    &&& newborn.is_newborn()
                    &&& forall|i: int|
                        0 <= i < picks.len() ==> (#[trigger] picks[i]).is_horizontal()
                    &&& final(self)@ == (#[trigger] old(self)@.stepped(
                        *input,
                        dt,
                        newborn,
                        picks,
                    )).scene
                    &&& events@ == old(self)@.stepped(*input, dt, newborn, picks).report
                },
            final(self)@.wf(),
            final(self)@.port_weight >= old(self)@.port_weight,
            final(self)@.rod_variant.tier() >= old(self)@.rod_variant.tier(),
            final(self)@.storage.max >= old(self)@.storage.max,
            events.upgrade is Some <==> final(self)@.rod_variant.tier() > old(
                self
            )@.rod_variant.tier(),
    {
        let count = if self.fish.len() < usize::MAX {
            self.fish.len() + 1
        } else {
            self.fish.len()
        };
        let chance = Chance::draw(count);
        self.step(input, dt, &chance)
    }
}

} // verus!
