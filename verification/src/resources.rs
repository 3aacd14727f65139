//! The game-wide records: what the boat carries, how many fish are alive,
//! and what the port has been brought.

use crate::components::Weight;
use crate::fish::FishVariant;
use vstd::prelude::*;

verus! {

/// One entry of the carried catch: the kind of a fish and its weight.
pub type Catch = (FishVariant, Weight);

/// The predicate "is of kind `variant`" on entries of a catch.
pub open spec fn of_variant(variant: FishVariant) -> spec_fn(Catch) -> bool {
    |entry: Catch| entry.0 == variant
}

/// How many entries of `catch` are of kind `variant`.
pub open spec fn caught(catch: Seq<Catch>, variant: FishVariant) -> nat {
    catch.filter(of_variant(variant)).len()
}

/// The weight of all entries of `catch` together.
pub open spec fn catch_weight(catch: Seq<Catch>) -> int
    decreases catch.len(),
{
    if catch.len() == 0 {
        0
    } else {
        catch_weight(catch.drop_last()) + catch.last().1.current
    }
}

/// The weight of the first entries of a catch is at most that of all.
pub proof fn lemma_catch_weight_grows(catch: Seq<Catch>, seen: int)
    requires
        0 <= seen <= catch.len(),
    ensures
        0 <= catch_weight(catch.take(seen)) <= catch_weight(catch),
    decreases catch.len() - seen,
{
    if seen < catch.len() {
        lemma_catch_weight_grows(catch, seen + 1);
        assert(catch.take(seen + 1).drop_last() == catch.take(seen));
        lemma_catch_weight_positive(catch.take(seen));
    } else {
        assert(catch.take(seen) == catch);
        lemma_catch_weight_positive(catch);
    }
}

/// No catch weighs less than nothing.
pub proof fn lemma_catch_weight_positive(catch: Seq<Catch>)
    ensures
        0 <= catch_weight(catch),
    decreases catch.len(),
{
    if catch.len() > 0 {
        lemma_catch_weight_positive(catch.drop_last());
    }
}

/// The fish in the boat's hold that await the next visit to the port.
#[derive(Clone, Debug, PartialEq, Eq)]
pub struct PlayerFishStored {
    pub fish: Vec<Catch>,
}

impl PlayerFishStored {
    /// Whether the catch weighs exactly `weight`.
    pub fn weighs(&self, weight: u64) -> (matches: bool)
        ensures
            matches == (catch_weight(self.fish@) == weight),
    {
        let mut sum: u64 = 0;
        let mut i: usize = 0;
        assert(self.fish@.take(0) == Seq::<Catch>::empty());
        while i < self.fish.len()
            invariant
                i <= self.fish@.len(),
                sum == catch_weight(self.fish@.take(i as int)),
                sum <= weight,
            decreases self.fish@.len() - i,
        {
            let next = self.fish[i].1.current;
            proof {
                assert(self.fish@.take(i + 1).drop_last() == self.fish@.take(i as int));
                lemma_catch_weight_grows(self.fish@, i + 1);
            }
            if next > weight - sum {
                return false;
            }
            sum = sum + next;
            i += 1;
        }
        assert(self.fish@.take(self.fish@.len() as int) == self.fish@);
        sum == weight
    }
}

impl Default for PlayerFishStored {
    /// An empty hold.
    fn default() -> (stored: PlayerFishStored)
        ensures
            stored.fish@ == Seq::<Catch>::empty(),
    {
        PlayerFishStored { fish: Vec::new() }
    }
}

/// The number of fish in the water, as last counted.
#[derive(Clone, Copy, Debug, PartialEq, Eq)]
pub struct AliveFish {
    pub count: u32,
}

impl Default for AliveFish {
    /// No fish counted yet.
    fn default() -> (alive: AliveFish)
        ensures
            alive.count == 0,
    {
        AliveFish { count: 0 }
    }
}

/// The port's permanent record: the weight ever deposited, and how many
/// fish of each kind, indexed by the kind's place in the catalog.
#[derive(Clone, Copy, Debug, PartialEq, Eq)]
pub struct PortStorage {
    pub weight: u64,
    pub fish: [u64; 8],
}

impl PortStorage {
    /// How many fish of kind `variant` the port has been brought.
    pub open spec fn count(self, variant: FishVariant) -> u64 {
        self.fish@[variant.ordinal()]
    }

    /// Whether the record can take `carried` more weight and the fish of
    /// `catch` without a counter running over.
    pub open spec fn has_room_for(self, catch: Seq<Catch>, carried: u64) -> bool {
        &&& self.weight + carried <= u64::MAX
        &&& forall|variant: FishVariant| #[trigger]
            self.count(variant) + caught(catch, variant) <= u64::MAX
    }

    /// How many fish of kind `variant` the port has been brought.
    pub fn count_of(&self, variant: FishVariant) -> (count: u64)
        ensures
            count == self.count(variant),
    {
        self.fish[variant.index()]
    }
}

impl Default for PortStorage {
    /// A port that has been brought nothing.
    fn default() -> (port: PortStorage)
        ensures
            port.weight == 0,
            forall|place: int| 0 <= place < 8 ==> #[trigger] port.fish@[place] == 0,
            forall|variant: FishVariant| #[trigger] port.count(variant) == 0,
    {
        PortStorage { weight: 0, fish: [0u64; 8] }
    }
}

} // verus!
