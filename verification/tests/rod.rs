use gone_fish::components::{
    Countdown, DecayTimer, Direction, Extent, Invincibility, Position, Speed, Weight,
};
use gone_fish::events::{BoatCollisionEvent, FishCollisionWithRodEvent, TrashCollisionEvent};
use gone_fish::fish::{Fish, FishState, FishVariant};
use gone_fish::player::{Boat, Player};
use gone_fish::rod::{
    cast_rod, check_for_boat_collisions, check_for_fish_collisions, check_for_trash_collisions,
    rod_movement, Rod, RodProperties, RodState, RodVariant, CAST_DEPTH, IMPULSE_CEILING,
    ROD_MOVEMENT_DOWN,
};
use gone_fish::trash::{Trash, TrashVariant};
use gone_fish::units::UNIT;

const TIERS: [RodVariant; 8] = [
    RodVariant::StickWithString,
    RodVariant::TwigAndTwineTackler,
    RodVariant::ReedReelRig,
    RodVariant::WillowWhiskerWeaver,
    RodVariant::BambooBlisscaster,
    RodVariant::FiberFusion,
    RodVariant::GraphiteGuardian,
    RodVariant::CarbonCaster9000,
];

fn rower(x: i64) -> Player {
    Player { position: Position { x, y: 0 }, size: Extent { width: 3 * UNIT as u64, height: 3 * UNIT as u64 } }
}

fn hook_size() -> Extent {
    Extent { width: 24 * UNIT as u64, height: 24 * UNIT as u64 }
}

fn sinking_rod(x: i64, y: i64) -> Rod {
    Rod { position: Position { x, y }, size: hook_size(), velocity: -ROD_MOVEMENT_DOWN, acceleration: 0, state: RodState::Idle }
}

fn small_fish(x: i64, y: i64) -> Fish {
    Fish::new(
        FishVariant::One,
        Direction::Left,
        Position { x, y },
        Speed { current: 150_000 },
        Weight { current: 20 },
        DecayTimer { timer: Countdown { remaining: 60_000 } },
    )
}

fn litter(x: i64, y: i64) -> Trash {
    Trash::new(TrashVariant::Newspaper, Direction::Left, Position { x, y }, Speed { current: 150_000 })
}

#[test]
fn rod_properties_are_the_table() {
    let table: Vec<(i64, i64)> = TIERS
        .iter()
        .map(|rod| {
            let properties = rod.get_rod_properties();
            (properties.length / UNIT, properties.pull / 1_000)
        })
        .collect();
    assert_eq!(
        table,
        vec![
            (200, 100),
            (335, 105),
            (450, 115),
            (650, 118),
            (1_000, 123),
            (1_300, 127),
            (1_800, 130),
            (2_400, 135)
        ]
    );
    assert_eq!(RodProperties::default(), RodProperties { length: 0, pull: 0 });
}

#[test]
fn ranks_and_variants_correspond() {
    for (rank, rod) in TIERS.iter().enumerate() {
        assert_eq!(rod.rank() as usize, rank);
        assert_eq!(RodVariant::from_rank(rank as u8), *rod);
    }
    assert_eq!(RodVariant::from_rank(200), RodVariant::CarbonCaster9000);
}

#[test]
fn cast_puts_an_idle_rod_below_the_player() {
    let mut rod = None;
    cast_rod(false, &rower(40 * UNIT), hook_size(), &mut rod);
    assert_eq!(rod, None);
    cast_rod(true, &rower(40 * UNIT), hook_size(), &mut rod);
    assert_eq!(
        rod,
        Some(Rod {
            position: Position { x: 40 * UNIT, y: -CAST_DEPTH },
            size: hook_size(),
            velocity: 0,
            acceleration: 0,
            state: RodState::Idle,
        })
    );
    assert_eq!(CAST_DEPTH, 50 * UNIT);
}

#[test]
fn cast_while_a_rod_is_out_does_nothing() {
    let out = sinking_rod(3 * UNIT, -120 * UNIT);
    let mut rod = Some(out);
    cast_rod(true, &rower(40 * UNIT), hook_size(), &mut rod);
    assert_eq!(rod, Some(out));
}

#[test]
fn rod_sinks_at_its_steady_speed_below_the_player() {
    let mut rod = Some(sinking_rod(0, -50 * UNIT));
    rod_movement(16, false, &rower(12 * UNIT), RodVariant::StickWithString, &mut rod);
    let after = rod.unwrap();
    assert_eq!(after.position, Position { x: 12 * UNIT, y: -50 * UNIT - 75_000 * 16 });
    assert_eq!(after.velocity, -75_000);
    assert_eq!(after.acceleration, 0);
}

#[test]
fn freshly_cast_rod_rests_for_one_tick() {
    let mut rod = None;
    cast_rod(true, &rower(0), hook_size(), &mut rod);
    rod_movement(16, false, &rower(0), RodVariant::StickWithString, &mut rod);
    let after = rod.unwrap();
    assert_eq!(after.position.y, -CAST_DEPTH);
    assert_eq!(after.velocity, -ROD_MOVEMENT_DOWN);
}

#[test]
fn jerk_adds_one_and_a_half_times_the_pull() {
    let mut rod = Some(sinking_rod(0, -50 * UNIT));
    rod_movement(16, true, &rower(0), RodVariant::StickWithString, &mut rod);
    let after = rod.unwrap();
    // (-75 + 150) units per second for 16 ms
    assert_eq!(after.position.y, -50 * UNIT + 75_000 * 16);
    assert_eq!(after.acceleration, 150_000 - 3_000);

    let mut strong = Some(sinking_rod(0, -50 * UNIT));
    rod_movement(10, true, &rower(0), RodVariant::TwigAndTwineTackler, &mut strong);
    assert_eq!(strong.unwrap().acceleration, 157_500 - 3_000);
    assert_eq!(strong.unwrap().position.y, -50 * UNIT + (157_500 - 75_000) * 10);
}

#[test]
fn jerks_are_only_admitted_below_the_ceiling() {
    let mut rod = Some(sinking_rod(0, -100 * UNIT));
    rod_movement(1, true, &rower(0), RodVariant::StickWithString, &mut rod);
    assert_eq!(rod.unwrap().acceleration, 147_000);
    rod_movement(1, true, &rower(0), RodVariant::StickWithString, &mut rod);
    assert_eq!(rod.unwrap().acceleration, 294_000);
    rod_movement(1, true, &rower(0), RodVariant::StickWithString, &mut rod);
    assert_eq!(rod.unwrap().acceleration, 291_000);
    assert_eq!(IMPULSE_CEILING, 150_000);
}

#[test]
fn impulse_decays_to_zero_and_not_below() {
    let mut start = sinking_rod(0, -100 * UNIT);
    start.acceleration = 4_000;
    let mut rod = Some(start);
    rod_movement(1, false, &rower(0), RodVariant::StickWithString, &mut rod);
    assert_eq!(rod.unwrap().acceleration, 1_000);
    rod_movement(1, false, &rower(0), RodVariant::StickWithString, &mut rod);
    assert_eq!(rod.unwrap().acceleration, 0);
    rod_movement(1, false, &rower(0), RodVariant::StickWithString, &mut rod);
    assert_eq!(rod.unwrap().acceleration, 0);
}

#[test]
fn rod_is_held_at_the_end_of_its_line() {
    let mut rod = Some(sinking_rod(0, -200 * UNIT + 500_000));
    rod_movement(16, false, &rower(0), RodVariant::StickWithString, &mut rod);
    let after = rod.unwrap();
    assert_eq!(after.position.y, -200 * UNIT);
    assert_eq!(after.velocity, 0);

    // exactly at the end the rod is not past it
    let mut exact = Some(sinking_rod(0, -200 * UNIT + 1_200_000));
    rod_movement(16, false, &rower(0), RodVariant::StickWithString, &mut exact);
    assert_eq!(exact.unwrap().position.y, -200 * UNIT);
    assert_eq!(exact.unwrap().velocity, -ROD_MOVEMENT_DOWN);

    // a longer line lets the same rod go on
    let mut longer = Some(sinking_rod(0, -200 * UNIT + 500_000));
    rod_movement(16, false, &rower(0), RodVariant::TwigAndTwineTackler, &mut longer);
    assert_eq!(longer.unwrap().position.y, -200 * UNIT + 500_000 - 1_200_000);
}

#[test]
fn rod_movement_without_a_rod_does_nothing() {
    let mut rod = None;
    rod_movement(16, true, &rower(0), RodVariant::StickWithString, &mut rod);
    assert_eq!(rod, None);
}

#[test]
fn rod_at_the_boat_is_reeled_in() {
    let boat = Boat { offset: Position { x: 13 * UNIT, y: -10 * UNIT }, size: Extent { width: 80 * UNIT as u64, height: 20 * UNIT as u64 } };
    let player = rower(100 * UNIT);

    let mut away = Some(sinking_rod(100 * UNIT, -120 * UNIT));
    assert_eq!(check_for_boat_collisions(&player, &boat, &mut away), None);
    assert!(away.is_some());

    // the boat is at the player's place plus its offset
    let mut beside = Some(sinking_rod(100 * UNIT - 40 * UNIT, -10 * UNIT));
    assert_eq!(check_for_boat_collisions(&player, &boat, &mut beside), None);
    let mut under = Some(sinking_rod(113 * UNIT + 51 * UNIT, -10 * UNIT));
    assert_eq!(check_for_boat_collisions(&player, &boat, &mut under), Some(BoatCollisionEvent));
    assert_eq!(under, None);

    let mut none = None;
    assert_eq!(check_for_boat_collisions(&player, &boat, &mut none), None);
}

#[test]
fn idle_rod_claims_the_first_fish_it_can_hook() {
    let mut graced = small_fish(0, -100 * UNIT);
    graced.invincibility = Some(Invincibility { invincibility_timer: Countdown { remaining: 1 } });
    let mut hooked = small_fish(0, -100 * UNIT);
    hooked.state = FishState::Caught;
    let fish = vec![
        small_fish(500 * UNIT, -100 * UNIT),
        graced,
        hooked,
        small_fish(UNIT, -101 * UNIT),
        small_fish(0, -100 * UNIT),
    ];
    let mut rod = Some(sinking_rod(0, -100 * UNIT));
    let out = check_for_fish_collisions(&fish, &mut rod);
    assert_eq!(out, Some(FishCollisionWithRodEvent { fish: 3 }));
    assert_eq!(rod.unwrap().state, RodState::Reeling);

    // a reeling rod claims nothing more
    assert_eq!(check_for_fish_collisions(&fish, &mut rod), None);
    assert_eq!(rod.unwrap().state, RodState::Reeling);
}

#[test]
fn rod_that_finds_no_fish_stays_idle() {
    let fish = vec![small_fish(500 * UNIT, -100 * UNIT)];
    let mut rod = Some(sinking_rod(0, -100 * UNIT));
    assert_eq!(check_for_fish_collisions(&fish, &mut rod), None);
    assert_eq!(rod, Some(sinking_rod(0, -100 * UNIT)));
    let mut none = None;
    assert_eq!(check_for_fish_collisions(&fish, &mut none), None);
    assert_eq!(none, None);
}

#[test]
fn only_a_reeling_rod_is_knocked_by_trash() {
    let trash = vec![litter(900 * UNIT, 0), litter(0, -100 * UNIT), litter(UNIT, -100 * UNIT)];
    let mut idle = Some(sinking_rod(0, -100 * UNIT));
    assert_eq!(check_for_trash_collisions(&trash, &mut idle), None);
    assert_eq!(idle.unwrap().state, RodState::Idle);

    let mut reeling = sinking_rod(0, -100 * UNIT);
    reeling.state = RodState::Reeling;
    let mut rod = Some(reeling);
    assert_eq!(check_for_trash_collisions(&trash, &mut rod), Some(TrashCollisionEvent));
    assert_eq!(rod.unwrap().state, RodState::Idle);
    assert_eq!(rod.unwrap().position, reeling.position);

    let mut clear = Some(Rod { position: Position { x: 0, y: -500 * UNIT }, ..reeling });
    assert_eq!(check_for_trash_collisions(&trash, &mut clear), None);
    assert_eq!(clear.unwrap().state, RodState::Reeling);
}
