use gone_fish::components::{
    CanDie, Countdown, DecayTimer, Direction, Extent, Invincibility, Position, Speed, Weight,
};
use gone_fish::events::FishCollisionWithRodEvent;
use gone_fish::fish::{
    check_for_rod_collisions, fish_boundary, fish_movement, handle_invincibilities, orient_fish,
    round_to_hundredths, setup, spawn_fish, update_fish_count, Fish, FishState, FishVariant,
    Orientation, Rotation, FISH_POPULATION_CAP, FISH_SIZE, FISH_SPEED_MAX, FISH_SPEED_MIN,
    INITIAL_FISH, SINK_LINE,
};
use gone_fish::resources::AliveFish;
use gone_fish::rod::{Rod, RodState};
use gone_fish::units::{PLAYFIELD_HALF_WIDTH, UNIT};

fn swimmer(x: i64, y: i64, direction: Direction) -> Fish {
    Fish::new(
        FishVariant::Two,
        direction,
        Position { x, y },
        Speed { current: 200_000 },
        Weight { current: 50 },
        DecayTimer { timer: Countdown { remaining: 60_000 } },
    )
}

fn assert_newborn(fish: &Fish) {
    let weights = fish.variant.get_weight_range();
    assert!(weights.min <= fish.weight.current as i64 && fish.weight.current as i64 <= weights.max);
    let depths = fish.variant.get_spawn_depth_range();
    assert!(depths.min <= -fish.position.y && -fish.position.y <= depths.max);
    assert!(-PLAYFIELD_HALF_WIDTH <= fish.position.x && fish.position.x <= PLAYFIELD_HALF_WIDTH);
    assert!(FISH_SPEED_MIN <= fish.speed.current && fish.speed.current <= FISH_SPEED_MAX);
    assert!(matches!(fish.direction, Direction::Left | Direction::Right));
    assert_eq!(fish.state, FishState::Swimming);
    assert_eq!(fish.can_die, CanDie { dying: false });
    assert_eq!(fish.invincibility, None);
    assert_eq!(fish.size, Extent { width: FISH_SIZE, height: FISH_SIZE });
    assert!(30_000 <= fish.decay_timer.timer.remaining && fish.decay_timer.timer.remaining <= 120_000);
    assert!(fish.is_sound());
}

#[test]
fn catalog_lists_eight_kinds_in_order() {
    let all = FishVariant::iterator();
    assert_eq!(all.len(), 8);
    assert_eq!(all[0], FishVariant::One);
    assert_eq!(all[7], FishVariant::Eight);
    for (place, variant) in all.iter().enumerate() {
        assert_eq!(variant.index(), place);
        assert_eq!(FishVariant::from_index(place), *variant);
    }
    assert_eq!(FishVariant::from_index(8), FishVariant::Eight);
    assert_eq!(FishVariant::from_index(usize::MAX), FishVariant::Eight);
}

#[test]
fn variant_tables_hold_the_tuned_values() {
    let weights: Vec<(i64, i64)> = FishVariant::iterator()
        .iter()
        .map(|variant| {
            let band = variant.get_weight_range();
            (band.min, band.max)
        })
        .collect();
    assert_eq!(
        weights,
        vec![
            (10, 30),
            (30, 100),
            (300, 600),
            (600, 1_500),
            (1_500, 2_500),
            (10_000, 50_000),
            (3_500, 7_000),
            (8_000, 15_000)
        ]
    );
    let depths: Vec<(i64, i64)> = FishVariant::iterator()
        .iter()
        .map(|variant| {
            let band = variant.get_spawn_depth_range();
            (band.min / UNIT, band.max / UNIT)
        })
        .collect();
    assert_eq!(
        depths,
        vec![
            (100, 200),
            (150, 500),
            (400, 800),
            (700, 1_000),
            (950, 1_300),
            (100, 2_000),
            (1_600, 2_000),
            (2_300, 2_800)
        ]
    );
    let rarity: Vec<u32> = FishVariant::iterator().iter().map(|variant| variant.spawn_weight()).collect();
    assert_eq!(rarity, vec![100, 70, 55, 40, 30, 2, 15, 9]);
}

#[test]
fn rounding_goes_to_the_nearest_hundredth() {
    assert_eq!(round_to_hundredths(1_834), 18);
    assert_eq!(round_to_hundredths(1_849), 18);
    assert_eq!(round_to_hundredths(1_850), 19);
    assert_eq!(round_to_hundredths(0), 0);
    assert_eq!(round_to_hundredths(49), 0);
    assert_eq!(round_to_hundredths(50), 1);
    assert_eq!(round_to_hundredths(3_000), 30);
    // the largest draw ends in 15 and rounds down without running over
    assert_eq!(round_to_hundredths(u64::MAX), u64::MAX / 100);
    assert_eq!(round_to_hundredths(u64::MAX - 15 - 50), u64::MAX / 100);
}

#[test]
fn swimming_fish_move_by_speed_times_time() {
    let mut fish = vec![
        swimmer(0, -300 * UNIT, Direction::Left),
        swimmer(0, -300 * UNIT, Direction::Right),
        swimmer(0, -50 * UNIT, Direction::Down),
        swimmer(0, -300 * UNIT, Direction::Up),
    ];
    fish_movement(16, &None, &mut fish);
    assert_eq!(fish[0].position, Position { x: -3_200_000, y: -300 * UNIT });
    assert_eq!(fish[1].position, Position { x: 3_200_000, y: -300 * UNIT });
    assert_eq!(fish[2].position, Position { x: 0, y: -50 * UNIT - 1_600_000 });
    assert_eq!(fish[3].position, Position { x: 0, y: -300 * UNIT });
}

#[test]
fn sinking_by_half_a_stride_rounds_down() {
    let mut fish = vec![swimmer(0, 0, Direction::Down)];
    fish[0].speed = Speed { current: 150_001 };
    fish_movement(1, &None, &mut fish);
    assert_eq!(fish[0].position.y, -75_000);
}

#[test]
fn caught_fish_sit_on_the_hook() {
    let mut caught = swimmer(5 * UNIT, -300 * UNIT, Direction::Left);
    caught.state = FishState::Caught;
    let rod = Rod {
        position: Position { x: 77 * UNIT, y: -123 * UNIT },
        size: Extent { width: 10, height: 10 },
        velocity: 0,
        acceleration: 0,
        state: RodState::Reeling,
    };
    let mut fish = vec![caught];
    fish_movement(16, &Some(rod), &mut fish);
    assert_eq!(fish[0].position, rod.position);
    assert_eq!(fish[0].state, FishState::Caught);

    // with no rod out a caught fish stays where it is
    fish_movement(16, &None, &mut fish);
    assert_eq!(fish[0].position, rod.position);
}

#[test]
fn fish_turn_back_at_the_edges() {
    let mut fish = vec![
        swimmer(PLAYFIELD_HALF_WIDTH + 1, -300 * UNIT, Direction::Right),
        swimmer(-PLAYFIELD_HALF_WIDTH - 1, -300 * UNIT, Direction::Left),
        swimmer(PLAYFIELD_HALF_WIDTH, -300 * UNIT, Direction::Right),
    ];
    fish_boundary(&mut fish);
    assert_eq!(fish[0].direction, Direction::Left);
    assert_eq!(fish[1].direction, Direction::Right);
    assert_eq!(fish[2].direction, Direction::Right);
    assert_eq!(fish[0].position.x, PLAYFIELD_HALF_WIDTH + 1);
}

#[test]
fn dying_fish_do_not_turn_back() {
    let mut dying = swimmer(PLAYFIELD_HALF_WIDTH + 1, -300 * UNIT, Direction::Right);
    dying.can_die = CanDie { dying: true };
    let mut fish = vec![dying, swimmer(PLAYFIELD_HALF_WIDTH + 1, -300 * UNIT, Direction::Right)];
    fish_boundary(&mut fish);
    assert_eq!(fish[0].direction, Direction::Right);
    // the fish after a dying one is still turned
    assert_eq!(fish[1].direction, Direction::Left);
}

#[test]
fn fish_near_the_surface_sink_and_then_level_off() {
    let mut fish = vec![
        swimmer(0, SINK_LINE + 1, Direction::Left),
        swimmer(0, SINK_LINE, Direction::Left),
        swimmer(0, SINK_LINE - 1, Direction::Down),
        swimmer(0, SINK_LINE, Direction::Down),
    ];
    fish_boundary(&mut fish);
    assert_eq!(fish[0].direction, Direction::Down);
    assert_eq!(fish[1].direction, Direction::Left);
    assert!(matches!(fish[2].direction, Direction::Left | Direction::Right));
    assert_eq!(fish[3].direction, Direction::Down);
}

#[test]
fn apply_boundary_takes_the_pick_when_levelling_off() {
    let mut fish = swimmer(0, SINK_LINE - 1, Direction::Down);
    fish.apply_boundary(Direction::Right);
    assert_eq!(fish.direction, Direction::Right);
    let mut other = swimmer(0, SINK_LINE - 1, Direction::Left);
    other.apply_boundary(Direction::Right);
    assert_eq!(other.direction, Direction::Left);
}

#[test]
fn orientation_follows_the_heading() {
    let fish = vec![
        swimmer(0, 0, Direction::Left),
        swimmer(0, 0, Direction::Right),
        swimmer(0, 0, Direction::Up),
        swimmer(0, 0, Direction::Down),
    ];
    assert_eq!(
        orient_fish(&fish),
        vec![
            Orientation { flip_x: true, rotation: Rotation::Identity },
            Orientation { flip_x: false, rotation: Rotation::Identity },
            Orientation { flip_x: false, rotation: Rotation::QuarterUp },
            Orientation { flip_x: false, rotation: Rotation::QuarterDown },
        ]
    );
}

#[test]
fn spawn_adds_one_newborn_below_the_cap() {
    let mut fish = vec![swimmer(0, -300 * UNIT, Direction::Left)];
    let before = fish[0];
    spawn_fish(&AliveFish { count: FISH_POPULATION_CAP - 1 }, &mut fish);
    assert_eq!(fish.len(), 2);
    assert_eq!(fish[0], before);
    assert_newborn(&fish[1]);
}

#[test]
fn spawn_declines_at_the_cap() {
    let mut fish = vec![swimmer(0, -300 * UNIT, Direction::Left)];
    let before = fish.clone();
    spawn_fish(&AliveFish { count: FISH_POPULATION_CAP }, &mut fish);
    assert_eq!(fish, before);
    spawn_fish(&AliveFish { count: u32::MAX }, &mut fish);
    assert_eq!(fish, before);
}

#[test]
fn spawned_kinds_follow_the_weighted_draw() {
    let mut fish = Vec::new();
    for _ in 0..400 {
        spawn_fish(&AliveFish { count: 0 }, &mut fish);
    }
    assert_eq!(fish.len(), 400);
    let mut counts = [0usize; 8];
    for newcomer in &fish {
        assert_newborn(newcomer);
        counts[newcomer.variant.index()] += 1;
    }
    // the commonest kind has 100 of 321 chances, the rarest 2
    assert!(counts[0] > counts[5]);
    assert!(counts.iter().filter(|count| **count > 0).count() >= 3);
}

#[test]
fn setup_puts_twenty_newborn_fish_into_the_water() {
    let mut fish = vec![swimmer(1, 2, Direction::Up)];
    let before = fish[0];
    setup(&mut fish);
    assert_eq!(fish.len(), 1 + INITIAL_FISH);
    assert_eq!(fish[0], before);
    for newcomer in &fish[1..] {
        assert_newborn(newcomer);
    }
}

#[test]
fn fish_are_counted() {
    let fish = vec![swimmer(0, 0, Direction::Left); 5];
    let mut alive = AliveFish::default();
    assert_eq!(alive.count, 0);
    update_fish_count(&fish, &mut alive);
    assert_eq!(alive.count, 5);
}

#[test]
fn rod_claim_is_ignored_by_fish_that_cannot_be_caught() {
    let mut graced = swimmer(0, 0, Direction::Left);
    graced.invincibility = Some(Invincibility { invincibility_timer: Countdown { remaining: 500 } });
    let mut hooked = swimmer(0, 0, Direction::Left);
    hooked.state = FishState::Caught;
    let mut fish = vec![graced, hooked, swimmer(0, 0, Direction::Left)];
    let before = fish.clone();

    assert_eq!(check_for_rod_collisions(&FishCollisionWithRodEvent { fish: 0 }, &mut fish), None);
    assert_eq!(check_for_rod_collisions(&FishCollisionWithRodEvent { fish: 1 }, &mut fish), None);
    assert_eq!(check_for_rod_collisions(&FishCollisionWithRodEvent { fish: 3 }, &mut fish), None);
    assert_eq!(fish, before);

    let out = check_for_rod_collisions(&FishCollisionWithRodEvent { fish: 2 }, &mut fish).unwrap();
    assert_eq!(out.weight, Weight { current: 50 });
    assert_eq!(out.fish_variant, FishVariant::Two);
    assert_eq!(fish[2].state, FishState::Caught);
    assert_eq!(fish[0], before[0]);
    assert_eq!(fish[1], before[1]);
}

#[test]
fn grace_periods_run_out() {
    let mut graced = swimmer(0, 0, Direction::Left);
    graced.invincibility = Some(Invincibility { invincibility_timer: Countdown { remaining: 1_000 } });
    let mut fish = vec![graced, swimmer(0, 0, Direction::Left)];
    handle_invincibilities(&mut fish, 400);
    assert_eq!(
        fish[0].invincibility,
        Some(Invincibility { invincibility_timer: Countdown { remaining: 600 } })
    );
    assert_eq!(fish[1].invincibility, None);
    handle_invincibilities(&mut fish, 600);
    assert_eq!(fish[0].invincibility, None);
}

#[test]
fn soundness_check_sees_weight_speed_and_range() {
    let good = swimmer(0, 0, Direction::Left);
    assert!(good.is_sound());
    let mut light = good;
    light.weight = Weight { current: 29 };
    assert!(!light.is_sound());
    let mut fast = good;
    fast.speed = Speed { current: FISH_SPEED_MAX + 1 };
    assert!(!fast.is_sound());
    let mut far = good;
    far.position.x = i64::MAX;
    assert!(!far.is_sound());
}
