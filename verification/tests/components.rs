use gone_fish::components::{
    AnimationIndices, Band, BandError, Countdown, DecayTimer, Direction, FishStorage, Weight,
    DECAY_TIME_MAX, DECAY_TIME_MIN,
};
use gone_fish::directions::Directions;

#[test]
fn band_accepts_ordered_ends() {
    assert_eq!(Band::new(10, 30), Ok(Band { min: 10, max: 30 }));
    assert_eq!(Band::new(-5, -5), Ok(Band { min: -5, max: -5 }));
}

#[test]
fn band_rejects_inverted_ends() {
    assert_eq!(Band::new(31, 30), Err(BandError::Inverted));
    assert_eq!(Band::new(0, -1), Err(BandError::Inverted));
}

#[test]
fn band_of_one_value_samples_that_value() {
    let band = Band::new(42, 42).unwrap();
    for _ in 0..50 {
        assert_eq!(band.sample(), 42);
    }
}

#[test]
fn band_samples_stay_inside_and_vary() {
    let band = Band::new(-1_000_000, 1_000_000).unwrap();
    let mut seen_other_than_min = false;
    let mut seen_other_than_max = false;
    let mut first = None;
    let mut varied = false;
    for _ in 0..200 {
        let drawn = band.sample();
        assert!(band.min <= drawn && drawn <= band.max);
        seen_other_than_min |= drawn != band.min;
        seen_other_than_max |= drawn != band.max;
        match first {
            None => first = Some(drawn),
            Some(value) => varied |= value != drawn,
        }
    }
    assert!(seen_other_than_min && seen_other_than_max && varied);
}

#[test]
fn direction_opposite_turns_around() {
    assert_eq!(Direction::Left.opposite(), Direction::Right);
    assert_eq!(Direction::Right.opposite(), Direction::Left);
    assert_eq!(Direction::Up.opposite(), Direction::Down);
    assert_eq!(Direction::Down.opposite(), Direction::Up);
}

#[test]
fn direction_picks_follow_the_coin() {
    assert_eq!(Direction::pick_horizontal(true), Direction::Left);
    assert_eq!(Direction::pick_horizontal(false), Direction::Right);
    assert_eq!(Direction::pick_vertical(true), Direction::Up);
    assert_eq!(Direction::pick_vertical(false), Direction::Down);
}

#[test]
fn random_directions_keep_to_their_axis() {
    for _ in 0..100 {
        assert!(matches!(Direction::random_y(), Direction::Left | Direction::Right));
        assert!(matches!(Direction::random_x(), Direction::Up | Direction::Down));
    }
}

#[test]
fn directions_going_left() {
    assert!(Directions::LEFT.going_left());
    assert!(!Directions::RIGHT.going_left());
    assert_eq!(Directions::chosen(true), Directions::LEFT);
    assert_eq!(Directions::chosen(false), Directions::RIGHT);
    let drawn = Directions::random();
    assert_eq!(drawn.going_left(), drawn == Directions::LEFT);
}

#[test]
fn update_storage_sets_current_and_optionally_max() {
    let mut storage = FishStorage { current: 120, max: 300 };
    FishStorage::update_storage(0, None, &mut storage);
    assert_eq!(storage, FishStorage { current: 0, max: 300 });
    FishStorage::update_storage(50, Some(600), &mut storage);
    assert_eq!(storage, FishStorage { current: 50, max: 600 });
}

#[test]
fn storage_room_is_exact_at_the_brim() {
    let storage = FishStorage { current: 250, max: 300 };
    assert!(storage.has_room_for(Weight { current: 50 }));
    assert!(!storage.has_room_for(Weight { current: 51 }));
    let huge = FishStorage { current: 1, max: u64::MAX };
    assert!(huge.has_room_for(Weight { current: u64::MAX - 1 }));
    assert!(!huge.has_room_for(Weight { current: u64::MAX }));
}

#[test]
fn countdown_stops_at_zero() {
    let mut timer = Countdown::from_millis(1_000);
    assert!(!timer.finished());
    timer.tick(400);
    assert_eq!(timer, Countdown { remaining: 600 });
    timer.tick(600);
    assert!(timer.finished());
    timer.tick(5);
    assert_eq!(timer, Countdown { remaining: 0 });
    let mut other = Countdown::from_millis(10);
    other.tick(u32::MAX);
    assert_eq!(other.remaining, 0);
}

#[test]
fn decay_timer_default_is_between_thirty_and_hundred_twenty_seconds() {
    assert_eq!((DECAY_TIME_MIN, DECAY_TIME_MAX), (30_000, 120_000));
    for _ in 0..100 {
        let timer = DecayTimer::default();
        assert!(DECAY_TIME_MIN <= timer.timer.remaining && timer.timer.remaining <= DECAY_TIME_MAX);
    }
    assert_eq!(DecayTimer::lasting(77).timer.remaining, 77);
}

#[test]
fn animation_frames_wrap_around() {
    let indices = AnimationIndices { first: 0, last: 3 };
    assert_eq!(indices.next_index(0), 1);
    assert_eq!(indices.next_index(2), 3);
    assert_eq!(indices.next_index(3), 0);
}
