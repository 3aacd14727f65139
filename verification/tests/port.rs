use gone_fish::collide::Collision;
use gone_fish::components::{FishStorage, Weight};
use gone_fish::events::{DepositFishEvent, PortCollisionEvent, UpgradeEvent};
use gone_fish::fish::FishVariant;
use gone_fish::port::{
    check_for_port_collisions, next_upgrade, select_rod, storage_capacity, upgrade_threshold,
};
use gone_fish::resources::{PlayerFishStored, PortStorage};
use gone_fish::rod::RodVariant;

const TIERS: [RodVariant; 8] = [
    RodVariant::StickWithString,
    RodVariant::TwigAndTwineTackler,
    RodVariant::ReedReelRig,
    RodVariant::WillowWhiskerWeaver,
    RodVariant::BambooBlisscaster,
    RodVariant::FiberFusion,
    RodVariant::GraphiteGuardian,
    RodVariant::CarbonCaster9000,
];

fn arrive() -> PortCollisionEvent {
    PortCollisionEvent { collision_direction: Collision::Left }
}

#[test]
fn thresholds_and_capacities_are_the_table() {
    let thresholds: Vec<u64> = TIERS.iter().map(|rod| upgrade_threshold(*rod)).collect();
    assert_eq!(thresholds, vec![0, 400, 800, 1_500, 5_000, 15_000, 20_000, 120_000]);
    let capacities: Vec<u64> = TIERS.iter().map(|rod| storage_capacity(*rod)).collect();
    assert_eq!(capacities, vec![300, 600, 1_000, 3_000, 7_000, 10_000, 20_000, 100_000]);
}

#[test]
fn a_threshold_must_be_exceeded() {
    assert_eq!(select_rod(0), RodVariant::StickWithString);
    assert_eq!(select_rod(400), RodVariant::StickWithString);
    assert_eq!(select_rod(401), RodVariant::TwigAndTwineTackler);
    assert_eq!(select_rod(800), RodVariant::TwigAndTwineTackler);
    assert_eq!(select_rod(801), RodVariant::ReedReelRig);
    assert_eq!(select_rod(20_000), RodVariant::FiberFusion);
    assert_eq!(select_rod(20_001), RodVariant::GraphiteGuardian);
    assert_eq!(select_rod(120_000), RodVariant::GraphiteGuardian);
    assert_eq!(select_rod(120_001), RodVariant::CarbonCaster9000);
    assert_eq!(select_rod(u64::MAX), RodVariant::CarbonCaster9000);
}

#[test]
fn selection_never_goes_down_as_the_total_grows() {
    let mut last = 0;
    for total in (0..130_000u64).step_by(37) {
        let rank = select_rod(total).rank();
        assert!(rank >= last);
        last = rank;
    }
    assert_eq!(last, 7);
}

#[test]
fn next_upgrade_is_the_lowest_threshold_not_exceeded() {
    assert_eq!(next_upgrade(0), Some(400));
    assert_eq!(next_upgrade(400), Some(400));
    assert_eq!(next_upgrade(440), Some(800));
    assert_eq!(next_upgrade(20_500), Some(120_000));
    assert_eq!(next_upgrade(120_001), None);
}

#[test]
fn deposit_with_an_empty_hold_is_a_no_op() {
    let mut port = PortStorage::default();
    port.weight = 10_000;
    port.fish[2] = 7;
    let before = port;
    let mut stored = PlayerFishStored::default();
    let mut storage = FishStorage { current: 0, max: 7_000 };
    let mut rod = RodVariant::BambooBlisscaster;

    let out = check_for_port_collisions(&arrive(), &mut port, &mut stored, &mut storage, &mut rod);

    assert_eq!(out, None);
    assert_eq!(port, before);
    assert!(stored.fish.is_empty());
    assert_eq!(storage, FishStorage { current: 0, max: 7_000 });
    assert_eq!(rod, RodVariant::BambooBlisscaster);
}

#[test]
fn deposit_below_every_threshold_changes_no_equipment() {
    let mut port = PortStorage::default();
    let mut stored = PlayerFishStored {
        fish: vec![(FishVariant::Two, Weight { current: 90 }), (FishVariant::One, Weight { current: 10 })],
    };
    let mut storage = FishStorage { current: 100, max: 300 };
    let mut rod = RodVariant::StickWithString;

    let out = check_for_port_collisions(&arrive(), &mut port, &mut stored, &mut storage, &mut rod)
        .expect("a deposit");

    assert_eq!(
        out.deposit,
        DepositFishEvent { port_weight: 100, new_max: None, next_upgrade: Some(400) }
    );
    assert_eq!(out.upgrade, None);
    assert_eq!(rod, RodVariant::StickWithString);
    assert_eq!(storage, FishStorage { current: 0, max: 300 });
    assert_eq!(port.fish, [1, 1, 0, 0, 0, 0, 0, 0]);
}

#[test]
fn small_deposits_after_an_upgrade_do_not_downgrade_or_upgrade_again() {
    let mut port = PortStorage::default();
    let mut storage = FishStorage { current: 0, max: 300 };
    let mut rod = RodVariant::StickWithString;
    let mut upgrades = 0;
    let mut rank = 0;
    // 30 deposits of 0.3 kg: the total passes 4 kg and 8 kg once each
    for _ in 0..30 {
        let mut stored = PlayerFishStored { fish: vec![(FishVariant::One, Weight { current: 30 })] };
        storage.current = 30;
        let out = check_for_port_collisions(&arrive(), &mut port, &mut stored, &mut storage, &mut rod)
            .expect("a deposit");
        if out.upgrade == Some(UpgradeEvent) {
            upgrades += 1;
        }
        assert!(rod.rank() >= rank);
        assert_eq!(out.upgrade.is_some(), rod.rank() > rank);
        rank = rod.rank();
        assert_eq!(storage.current, 0);
        assert_eq!(storage.max, storage_capacity(rod));
    }
    assert_eq!(port.weight, 900);
    assert_eq!(port.count_of(FishVariant::One), 30);
    assert_eq!(rod, RodVariant::ReedReelRig);
    assert_eq!(upgrades, 2);
}

#[test]
fn one_large_deposit_skips_tiers() {
    let mut port = PortStorage::default();
    let mut stored = PlayerFishStored { fish: vec![(FishVariant::Six, Weight { current: 30_000 })] };
    let mut storage = FishStorage { current: 30_000, max: 100_000 };
    let mut rod = RodVariant::StickWithString;
    let out = check_for_port_collisions(&arrive(), &mut port, &mut stored, &mut storage, &mut rod)
        .expect("a deposit");
    assert_eq!(rod, RodVariant::GraphiteGuardian);
    assert_eq!(
        out.deposit,
        DepositFishEvent { port_weight: 30_000, new_max: Some(20_000), next_upgrade: Some(120_000) }
    );
    assert_eq!(out.upgrade, Some(UpgradeEvent));
    assert_eq!(port.count_of(FishVariant::Six), 1);
}

#[test]
fn top_tier_has_no_next_upgrade() {
    let mut port = PortStorage::default();
    port.weight = 119_990;
    let mut stored = PlayerFishStored { fish: vec![(FishVariant::Eight, Weight { current: 10_000 })] };
    let mut storage = FishStorage { current: 10_000, max: 20_000 };
    let mut rod = RodVariant::GraphiteGuardian;
    let out = check_for_port_collisions(&arrive(), &mut port, &mut stored, &mut storage, &mut rod)
        .expect("a deposit");
    assert_eq!(rod, RodVariant::CarbonCaster9000);
    assert_eq!(
        out.deposit,
        DepositFishEvent { port_weight: 129_990, new_max: Some(100_000), next_upgrade: None }
    );
    assert_eq!(storage, FishStorage { current: 0, max: 100_000 });
}

#[test]
fn port_storage_default_is_empty() {
    let port = PortStorage::default();
    assert_eq!(port.weight, 0);
    for variant in FishVariant::iterator() {
        assert_eq!(port.count_of(variant), 0);
    }
}

#[test]
fn carried_catch_weighs_its_sum() {
    let stored = PlayerFishStored {
        fish: vec![(FishVariant::One, Weight { current: 20 }), (FishVariant::Three, Weight { current: 450 })],
    };
    assert!(stored.weighs(470));
    assert!(!stored.weighs(469));
    assert!(!stored.weighs(471));
    assert!(PlayerFishStored::default().weighs(0));
    let heavy = PlayerFishStored {
        fish: vec![(FishVariant::One, Weight { current: u64::MAX }), (FishVariant::One, Weight { current: 1 })],
    };
    assert!(!heavy.weighs(0));
    assert!(!heavy.weighs(u64::MAX));
}
