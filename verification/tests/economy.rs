use rts_game::bank::{adjust_funds, update_bank_funds, AdjustFundsEv, Bank};
use rts_game::build_queue::{
    build_vehicle_timer, obs_queue_vehicle, update_build_progress_bar, update_build_queue_count,
    BuildQueueCount, BuildVehicleEv, OnceTimer, ProgressBar, VehicleBuildQueue,
};
use rts_game::units::{QueueVehicleEv, UnitType};

#[test]
fn bank_starts_with_ten_thousand() {
    let bank = Bank::default();
    assert_eq!(bank.funds, 10000);
    assert_eq!(bank.displayed_funds, 0);
}

#[test]
fn adjusting_funds_adds_the_amount() {
    let mut bank = Bank::default();
    adjust_funds(&AdjustFundsEv(-2000), &mut bank);
    assert_eq!(bank.funds, 8000);
    adjust_funds(&AdjustFundsEv(500), &mut bank);
    assert_eq!(bank.funds, 8500);
    assert_eq!(bank.displayed_funds, 0);
}

#[test]
fn displayed_funds_roll_at_1250_per_second() {
    let mut bank = Bank::default();
    // 16 ms at 1250 units per second is 20 units
    assert!(update_bank_funds(16_000_000, &mut bank));
    assert_eq!(bank.displayed_funds, 20);
    // a fractional step is truncated: 1 ms gives 1.25, so 1
    assert!(update_bank_funds(1_000_000, &mut bank));
    assert_eq!(bank.displayed_funds, 21);
    // a frame long enough lands exactly on the funds
    assert!(update_bank_funds(60_000_000_000, &mut bank));
    assert_eq!(bank.displayed_funds, 10000);
    // nothing left to roll
    assert!(!update_bank_funds(16_000_000, &mut bank));
    assert_eq!(bank.displayed_funds, 10000);
}

#[test]
fn displayed_funds_roll_down_after_spending() {
    let mut bank = Bank { funds: 8000, displayed_funds: 10000 };
    assert!(update_bank_funds(800_000_000, &mut bank));
    assert_eq!(bank.displayed_funds, 9000);
    assert!(update_bank_funds(800_000_000, &mut bank));
    // the gap of 1000 equals the step, which does not cover it strictly
    assert_eq!(bank.displayed_funds, 8000);
    // a gap smaller than the step lands on the funds
    let mut bank = Bank { funds: 100, displayed_funds: 105 };
    update_bank_funds(16_000_000, &mut bank);
    assert_eq!(bank.displayed_funds, 100);
}

#[test]
fn once_timer_fires_once() {
    let mut t = OnceTimer::new(1000);
    t.tick(400);
    assert_eq!(t.elapsed, 400);
    assert!(!t.finished && !t.just_finished);
    t.tick(700);
    assert_eq!(t.elapsed, 1000);
    assert!(t.finished && t.just_finished);
    t.tick(5);
    assert!(t.finished && !t.just_finished);
    assert_eq!(t.elapsed, 1000);
    let mut big = OnceTimer::new(u64::MAX);
    big.tick(u64::MAX - 1);
    big.tick(10);
    assert!(big.just_finished);
}

#[test]
fn vehicles_are_built_in_queue_order() {
    let mut q = VehicleBuildQueue::new();
    obs_queue_vehicle(&QueueVehicleEv(UnitType::TankGen2), &mut q);
    obs_queue_vehicle(&QueueVehicleEv(UnitType::TankGen1), &mut q);
    assert_eq!(q.queue.len(), 2);
    assert_eq!(q.queue[0].1.duration, 2_000_000_000);
    assert_eq!(build_vehicle_timer(1_500_000_000, &mut q), None);
    assert_eq!(q.queue[0].1.elapsed, 1_500_000_000);
    assert_eq!(q.queue[1].1.elapsed, 0);
    assert_eq!(
        update_build_progress_bar(&q, UnitType::TankGen2),
        Some(ProgressBar::Shown { elapsed: 1_500_000_000, duration: 2_000_000_000 })
    );
    assert_eq!(update_build_progress_bar(&q, UnitType::TankGen1), Some(ProgressBar::Hidden));
    assert_eq!(
        build_vehicle_timer(600_000_000, &mut q),
        Some(BuildVehicleEv(UnitType::TankGen2))
    );
    assert_eq!(q.queue.len(), 1);
    assert_eq!(q.queue[0].0, UnitType::TankGen1);
    assert_eq!(
        build_vehicle_timer(2_000_000_000, &mut q),
        Some(BuildVehicleEv(UnitType::TankGen1))
    );
    assert_eq!(build_vehicle_timer(2_000_000_000, &mut q), None);
    assert_eq!(update_build_progress_bar(&q, UnitType::TankGen1), None);
}

#[test]
fn progress_bar_hides_when_nearly_done() {
    let mut q = VehicleBuildQueue::new();
    obs_queue_vehicle(&QueueVehicleEv(UnitType::TankGen1), &mut q);
    build_vehicle_timer(1_991_000_000, &mut q);
    assert_eq!(update_build_progress_bar(&q, UnitType::TankGen1), Some(ProgressBar::Hidden));
}

#[test]
fn build_queue_counts() {
    let mut c = BuildQueueCount::new();
    assert_eq!(c.get(&UnitType::TankGen1), 0);
    assert_eq!(update_build_queue_count(&c, &UnitType::TankGen1), None);
    c.add(&UnitType::TankGen1);
    c.add(&UnitType::TankGen1);
    c.add(&UnitType::Rifleman);
    assert_eq!(c.get(&UnitType::TankGen1), 2);
    assert_eq!(c.get(&UnitType::Rifleman), 1);
    assert_eq!(c.get(&UnitType::TankGen2), 0);
    assert_eq!(update_build_queue_count(&c, &UnitType::TankGen1), Some(2));
    c.remove(&UnitType::TankGen1);
    assert_eq!(c.get(&UnitType::TankGen1), 1);
    c.remove(&UnitType::Rifleman);
    assert_eq!(c.get(&UnitType::Rifleman), 0);
    assert_eq!(update_build_queue_count(&c, &UnitType::Rifleman), None);
}
