use chrono::Utc;
use termagotchi::color_wrapper::ColorWrapper;
use termagotchi::creatures::{CreatureShapes, GrowthStageShapes, ShapeWrapper};
use termagotchi::food::Food;
use termagotchi::friend::{Friend, FriendRecord, RecordError, MINUTE_MILLIS};
use termagotchi::game_state::{GameState, GameStateRecord};
use termagotchi::growth::GrowthStage;

const HOUR: i64 = 60 * MINUTE_MILLIS;

fn duck() -> CreatureShapes {
    CreatureShapes::Duck(ColorWrapper::Green)
}

/// A pet at the given stage with every statistic at `stat`, created long
/// enough before `now` to be adult, with every cursor at `now`.
fn grown_friend(stage: GrowthStage, stat: u32, now: i64) -> Friend {
    let mut record = Friend::new("test-friend", duck(), now - 48 * HOUR).to_record();
    record.growth_stage = stage;
    record.food = stat;
    record.joy = stat;
    record.energy = stat;
    record.health = stat;
    record.last_food_tick = now;
    record.last_joy_tick = now;
    record.last_energy_tick = now;
    record.last_health_tick = now;
    Friend::from_record(record).unwrap()
}

fn stats(friend: &Friend) -> (u32, u32, u32, u32) {
    (
        friend.food().value(),
        friend.joy().value(),
        friend.energy().value(),
        friend.health().value(),
    )
}

#[test]
fn friend_auto_wakeup_test() {
    let max_sleep_time = MINUTE_MILLIS * 60 * 12;
    let now = Utc::now().timestamp_millis();
    let friend = Friend::new("test-friend", CreatureShapes::Duck(ColorWrapper::Green), now);

    let mut record = friend.to_record();
    record.growth_stage = GrowthStage::Adult;
    record.food = 100;
    record.joy = 100;
    record.energy = 100;
    record.health = 100;
    let mut friend = Friend::from_record(record).unwrap();
    friend.toggle_sleep(now);

    friend.update_state(now + max_sleep_time + 100);

    assert!(!friend.is_asleep());
    assert_eq!(None, friend.asleep_since());
}

#[test]
fn lower_energy_after_auto_wakeup() {
    let max_sleep_time = MINUTE_MILLIS * 60 * 12;
    let now = Utc::now().timestamp_millis();
    let friend = Friend::new("test-friend", CreatureShapes::Duck(ColorWrapper::Green), now);

    let mut record = friend.to_record();
    record.food = 100;
    record.joy = 100;
    record.energy = 100;
    record.health = 100;
    let mut friend = Friend::from_record(record).unwrap();
    friend.toggle_sleep(now);

    friend.update_state(now + 10 * max_sleep_time); // Make sure the energy is at zero.

    assert!(!friend.is_asleep());
    assert_eq!(None, friend.asleep_since());
    assert_eq!(0, friend.energy().value());
}

#[test]
fn new_friend_starts_as_a_healthy_egg() {
    let friend = Friend::new("pip", duck(), 1_000);
    assert_eq!(friend.name(), "pip");
    assert_eq!(stats(&friend), (50, 50, 50, 50));
    assert_eq!(friend.growth_stage(), GrowthStage::Egg);
    assert!(!friend.is_asleep());
    assert_eq!(friend.asleep_since(), None);
    assert!(*friend.alive());
    assert_eq!(friend.time_created(), 1_000);
    assert_eq!(friend.health_debit_ms(), 0);
    assert_eq!(friend.shape(), duck());
    let record = friend.to_record();
    assert_eq!(record.last_food_tick, 1_000);
    assert_eq!(record.last_joy_tick, 1_000);
    assert_eq!(record.last_energy_tick, 1_000);
    assert_eq!(record.last_health_tick, 1_000);
}

#[test]
fn egg_immunity() {
    let t0 = 1_700_000_000_000;
    let mut friend = Friend::new("egg", duck(), t0);
    friend.update_state(t0 + 4 * MINUTE_MILLIS);
    friend.toggle_sleep(t0 + 4 * MINUTE_MILLIS);
    friend.eat(Food::Burger);
    friend.play();
    friend.take_medicine();
    assert_eq!(stats(&friend), (50, 50, 50, 50));
    assert_eq!(friend.growth_stage(), GrowthStage::Egg);
    assert!(!friend.is_asleep());
    assert_eq!(friend.health_debit_ms(), 0);
    let record = friend.to_record();
    assert_eq!(record.last_food_tick, t0);
    assert_eq!(record.last_health_tick, t0);
}

#[test]
fn egg_hatches_at_exactly_five_minutes() {
    let t0 = 500;
    let mut friend = Friend::new("egg", duck(), t0);
    friend.update_state(t0 + 299_999);
    assert_eq!(friend.growth_stage(), GrowthStage::Egg);
    friend.update_state(t0 + 300_000);
    assert_eq!(friend.growth_stage(), GrowthStage::Baby);
    // Hatching lets the health cursor catch up in the same update.
    assert_eq!(friend.to_record().last_health_tick, t0 + 300_000);
    assert_eq!(stats(&friend), (50, 50, 50, 50));
}

#[test]
fn growth_cascade_takes_one_stage_per_update() {
    let t0 = 0;
    let now = t0 + 24 * HOUR + 1_000;
    let mut friend = Friend::new("fast", duck(), t0);
    friend.update_state(now);
    assert_eq!(friend.growth_stage(), GrowthStage::Baby);
    friend.update_state(now);
    assert_eq!(friend.growth_stage(), GrowthStage::Kid);
    friend.update_state(now);
    assert_eq!(friend.growth_stage(), GrowthStage::Adult);
    friend.update_state(now);
    assert_eq!(friend.growth_stage(), GrowthStage::Adult);
}

#[test]
fn growth_thresholds_are_met_at_the_bound() {
    let mut baby = grown_friend(GrowthStage::Baby, 100, 0);
    let created = baby.time_created();
    baby.update_state(created + 18_000_000 - 1);
    assert_eq!(baby.growth_stage(), GrowthStage::Baby);
    baby.update_state(created + 18_000_000);
    assert_eq!(baby.growth_stage(), GrowthStage::Kid);
    baby.update_state(created + 86_400_000 - 1);
    assert_eq!(baby.growth_stage(), GrowthStage::Kid);
    baby.update_state(created + 86_400_000);
    assert_eq!(baby.growth_stage(), GrowthStage::Adult);
}

#[test]
fn growth_never_goes_back() {
    let t0 = 0;
    let mut friend = Friend::new("back", duck(), t0);
    let times = [10 * HOUR, 1, 48 * HOUR, 0, 6 * HOUR, -5, 100 * HOUR];
    let mut rank = 0;
    for now in times {
        friend.update_state(now);
        let stage = match friend.growth_stage() {
            GrowthStage::Egg => 0,
            GrowthStage::Baby => 1,
            GrowthStage::Kid => 2,
            GrowthStage::Adult => 3,
        };
        assert!(stage >= rank);
        assert!(stage <= rank + 1);
        rank = stage;
    }
}

#[test]
fn auto_wake() {
    let t1 = 1_700_000_000_000;
    let mut friend = grown_friend(GrowthStage::Adult, 100, t1);
    friend.toggle_sleep(t1);
    assert!(friend.is_asleep());
    assert_eq!(friend.asleep_since(), Some(t1));
    friend.update_state(t1 + 12 * HOUR + 100);
    assert!(!friend.is_asleep());
    assert_eq!(friend.asleep_since(), None);
    // 60 energy quanta: the first is slept through, the other 59 cost a
    // point each.
    assert_eq!(friend.energy().value(), 41);
}

#[test]
fn sleeper_is_not_woken_at_exactly_twelve_hours() {
    let t1 = 0;
    let mut friend = grown_friend(GrowthStage::Adult, 50, t1);
    friend.toggle_sleep(t1);
    friend.update_state(t1 + 12 * HOUR);
    assert!(friend.is_asleep());
    assert_eq!(friend.energy().value(), 100);
}

#[test]
fn sleep_without_an_energy_quantum_does_not_wake() {
    let t1 = 0;
    let mut record = grown_friend(GrowthStage::Adult, 50, t1).to_record();
    record.asleep = true;
    record.asleep_since = Some(t1 - 13 * HOUR);
    let mut friend = Friend::from_record(record).unwrap();
    friend.update_state(t1 + 11 * MINUTE_MILLIS);
    assert!(friend.is_asleep());
    friend.update_state(t1 + 12 * MINUTE_MILLIS);
    assert!(!friend.is_asleep());
    assert_eq!(friend.energy().value(), 53);
}

#[test]
fn sleep_then_starve() {
    let t1 = 1_700_000_000_000;
    let mut friend = grown_friend(GrowthStage::Adult, 100, t1);
    friend.toggle_sleep(t1);
    friend.update_state(t1 + 10 * 12 * HOUR);
    assert!(!friend.is_asleep());
    assert_eq!(friend.energy().value(), 0);
    assert_eq!(friend.food().value(), 0);
    assert_eq!(friend.joy().value(), 0);
    assert_eq!(friend.health().value(), 100);
    assert!(!*friend.alive());
}

#[test]
fn feed_health_debt_accounting() {
    let t = 1_700_000_000_000;
    let mut record = grown_friend(GrowthStage::Adult, 50, t).to_record();
    record.health = 100;
    let mut friend = Friend::from_record(record).unwrap();
    friend.eat(Food::Burger);
    assert_eq!(friend.food().value(), 90);
    assert_eq!(friend.health_debit_ms(), 780_000);
    friend.update_state(t + 13 * MINUTE_MILLIS);
    assert_eq!(friend.food().value(), 90);
    assert_eq!(friend.health_debit_ms(), 0);
    assert_eq!(friend.health().value(), 87);
}

#[test]
fn each_dish_adds_its_points_and_a_third_of_them_in_minutes() {
    let dishes = [(Food::Soup, 20, 6), (Food::Fries, 30, 10), (Food::Burger, 40, 13)];
    for (dish, points, minutes) in dishes {
        assert_eq!(dish.points(), points);
        let mut friend = grown_friend(GrowthStage::Kid, 10, 0);
        friend.eat(dish);
        assert_eq!(friend.food().value(), 10 + points);
        assert_eq!(friend.health_debit_ms(), minutes * MINUTE_MILLIS);
    }
}

#[test]
fn feeding_saturates_food() {
    let mut friend = grown_friend(GrowthStage::Adult, 90, 0);
    friend.eat(Food::Soup);
    assert_eq!(friend.food().value(), 100);
    assert_eq!(friend.health_debit_ms(), 6 * MINUTE_MILLIS);
}

#[test]
fn play_adds_joy_and_ten_minutes_of_debt() {
    let mut friend = grown_friend(GrowthStage::Baby, 50, 0);
    friend.play();
    assert_eq!(friend.joy().value(), 80);
    assert_eq!(friend.health_debit_ms(), 600_000);
    friend.play();
    assert_eq!(friend.joy().value(), 100);
    assert_eq!(friend.health_debit_ms(), 1_200_000);
}

#[test]
fn medicine_adds_health() {
    let mut friend = grown_friend(GrowthStage::Baby, 50, 0);
    friend.take_medicine();
    assert_eq!(friend.health().value(), 90);
    friend.take_medicine();
    assert_eq!(friend.health().value(), 100);
    assert_eq!(friend.health_debit_ms(), 0);
}

#[test]
fn toggle_sleep_sets_and_clears_the_time() {
    let mut friend = grown_friend(GrowthStage::Kid, 50, 0);
    friend.toggle_sleep(77);
    assert!(friend.is_asleep());
    assert_eq!(friend.asleep_since(), Some(77));
    friend.toggle_sleep(99);
    assert!(!friend.is_asleep());
    assert_eq!(friend.asleep_since(), None);
}

#[test]
fn quanta_are_exact() {
    let mut friend = grown_friend(GrowthStage::Adult, 50, 0);
    friend.update_state(14 * MINUTE_MILLIS - 1);
    assert_eq!(stats(&friend), (50, 50, 49, 50));
    friend.update_state(14 * MINUTE_MILLIS);
    assert_eq!(stats(&friend), (49, 50, 49, 50));
    friend.update_state(16 * MINUTE_MILLIS);
    assert_eq!(stats(&friend), (49, 49, 49, 50));
    friend.update_state(24 * MINUTE_MILLIS);
    assert_eq!(stats(&friend), (49, 49, 48, 50));
    let record = friend.to_record();
    assert_eq!(record.last_food_tick, 14 * MINUTE_MILLIS);
    assert_eq!(record.last_joy_tick, 16 * MINUTE_MILLIS);
    assert_eq!(record.last_energy_tick, 24 * MINUTE_MILLIS);
    assert_eq!(record.last_health_tick, 24 * MINUTE_MILLIS);
}

#[test]
fn cursors_move_by_whole_quanta_only() {
    let mut friend = grown_friend(GrowthStage::Adult, 50, 0);
    friend.update_state(100 * MINUTE_MILLIS + 17);
    let record = friend.to_record();
    assert_eq!(record.last_food_tick, 98 * MINUTE_MILLIS);
    assert_eq!(record.last_energy_tick, 96 * MINUTE_MILLIS);
    assert_eq!(record.last_joy_tick, 96 * MINUTE_MILLIS);
    assert_eq!(record.last_health_tick, 100 * MINUTE_MILLIS);
    assert_eq!(stats(&friend), (43, 44, 42, 50));
}

#[test]
fn update_with_an_earlier_time_changes_nothing() {
    let mut friend = grown_friend(GrowthStage::Adult, 50, 1_000_000);
    friend.update_state(0);
    assert_eq!(stats(&friend), (50, 50, 50, 50));
    assert_eq!(friend.to_record().last_food_tick, 1_000_000);
    friend.update_state(i64::MIN);
    assert_eq!(stats(&friend), (50, 50, 50, 50));
}

#[test]
fn update_copes_with_the_ends_of_time() {
    let mut record = grown_friend(GrowthStage::Adult, 50, 0).to_record();
    let near_end = i64::MAX - 3 * HOUR;
    record.last_food_tick = near_end;
    record.last_joy_tick = near_end;
    record.last_energy_tick = near_end;
    record.last_health_tick = near_end;
    let mut friend = Friend::from_record(record).unwrap();
    friend.update_state(i64::MAX);
    assert_eq!(stats(&friend), (38, 39, 35, 50));
    assert!(*friend.alive());
}

#[test]
fn second_update_at_the_same_time_changes_nothing() {
    let mut friend = grown_friend(GrowthStage::Adult, 50, 0);
    friend.eat(Food::Burger);
    friend.toggle_sleep(0);
    let now = 7 * HOUR + 123;
    friend.update_state(now);
    let once = friend.to_record();
    friend.update_state(now);
    let twice = friend.to_record();
    assert_eq!(format!("{:?}", once), format!("{:?}", twice));
}

#[test]
fn second_update_at_the_same_time_may_only_grow() {
    let mut friend = Friend::new("grow", duck(), 0);
    let now = 6 * HOUR;
    friend.update_state(now);
    let mut once = friend.to_record();
    assert_eq!(once.growth_stage, GrowthStage::Baby);
    friend.update_state(now);
    let twice = friend.to_record();
    assert_eq!(twice.growth_stage, GrowthStage::Kid);
    once.growth_stage = GrowthStage::Kid;
    assert_eq!(format!("{:?}", once), format!("{:?}", twice));
}

#[test]
fn offline_catch_up_carries_the_residue() {
    let mut friend = grown_friend(GrowthStage::Adult, 100, 0);
    // 20 minutes: one food quantum, 6 minutes left over.
    friend.update_state(20 * MINUTE_MILLIS);
    assert_eq!(friend.food().value(), 99);
    // 50 more minutes: 56 minutes with the residue, four quanta; 50
    // minutes alone would hold three.
    friend.update_state(70 * MINUTE_MILLIS);
    assert_eq!(friend.food().value(), 95);
    assert_eq!(friend.to_record().last_food_tick, 70 * MINUTE_MILLIS);

    let mut at_once = grown_friend(GrowthStage::Adult, 100, 0);
    at_once.update_state(70 * MINUTE_MILLIS);
    assert_eq!(at_once.food().value(), 95);
}

#[test]
fn health_decays_only_while_debt_is_owed() {
    let mut friend = grown_friend(GrowthStage::Adult, 50, 0);
    friend.update_state(30 * MINUTE_MILLIS);
    assert_eq!(friend.health().value(), 50);
    friend.play();
    friend.update_state(35 * MINUTE_MILLIS);
    assert_eq!(friend.health().value(), 45);
    assert_eq!(friend.health_debit_ms(), 5 * MINUTE_MILLIS);
    friend.update_state(60 * MINUTE_MILLIS);
    assert_eq!(friend.health().value(), 40);
    assert_eq!(friend.health_debit_ms(), 0);
}

#[test]
fn less_than_a_minute_of_debt_is_not_collected() {
    let mut record = grown_friend(GrowthStage::Adult, 50, 0).to_record();
    record.health_debit_ms = 119_999;
    let mut friend = Friend::from_record(record).unwrap();
    friend.update_state(10 * MINUTE_MILLIS);
    assert_eq!(friend.health().value(), 49);
    assert_eq!(friend.health_debit_ms(), 59_999);
}

#[test]
fn pet_dies_when_the_sum_is_too_low() {
    let mut record = grown_friend(GrowthStage::Adult, 50, 0).to_record();
    record.food = 5;
    record.joy = 5;
    record.health = 4;
    let mut friend = Friend::from_record(record).unwrap();
    friend.update_state(0);
    assert!(!*friend.alive());

    let mut record = grown_friend(GrowthStage::Adult, 50, 0).to_record();
    record.food = 5;
    record.joy = 5;
    record.health = 5;
    let mut friend = Friend::from_record(record).unwrap();
    friend.update_state(0);
    assert!(*friend.alive());
}

#[test]
fn pet_dies_when_two_statistics_are_zero() {
    let mut record = grown_friend(GrowthStage::Adult, 50, 0).to_record();
    record.food = 0;
    record.energy = 0;
    let mut friend = Friend::from_record(record).unwrap();
    friend.update_state(0);
    assert!(!*friend.alive());

    let mut record = grown_friend(GrowthStage::Adult, 50, 0).to_record();
    record.energy = 0;
    let mut friend = Friend::from_record(record).unwrap();
    friend.update_state(0);
    assert!(*friend.alive());
}

#[test]
fn pet_dies_when_health_is_zero() {
    let mut record = grown_friend(GrowthStage::Adult, 100, 0).to_record();
    record.health = 0;
    let mut friend = Friend::from_record(record).unwrap();
    friend.update_state(0);
    assert!(!*friend.alive());
}

#[test]
fn dead_pet_stays_dead() {
    let mut record = grown_friend(GrowthStage::Adult, 100, 0).to_record();
    record.alive = false;
    let mut friend = Friend::from_record(record).unwrap();
    for step in 0..20 {
        friend.update_state(step * HOUR);
        assert!(!*friend.alive());
    }
    friend.take_medicine();
    friend.eat(Food::Burger);
    friend.play();
    friend.toggle_sleep(0);
    friend.update_state(21 * HOUR);
    assert!(!*friend.alive());
}

#[test]
fn stats_stay_in_range_over_a_long_life() {
    let mut friend = Friend::new("long", duck(), 0);
    let mut now = 0;
    for step in 0..400 {
        now += 7 * MINUTE_MILLIS + step * 1_000;
        friend.update_state(now);
        if step % 3 == 0 {
            friend.eat(Food::Burger);
        }
        if step % 5 == 0 {
            friend.play();
        }
        if step % 7 == 0 {
            friend.take_medicine();
        }
        if step % 11 == 0 {
            friend.toggle_sleep(now);
        }
        let (food, joy, energy, health) = stats(&friend);
        assert!(food <= 100 && joy <= 100 && energy <= 100 && health <= 100);
        assert!(friend.health_debit_ms() >= 0);
    }
}

#[test]
fn shape_wrapper_follows_the_stage() {
    let shape = CreatureShapes::Snail(ColorWrapper::Cyan);
    assert_eq!(shape.get_color(), ColorWrapper::Cyan);
    let egg = Friend::new("s", shape, 0);
    assert_eq!(
        egg.get_shape_wrapper(),
        ShapeWrapper::Growing(GrowthStageShapes::Egg(ColorWrapper::Cyan))
    );
    assert_eq!(
        shape.shape_at(GrowthStage::Baby),
        ShapeWrapper::Growing(GrowthStageShapes::Baby(ColorWrapper::Cyan))
    );
    assert_eq!(
        shape.shape_at(GrowthStage::Kid),
        ShapeWrapper::Growing(GrowthStageShapes::Kid(ColorWrapper::Cyan))
    );
    assert_eq!(shape.shape_at(GrowthStage::Adult), ShapeWrapper::Adult(shape));
}

#[test]
fn age_is_counted_in_whole_hours() {
    let friend = Friend::new("age", duck(), 1_000);
    assert_eq!(friend.age_hours(1_000), 0);
    assert_eq!(friend.age_hours(1_000 + HOUR - 1), 0);
    assert_eq!(friend.age_hours(1_000 + HOUR), 1);
    assert_eq!(friend.age_hours(1_000 + 49 * HOUR + 5), 49);
    assert_eq!(friend.age_hours(1_000 - HOUR + 1), 0);
    assert_eq!(friend.age_hours(1_000 - HOUR), -1);
}

#[test]
fn next_stage_walks_the_order_and_stops() {
    let mut stage = GrowthStage::Egg;
    stage.next_stage();
    assert_eq!(stage, GrowthStage::Baby);
    stage.next_stage();
    assert_eq!(stage, GrowthStage::Kid);
    stage.next_stage();
    assert_eq!(stage, GrowthStage::Adult);
    stage.next_stage();
    assert_eq!(stage, GrowthStage::Adult);
    assert_eq!(GrowthStage::Egg.dwell_ms(), Some(300_000));
    assert_eq!(GrowthStage::Baby.dwell_ms(), Some(18_000_000));
    assert_eq!(GrowthStage::Kid.dwell_ms(), Some(86_400_000));
    assert_eq!(GrowthStage::Adult.dwell_ms(), None);
}

#[test]
fn record_with_a_statistic_out_of_range_is_rejected() {
    let mut record = Friend::new("bad", duck(), 0).to_record();
    record.energy = 101;
    record.health_debit_ms = -1;
    assert_eq!(Friend::from_record(record).unwrap_err(), RecordError::StatOutOfRange);
}

#[test]
fn record_with_negative_debt_is_rejected() {
    let mut record = Friend::new("bad", duck(), 0).to_record();
    record.health_debit_ms = -1;
    record.asleep = true;
    assert_eq!(Friend::from_record(record).unwrap_err(), RecordError::NegativeHealthDebit);
}

#[test]
fn record_with_mismatched_sleep_is_rejected() {
    let mut record = Friend::new("bad", duck(), 0).to_record();
    record.asleep = true;
    assert_eq!(Friend::from_record(record).unwrap_err(), RecordError::SleepMismatch);
    let mut record = Friend::new("bad", duck(), 0).to_record();
    record.asleep_since = Some(5);
    assert_eq!(Friend::from_record(record).unwrap_err(), RecordError::SleepMismatch);
}

fn clone_record(record: &FriendRecord) -> FriendRecord {
    FriendRecord {
        name: record.name.clone(),
        food: record.food,
        joy: record.joy,
        energy: record.energy,
        health: record.health,
        last_food_tick: record.last_food_tick,
        last_joy_tick: record.last_joy_tick,
        last_energy_tick: record.last_energy_tick,
        last_health_tick: record.last_health_tick,
        health_debit_ms: record.health_debit_ms,
        shape: record.shape,
        growth_stage: record.growth_stage,
        asleep: record.asleep,
        asleep_since: record.asleep_since,
        alive: record.alive,
        time_created: record.time_created,
    }
}

#[test]
fn save_reload_idempotence() {
    let t0 = 1_700_000_000_000;
    let mut game = GameState::new(Friend::new("saved", duck(), t0), t0);
    let now = t0 + 2 * HOUR;
    game.update(now);
    let stored = game.store(now);
    let copy = GameStateRecord {
        friend: clone_record(&stored.friend),
        last_update_time: stored.last_update_time,
    };
    let mut fresh = GameState::from_record(copy).unwrap();
    fresh.update(now);
    game.update(now);
    assert_eq!(
        format!("{:?}", fresh.friend().to_record()),
        format!("{:?}", game.friend().to_record())
    );
    assert_eq!(fresh.last_update_time(), game.last_update_time());
    assert_eq!(format!("{:?}", stored.friend), format!("{:?}", game.friend().to_record()));
    assert_eq!(stored.last_update_time, now);
    // Two hours with five minutes as an egg: eight food quanta are due from
    // the time of adoption.
    assert_eq!(fresh.friend().food().value(), 42);
    assert_eq!(fresh.friend().joy().value(), 43);
    assert_eq!(fresh.friend().energy().value(), 40);
    assert_eq!(fresh.friend().growth_stage(), GrowthStage::Baby);
}

#[test]
fn game_state_update_notes_the_time() {
    let mut game = GameState::new(Friend::new("g", duck(), 0), 0);
    assert_eq!(game.last_update_time(), 0);
    game.update(10 * MINUTE_MILLIS);
    assert_eq!(game.last_update_time(), 10 * MINUTE_MILLIS);
    assert_eq!(game.friend().growth_stage(), GrowthStage::Baby);
    game.friend_mut().take_medicine();
    assert_eq!(game.friend().health().value(), 90);
    game.replace_friend(Friend::new("h", duck(), 5), 6);
    assert_eq!(game.friend().name(), "h");
    assert_eq!(game.last_update_time(), 6);
}

#[test]
fn clone_keeps_every_field() {
    let mut friend = grown_friend(GrowthStage::Kid, 33, 10);
    friend.toggle_sleep(11);
    friend.play();
    let copy = friend.clone();
    assert_eq!(format!("{:?}", copy.to_record()), format!("{:?}", friend.to_record()));
}

#[test]
fn random_food_covers_all_dishes() {
    let mut seen = [false; 3];
    for _ in 0..300 {
        match Food::new_random() {
            Food::Soup => seen[0] = true,
            Food::Fries => seen[1] = true,
            Food::Burger => seen[2] = true,
        }
    }
    assert_eq!(seen, [true, true, true]);
    assert_eq!(Food::from_index(0), Food::Soup);
    assert_eq!(Food::from_index(1), Food::Fries);
    assert_eq!(Food::from_index(2), Food::Burger);
    assert_eq!(Food::from_index(200), Food::Burger);
}

#[test]
fn random_creatures_cover_all_species_and_pet_colors() {
    let mut species = [false; 7];
    let mut colors = [false; 7];
    for _ in 0..2000 {
        let shape = CreatureShapes::new_random();
        let index = match shape {
            CreatureShapes::Duck(_) => 0,
            CreatureShapes::Turtle(_) => 1,
            CreatureShapes::Spider(_) => 2,
            CreatureShapes::Snail(_) => 3,
            CreatureShapes::Fish(_) => 4,
            CreatureShapes::Mouse(_) => 5,
            CreatureShapes::Frog(_) => 6,
        };
        species[index] = true;
        let color = match shape.get_color() {
            ColorWrapper::Red => 0,
            ColorWrapper::Green => 1,
            ColorWrapper::Blue => 2,
            ColorWrapper::Cyan => 3,
            ColorWrapper::LightMagenta => 4,
            ColorWrapper::Yellow => 5,
            ColorWrapper::LightRed => 6,
            ColorWrapper::White | ColorWrapper::Black => panic!("not a pet colour"),
        };
        colors[color] = true;
    }
    assert_eq!(species, [true; 7]);
    assert_eq!(colors, [true; 7]);
    assert_eq!(ColorWrapper::from_index(6), ColorWrapper::LightRed);
    assert_eq!(ColorWrapper::from_index(8), ColorWrapper::LightRed);
    assert_eq!(
        CreatureShapes::from_index(3, ColorWrapper::Red),
        CreatureShapes::Snail(ColorWrapper::Red)
    );
    assert_eq!(
        CreatureShapes::from_index(9, ColorWrapper::Red),
        CreatureShapes::Frog(ColorWrapper::Red)
    );
}
