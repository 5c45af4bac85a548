use chrono::Utc;
use termagotchi::animations::{AnimationFrame, FoodAnimationFrames};
use termagotchi::color_wrapper::ColorWrapper;
use termagotchi::creatures::CreatureShapes;
use termagotchi::food::Food;
use termagotchi::friend::{Friend, MINUTE_MILLIS};
use termagotchi::game_state::GameState;
use termagotchi::growth::GrowthStage;
use termagotchi::location::{Location, Playground};
use termagotchi::session::{
    Input, PopupScene, Reaction, Scene, Session, SpriteExtents, Tick, UserAction,
};

const HOUR: i64 = 60 * MINUTE_MILLIS;

fn extents() -> SpriteExtents {
    SpriteExtents { egg: (10, 10), baby: (10, 10), kid: (15, 15), adult: (25, 25) }
}

fn frog() -> CreatureShapes {
    CreatureShapes::Frog(ColorWrapper::Yellow)
}

fn session_with(stage: GrowthStage, stat: u32, now: i64) -> Session {
    let mut record = Friend::new("pet", frog(), now - 48 * HOUR).to_record();
    record.growth_stage = stage;
    record.food = stat;
    record.joy = stat;
    record.energy = stat;
    record.health = stat;
    record.last_food_tick = now;
    record.last_joy_tick = now;
    record.last_energy_tick = now;
    record.last_health_tick = now;
    let game = GameState::new(Friend::from_record(record).unwrap(), now);
    Session::with_offset(game, Playground::standard(), extents(), 0, 0, now)
}

fn stats(session: &Session) -> (u32, u32, u32, u32) {
    let friend = session.game_state().friend();
    (
        friend.food().value(),
        friend.joy().value(),
        friend.energy().value(),
        friend.health().value(),
    )
}

#[test]
fn menu_holds_four_actions() {
    assert_eq!(UserAction::from_index(0), Some(UserAction::Eat));
    assert_eq!(UserAction::from_index(1), Some(UserAction::Play));
    assert_eq!(UserAction::from_index(2), Some(UserAction::Sleep));
    assert_eq!(UserAction::from_index(3), Some(UserAction::Medicine));
    assert_eq!(UserAction::from_index(4), None);
    assert_eq!(UserAction::from_index(usize::MAX), None);
    assert_eq!(UserAction::Eat.label(), "Eat");
    assert_eq!(UserAction::Play.label(), "Play");
    assert_eq!(UserAction::Sleep.label(), "Sleep");
    assert_eq!(UserAction::Medicine.label(), "Medicine");
}

#[test]
fn sprite_extents_must_fit_for_bouncing_stages() {
    let fitting = extents();
    assert!(fitting.fit(Playground::standard()));
    assert_eq!(fitting.of(GrowthStage::Egg), (10, 10));
    assert_eq!(fitting.of(GrowthStage::Kid), (15, 15));
    assert_eq!(fitting.of(GrowthStage::Adult), (25, 25));
    assert!(!fitting.fit(Playground::new(0, 0, 24, 100)));
    assert!(!fitting.fit(Playground::new(0, 0, 100, 14)));
    let big_egg = SpriteExtents { egg: (500, 500), baby: (500, 500), kid: (1, 1), adult: (1, 1) };
    assert!(big_egg.fit(Playground::new(0, 0, 1, 1)));
}

#[test]
fn new_session_runs_and_takes_inputs() {
    let game = GameState::new(Friend::new("egg", frog(), 0), 0);
    let session = Session::new(game, Playground::standard(), extents(), 0);
    assert!(session.is_running());
    assert!(session.allows_inputs());
    assert!(session.popup().is_none());
    assert_eq!(session.playground(), Playground::standard());
    assert_eq!(session.game_state().friend().name(), "egg");
    assert!(session.can_take_input(Input::ConfirmAction(UserAction::Eat)));
}

#[test]
fn egg_session_hops_and_ignores_actions() {
    let game = GameState::new(Friend::new("egg", frog(), 0), 0);
    let mut session = Session::new(game, Playground::standard(), extents(), 0);
    assert_eq!(
        session.tick(100),
        Tick::Frame(Scene { friend_location: Location::new(75, 50), popup: PopupScene::Hidden })
    );
    assert_eq!(
        session.tick(601),
        Tick::Frame(Scene { friend_location: Location::new(75, 51), popup: PopupScene::Hidden })
    );
    for action in [UserAction::Eat, UserAction::Play, UserAction::Sleep, UserAction::Medicine] {
        assert_eq!(
            session.handle_inputs(Input::ConfirmAction(action), 700),
            Reaction::Ignored(action)
        );
    }
    assert_eq!(stats(&session), (50, 50, 50, 50));
    assert!(!session.game_state().friend().is_asleep());
    assert!(session.popup().is_none());
    assert_eq!(session.game_state().last_update_time(), 601);
}

#[test]
fn motion_follows_growth() {
    let game = GameState::new(Friend::new("grow", frog(), 0), 0);
    let mut session = Session::with_offset(game, Playground::standard(), extents(), 5, 5, 0);
    let hatch = 5 * MINUTE_MILLIS;
    // The walk is set up in the tick in which the egg hatches.
    assert_eq!(
        session.tick_with_offset(5, 5, hatch),
        Tick::Frame(Scene { friend_location: Location::new(68, 43), popup: PopupScene::Hidden })
    );
    assert_eq!(
        session.tick_with_offset(5, 5, hatch + 501),
        Tick::Frame(Scene { friend_location: Location::new(69, 44), popup: PopupScene::Hidden })
    );
    assert_eq!(session.game_state().friend().growth_stage(), GrowthStage::Baby);
}

#[test]
fn bounce_sets_out_at_the_given_offsets() {
    let mut session = session_with(GrowthStage::Baby, 100, 0);
    // The pet is 48 hours old: it becomes a kid with the first tick.
    assert_eq!(
        session.tick_with_offset(-30, 30, 10),
        Tick::Frame(Scene { friend_location: Location::new(33, 68), popup: PopupScene::Hidden })
    );
    assert_eq!(session.game_state().friend().growth_stage(), GrowthStage::Kid);
    // It becomes an adult with the second tick, and the bounce starts anew.
    assert_eq!(
        session.tick_with_offset(0, 0, 511),
        Tick::Frame(Scene { friend_location: Location::new(63, 38), popup: PopupScene::Hidden })
    );
    assert_eq!(session.game_state().friend().growth_stage(), GrowthStage::Adult);
    assert_eq!(
        session.tick_with_offset(9, 9, 1_012),
        Tick::Frame(Scene { friend_location: Location::new(64, 39), popup: PopupScene::Hidden })
    );
}

#[test]
fn random_bounce_sets_out_within_the_spread() {
    for _ in 0..50 {
        let mut session = session_with(GrowthStage::Baby, 100, 0);
        match session.tick(10) {
            Tick::Frame(scene) => {
                assert!(scene.friend_location.x >= 33 && scene.friend_location.x <= 93);
                assert!(scene.friend_location.y >= 8 && scene.friend_location.y <= 68);
            }
            Tick::PetDied => panic!("the pet is well"),
        }
    }
}

#[test]
fn feeding_brings_up_a_popup_that_holds_inputs_off() {
    let mut session = session_with(GrowthStage::Adult, 50, 0);
    assert_eq!(
        session.handle_input_with(Input::ConfirmAction(UserAction::Eat), Food::Fries, 0),
        Reaction::Applied(UserAction::Eat)
    );
    assert_eq!(stats(&session), (80, 50, 50, 50));
    assert_eq!(session.game_state().friend().health_debit_ms(), 10 * MINUTE_MILLIS);
    assert!(session.popup().is_some());
    // Inputs are held off from the next frame on.
    assert!(session.allows_inputs());
    let fries = |index| PopupScene::Picture(AnimationFrame::Food(FoodAnimationFrames::Fries, index));
    let popup_of = |tick: Tick| match tick {
        Tick::Frame(scene) => scene.popup,
        Tick::PetDied => panic!("the pet is well"),
    };
    assert_eq!(popup_of(session.tick(10)), fries(0));
    assert!(!session.allows_inputs());
    assert_eq!(
        session.handle_input_with(Input::ConfirmAction(UserAction::Play), Food::Soup, 20),
        Reaction::Dropped
    );
    assert_eq!(session.handle_input_with(Input::Quit, Food::Soup, 20), Reaction::Dropped);
    assert!(session.is_running());
    assert_eq!(stats(&session), (80, 50, 50, 50));
    assert_eq!(popup_of(session.tick(750)), fries(0));
    assert_eq!(popup_of(session.tick(1_500)), fries(1));
    assert_eq!(popup_of(session.tick(2_250)), fries(2));
    assert_eq!(popup_of(session.tick(3_000)), PopupScene::Empty);
    assert!(!session.allows_inputs());
    assert_eq!(popup_of(session.tick(3_010)), PopupScene::Hidden);
    assert!(session.allows_inputs());
    assert!(session.popup().is_none());
    assert_eq!(
        session.handle_input_with(Input::ConfirmAction(UserAction::Play), Food::Soup, 3_020),
        Reaction::Applied(UserAction::Play)
    );
    assert_eq!(stats(&session), (80, 80, 50, 50));
}

#[test]
fn no_popup_for_a_statistic_at_its_maximum() {
    let mut session = session_with(GrowthStage::Adult, 100, 0);
    assert_eq!(
        session.handle_input_with(Input::ConfirmAction(UserAction::Eat), Food::Soup, 0),
        Reaction::Applied(UserAction::Eat)
    );
    assert!(session.popup().is_none());
    assert_eq!(session.game_state().friend().health_debit_ms(), 6 * MINUTE_MILLIS);
    assert_eq!(
        session.handle_input_with(Input::ConfirmAction(UserAction::Medicine), Food::Soup, 0),
        Reaction::Applied(UserAction::Medicine)
    );
    assert!(session.popup().is_none());
    assert_eq!(
        session.handle_input_with(Input::ConfirmAction(UserAction::Play), Food::Soup, 0),
        Reaction::Applied(UserAction::Play)
    );
    assert!(session.popup().is_none());
}

#[test]
fn sleeping_pet_can_only_be_woken() {
    let mut session = session_with(GrowthStage::Adult, 50, 0);
    assert_eq!(
        session.handle_input_with(Input::ConfirmAction(UserAction::Sleep), Food::Soup, 5),
        Reaction::Applied(UserAction::Sleep)
    );
    assert!(session.game_state().friend().is_asleep());
    assert_eq!(session.game_state().friend().asleep_since(), Some(5));
    assert!(session.popup().is_none());
    for action in [UserAction::Eat, UserAction::Play, UserAction::Medicine] {
        assert_eq!(
            session.handle_input_with(Input::ConfirmAction(action), Food::Burger, 6),
            Reaction::Ignored(action)
        );
    }
    assert_eq!(stats(&session), (50, 50, 50, 50));
    // A sleeping pet is drawn in the middle of the playground.
    assert_eq!(
        session.tick(600),
        Tick::Frame(Scene { friend_location: Location::new(63, 38), popup: PopupScene::Hidden })
    );
    assert_eq!(session.sleep_drawing_location(), Location::new(63, 38));
    assert_eq!(
        session.handle_input_with(Input::ConfirmAction(UserAction::Sleep), Food::Soup, 700),
        Reaction::Applied(UserAction::Sleep)
    );
    assert!(!session.game_state().friend().is_asleep());
}

#[test]
fn sleeping_place_depends_on_the_stage() {
    assert_eq!(session_with(GrowthStage::Egg, 50, 0).sleep_drawing_location(), Location::new(70, 45));
    assert_eq!(session_with(GrowthStage::Baby, 50, 0).sleep_drawing_location(), Location::new(70, 45));
    assert_eq!(session_with(GrowthStage::Kid, 50, 0).sleep_drawing_location(), Location::new(68, 43));
    assert_eq!(session_with(GrowthStage::Adult, 50, 0).sleep_drawing_location(), Location::new(63, 38));
}

#[test]
fn selection_moves_are_passed_back() {
    let mut session = session_with(GrowthStage::Adult, 50, 0);
    assert_eq!(session.handle_inputs(Input::MoveSelectionUp, 0), Reaction::SelectPrevious);
    assert_eq!(session.handle_inputs(Input::MoveSelectionDown, 0), Reaction::SelectNext);
    assert_eq!(stats(&session), (50, 50, 50, 50));
    assert!(session.is_running());
}

#[test]
fn quit_ends_the_session() {
    let mut session = session_with(GrowthStage::Adult, 50, 0);
    assert_eq!(session.handle_inputs(Input::Quit, 0), Reaction::Stopped);
    assert!(!session.is_running());
}

#[test]
fn random_feeding_gives_one_of_the_dishes() {
    let mut seen = [false; 3];
    for _ in 0..200 {
        let mut session = session_with(GrowthStage::Adult, 10, 0);
        assert_eq!(
            session.handle_inputs(Input::ConfirmAction(UserAction::Eat), 0),
            Reaction::Applied(UserAction::Eat)
        );
        match session.game_state().friend().food().value() {
            30 => seen[0] = true,
            40 => seen[1] = true,
            50 => seen[2] = true,
            other => panic!("no dish has {} points", other - 10),
        }
    }
    assert_eq!(seen, [true, true, true]);
}

#[test]
fn dead_pet_ends_the_frame_and_admits_nothing() {
    let mut session = session_with(GrowthStage::Adult, 50, 0);
    assert_eq!(session.tick(100 * HOUR), Tick::PetDied);
    assert!(!*session.game_state().friend().alive());
    assert_eq!(session.tick(100 * HOUR), Tick::PetDied);
    for action in [UserAction::Eat, UserAction::Play, UserAction::Sleep, UserAction::Medicine] {
        assert_eq!(
            session.handle_input_with(Input::ConfirmAction(action), Food::Burger, 100 * HOUR),
            Reaction::Ignored(action)
        );
    }
    assert_eq!(session.game_state().friend().health().value(), 50);
    assert!(!session.game_state().friend().is_asleep());
}

#[test]
fn adoption_starts_over_with_an_egg() {
    let mut session = session_with(GrowthStage::Adult, 50, 0);
    let later = 100 * HOUR;
    assert_eq!(session.tick(later), Tick::PetDied);
    session.adopt(Friend::new("next", CreatureShapes::new_random(), later), extents(), later);
    assert_eq!(session.game_state().friend().name(), "next");
    assert_eq!(session.game_state().friend().growth_stage(), GrowthStage::Egg);
    assert_eq!(session.game_state().last_update_time(), later);
    assert!(*session.game_state().friend().alive());
    assert_eq!(
        session.tick(later + 1),
        Tick::Frame(Scene { friend_location: Location::new(75, 50), popup: PopupScene::Hidden })
    );
    assert_eq!(
        session.tick(later + 502),
        Tick::Frame(Scene { friend_location: Location::new(75, 51), popup: PopupScene::Hidden })
    );
}

#[test]
fn saving_advances_the_game_first() {
    let mut session = session_with(GrowthStage::Adult, 50, 0);
    let record = session.save_game(30 * MINUTE_MILLIS);
    assert_eq!(record.last_update_time, 30 * MINUTE_MILLIS);
    assert_eq!(record.friend.food, 48);
    assert_eq!(record.friend.joy, 49);
    assert_eq!(record.friend.energy, 48);
    assert_eq!(record.friend.health, 50);
    assert_eq!(record.friend.last_food_tick, 28 * MINUTE_MILLIS);
    assert_eq!(stats(&session), (48, 49, 48, 50));
    let restored = GameState::from_record(record).unwrap();
    assert_eq!(restored.friend().name(), "pet");
    assert_eq!(restored.last_update_time(), 30 * MINUTE_MILLIS);
}

#[test]
fn debt_has_room_until_the_end_of_the_range() {
    let feed = Input::ConfirmAction(UserAction::Eat);
    let mut record = Friend::new("pet", frog(), -48 * HOUR).to_record();
    record.growth_stage = GrowthStage::Kid;
    record.health_debit_ms = i64::MAX - 780_000;
    let game = GameState::new(Friend::from_record(record).unwrap(), 0);
    let mut session = Session::with_offset(game, Playground::standard(), extents(), 0, 0, 0);
    assert!(session.can_take_input(feed));
    assert_eq!(session.handle_input_with(feed, Food::Burger, 0), Reaction::Applied(UserAction::Eat));
    assert_eq!(session.game_state().friend().health_debit_ms(), i64::MAX);
    let mut record = Friend::new("pet", frog(), -48 * HOUR).to_record();
    record.growth_stage = GrowthStage::Kid;
    record.health_debit_ms = i64::MAX - 779_999;
    let game = GameState::new(Friend::from_record(record).unwrap(), 0);
    let session = Session::with_offset(game, Playground::standard(), extents(), 0, 0, 0);
    assert!(!session.can_take_input(feed));
    // An egg is not fed, so feeding it needs no room.
    let mut record = Friend::new("pet", frog(), 0).to_record();
    record.health_debit_ms = i64::MAX;
    let game = GameState::new(Friend::from_record(record).unwrap(), 0);
    let session = Session::with_offset(game, Playground::standard(), extents(), 0, 0, 0);
    assert!(session.can_take_input(feed));
}

#[test]
fn only_actions_that_add_debt_need_room_for_it() {
    let mut record = Friend::new("pet", frog(), -48 * HOUR).to_record();
    record.growth_stage = GrowthStage::Adult;
    record.health_debit_ms = i64::MAX - 700_000;
    let game = GameState::new(Friend::from_record(record).unwrap(), 0);
    let mut session = Session::with_offset(game, Playground::standard(), extents(), 0, 0, 0);
    assert!(!session.can_take_input(Input::ConfirmAction(UserAction::Eat)));
    assert!(session.can_take_input(Input::ConfirmAction(UserAction::Play)));
    assert!(session.can_take_input(Input::ConfirmAction(UserAction::Sleep)));
    assert!(session.can_take_input(Input::ConfirmAction(UserAction::Medicine)));
    assert!(session.can_take_input(Input::Quit));
    assert!(session.can_take_input(Input::MoveSelectionUp));
    assert_eq!(
        session.handle_input_with(Input::ConfirmAction(UserAction::Play), Food::Soup, 0),
        Reaction::Applied(UserAction::Play)
    );
    assert_eq!(session.game_state().friend().health_debit_ms(), i64::MAX - 100_000);
    assert!(!session.can_take_input(Input::ConfirmAction(UserAction::Play)));
    // A sleeping pet is not fed, so feeding needs no room.
    assert_eq!(
        session.handle_input_with(Input::ConfirmAction(UserAction::Sleep), Food::Soup, 0),
        Reaction::Applied(UserAction::Sleep)
    );
    assert!(session.can_take_input(Input::ConfirmAction(UserAction::Eat)));
    assert_eq!(
        session.handle_inputs(Input::ConfirmAction(UserAction::Eat), 0),
        Reaction::Ignored(UserAction::Eat)
    );
}

#[test]
fn session_reads_the_clock() {
    let before = Utc::now().timestamp_millis();
    let game = GameState::new(Friend::new("clock", frog(), before), before);
    let mut session = Session::new(game, Playground::standard(), extents(), before);
    assert_eq!(
        session.tick_now(),
        Tick::Frame(Scene { friend_location: Location::new(75, 50), popup: PopupScene::Hidden })
    );
    let after = Utc::now().timestamp_millis();
    let noted = session.game_state().last_update_time();
    assert!(before <= noted && noted <= after);

    let record = session.save_game_now();
    assert!(noted <= record.last_update_time);
    assert!(record.last_update_time <= Utc::now().timestamp_millis());
    assert_eq!(record.friend.name, "clock");
}

#[test]
fn sleep_is_dated_by_the_clock() {
    let before = Utc::now().timestamp_millis();
    let mut session = session_with(GrowthStage::Adult, 50, before);
    assert_eq!(
        session.handle_inputs_now(Input::ConfirmAction(UserAction::Sleep)),
        Reaction::Applied(UserAction::Sleep)
    );
    let since = session.game_state().friend().asleep_since().unwrap();
    assert!(before <= since && since <= Utc::now().timestamp_millis());
    assert_eq!(session.handle_inputs_now(Input::Quit), Reaction::Stopped);
    assert!(!session.is_running());
}
