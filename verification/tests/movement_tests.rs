use termagotchi::growth::GrowthStage;
use termagotchi::location::{Location, Playground};
use termagotchi::movements::movement::{
    fits_for_movement, get_movement_wrapper, is_step_due, movement_with_offset,
};
use termagotchi::movements::{
    DvdBounceMovement, EggHopMovement, Movement, MovementWrapper, SmallStepsMovement,
};

#[test]
fn location_new_keeps_both_coordinates() {
    let location = Location::new(3, 9);
    assert_eq!(location.x, 3);
    assert_eq!(location.y, 9);
    assert_eq!(location, Location { x: 3, y: 9 });
}

#[test]
fn playground_edges_and_center() {
    let playground = Playground::standard();
    assert_eq!(playground, Playground::new(0, 0, 150, 100));
    assert_eq!(playground.left(), 0);
    assert_eq!(playground.right(), 150);
    assert_eq!(playground.top(), 0);
    assert_eq!(playground.bottom(), 100);
    assert_eq!(playground.center(), Location::new(75, 50));
    let other = Playground::new(10, 20, 31, 41);
    assert_eq!(other.left(), 10);
    assert_eq!(other.right(), 41);
    assert_eq!(other.top(), 20);
    assert_eq!(other.bottom(), 61);
    assert_eq!(other.center(), Location::new(15, 20));
    let wide = Playground::new(65_000, 65_535, 1_000, 1);
    assert_eq!(wide.right(), 65_535);
    assert_eq!(wide.bottom(), 65_535);
}

#[test]
fn a_step_is_due_after_more_than_half_a_second() {
    assert!(!is_step_due(0, 500));
    assert!(is_step_due(0, 501));
    assert!(!is_step_due(1_000, 0));
    assert!(is_step_due(i64::MIN, i64::MAX));
    assert!(!is_step_due(i64::MAX, i64::MIN));
}

#[test]
fn egg_hops_every_step() {
    let anchor = Location::new(75, 50);
    let mut egg = EggHopMovement::new(anchor, 0);
    assert_eq!(egg.next_position(0), anchor);
    assert_eq!(egg.next_position(500), anchor);
    assert_eq!(egg.next_position(501), Location::new(75, 51));
    assert_eq!(egg.next_position(1_001), Location::new(75, 51));
    assert_eq!(egg.next_position(1_002), anchor);
    assert_eq!(egg.next_position(5_000), Location::new(75, 51));
}

#[test]
fn small_steps_walks_between_its_bounds() {
    let mut walk = SmallStepsMovement::new(Location::new(75, 50), 0);
    assert_eq!(walk.get_location(), Location::new(68, 43));
    let mut now = 0;
    let mut expected_x: [i64; 45] = [0; 45];
    let mut x = 0;
    let mut forward = true;
    for slot in expected_x.iter_mut() {
        if x == 10 || x == -10 {
            forward = !forward;
        }
        x += if forward { 1 } else { -1 };
        *slot = x;
    }
    let mut highest_y = 0;
    let mut lowest_y = u32::MAX;
    for step in 0..45 {
        now += 501;
        let position = walk.next_position(now);
        assert_eq!(position.x as i64, 68 + expected_x[step]);
        assert!(position.x >= 58 && position.x <= 78);
        assert!(position.y >= 41 && position.y <= 45);
        highest_y = highest_y.max(position.y);
        lowest_y = lowest_y.min(position.y);
    }
    assert_eq!((lowest_y, highest_y), (41, 45));
    assert_eq!(walk.next_position(now), walk.get_location());
    assert_eq!(walk.next_position(now + 500), walk.get_location());
}

#[test]
fn small_steps_holds_coordinates_at_zero() {
    let mut walk = SmallStepsMovement::new(Location::new(3, 8), 0);
    assert_eq!(walk.get_location(), Location::new(0, 1));
    let mut now = 0;
    for _ in 0..60 {
        now += 600;
        let position = walk.next_position(now);
        assert!(position.x <= 10);
        assert!(position.y <= 3);
    }
    // Ten steps out, twenty back: the offset is the lowest it gets.
    let mut walk = SmallStepsMovement::new(Location::new(3, 8), 0);
    let mut last = Location::new(0, 0);
    for step in 1..=30 {
        last = walk.next_position(step * 501);
    }
    assert_eq!(last.x, 0);
}

#[test]
fn bounce_places_the_sprite_around_the_start() {
    let area = Playground::standard();
    let mut bounce = DvdBounceMovement::with_offset(Location::new(75, 50), 30, -30, area, (25, 25), 0);
    assert_eq!(bounce.next_position(0), Location::new(93, 8));
    let mut low = DvdBounceMovement::with_offset(Location::new(5, 5), -30, 0, area, (25, 25), 0);
    assert_eq!(low.next_position(0), Location::new(0, 0));
}

#[test]
fn bounce_moves_diagonally_and_turns_at_the_edges() {
    let area = Playground::new(0, 0, 40, 30);
    let mut bounce = DvdBounceMovement::with_offset(Location::new(22, 15), 0, 0, area, (25, 25), 0);
    // The sprite fits up to (15, 5) and starts at (10, 3).
    let mut now = 0;
    let mut trace = Vec::new();
    for _ in 0..12 {
        now += 501;
        let position = bounce.next_position(now);
        trace.push((position.x, position.y));
    }
    assert_eq!(
        trace,
        vec![
            (11, 4),
            (12, 5),
            (13, 6),
            (14, 5),
            (15, 4),
            (16, 3),
            (15, 2),
            (14, 1),
            (13, 0),
            (12, 1),
            (11, 2),
            (10, 3),
        ]
    );
    assert_eq!(bounce.next_position(now + 500), Location::new(10, 3));
}

#[test]
fn bounce_never_gets_further_than_one_unit_past_the_edges() {
    let area = Playground::standard();
    for (dx, dy) in [(-30, -30), (30, 30), (0, 17), (-12, 5)] {
        let mut bounce = DvdBounceMovement::with_offset(Location::new(75, 50), dx, dy, area, (25, 25), 0);
        let mut now = 0;
        let mut reached_far_x = false;
        for _ in 0..2_000 {
            now += 501;
            let position = bounce.next_position(now);
            assert!(position.x <= 150 - 25 + 1);
            assert!(position.y <= 100 - 25 + 1);
            if position.x == 126 {
                reached_far_x = true;
            }
        }
        assert!(reached_far_x);
    }
}

#[test]
fn bounce_at_the_origin_is_held_at_zero() {
    let area = Playground::standard();
    let mut bounce = DvdBounceMovement::with_offset(Location::new(0, 0), 0, 0, area, (25, 25), 0);
    assert_eq!(bounce.next_position(501), Location::new(0, 0));
    assert_eq!(bounce.next_position(1_002), Location::new(1, 1));
    assert_eq!(bounce.next_position(1_503), Location::new(2, 2));
}

#[test]
fn random_bounce_starts_within_the_spread() {
    let area = Playground::standard();
    let mut xs = Vec::new();
    for _ in 0..200 {
        let mut bounce = DvdBounceMovement::new(Location::new(75, 50), area, (25, 25), 0);
        let position = bounce.next_position(0);
        assert!(position.x >= 33 && position.x <= 93);
        assert!(position.y >= 8 && position.y <= 68);
        xs.push(position.x);
    }
    xs.sort();
    xs.dedup();
    assert!(xs.len() > 10);
}

#[test]
fn movement_is_chosen_by_stage() {
    let area = Playground::standard();
    let shape = (25, 25);
    assert!(matches!(
        get_movement_wrapper(GrowthStage::Egg, area, shape, 0),
        MovementWrapper::EggHop(_)
    ));
    assert!(matches!(
        get_movement_wrapper(GrowthStage::Baby, area, shape, 0),
        MovementWrapper::SmallSteps(_)
    ));
    assert!(matches!(
        get_movement_wrapper(GrowthStage::Kid, area, shape, 0),
        MovementWrapper::DvdBounce(_)
    ));
    assert!(matches!(
        get_movement_wrapper(GrowthStage::Adult, area, shape, 0),
        MovementWrapper::DvdBounce(_)
    ));
    let mut egg = movement_with_offset(GrowthStage::Egg, area, shape, 9, 9, 0);
    assert_eq!(egg.next_position(0), Location::new(75, 50));
    let mut baby = movement_with_offset(GrowthStage::Baby, area, shape, 9, 9, 0);
    assert_eq!(baby.next_position(0), Location::new(68, 43));
    let mut adult = movement_with_offset(GrowthStage::Adult, area, shape, 9, -9, 0);
    assert_eq!(adult.next_position(0), Location::new(72, 29));
    assert_eq!(adult.next_position(501), Location::new(73, 30));
}

#[test]
fn only_bouncing_sprites_must_fit() {
    let small = Playground::new(0, 0, 20, 20);
    assert!(fits_for_movement(GrowthStage::Egg, small, (25, 25)));
    assert!(fits_for_movement(GrowthStage::Baby, small, (25, 25)));
    assert!(!fits_for_movement(GrowthStage::Kid, small, (25, 25)));
    assert!(!fits_for_movement(GrowthStage::Adult, small, (20, 21)));
    assert!(fits_for_movement(GrowthStage::Adult, small, (20, 20)));
}
