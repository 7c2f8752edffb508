use bevy_balls::{
    check_collisions, check_collisions_toggle, clamp_to_room, collision_check, entity_count,
    integrate, spawn_random, Ball, EntityStore, Position, Room, Simulation, Velocity, UNIT,
};

fn pos(x: i32, y: i32) -> Position {
    Position { x, y }
}

fn vel(x: i64, y: i64) -> Velocity {
    Velocity { x, y }
}

fn ball(x: i32, y: i32, vx: i64, vy: i64, marked: bool) -> Ball {
    Ball { position: pos(x, y), velocity: vel(vx, vy), marked }
}

fn store_of(balls: Vec<Ball>) -> EntityStore {
    EntityStore::from_balls(balls)
}

fn wide_room() -> Room {
    Room { half_x: 10 * UNIT, half_y: 10 * UNIT }
}

const U: i64 = UNIT as i64;

#[test]
fn horizontal_neighbour_collides() {
    let r = collision_check(&pos(0, 0), &pos(UNIT, 0));
    assert_eq!(r, Some(vel(-U, 0)));
}

#[test]
fn distant_vertical_neighbour_still_collides() {
    let r = collision_check(&pos(0, 0), &pos(0, 3 * UNIT));
    assert_eq!(r, Some(vel(0, -3 * U)));
    let far = collision_check(&pos(5, -1000 * UNIT), &pos(5, 1000 * UNIT));
    assert_eq!(far, Some(vel(0, -2000 * U)));
}

#[test]
fn horizontal_gap_of_three_does_not_collide() {
    assert_eq!(collision_check(&pos(3 * UNIT, 0), &pos(0, 0)), None);
}

#[test]
fn gap_of_exactly_two_collides() {
    assert_eq!(collision_check(&pos(2 * UNIT, 0), &pos(0, 0)), Some(vel(2 * U, 0)));
    assert_eq!(collision_check(&pos(2 * UNIT + 1, 0), &pos(0, 0)), None);
}

#[test]
fn integration_adds_velocity_times_time() {
    let mut s = store_of(vec![ball(UNIT, 2 * UNIT, U / 2, -U / 4, false)]);
    integrate(&mut s, 2_000_000);
    assert_eq!(s.position(0), pos(2 * UNIT, 3 * UNIT / 2));
    assert_eq!(s.velocity(0), vel(U / 2, -U / 4));
    // the same inputs give the same result
    let mut t = store_of(vec![ball(UNIT, 2 * UNIT, U / 2, -U / 4, false)]);
    integrate(&mut t, 2_000_000);
    assert_eq!(t.position(0), s.position(0));
}

#[test]
fn integration_rounds_down_and_saturates() {
    let mut s = store_of(vec![
        ball(0, 0, -1, 1, false),
        ball(i32::MAX - 1, i32::MIN + 1, U, -U, false),
    ]);
    integrate(&mut s, 1);
    assert_eq!(s.position(0), pos(-1, 0));
    integrate(&mut s, 3_000_000);
    assert_eq!(s.position(1), pos(i32::MAX, i32::MIN));
}

#[test]
fn zero_time_integration_moves_nothing() {
    let mut s = store_of(vec![ball(7, -9, 123_456, -654_321, false)]);
    integrate(&mut s, 0);
    assert_eq!(s.position(0), pos(7, -9));
}

#[test]
fn clamp_jumps_one_unit_inside() {
    let room = Room { half_x: 5 * UNIT, half_y: 5 * UNIT };
    let mut s = store_of(vec![
        ball(6 * UNIT, -6 * UNIT, 1, 2, false),
        ball(-5 * UNIT, 5 * UNIT, 3, 4, false),
        ball(0, 5 * UNIT + 1, 5, 6, false),
    ]);
    clamp_to_room(&mut s, &room);
    assert_eq!(s.position(0), pos(4 * UNIT, -4 * UNIT));
    assert_eq!(s.velocity(0), vel(1, 2));
    assert_eq!(s.position(1), pos(-5 * UNIT, 5 * UNIT));
    assert_eq!(s.position(2), pos(0, 4 * UNIT));
}

#[test]
fn clamp_twice_equals_clamp_once() {
    let room = Room { half_x: UNIT, half_y: UNIT / 2 };
    let balls = vec![
        ball(3 * UNIT, -3 * UNIT, 0, 0, false),
        ball(-UNIT - 1, UNIT, 0, 0, true),
        ball(0, 0, 0, 0, false),
    ];
    let mut once = store_of(balls.clone());
    clamp_to_room(&mut once, &room);
    let mut twice = store_of(balls);
    clamp_to_room(&mut twice, &room);
    clamp_to_room(&mut twice, &room);
    for i in 0..3 {
        assert_eq!(once.ball(i), twice.ball(i));
    }
    assert_eq!(once.position(0), pos(0, UNIT / 2));
}

#[test]
fn clamp_in_narrow_room_flips_sides() {
    let room = Room { half_x: UNIT / 4, half_y: UNIT / 4 };
    let mut s = store_of(vec![ball(UNIT, 0, 0, 0, false)]);
    clamp_to_room(&mut s, &room);
    assert_eq!(s.position(0), pos(-3 * UNIT / 4, 0));
    clamp_to_room(&mut s, &room);
    assert_eq!(s.position(0), pos(3 * UNIT / 4, 0));
}

#[test]
fn first_match_wins_among_three() {
    let mut s = store_of(vec![
        ball(0, 0, 11, 12, false),
        ball(UNIT, 0, 21, 22, false),
        ball(0, UNIT, 31, 32, false),
    ]);
    check_collisions(&mut s, &wide_room());
    assert_eq!(s.velocity(0), vel(0, -U));
    assert_eq!(s.velocity(1), vel(U, 0));
    assert_eq!(s.velocity(2), vel(31, 32));
    assert_eq!(s.position(1), pos(UNIT, 0));
}

#[test]
fn a_lone_ball_does_not_collide_with_itself() {
    let mut s = store_of(vec![ball(0, 0, 5, 6, false)]);
    check_collisions(&mut s, &wide_room());
    assert_eq!(s.velocity(0), vel(5, 6));
    check_collisions_toggle(&mut s, &wide_room());
    assert_eq!(s.ball(0), ball(0, 0, 5, 6, false));
}

#[test]
fn plain_scan_clamps_first() {
    let room = Room { half_x: 2 * UNIT, half_y: 2 * UNIT };
    let mut s = store_of(vec![ball(10 * UNIT, 0, 1, 1, false), ball(-10 * UNIT, 0, 2, 2, false)]);
    check_collisions(&mut s, &room);
    assert_eq!(s.position(0), pos(UNIT, 0));
    assert_eq!(s.position(1), pos(-UNIT, 0));
    // offset 2 units: they collide
    assert_eq!(s.velocity(1), vel(-2 * U, 0));
    assert_eq!(s.velocity(0), vel(2 * U, 0));
}

#[test]
fn queued_changes_wait_for_apply() {
    let mut s = store_of(vec![ball(0, 0, 0, 0, false), ball(0, 0, 0, 0, true)]);
    s.queue_add_marker(0);
    s.queue_remove_marker(0);
    s.queue_remove_marker(1);
    s.queue_add_marker(1);
    s.queue_add_marker(9);
    assert!(!s.has_marker(0));
    assert!(s.has_marker(1));
    s.apply_deferred();
    assert!(!s.has_marker(0));
    assert!(s.has_marker(1));
    s.queue_add_marker(0);
    s.queue_remove_marker(1);
    assert!(!s.has_marker(0));
    assert!(s.has_marker(1));
    s.apply_deferred();
    assert!(s.has_marker(0));
    assert!(!s.has_marker(1));
    assert_eq!(s.len(), 2);
}

#[test]
fn toggle_marks_then_unmarks_a_colliding_pair() {
    let mut s = store_of(vec![ball(0, 0, 1, 1, false), ball(UNIT, 0, 2, 2, false)]);
    check_collisions_toggle(&mut s, &wide_room());
    assert!(s.has_marker(0) && s.has_marker(1));
    assert_eq!(s.velocity(0), vel(-U, 0));
    assert_eq!(s.velocity(1), vel(U, 0));
    check_collisions_toggle(&mut s, &wide_room());
    assert!(!s.has_marker(0) && !s.has_marker(1));
}

#[test]
fn toggle_scans_both_groups() {
    let mut s = store_of(vec![
        ball(0, 0, 1, 1, false),
        ball(UNIT, 0, 2, 2, false),
        ball(0, UNIT, 3, 3, true),
    ]);
    check_collisions_toggle(&mut s, &wide_room());
    assert!(s.has_marker(0));
    assert!(s.has_marker(1));
    assert!(!s.has_marker(2));
    assert_eq!(s.velocity(0), vel(0, -U));
    assert_eq!(s.velocity(1), vel(U, 0));
    assert_eq!(s.velocity(2), vel(-U, U));
}

#[test]
fn entity_count_is_room_area() {
    assert_eq!(entity_count(&Room { half_x: UNIT, half_y: UNIT }), 4);
    assert_eq!(entity_count(&Room { half_x: 5 * UNIT, half_y: 5 * UNIT }), 100);
    assert_eq!(entity_count(&Room { half_x: 5 * UNIT / 4, half_y: 5 * UNIT / 4 }), 6);
    assert_eq!(entity_count(&Room { half_x: 0, half_y: 0 }), 0);
    assert_eq!(entity_count(&Room { half_x: -UNIT, half_y: -UNIT }), 0);
}

#[test]
fn spawned_balls_lie_in_the_room() {
    let room = Room { half_x: 3 * UNIT, half_y: 2 * UNIT };
    let s = spawn_random(&room);
    assert_eq!(s.len(), 24);
    for i in 0..s.len() {
        let b = s.ball(i);
        assert!(-3 * UNIT <= b.position.x && b.position.x < 3 * UNIT);
        assert!(-2 * UNIT <= b.position.y && b.position.y < 2 * UNIT);
        assert!(-U <= b.velocity.x && b.velocity.x < U);
        assert!(-U <= b.velocity.y && b.velocity.y < U);
        assert!(!b.marked);
    }
    let first = s.ball(0);
    assert!((1..s.len()).any(|i| s.ball(i) != first));
}

fn still_run(toggle: bool) {
    let mut sim = Simulation::new(Room { half_x: UNIT, half_y: UNIT }, toggle);
    assert_eq!(sim.store.len(), 4);
    let start: Vec<Position> = (0..4).map(|i| sim.store.position(i)).collect();
    for _ in 0..10 {
        sim.tick(0);
        assert_eq!(sim.store.len(), 4);
        for i in 0..4 {
            assert_eq!(sim.store.position(i), start[i]);
        }
    }
}

#[test]
fn still_ticks_keep_positions_plain() {
    still_run(false);
}

#[test]
fn still_ticks_keep_positions_toggle() {
    still_run(true);
}

#[test]
fn ticks_keep_the_count() {
    let mut sim = Simulation::new(Room { half_x: 2 * UNIT, half_y: 2 * UNIT }, true);
    for _ in 0..20 {
        sim.tick(16_000);
        assert_eq!(sim.store.len(), 16);
    }
}
