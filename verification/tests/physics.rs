use hill_climb::physics::Body;
use hill_climb::vector::Vec2;
use hill_climb::world::{
    BODY_SPAWN_X, BODY_SPAWN_Y, FLOOR_Y, GROUND_Y, MAX_JUMP_SPEED, SECOND, SPEED_UNIT, UNIT,
};

fn resting() -> Body {
    Body::new(Vec2::new(BODY_SPAWN_X, FLOOR_Y), Vec2::zero(), Vec2::zero()).unwrap()
}

fn airborne(height: i64, speed: i64) -> Body {
    Body::new(
        Vec2::new(BODY_SPAWN_X, FLOOR_Y + height * UNIT),
        Vec2::new(0, speed * SPEED_UNIT),
        Vec2::zero(),
    )
    .unwrap()
}

#[test]
fn spawn_is_at_rest_on_the_surface() {
    let body = Body::spawn();
    assert_eq!(body.position, Vec2::new(BODY_SPAWN_X, BODY_SPAWN_Y));
    assert_eq!(body.position, Vec2::new(-400 * UNIT, -200 * UNIT));
    assert_eq!(body.velocity, Vec2::zero());
    assert_eq!(body.charge, Vec2::zero());
    assert!(body.is_valid());
    assert!(!body.is_grounded());
}

#[test]
fn first_step_lifts_the_body_onto_the_ground() {
    let body = Body::spawn().integrate(false, false, 0);
    assert_eq!(body.position, Vec2::new(BODY_SPAWN_X, FLOOR_Y));
    assert_eq!(body.velocity, Vec2::zero());
    assert!(body.is_grounded());
    let later = Body::spawn().integrate(true, true, SECOND / 60);
    assert_eq!(later.position, Vec2::new(BODY_SPAWN_X, FLOOR_Y));
    assert_eq!(later.velocity, Vec2::zero());
    assert_eq!(later.charge, Vec2::zero());
}

#[test]
fn holding_for_a_second_then_releasing_gives_full_jump_speed() {
    let mut body = resting();
    for frame in 1..=10 {
        body = body.integrate(true, false, SECOND / 10);
        assert_eq!(body.charge.y, frame * 80 * SPEED_UNIT);
        assert_eq!(body.position.y, FLOOR_Y);
        assert_eq!(body.velocity, Vec2::zero());
    }
    assert_eq!(body.charge, Vec2::new(0, MAX_JUMP_SPEED));
    let banked = body.release(true);
    assert_eq!(banked.velocity.y, MAX_JUMP_SPEED);
    assert_eq!(banked.velocity, Vec2::new(0, 800 * SPEED_UNIT));
    assert_eq!(banked.charge, Vec2::zero());
    let released = body.integrate(false, true, 0);
    assert_eq!(released.velocity.y, MAX_JUMP_SPEED);
    assert_eq!(released.charge, Vec2::zero());
    assert_eq!(released.position, body.position);
}

#[test]
fn release_frame_with_time_applies_gravity_and_moves() {
    let charged =
        Body::new(Vec2::new(BODY_SPAWN_X, FLOOR_Y), Vec2::zero(), Vec2::new(0, MAX_JUMP_SPEED))
            .unwrap();
    let out = charged.integrate(false, true, SECOND / 10);
    assert_eq!(out.velocity, Vec2::new(0, 720 * SPEED_UNIT));
    assert_eq!(out.position, Vec2::new(BODY_SPAWN_X, FLOOR_Y + 72 * UNIT));
    assert_eq!(out.charge, Vec2::zero());
}

#[test]
fn charge_saturates_and_never_goes_negative() {
    let mut body = resting();
    let deltas = [0, 1, 250_000, 999_999, 1_000_000, i32::MAX, 7, 0, 16_667];
    for dt in deltas {
        body = body.integrate(true, false, dt);
        assert!(body.charge.y >= 0);
        assert!(body.charge.y <= MAX_JUMP_SPEED);
        assert_eq!(body.charge.x, 0);
        assert!(body.is_valid());
    }
    assert_eq!(body.charge.y, MAX_JUMP_SPEED);
}

#[test]
fn charge_grows_by_rate_times_time() {
    let body = resting().charge(true, 250_000);
    assert_eq!(body.charge, Vec2::new(0, 200 * SPEED_UNIT));
    let more = body.charge(true, 1);
    assert_eq!(more.charge.y, 200 * SPEED_UNIT + 800);
    let full = more.charge(true, SECOND);
    assert_eq!(full.charge.y, MAX_JUMP_SPEED);
    assert_eq!(resting().charge(false, SECOND), resting());
}

#[test]
fn charge_does_not_grow_in_the_air() {
    let body = airborne(100, 50);
    assert_eq!(body.charge(true, SECOND), body);
    let out = body.integrate(true, false, 1000);
    assert_eq!(out.charge, Vec2::zero());
}

#[test]
fn release_while_airborne_is_a_no_op() {
    let body = Body::new(
        Vec2::new(BODY_SPAWN_X, FLOOR_Y + 100 * UNIT),
        Vec2::new(0, -30 * SPEED_UNIT),
        Vec2::new(0, 300 * SPEED_UNIT),
    )
    .unwrap();
    assert!(!body.is_grounded());
    assert_eq!(body.release(true), body);
    assert_eq!(body.release(true).velocity, body.velocity);
    assert_eq!(body.integrate(false, true, 20_000), body.integrate(false, false, 20_000));
    assert_eq!(body.integrate(true, true, 0).velocity, body.velocity);
    assert_eq!(body.integrate(true, true, 0).charge, body.charge);
}

#[test]
fn release_without_the_event_keeps_the_charge() {
    let charged =
        Body::new(Vec2::new(BODY_SPAWN_X, FLOOR_Y), Vec2::zero(), Vec2::new(0, 5 * SPEED_UNIT))
            .unwrap();
    assert_eq!(charged.release(false), charged);
    assert_eq!(charged.integrate(false, false, 1000).charge, charged.charge);
}

#[test]
fn resting_body_is_a_fixed_point_of_a_zero_frame() {
    let body = resting();
    assert_eq!(body.integrate(false, false, 0), body);
    let charged =
        Body::new(Vec2::new(7 * UNIT, FLOOR_Y), Vec2::zero(), Vec2::new(0, 123)).unwrap();
    assert_eq!(charged.integrate(false, false, 0), charged);
    assert_eq!(charged.fall(0), charged);
}

#[test]
fn free_flight_is_exact() {
    let body = airborne(200, 0);
    let out = body.integrate(false, false, SECOND / 2);
    assert_eq!(out.velocity, Vec2::new(0, -400 * SPEED_UNIT));
    assert_eq!(out.position, Vec2::new(BODY_SPAWN_X, FLOOR_Y));
    assert!(out.is_grounded());
    let short = body.fall(SECOND / 4);
    assert_eq!(short.velocity.y, -200 * SPEED_UNIT);
    assert_eq!(short.position.y, FLOOR_Y + 150 * UNIT);
    let tiny = body.fall(1);
    assert_eq!(tiny.velocity.y, -800);
    assert_eq!(tiny.position.y, FLOOR_Y + 200 * UNIT - 800);
}

#[test]
fn landing_stops_the_body() {
    let body = airborne(10, -100);
    let out = body.integrate(false, false, SECOND);
    assert_eq!(out.position, Vec2::new(BODY_SPAWN_X, FLOOR_Y));
    assert_eq!(out.velocity, Vec2::zero());
    let longest = airborne(400, 0).integrate(false, false, i32::MAX);
    assert_eq!(longest.position.y, FLOOR_Y);
    assert_eq!(longest.velocity, Vec2::zero());
}

#[test]
fn a_full_jump_peaks_under_four_hundred_units_and_lands() {
    let mut body =
        Body::new(Vec2::new(BODY_SPAWN_X, FLOOR_Y), Vec2::zero(), Vec2::new(0, MAX_JUMP_SPEED))
            .unwrap();
    body = body.integrate(false, true, 1000);
    let mut peak = body.position.y;
    for _ in 0..2100 {
        body = body.integrate(false, false, 1000);
        assert!(body.is_valid());
        assert!(body.position.y >= FLOOR_Y);
        assert!(body.velocity.y.abs() <= MAX_JUMP_SPEED);
        assert_eq!(body.position.x, BODY_SPAWN_X);
        assert_eq!(body.velocity.x, 0);
        if body.position.y > peak {
            peak = body.position.y;
        }
    }
    assert!(peak <= FLOOR_Y + 400 * UNIT);
    assert!(peak > FLOOR_Y + 399 * UNIT);
    assert_eq!(body.position.y, FLOOR_Y);
    assert_eq!(body.velocity, Vec2::zero());
}

#[test]
fn a_body_that_comes_down_exactly_to_resting_height_is_stopped_a_frame_later() {
    let body = airborne(200, 0);
    let down = body.integrate(false, false, SECOND / 2);
    assert_eq!(down.position.y, FLOOR_Y);
    assert_eq!(down.velocity.y, -400 * SPEED_UNIT);
    let stopped = down.integrate(false, false, 1);
    assert_eq!(stopped.position.y, FLOOR_Y);
    assert_eq!(stopped.velocity, Vec2::zero());
}

#[test]
fn same_inputs_give_the_same_run() {
    let deltas = [16_667, 16_666, 33_333, 0, 1, 250_000];
    let mut first = Body::spawn();
    let mut second = Body::spawn();
    for (turn, dt) in deltas.iter().cycle().take(200).enumerate() {
        let held = turn % 7 < 4;
        let released = turn % 7 == 4;
        first = first.integrate(held, released, *dt);
        second = second.integrate(held, released, *dt);
        assert_eq!(first, second);
    }
}

#[test]
fn new_accepts_exactly_the_valid_bodies() {
    let place = Vec2::new(0, FLOOR_Y);
    assert!(Body::new(place, Vec2::zero(), Vec2::zero()).is_some());
    assert!(Body::new(place, Vec2::new(0, MAX_JUMP_SPEED), Vec2::zero()).is_some());
    assert!(Body::new(place, Vec2::new(0, -MAX_JUMP_SPEED), Vec2::zero()).is_some());
    assert!(Body::new(place, Vec2::new(0, MAX_JUMP_SPEED + 1), Vec2::zero()).is_none());
    assert!(Body::new(place, Vec2::new(1, 0), Vec2::zero()).is_none());
    assert!(Body::new(place, Vec2::zero(), Vec2::new(1, 0)).is_none());
    assert!(Body::new(place, Vec2::zero(), Vec2::new(0, -1)).is_none());
    assert!(Body::new(place, Vec2::zero(), Vec2::new(0, MAX_JUMP_SPEED)).is_some());
    assert!(Body::new(place, Vec2::zero(), Vec2::new(0, MAX_JUMP_SPEED + 1)).is_none());
    assert!(Body::new(Vec2::new(0, GROUND_Y), Vec2::zero(), Vec2::zero()).is_some());
    assert!(Body::new(Vec2::new(0, GROUND_Y - 1), Vec2::zero(), Vec2::zero()).is_none());
    assert!(Body::new(Vec2::new(0, FLOOR_Y + 400 * UNIT), Vec2::zero(), Vec2::zero()).is_some());
    assert!(Body::new(Vec2::new(0, FLOOR_Y + 400 * UNIT + 1), Vec2::zero(), Vec2::zero())
        .is_none());
    assert!(Body::new(Vec2::new(0, FLOOR_Y + 400 * UNIT), Vec2::new(0, 1), Vec2::zero())
        .is_none());
    assert!(Body::new(Vec2::new(0, i64::MAX), Vec2::new(0, i64::MIN), Vec2::zero()).is_none());
    assert!(Body::new(Vec2::new(i64::MIN, FLOOR_Y), Vec2::zero(), Vec2::zero()).is_some());
    let made = Body::new(place, Vec2::new(0, 3), Vec2::new(0, 4)).unwrap();
    assert_eq!(made, Body { position: place, velocity: Vec2::new(0, 3), charge: Vec2::new(0, 4) });
}
