use hill_climb::lifecycle::{EntityId, EntityKind, LifecycleRequest};
use hill_climb::spawner::{update_obstacle, Obstacle};
use hill_climb::vector::Vec2;
use hill_climb::world::{
    FIELD_LEFT_EDGE, OBSTACLE_HALF_WIDTH, OBSTACLE_SPAWN_X, OBSTACLE_SPAWN_Y, OBSTACLE_SPEED,
    SECOND, SPEED_UNIT, UNIT,
};

#[test]
fn spawn_is_beyond_the_right_edge_on_the_ground() {
    let obstacle = Obstacle::spawn();
    assert_eq!(obstacle.position, Vec2::new(OBSTACLE_SPAWN_X, OBSTACLE_SPAWN_Y));
    assert_eq!(obstacle.position, Vec2::new(650 * UNIT, -180 * UNIT));
    assert_eq!(obstacle.velocity, Vec2::new(-200 * SPEED_UNIT, 0));
    assert!(obstacle.is_valid());
    assert!(!obstacle.has_exited());
}

#[test]
fn advance_moves_left_by_speed_times_time() {
    let obstacle = Obstacle::spawn();
    let half = obstacle.advance(SECOND / 2);
    assert_eq!(half.position, Vec2::new(550 * UNIT, OBSTACLE_SPAWN_Y));
    assert_eq!(half.velocity, obstacle.velocity);
    let tick = obstacle.advance(1);
    assert_eq!(tick.position.x, OBSTACLE_SPAWN_X - OBSTACLE_SPEED);
    assert_eq!(tick.position.x, 650 * UNIT - 200_000_000);
    assert_eq!(obstacle.advance(0), obstacle);
    let far = obstacle.advance(i32::MAX);
    assert_eq!(far.position.x, 650 * UNIT - 200_000_000 * (i32::MAX as i64));
    assert!(far.has_exited());
}

#[test]
fn empty_slot_asks_for_a_new_obstacle() {
    let out = update_obstacle(None, SECOND / 2);
    assert_eq!(out.obstacle, None);
    assert_eq!(out.request, Some(LifecycleRequest::Create(EntityKind::Obstacle)));
}

#[test]
fn obstacle_in_the_field_asks_for_nothing() {
    let out = update_obstacle(Some(Obstacle::spawn()), SECOND / 2);
    assert_eq!(out.obstacle, Some(Obstacle::spawn().advance(SECOND / 2)));
    assert_eq!(out.request, None);
}

#[test]
fn exit_is_strictly_beyond_the_left_edge() {
    let edge = FIELD_LEFT_EDGE - OBSTACLE_HALF_WIDTH;
    assert_eq!(edge, -650 * UNIT);
    let at_edge = Obstacle::at(Vec2::new(edge, OBSTACLE_SPAWN_Y)).unwrap();
    assert!(!at_edge.has_exited());
    let stays = update_obstacle(Some(at_edge), 0);
    assert_eq!(stays.obstacle, Some(at_edge));
    assert_eq!(stays.request, None);
    let leaves = update_obstacle(Some(at_edge), 1);
    assert_eq!(leaves.obstacle.unwrap().position.x, edge - 200_000_000);
    assert_eq!(leaves.request, Some(LifecycleRequest::Destroy(EntityId { slot: 2 })));
    assert_eq!(leaves.request, Some(LifecycleRequest::Destroy(EntityKind::Obstacle.id())));
}

#[test]
fn at_refuses_an_obstacle_that_has_left() {
    let edge = FIELD_LEFT_EDGE - OBSTACLE_HALF_WIDTH;
    assert!(Obstacle::at(Vec2::new(edge, 0)).is_some());
    assert!(Obstacle::at(Vec2::new(edge - 1, 0)).is_none());
    assert!(Obstacle::at(Vec2::new(i64::MIN, 0)).is_none());
    assert!(Obstacle::at(Vec2::new(i64::MAX, i64::MAX)).is_some());
    let wrong = Obstacle { position: Vec2::new(0, 0), velocity: Vec2::new(-1, 0) };
    assert!(!wrong.is_valid());
    let drifting = Obstacle { position: Vec2::new(0, 0), velocity: Vec2::new(-OBSTACLE_SPEED, 1) };
    assert!(!drifting.is_valid());
}

#[test]
fn spawner_asks_for_removal_on_the_exit_frame_then_for_a_new_obstacle() {
    let mut slot = None;
    let first = update_obstacle(slot, SECOND / 2);
    assert_eq!(first.request, Some(LifecycleRequest::Create(EntityKind::Obstacle)));
    slot = Some(Obstacle::spawn());
    let x0 = OBSTACLE_SPAWN_X;
    let mut destroyed_on = None;
    for n in 1..=14 {
        let out = update_obstacle(slot, SECOND / 2);
        let moved = out.obstacle.unwrap();
        assert_eq!(moved.position.x, x0 - n * 100 * UNIT);
        let left = x0 - n * 100 * UNIT < FIELD_LEFT_EDGE - OBSTACLE_HALF_WIDTH;
        match out.request {
            Some(LifecycleRequest::Destroy(id)) => {
                assert!(left);
                assert_eq!(id, EntityKind::Obstacle.id());
                destroyed_on = Some(n);
                slot = None;
            }
            Some(LifecycleRequest::Create(_)) => panic!("an obstacle is already there"),
            None => {
                assert!(!left);
                slot = out.obstacle;
            }
        }
    }
    assert_eq!(destroyed_on, Some(14));
    assert_eq!(slot, None);
    let next = update_obstacle(slot, SECOND / 2);
    assert_eq!(next.obstacle, None);
    assert_eq!(next.request, Some(LifecycleRequest::Create(EntityKind::Obstacle)));
}
