use hill_climb::collision::{body_box, check_collision, obstacle_box, Aabb};
use hill_climb::physics::Body;
use hill_climb::spawner::Obstacle;
use hill_climb::vector::Vec2;
use hill_climb::world::{
    BODY_HALF_HEIGHT, BODY_HALF_WIDTH, BODY_SPAWN_X, FLOOR_Y, OBSTACLE_HALF_HEIGHT,
    OBSTACLE_HALF_WIDTH, UNIT,
};

fn body_at(x: i64, y: i64) -> Body {
    Body::new(Vec2::new(x, y), Vec2::zero(), Vec2::zero()).unwrap()
}

fn obstacle_at(x: i64, y: i64) -> Obstacle {
    Obstacle::at(Vec2::new(x, y)).unwrap()
}

fn boxes() -> Vec<Aabb> {
    let mut all = Vec::new();
    let coordinates = [-7, -1, 0, 1, 4, 9];
    let extents = [0, 1, 3, -2];
    for x in coordinates {
        for y in coordinates {
            for h in extents {
                all.push(Aabb::new(Vec2::new(x, y), Vec2::new(h, 2)));
            }
        }
    }
    all.push(Aabb::new(Vec2::new(i64::MAX, i64::MIN), Vec2::new(i64::MAX, i64::MAX)));
    all.push(Aabb::new(Vec2::new(i64::MIN, i64::MAX), Vec2::new(i64::MAX, 0)));
    all.push(Aabb::new(Vec2::new(i64::MIN, i64::MAX), Vec2::new(i64::MIN, i64::MIN)));
    all
}

#[test]
fn intersects_is_symmetric() {
    let all = boxes();
    for a in all.iter() {
        for b in all.iter() {
            assert_eq!(a.intersects(b), b.intersects(a));
        }
    }
}

#[test]
fn intersects_agrees_with_the_corner_test() {
    let all = boxes();
    for a in all.iter() {
        for b in all.iter() {
            let ax = (a.center.x as i128, a.half_extents.x as i128);
            let ay = (a.center.y as i128, a.half_extents.y as i128);
            let bx = (b.center.x as i128, b.half_extents.x as i128);
            let by = (b.center.y as i128, b.half_extents.y as i128);
            let by_corners = ax.0 - ax.1 <= bx.0 + bx.1
                && ax.0 + ax.1 >= bx.0 - bx.1
                && ay.0 - ay.1 <= by.0 + by.1
                && ay.0 + ay.1 >= by.0 - by.1;
            assert_eq!(a.intersects(b), by_corners);
        }
    }
}

#[test]
fn boxes_that_touch_intersect() {
    let a = Aabb::new(Vec2::new(0, 0), Vec2::new(5, 5));
    assert!(a.intersects(&a));
    assert!(a.intersects(&Aabb::new(Vec2::new(10, 0), Vec2::new(5, 5))));
    assert!(a.intersects(&Aabb::new(Vec2::new(10, 10), Vec2::new(5, 5))));
    assert!(a.intersects(&Aabb::new(Vec2::new(-10, -10), Vec2::new(5, 5))));
    assert!(!a.intersects(&Aabb::new(Vec2::new(11, 0), Vec2::new(5, 5))));
    assert!(!a.intersects(&Aabb::new(Vec2::new(0, 11), Vec2::new(5, 5))));
    assert!(!a.intersects(&Aabb::new(Vec2::new(0, -11), Vec2::new(5, 5))));
    assert!(a.intersects(&Aabb::new(Vec2::new(100, 0), Vec2::new(95, 0))));
    assert!(!a.intersects(&Aabb::new(Vec2::new(100, 6), Vec2::new(95, 0))));
}

#[test]
fn overlap_on_one_axis_is_no_intersection() {
    let a = Aabb::new(Vec2::new(0, 0), Vec2::new(5, 5));
    assert!(!a.intersects(&Aabb::new(Vec2::new(3, 40), Vec2::new(5, 5))));
    assert!(!a.intersects(&Aabb::new(Vec2::new(40, 3), Vec2::new(5, 5))));
}

#[test]
fn entity_boxes_have_the_fixed_extents() {
    let body = body_at(BODY_SPAWN_X, FLOOR_Y);
    let made = body_box(&body);
    assert_eq!(made.center, body.position);
    assert_eq!(made.half_extents, Vec2::new(BODY_HALF_WIDTH, BODY_HALF_HEIGHT));
    assert_eq!(made.half_extents, Vec2::new(50 * UNIT, 20 * UNIT));
    let obstacle = obstacle_at(3 * UNIT, 4 * UNIT);
    let rock = obstacle_box(&obstacle);
    assert_eq!(rock.center, Vec2::new(3 * UNIT, 4 * UNIT));
    assert_eq!(rock.half_extents, Vec2::new(OBSTACLE_HALF_WIDTH, OBSTACLE_HALF_HEIGHT));
    assert_eq!(rock.half_extents, Vec2::new(50 * UNIT, 20 * UNIT));
}

#[test]
fn overlap_by_one_unit_on_both_axes_is_a_collision() {
    let body = body_at(BODY_SPAWN_X, FLOOR_Y);
    let near = obstacle_at(BODY_SPAWN_X + 99 * UNIT, FLOOR_Y + 39 * UNIT);
    assert!(check_collision(&body, &Some(near)));
    let touching = obstacle_at(BODY_SPAWN_X + 100 * UNIT, FLOOR_Y + 40 * UNIT);
    assert!(check_collision(&body, &Some(touching)));
    let beside = obstacle_at(BODY_SPAWN_X + 100 * UNIT + 1, FLOOR_Y);
    assert!(!check_collision(&body, &Some(beside)));
    let above = obstacle_at(BODY_SPAWN_X, FLOOR_Y + 40 * UNIT + 1);
    assert!(!check_collision(&body, &Some(above)));
    let behind = obstacle_at(BODY_SPAWN_X - 100 * UNIT, FLOOR_Y);
    assert!(check_collision(&body, &Some(behind)));
}

#[test]
fn an_empty_slot_collides_with_nothing() {
    let body = body_at(BODY_SPAWN_X, FLOOR_Y);
    assert!(!check_collision(&body, &None));
}

#[test]
fn a_body_in_the_air_clears_the_obstacle() {
    let low = body_at(BODY_SPAWN_X, FLOOR_Y + 40 * UNIT);
    let high = body_at(BODY_SPAWN_X, FLOOR_Y + 41 * UNIT);
    let obstacle = obstacle_at(BODY_SPAWN_X + 10 * UNIT, FLOOR_Y);
    assert!(check_collision(&low, &Some(obstacle)));
    assert!(!check_collision(&high, &Some(obstacle)));
}
