//! Circle-circle collision: the inclusive boundary, misses, and the integer
//! square root it leans on.

use asteroids::collision::{circles_collide, int_sqrt, sq_dist};
use asteroids::components::Position;

#[test]
fn touching_circles_collide() {
    // Distance exactly the sum of the radii: 30 + 20 apart on one axis.
    let p1 = Position { x: 0, y: 0 };
    let p2 = Position { x: 50, y: 0 };
    assert!(circles_collide(p1, 30, p2, 20));
}

#[test]
fn overlapping_circles_collide() {
    let p1 = Position { x: 0, y: 0 };
    let p2 = Position { x: 30, y: 40 };
    // Distance 50, radii sum 60.
    assert!(circles_collide(p1, 30, p2, 30));
}

#[test]
fn separated_circles_do_not_collide() {
    let p1 = Position { x: 0, y: 0 };
    let p2 = Position { x: 51, y: 0 };
    assert!(!circles_collide(p1, 30, p2, 20));
}

#[test]
fn collision_is_symmetric() {
    let p1 = Position { x: 12, y: -7 };
    let p2 = Position { x: -30, y: 44 };
    assert_eq!(circles_collide(p1, 40, p2, 29), circles_collide(p2, 29, p1, 40));
}

#[test]
fn squared_distance_is_exact() {
    let p1 = Position { x: 3, y: 4 };
    let p2 = Position { x: 0, y: 0 };
    assert_eq!(sq_dist(p1, p2), 25);
    assert_eq!(sq_dist(p2, p1), 25);
}

#[test]
fn integer_square_root_values() {
    assert_eq!(int_sqrt(0), 0);
    assert_eq!(int_sqrt(1), 1);
    assert_eq!(int_sqrt(24), 4);
    assert_eq!(int_sqrt(25), 5);
    assert_eq!(int_sqrt(26), 5);
    assert_eq!(int_sqrt(999_999), 999);
    assert_eq!(int_sqrt(1_000_000), 1000);
}
