use pong::collision::{Aabb, BoundingCircle, Collision, collide_with_side};
use pong::geometry::Vec2;

fn circle(x: i64, y: i64, r: i64) -> BoundingCircle {
    BoundingCircle { center: Vec2 { x, y }, radius: r }
}

fn boxed(cx: i64, cy: i64, hx: i64, hy: i64) -> Aabb {
    Aabb::new(Vec2 { x: cx, y: cy }, Vec2 { x: hx, y: hy })
}

#[test]
fn separated_pair_misses() {
    // Closest point of the box to the centre is (6, 0): squared distance 36
    // exceeds the squared radius 25.
    let r = collide_with_side(&circle(0, 0, 5), &boxed(8, 0, 2, 2));
    assert_eq!(r, None);
}

#[test]
fn touching_pair_hits() {
    // Closest point (4, 0): squared distance 16 is within 25, and the offset
    // is purely horizontal.
    let r = collide_with_side(&circle(0, 0, 5), &boxed(6, 0, 2, 2));
    assert_eq!(r, Some(Collision::Horizontal));
}

#[test]
fn boundary_distance_still_hits() {
    // Closest point (5, 0): squared distance 25 equals the squared radius, and
    // the test is inclusive.
    let r = collide_with_side(&circle(0, 0, 5), &boxed(7, 0, 2, 2));
    assert_eq!(r, Some(Collision::Horizontal));
}

#[test]
fn vertical_offset_classified_vertical() {
    let r = collide_with_side(&circle(0, 0, 5), &boxed(0, 6, 2, 2));
    assert_eq!(r, Some(Collision::Vertical));
}

#[test]
fn equal_offsets_break_toward_vertical() {
    // Closest corner (2, 2): the offsets are -2 and -2, a tie, which counts
    // as a vertical hit.
    let r = collide_with_side(&circle(0, 0, 5), &boxed(4, 4, 2, 2));
    assert_eq!(r, Some(Collision::Vertical));
}

#[test]
fn centre_inside_box_counts_vertical() {
    // The closest point is the centre itself: zero offsets tie, so vertical.
    let r = collide_with_side(&circle(0, 0, 5), &boxed(1, 1, 4, 4));
    assert_eq!(r, Some(Collision::Vertical));
}

#[test]
fn degenerate_circle_is_a_point_test() {
    // A zero-radius circle inside the box still reports a hit; outside, a
    // miss.
    assert_eq!(collide_with_side(&circle(0, 0, 0), &boxed(1, 0, 2, 2)), Some(Collision::Vertical));
    assert_eq!(collide_with_side(&circle(10, 0, 0), &boxed(1, 0, 2, 2)), None);
}

#[test]
fn degenerate_box_is_a_point_test() {
    // A zero-extent box at distance 3 from a radius-5 circle still collides.
    let r = collide_with_side(&circle(0, 0, 5), &boxed(3, 0, 0, 0));
    assert_eq!(r, Some(Collision::Horizontal));
    assert_eq!(collide_with_side(&circle(0, 0, 5), &boxed(9, 0, 0, 0)), None);
}
