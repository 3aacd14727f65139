use gone_fish::collide::{collide, overlaps, Collision};
use gone_fish::components::{Extent, Position};

fn at(x: i64, y: i64) -> Position {
    Position { x, y }
}

fn sized(width: u64, height: u64) -> Extent {
    Extent { width, height }
}

#[test]
fn separate_boxes_do_not_overlap() {
    assert!(!overlaps(at(0, 0), sized(10, 10), at(20, 0), sized(10, 10)));
    assert_eq!(collide(at(0, 0), sized(10, 10), at(0, 20), sized(10, 10)), None);
}

#[test]
fn touching_boxes_do_not_overlap() {
    // edges meet at x == 5
    assert!(!overlaps(at(0, 0), sized(10, 10), at(10, 0), sized(10, 10)));
    assert!(overlaps(at(1, 0), sized(10, 10), at(10, 0), sized(10, 10)));
}

#[test]
fn odd_sizes_are_halved_exactly() {
    // a spans -0.5..0.5, b spans 0.5..1.5: they touch only
    assert!(!overlaps(at(0, 0), sized(1, 1), at(1, 0), sized(1, 1)));
    // a spans -1.5..1.5, b spans 1..2
    assert!(overlaps(at(0, 0), sized(3, 3), at(2, 0), sized(2, 3)));
    // a spans -1.5..1.5, b spans 1.5..2.5
    assert!(!overlaps(at(0, 0), sized(3, 3), at(2, 0), sized(1, 3)));
}

#[test]
fn overlap_at_the_edge_of_the_number_range() {
    let far = i64::MAX;
    assert!(overlaps(at(far, far), sized(u64::MAX, u64::MAX), at(far - 1, far), sized(2, 2)));
    assert!(!overlaps(at(i64::MIN, 0), sized(2, 2), at(i64::MAX, 0), sized(2, 2)));
}

#[test]
fn side_is_the_shallower_axis() {
    // a sticks out to the left of b by a little, and is well inside vertically
    assert_eq!(collide(at(-9, 0), sized(10, 2), at(0, 0), sized(10, 10)), Some(Collision::Left));
    assert_eq!(collide(at(9, 0), sized(10, 2), at(0, 0), sized(10, 10)), Some(Collision::Right));
    assert_eq!(collide(at(0, -9), sized(2, 10), at(0, 0), sized(10, 10)), Some(Collision::Bottom));
    assert_eq!(collide(at(0, 9), sized(2, 10), at(0, 0), sized(10, 10)), Some(Collision::Top));
}

#[test]
fn contained_box_is_inside() {
    assert_eq!(collide(at(0, 0), sized(2, 2), at(0, 0), sized(10, 10)), Some(Collision::Inside));
    assert_eq!(collide(at(0, 0), sized(10, 10), at(0, 0), sized(10, 10)), Some(Collision::Inside));
}

#[test]
fn corner_overlap_picks_the_axis_with_less_depth() {
    // reaches 1 deep across b's left edge, 4 deep across its bottom edge
    assert_eq!(collide(at(-9, -6), sized(10, 10), at(0, 0), sized(10, 10)), Some(Collision::Left));
    // reaches 4 deep across b's left edge, 1 deep across its bottom edge
    assert_eq!(collide(at(-6, -9), sized(10, 10), at(0, 0), sized(10, 10)), Some(Collision::Bottom));
    // equal depth: the horizontal side is named
    assert_eq!(collide(at(-8, -8), sized(10, 10), at(0, 0), sized(10, 10)), Some(Collision::Left));
}
