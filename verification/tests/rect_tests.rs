use walk_the_dog::rect::{sat_add, sat_neg, Point, Rect};

#[test]
fn two_rects_that_intersect_on_the_left() {
    let rect1 = Rect {
        position: Point { x: 10, y: 10 },
        width: 10,
        height: 10,
    };
    let rect2 = Rect {
        position: Point { x: 0, y: 10 },
        width: 10,
        height: 10,
    };

    assert!(rect2.intersects(&rect1));
}

#[test]
fn two_rects_that_intersect_on_the_bottom() {
    let rect1 = Rect {
        position: Point { x: 10, y: 10 },
        width: 10,
        height: 10,
    };
    let rect2 = Rect {
        position: Point { x: 10, y: 0 },
        width: 10,
        height: 10,
    };

    assert!(rect2.intersects(&rect1));
}

#[test]
fn one_rect_fully_below_another() {
    let rect1 = Rect {
        position: Point { x: 10, y: 10 },
        width: 100,
        height: 10,
    };
    let rect2 = Rect {
        position: Point { x: 10, y: 20 },
        width: 100,
        height: 10,
    };

    assert!(!rect2.intersects(&rect1));
}

#[test]
fn one_rect_fully_left_of_another() {
    let rect1 = Rect {
        position: Point { x: 20, y: 10 },
        width: 10,
        height: 10,
    };
    let rect2 = Rect {
        position: Point { x: 0, y: 10 },
        width: 10,
        height: 10,
    };

    assert!(!rect2.intersects(&rect1));
}

#[test]
fn intersection_is_symmetric_away_from_touching_edges() {
    let a = Rect::new_from_x_y(0, 0, 10, 10);
    let b = Rect::new_from_x_y(5, 5, 10, 10);
    let c = Rect::new_from_x_y(50, 50, 10, 10);

    assert_eq!(a.intersects(&b), b.intersects(&a));
    assert_eq!(a.intersects(&c), c.intersects(&a));
}

#[test]
fn touching_edges_follow_the_asymmetric_convention() {
    // B starts exactly where A ends: A's right edge touches B's left edge.
    let a = Rect::new_from_x_y(0, 0, 10, 10);
    let b = Rect::new_from_x_y(10, 0, 10, 10);

    // The test from A counts its own touching right edge as a hit; the test
    // from B does not count its touching left edge.
    assert!(a.intersects(&b));
    assert!(!b.intersects(&a));
}

#[test]
fn accessors_report_the_edges() {
    let r = Rect::new_from_x_y(3, 4, 10, 20);
    assert_eq!(r.left(), 3);
    assert_eq!(r.right(), 13);
    assert_eq!(r.top(), 4);
    assert_eq!(r.bottom(), 24);
    assert_eq!(r.x(), 3);
    assert_eq!(r.y(), 4);
}

#[test]
fn arithmetic_saturates_at_the_ends_of_the_range() {
    assert_eq!(sat_add(32760, 100), 32767);
    assert_eq!(sat_add(-32760, -100), -32768);
    assert_eq!(sat_add(100, 23), 123);
    assert_eq!(sat_neg(-32768), 32767);
    assert_eq!(sat_neg(4), -4);
}
