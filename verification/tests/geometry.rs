use pong::rectangle::Rectangle;

#[test]
fn new_sets_all_fields() {
    let r = Rectangle::new(3, -4, 10, 20);
    assert_eq!(r.x, 3);
    assert_eq!(r.y, -4);
    assert_eq!(r.width, 10);
    assert_eq!(r.height, 20);
}

#[test]
fn new_centered_halves_the_size() {
    let r = Rectangle::new_centered(100, 100, 10, 8);
    assert_eq!(r.x, 95);
    assert_eq!(r.y, 96);
    assert_eq!(r.width, 10);
    assert_eq!(r.height, 8);
}

#[test]
fn new_centered_truncates_odd_sizes() {
    let r = Rectangle::new_centered(100, 100, 15, 15);
    assert_eq!(r.x, 93);
    assert_eq!(r.y, 93);
}

#[test]
fn intersects_is_symmetric_on_samples() {
    let samples = [
        (Rectangle::new(0, 0, 10, 10), Rectangle::new(5, 5, 10, 10)),
        (Rectangle::new(0, 0, 10, 10), Rectangle::new(50, 50, 10, 10)),
        (Rectangle::new(-20, -20, 40, 5), Rectangle::new(0, 0, 3, 3)),
        (Rectangle::new(0, 0, 0, 0), Rectangle::new(0, 0, 10, 10)),
    ];
    for (a, b) in samples {
        assert_eq!(a.intersects(b), b.intersects(a));
    }
}

#[test]
fn rectangle_intersects_itself() {
    let a = Rectangle::new(7, -3, 12, 9);
    assert!(a.intersects(a));
}

#[test]
fn touching_edges_count_as_intersecting() {
    let a = Rectangle::new(0, 0, 10, 10);
    let b = Rectangle::new(10, 0, 10, 10);
    let c = Rectangle::new(0, 10, 10, 10);
    assert!(a.intersects(b));
    assert!(a.intersects(c));
}

#[test]
fn separated_rectangles_do_not_intersect() {
    let a = Rectangle::new(0, 0, 10, 10);
    let b = Rectangle::new(11, 0, 10, 10);
    let c = Rectangle::new(0, 11, 10, 10);
    assert!(!a.intersects(b));
    assert!(!a.intersects(c));
}

#[test]
fn contains_point_is_inclusive_on_all_edges() {
    let r = Rectangle::new(0, 0, 10, 10);
    assert!(r.contains_point(0, 0));
    assert!(r.contains_point(10, 10));
    assert!(r.contains_point(0, 10));
    assert!(r.contains_point(5, 5));
    assert!(!r.contains_point(11, 5));
    assert!(!r.contains_point(5, -1));
}
