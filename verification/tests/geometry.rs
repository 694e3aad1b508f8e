use space_shooter::geometry::{
    rectangle_intersects_circle, subpixels_to_pixels, Bounds, Circle, Clip, Dest, Rectangle,
};

fn rect(x: i64, y: i64, w: i64, h: i64) -> Rectangle {
    Rectangle { x, y, width: w, height: h }
}

#[test]
fn rectangle_accessors() {
    let r = rect(10, 20, 30, 40);
    assert_eq!(r.left(), 10);
    assert_eq!(r.right(), 40);
    assert_eq!(r.top(), 20);
    assert_eq!(r.bottom(), 60);
}

#[test]
fn rectangle_builders() {
    let r = rect(1, 2, 3, 4);
    assert_eq!(r.with_position(9, 8), rect(9, 8, 3, 4));
    assert_eq!(r.with_size(7, 6), rect(1, 2, 7, 6));
    assert_eq!(r.with_offset(10, -20), rect(11, -18, 3, 4));
}

#[test]
fn move_inside_clamps() {
    let boundary = rect(0, 0, 100, 100);
    assert_eq!(rect(-5, 30, 10, 10).move_inside(&boundary), Some(rect(0, 30, 10, 10)));
    assert_eq!(rect(95, 95, 10, 10).move_inside(&boundary), Some(rect(90, 90, 10, 10)));
    assert_eq!(rect(40, 40, 10, 10).move_inside(&boundary), Some(rect(40, 40, 10, 10)));
    assert_eq!(rect(0, 0, 200, 10).move_inside(&boundary), None);
}

#[test]
fn union_covers_both() {
    let a = rect(0, 0, 10, 10);
    let b = rect(20, 5, 10, 10);
    assert_eq!(a.union(&b), rect(0, 0, 30, 15));
}

#[test]
fn intersection_overlap() {
    let a = rect(0, 0, 10, 10);
    let b = rect(5, 5, 10, 10);
    assert_eq!(a.intersection(&b), Some(rect(5, 5, 5, 5)));
    assert!(a.intersects(&b));
}

#[test]
fn intersection_touching_edges_is_empty() {
    let a = rect(0, 0, 10, 10);
    let b = rect(10, 0, 10, 10);
    assert_eq!(a.intersection(&b), None);
    assert!(!a.intersects(&b));
}

#[test]
fn containment() {
    let outer = rect(0, 0, 100, 100);
    let inner = rect(10, 10, 20, 20);
    assert!(outer.contains(&inner));
    assert!(inner.contained_by(&outer));
    assert!(!inner.contains(&outer));
}

#[test]
fn circle_accessors() {
    let c = Circle { x: 50, y: 60, radius: 5 };
    assert_eq!(c.left(), 45);
    assert_eq!(c.right(), 55);
    assert_eq!(c.top(), 55);
    assert_eq!(c.bottom(), 65);
}

#[test]
fn circle_overlap_is_strict() {
    let a = Circle { x: 0, y: 0, radius: 10 };
    let near = Circle { x: 19, y: 0, radius: 10 };
    let touching = Circle { x: 20, y: 0, radius: 10 };
    assert!(a.intersects(&near));
    assert!(!a.intersects(&touching));
}

#[test]
fn circle_against_rectangle() {
    let r = rect(0, 0, 100, 100);
    let inside = Circle { x: 50, y: 50, radius: 5 };
    let outside = Circle { x: 200, y: 50, radius: 5 };
    let corner = Circle { x: 103, y: 103, radius: 5 };
    assert!(rectangle_intersects_circle(&inside, &r));
    assert!(!rectangle_intersects_circle(&outside, &r));
    // distance from (103, 103) to the corner (100, 100) is sqrt(18) < 5
    assert!(rectangle_intersects_circle(&corner, &r));
}

#[test]
fn bounds_dispatch() {
    let r = Bounds::Rectangle(rect(0, 0, 10, 10));
    let c = Bounds::Circle(Circle { x: 5, y: 5, radius: 3 });
    assert_eq!(r.left(), 0);
    assert_eq!(c.left(), 2);
    assert_eq!(c.bottom(), 8);
    assert!(r.intersects(&c));
    let far = Bounds::Circle(Circle { x: 50, y: 50, radius: 3 });
    assert!(!r.intersects(&far));
}

#[test]
fn subpixel_truncation_rounds_toward_zero() {
    assert_eq!(subpixels_to_pixels(1999), 1);
    assert_eq!(subpixels_to_pixels(-1999), -1);
    assert_eq!(subpixels_to_pixels(2000), 2);
    assert_eq!(subpixels_to_pixels(-2000), -2);
    assert_eq!(subpixels_to_pixels(0), 0);
}

#[test]
fn to_dest_converts_whole_pixels() {
    let r = rect(12_000, -7_000, 96_000, 50_000);
    assert_eq!(
        r.to_dest(),
        Ok(Dest { x: 12, y: -7, width: 96, height: 50 })
    );
}

#[test]
fn to_dest_rejects_empty_extents() {
    assert_eq!(rect(0, 0, 0, 10_000).to_dest(), Err(()));
    assert_eq!(rect(0, 0, 10_000, 0).to_dest(), Err(()));
}

#[test]
fn to_dest_rejects_out_of_range_positions() {
    let r = rect(3_000_000_000_000, 0, 1_000, 1_000);
    assert_eq!(r.to_dest(), Err(()));
}

#[test]
fn bounds_to_dest_only_for_rectangles() {
    let c = Bounds::Circle(Circle { x: 0, y: 0, radius: 5_000 });
    assert_eq!(c.to_dest(), Err(()));
    let r = Bounds::Rectangle(rect(1_000, 2_000, 3_000, 4_000));
    assert_eq!(r.to_dest(), Ok(Dest { x: 1, y: 2, width: 3, height: 4 }));
}

#[test]
fn dest_round_trip_preserves_fields() {
    let d = Dest { x: -31, y: 17, width: 96, height: 42 };
    let r = Rectangle::from_dest(d);
    assert_eq!(r, rect(-31_000, 17_000, 96_000, 42_000));
    assert_eq!(r.to_dest(), Ok(d));
}

#[test]
fn dest_accessors() {
    let d = Dest { x: 3, y: 4, width: 10, height: 20 };
    assert_eq!(d.left(), 3);
    assert_eq!(d.right(), 13);
    assert_eq!(d.top(), 4);
    assert_eq!(d.bottom(), 24);
}

#[test]
fn clip_fields() {
    let c = Clip { x: 1, y: 2, width: 3, height: 4 };
    assert_eq!((c.x, c.y, c.width, c.height), (1, 2, 3, 4));
}

#[test]
fn default_rectangle_is_empty_at_the_origin() {
    assert_eq!(Rectangle::default(), Rectangle { x: 0, y: 0, width: 0, height: 0 });
}

#[test]
fn min_max_on_integers() {
    let a: i64 = 4;
    assert_eq!(a.max(9), 9);
    assert_eq!(a.min(9), 4);
    assert_eq!(a.max(0).min(3), 3);
}
