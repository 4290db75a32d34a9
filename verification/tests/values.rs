use bounded_point::Point;
use bounded_point::PointBuilder;
use std::collections::hash_map::DefaultHasher;
use std::collections::HashSet;
use std::hash::Hash;
use std::hash::Hasher;

fn hash_of(p: &Point) -> u64 {
    let mut h = DefaultHasher::new();
    p.hash(&mut h);
    h.finish()
}

#[test]
fn points_with_the_same_four_numbers_are_equal() {
    let p = PointBuilder::new(5, 6).build(1, 2);
    let q = PointBuilder::new(5, 6).build(1, 2);
    assert!(p == q);
    assert!(!(p != q));
    assert_eq!(hash_of(&p), hash_of(&q));
}

#[test]
fn points_differ_when_any_of_the_four_numbers_differs() {
    let p = PointBuilder::new(5, 6).build(1, 2);
    assert_ne!(p, PointBuilder::new(5, 6).build(0, 2));
    assert_ne!(p, PointBuilder::new(5, 6).build(1, 3));
    assert_ne!(p, PointBuilder::new(4, 6).build(1, 2));
    assert_ne!(p, PointBuilder::new(5, 7).build(1, 2));
    assert_ne!(p, PointBuilder::new(6, 5).build(2, 1));
}

#[test]
fn same_coordinates_under_other_bounds_are_another_point() {
    assert_ne!(
        PointBuilder::new(5, 5).build(1, 1),
        PointBuilder::new(9, 9).build(1, 1)
    );
    assert_eq!(
        PointBuilder::new(5, 5).build(1, 1).get(),
        PointBuilder::new(9, 9).build(1, 1).get()
    );
}

#[test]
fn points_work_as_set_members() {
    let mut seen = HashSet::new();
    assert!(seen.insert(PointBuilder::new(5, 5).build(1, 1)));
    assert!(!seen.insert(PointBuilder::new(5, 5).build(1, 1)));
    assert!(seen.insert(PointBuilder::new(9, 9).build(1, 1)));
    assert!(seen.insert(PointBuilder::new(5, 5).build(1, 2)));
    assert_eq!(seen.len(), 3);
    assert!(seen.contains(&PointBuilder::new(9, 9).build(1, 1)));
    assert!(!seen.contains(&PointBuilder::new(9, 5).build(1, 1)));
}

#[test]
fn points_are_copied_not_moved() {
    let p = PointBuilder::new(5, 5).build(2, 3);
    let q = p;
    let r = p.clone();
    assert_eq!(p, q);
    assert_eq!(p, r);
    assert_eq!(p.north(), q.north());
    assert_eq!(p.get(), (2, 3));
}

#[test]
fn default_is_the_origin_under_zero_bounds() {
    let d = Point::default();
    assert_eq!(d.get(), (0, 0));
    assert_eq!(d, PointBuilder::new(0, 0).build(0, 0));
    assert_ne!(d, PointBuilder::new(1, 1).build(0, 0));
    assert_eq!(format!("{:?}", d), "Point(0, 0, 0, 0)");
}

#[test]
fn default_is_not_in_bounds() {
    let d = Point::default();
    assert_eq!(d.north(), None);
    assert_eq!(d.east(), None);
    assert_eq!(d.south(), None);
    assert_eq!(d.west(), None);
    assert_eq!(d.checked_add(d), None);
}

#[test]
fn get_drops_the_bounds() {
    assert_eq!(PointBuilder::new(10, 20).build(3, 4).get(), (3, 4));
    assert_eq!(PointBuilder::new(0, 0).build(3, 4).get(), (3, 4));
}

#[test]
fn text_is_x_comma_space_y() {
    assert_eq!(PointBuilder::new(500, 500).build(12, 345).to_string(), "12, 345");
    assert_eq!(PointBuilder::new(3, 3).build(1, 2).to_string(), "1, 2");
    assert_eq!(Point::default().to_string(), "0, 0");
}

#[test]
fn text_does_not_show_the_bounds() {
    assert_eq!(
        PointBuilder::new(5, 5).build(1, 1).to_string(),
        PointBuilder::new(9, 9).build(1, 1).to_string()
    );
}

#[test]
fn text_writes_plain_decimal() {
    let b = PointBuilder::new(0, 0);
    assert_eq!(b.build(9, 10).to_string(), "9, 10");
    assert_eq!(b.build(100, 1009).to_string(), "100, 1009");
    assert_eq!(b.build(1234567890, 987654321).to_string(), "1234567890, 987654321");
    assert_eq!(
        b.build(usize::MAX, 0).to_string(),
        format!("{}, {}", usize::MAX, 0)
    );
    for n in 0..2000usize {
        assert_eq!(b.build(n, 1999 - n).to_string(), format!("{}, {}", n, 1999 - n));
    }
}
