use camera_rig::fixed::ONE;
use camera_rig::vector::Vec3;
use camera_rig::zorder::{derived_order, order_z, origin_y, Ordered, UnorderedZ, YOrigin, ZOrder, BAND};

#[test]
fn a_new_order_is_due() {
    let r = Ordered::new(ZOrder(500_000));
    assert_eq!(r, Ordered { order: ZOrder(500_000), unordered: None, changed: true });
}

#[test]
fn the_first_pass_keeps_the_depth_and_adds_the_order() {
    let mut r = Ordered::new(ZOrder(500_000));
    let mut t = Vec3::new(ONE, 2 * ONE, 10 * ONE);
    order_z(&mut r, &mut t);
    assert_eq!(t, Vec3::new(ONE, 2 * ONE, 10_500_000));
    assert_eq!(
        r,
        Ordered { order: ZOrder(500_000), unordered: Some(UnorderedZ(10 * ONE)), changed: false }
    );
}

#[test]
fn a_new_order_is_added_to_the_depth_that_was_kept() {
    let mut r = Ordered {
        order: ZOrder(500_000),
        unordered: Some(UnorderedZ(10 * ONE)),
        changed: true,
    };
    let mut t = Vec3::new(0, 0, 10 * ONE);
    order_z(&mut r, &mut t);
    assert_eq!(t.z, 10_500_000);
    r.set(ZOrder(800_000));
    order_z(&mut r, &mut t);
    assert_eq!(t.z, 10_800_000);
    assert_eq!(r.unordered, Some(UnorderedZ(10 * ONE)));
}

#[test]
fn the_same_order_again_changes_nothing() {
    let mut r = Ordered::new(ZOrder(500_000));
    let mut t = Vec3::new(0, 0, 10 * ONE);
    order_z(&mut r, &mut t);
    let once = (r, t);
    r.set(ZOrder(500_000));
    order_z(&mut r, &mut t);
    assert_eq!((r, t), once);
    order_z(&mut r, &mut t);
    order_z(&mut r, &mut t);
    assert_eq!((r, t), once);
}

#[test]
fn an_order_that_was_not_set_is_not_applied() {
    let mut r = Ordered::new(ZOrder(500_000));
    let mut t = Vec3::new(0, 0, 10 * ONE);
    order_z(&mut r, &mut t);
    t.z = 99 * ONE;
    order_z(&mut r, &mut t);
    assert_eq!(t.z, 99 * ONE);
    r.set(ZOrder(-ONE));
    order_z(&mut r, &mut t);
    assert_eq!(t.z, 9 * ONE);
}

#[test]
fn set_marks_the_order_as_due() {
    let mut r = Ordered { order: ZOrder(1), unordered: Some(UnorderedZ(2)), changed: false };
    r.set(ZOrder(3));
    assert_eq!(r, Ordered { order: ZOrder(3), unordered: Some(UnorderedZ(2)), changed: true });
}

#[test]
fn the_depth_stops_at_the_ends_of_the_range() {
    let mut r = Ordered::new(ZOrder(i64::MAX));
    let mut t = Vec3::new(0, 0, 10);
    order_z(&mut r, &mut t);
    assert_eq!(t.z, i64::MAX);
    assert_eq!(r.unordered, Some(UnorderedZ(10)));
}

#[test]
fn the_order_falls_as_the_entity_climbs() {
    assert_eq!(BAND, 10_000);
    assert_eq!(
        derived_order(Vec3::new(0, 250 * ONE, 0), YOrigin(50 * ONE)),
        ZOrder(-30_000)
    );
    assert_eq!(
        derived_order(Vec3::new(0, -250 * ONE, 0), YOrigin(50 * ONE)),
        ZOrder(20_000)
    );
    assert_eq!(derived_order(Vec3::new(7, 0, 9), YOrigin(0)), ZOrder(0));
}

#[test]
fn the_order_rounds_down() {
    assert_eq!(derived_order(Vec3::new(0, 1, 0), YOrigin(0)), ZOrder(-1));
    assert_eq!(derived_order(Vec3::new(0, 10_000, 0), YOrigin(0)), ZOrder(-1));
    assert_eq!(derived_order(Vec3::new(0, 10_001, 0), YOrigin(0)), ZOrder(-2));
    assert_eq!(derived_order(Vec3::new(0, -1, 0), YOrigin(0)), ZOrder(0));
    assert_eq!(derived_order(Vec3::new(0, -9_999, 0), YOrigin(0)), ZOrder(0));
    assert_eq!(derived_order(Vec3::new(0, -10_000, 0), YOrigin(0)), ZOrder(1));
}

#[test]
fn the_order_is_taken_over_the_whole_range() {
    assert_eq!(
        derived_order(Vec3::new(0, i64::MAX, 0), YOrigin(i64::MAX)),
        ZOrder(-1_844_674_407_370_956)
    );
    assert_eq!(
        derived_order(Vec3::new(0, i64::MIN, 0), YOrigin(i64::MIN)),
        ZOrder(1_844_674_407_370_955)
    );
}

#[test]
fn origin_y_sets_the_order_from_the_place() {
    let mut r = Ordered::new(ZOrder(0));
    let mut t = Vec3::new(0, 250 * ONE, 5 * ONE);
    order_z(&mut r, &mut t);
    assert!(!r.changed);
    origin_y(&mut r, t, YOrigin(50 * ONE));
    assert_eq!(r.order, ZOrder(-30_000));
    assert!(r.changed);
    order_z(&mut r, &mut t);
    assert_eq!(t.z, 5 * ONE - 30_000);
    t.y = -250 * ONE;
    origin_y(&mut r, t, YOrigin(50 * ONE));
    order_z(&mut r, &mut t);
    assert_eq!(t.z, 5 * ONE + 20_000);
}
