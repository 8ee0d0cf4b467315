use torus_trooper::barrage::{Barrage, BulletShapeType};

#[test]
fn settings_and_mirroring() {
    let mut b = Barrage::new(3);
    assert_eq!(b.waits_of(), (0, 0));
    assert!(!b.long_range());
    b.set_wait(10, 20);
    b.set_long_range(true);
    assert_eq!(b.waits_of(), (10, 20));
    assert!(b.long_range());
    let sides: Vec<i32> = (0..40).map(|_| b.x_reverse()).collect();
    assert!(sides.iter().all(|&x| x == 1 || x == -1));
    assert!(sides.contains(&1) && sides.contains(&-1));
    b.set_no_x_reverse();
    assert!((0..10).all(|_| b.x_reverse() == 1));
    assert_ne!(BulletShapeType::Bar, BulletShapeType::Square);
}
