use torus_trooper::shot::{Shot, ShotPool};

#[test]
fn plain_shot_is_spent_on_hit() {
    let mut s = Shot::new(false);
    assert!(s.set_charge_star(false, true));
    assert_eq!(s.damage(), 1);
    assert_eq!(s.add_score(100), (100, true, None));
    assert_eq!(s.multiplier(), 1);
    assert_eq!(s.sparks(), Some((1, 4)));
}

#[test]
fn charge_shot_multiplier_grows_to_cap() {
    let mut s = Shot::new(true);
    assert!(!s.set_charge_star(true, false));
    assert_eq!(s.damage(), 100);
    assert_eq!(s.add_score(10), (10, false, None));
    assert_eq!(s.add_score(10), (20, false, Some(2)));
    for _ in 0..200 {
        s.add_score(1);
    }
    assert_eq!(s.multiplier(), 100);
    assert_eq!(s.add_score(5), (500, false, Some(100)));
}

#[test]
fn short_charge_is_dropped() {
    let mut s = Shot::new(true);
    s.set_charge_star(true, false);
    let mut sounds = 0;
    for _ in 0..22 {
        if s.charge_step() {
            sounds += 1;
        }
    }
    assert_eq!(sounds, 1);
    assert_eq!(s.sparks(), None);
    assert!(s.release());
    assert!(s.is_in_charge());
    s.charge_step();
    assert_eq!(s.charge_cnt(), 23);
    assert_eq!(s.sparks(), Some((3, 12)));
    assert!(!s.release());
    assert!(!s.is_in_charge());
}

#[test]
fn charge_stops_at_full() {
    let mut s = Shot::new(true);
    s.set_charge_star(true, false);
    for _ in 0..200 {
        s.charge_step();
    }
    assert_eq!(s.charge_cnt(), 90);
    s.count_frame();
    assert_eq!(s.cnt(), 1);
    assert!(s.is_charge_shot());
}

#[test]
fn shot_pool_hands_out_plain_and_charge_shots() {
    let mut pool = ShotPool::new(3);
    let (shot, r) = pool.get_instance_and().unwrap();
    assert!(!shot.is_charge_shot());
    assert_eq!(shot.multiplier(), 1);
    let c = pool.get_charging_instance();
    assert!(pool.index(c).is_charge_shot());
    assert_ne!(c.idx(), r.idx());
    pool.release(r);
    pool.clear();
    assert!(pool.get_instance_and().is_some());
}

#[test]
fn shot_pool_runs_out_of_idle_shots() {
    let mut pool = ShotPool::new(2);
    assert!(pool.get_instance_and().is_some());
    assert!(pool.get_instance_and().is_some());
    assert!(pool.get_instance_and().is_none());
}

#[test]
fn default_shot_is_idle_and_plain() {
    let s = Shot::default();
    assert!(!s.is_charge_shot());
    assert!(!s.is_in_charge());
    assert_eq!(s.multiplier(), 1);
    assert_eq!(s.damage(), 0);
}
