use torus_trooper::actor::{Pool, PoolActorRef};

fn live(pool: &Pool<u32>) -> Vec<(usize, usize)> {
    pool.as_refs().iter().map(|r| (r.idx(), r.generation())).collect()
}

#[test]
fn new_pool_is_empty() {
    let pool: Pool<u32> = Pool::new(4);
    assert_eq!(pool.get_num(), 0);
    assert!(live(&pool).is_empty());
}

#[test]
fn get_instance_takes_slots_round_robin() {
    let mut pool: Pool<u32> = Pool::new(3);
    let (_, r1) = pool.get_instance().unwrap();
    let (_, r2) = pool.get_instance().unwrap();
    let (_, r3) = pool.get_instance().unwrap();
    assert_eq!((r1.idx(), r1.generation()), (1, 1));
    assert_eq!((r2.idx(), r2.generation()), (2, 2));
    assert_eq!((r3.idx(), r3.generation()), (0, 3));
    assert_eq!(pool.get_num(), 3);
    assert!(pool.get_instance().is_none());
    assert_eq!(live(&pool), vec![(0, 3), (1, 1), (2, 2)]);
}

#[test]
fn get_instance_on_empty_pool_fails() {
    let mut pool: Pool<u32> = Pool::new(0);
    assert!(pool.get_instance().is_none());
    assert_eq!(pool.get_num(), 0);
}

#[test]
fn actor_written_through_handle_is_read_back() {
    let mut pool: Pool<u32> = Pool::new(2);
    let r = {
        let (a, r) = pool.get_instance().unwrap();
        *a = 42;
        r
    };
    assert_eq!(*pool.index(r), 42);
    *pool.index_mut(r) = 7;
    assert_eq!(*pool.index(r), 7);
    assert_eq!(pool.maybe_index_mut(r).map(|a| *a), Some(7));
}

#[test]
fn released_handle_stays_stale_after_slot_is_reused() {
    let mut pool: Pool<u32> = Pool::new(1);
    let (_, r1) = pool.get_instance().unwrap();
    pool.release(r1);
    assert_eq!(pool.get_num(), 0);
    assert!(pool.maybe_index_mut(r1).is_none());
    let (_, r2) = pool.get_instance().unwrap();
    assert_eq!(r2.idx(), r1.idx());
    assert_ne!(r2.generation(), r1.generation());
    assert!(pool.maybe_index_mut(r1).is_none());
    assert!(pool.maybe_index_mut(r2).is_some());
}

#[test]
fn fresh_handle_keeps_others_live() {
    let mut pool: Pool<u32> = Pool::new(3);
    let (_, a) = pool.get_instance().unwrap();
    let (_, b) = pool.get_instance().unwrap();
    assert_ne!(a, b);
    assert!(pool.maybe_index_mut(a).is_some());
    assert!(pool.maybe_index_mut(b).is_some());
}

#[test]
fn forced_instance_replaces_live_slot() {
    let mut pool: Pool<u32> = Pool::new(2);
    let (_, r1) = pool.get_instance_forced();
    let (_, r2) = pool.get_instance_forced();
    assert_eq!((r1.idx(), r1.generation()), (1, 1));
    assert_eq!((r2.idx(), r2.generation()), (0, 2));
    assert_eq!(pool.get_num(), 2);
    let (_, r3) = pool.get_instance_forced();
    assert_eq!((r3.idx(), r3.generation()), (1, 3));
    assert_eq!(pool.get_num(), 2);
    assert!(pool.maybe_index_mut(r1).is_none());
}

#[test]
fn clear_makes_every_slot_idle() {
    let mut pool: Pool<u32> = Pool::new(3);
    let (_, r) = pool.get_instance().unwrap();
    pool.get_instance().unwrap();
    pool.clear();
    assert_eq!(pool.get_num(), 0);
    assert!(pool.maybe_index_mut(r).is_none());
    let (_, again) = pool.get_instance().unwrap();
    assert_eq!((again.idx(), again.generation()), (1, 3));
}

#[test]
fn release_area_skips_actors_added_during_the_walk() {
    let mut pool: Pool<u32> = Pool::new(4);
    for v in [10u32, 20] {
        let (a, _) = pool.get_instance().unwrap();
        *a = v;
    }
    let area = pool.split();
    let mut it = area.into_iter();
    let mut seen: Vec<u32> = Vec::new();
    while let Some((a, _)) = it.next(&mut pool) {
        seen.push(*a);
        let (b, _) = pool.get_instance().unwrap();
        *b = 99;
    }
    assert_eq!(seen, vec![10, 20]);
    assert_eq!(pool.get_num(), 4);
}

#[test]
fn release_area_iterator_releases_current_actor() {
    let mut pool: Pool<u32> = Pool::new(3);
    let mut refs: Vec<PoolActorRef> = Vec::new();
    for v in 0..3u32 {
        let (a, r) = pool.get_instance().unwrap();
        *a = v;
        refs.push(r);
    }
    let area = pool.split();
    let mut it = area.into_iter();
    while let Some((a, _)) = it.next(&mut pool) {
        if *a % 2 == 0 {
            it.release(&mut pool);
        }
    }
    assert_eq!(pool.get_num(), 1);
    assert!(pool.maybe_index_mut(refs[1]).is_some());
    assert!(pool.maybe_index_mut(refs[0]).is_none());
    assert!(pool.maybe_index_mut(refs[2]).is_none());
}

#[test]
fn release_area_releases_by_handle() {
    let mut pool: Pool<u32> = Pool::new(2);
    let (_, r) = pool.get_instance().unwrap();
    let area = pool.split();
    area.release(&mut pool, r);
    assert_eq!(pool.get_num(), 0);
}

#[test]
fn liveness_and_stamps_are_readable() {
    let mut p: Pool<u32> = Pool::new(3);
    assert_eq!(p.size(), 3);
    assert_eq!(p.generation_stamp(), 0);
    let (_, r) = p.get_instance().unwrap();
    assert!(p.is_live(r));
    assert_eq!(p.generation_stamp(), 1);
    let (_, s) = p.get_instance().unwrap();
    assert_ne!(r.generation(), s.generation());
    p.release(r);
    assert!(!p.is_live(r));
    assert!(p.is_live(s));
}
