use torus_trooper::random::Rand;
use torus_trooper::tunnel::TorusLayout;

fn layout(lengths: &[usize]) -> TorusLayout {
    let mut t = TorusLayout::new();
    for &l in lengths {
        t.push_part(l);
    }
    t
}

#[test]
fn parts_are_found_by_slice() {
    let t = layout(&[64, 70, 80]);
    assert_eq!(t.slice_num(), 214);
    assert_eq!(t.find_part(0), 0);
    assert_eq!(t.find_part(63), 0);
    assert_eq!(t.find_part(64), 1);
    assert_eq!(t.find_part(133), 1);
    assert_eq!(t.find_part(134), 2);
    assert_eq!(t.find_part(213), 2);
    assert_eq!(t.part_bounds(1), (64, 134));
    assert_eq!(t.prev_part(0), 2);
    assert_eq!(t.prev_part(2), 1);
}

#[test]
fn torus_is_built_to_length() {
    let mut rand = Rand::new(7);
    let mut t = TorusLayout::new();
    while !t.is_complete() {
        let len = TorusLayout::part_length(rand.gen_usize(30));
        assert!((64..94).contains(&len));
        t.push_part(len);
    }
    assert!(t.slice_num() >= 5000 && t.slice_num() < 5000 + 94);
    t.place_rings(&mut rand);
    let rings = t.ring_indexes().clone();
    assert_eq!(rings[0], 5);
    for w in rings.windows(2) {
        assert!(w[1] - w[0] >= 100 && w[1] - w[0] < 300);
    }
    assert!(*rings.last().unwrap() < t.slice_num() - 100);
}

#[test]
fn rings_passed_between_slices() {
    let mut t = layout(&[300, 300]);
    let mut rand = Rand::new(1);
    t.place_rings(&mut rand);
    assert_eq!(t.ring_indexes()[0], 5);
    assert_eq!(t.ring_between(10, 4), Some(0));
    assert_eq!(t.ring_between(4, 3), None);
    // wrapping round the end passes the first ring
    assert_eq!(t.ring_between(6, 590), Some(0));
}

#[test]
fn advance_wraps_once() {
    let t = layout(&[100]);
    assert_eq!(t.advance(90, 5), 95);
    assert_eq!(t.advance(98, 5), 3);
}

#[test]
fn rings_follow_the_generator() {
    let mut a = layout(&[2000, 2000]);
    let mut b = layout(&[2000, 2000]);
    let mut ra = Rand::new(99);
    let mut rb = Rand::new(99);
    a.place_rings(&mut ra);
    b.place_rings(&mut rb);
    assert_eq!(a.ring_indexes(), b.ring_indexes());
    // one draw per ring: both generators stand at the same place afterwards
    assert_eq!(ra.next_u64(), rb.next_u64());
    // the gaps are the draws, taken from a generator seeded alike
    let mut rc = Rand::new(99);
    let rings = a.ring_indexes();
    for w in rings.windows(2) {
        assert_eq!(w[1] - w[0], 100 + rc.gen_usize(200));
    }
}

#[test]
fn parts_are_drawn_from_the_generator() {
    let mut t = TorusLayout::new();
    let mut rand = Rand::new(5);
    let mut check = Rand::new(5);
    while !t.is_complete() {
        let len = t.draw_part(&mut rand);
        assert_eq!(len, 64 + check.gen_usize(30));
    }
    assert!(t.slice_num() >= 5000 && t.slice_num() < 5000 + 94);
}
