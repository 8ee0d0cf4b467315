use torus_trooper::random::Rand;

#[test]
fn seed_from_clock() {
    assert_eq!(Rand::rand_seed(Some((2, 345))), 2345);
    assert_eq!(Rand::rand_seed(None), 0);
}

#[test]
fn usize_below_maps_draws() {
    assert_eq!(Rand::usize_below(17, 5), 2);
    assert_eq!(Rand::usize_below(17, 0), 0);
    assert_eq!(Rand::usize_below(u64::MAX, 10), (u64::MAX % 10) as usize);
}

#[test]
fn draws_stay_in_range_and_repeat_with_seed() {
    let mut a = Rand::new(12345);
    let mut b = Rand::new_not_recorded(12345);
    let xs: Vec<usize> = (0..50).map(|_| a.gen_usize(7)).collect();
    let ys: Vec<usize> = (0..50).map(|_| b.gen_usize(7)).collect();
    assert!(xs.iter().all(|&x| x < 7));
    assert_eq!(xs, ys);
    assert!(xs.iter().any(|&x| x != xs[0]));
    assert_eq!(a.gen_usize(0), 0);
    a.set_seed(12345);
    let zs: Vec<usize> = (0..50).map(|_| a.gen_usize(7)).collect();
    assert_eq!(xs, zs);
}

#[test]
fn zero_bound_draws_nothing() {
    let mut a = Rand::new(42);
    let mut b = Rand::new(42);
    assert_eq!(a.gen_usize(0), 0);
    assert_eq!(a.next_u64(), b.next_u64());
    assert_eq!(a.gen_usize(10), b.gen_usize(10));
}

// The seeding and stepping that the library's contracts state, written out here to
// hold them against the real generator.
fn seeded_words(seed: u64) -> [u32; 4] {
    let mut state = seed;
    let mut w = [0u32; 4];
    for word in w.iter_mut() {
        state = state
            .wrapping_mul(6364136223846793005)
            .wrapping_add(11634580027462260723);
        let xorshifted = (((state >> 18) ^ state) >> 27) as u32;
        let rot = (state >> 59) as u32;
        *word = if rot == 0 {
            xorshifted
        } else {
            (xorshifted >> rot) | (xorshifted << (32 - rot))
        };
    }
    if w.iter().all(|&x| x == 0) {
        [0xBAD_5EED; 4]
    } else {
        w
    }
}

fn next_u32(s: &mut [u32; 4]) -> u32 {
    let x = s[0];
    let t = x ^ (x << 11);
    let w = s[3];
    let nw = w ^ (w >> 19) ^ (t ^ (t >> 8));
    *s = [s[1], s[2], s[3], nw];
    nw
}

#[test]
fn draws_match_the_stated_stream() {
    for &seed in &[0u64, 1, 42, 12345, u64::MAX, 0xDEAD_BEEF_0000_0001] {
        let mut r = Rand::new(seed);
        let mut s = seeded_words(seed);
        for _ in 0..20 {
            let lo = next_u32(&mut s) as u64;
            let hi = next_u32(&mut s) as u64;
            assert_eq!(r.next_u64(), (hi << 32) | lo);
        }
    }
}
