use lander::noise::PSNG;

fn reference(seed: u64, draws: usize) -> Vec<i64> {
    let rng = fastrand::Rng::with_seed(seed);
    let _first = rng.f32();
    let mut out = Vec::new();
    for _ in 0..draws {
        let f = rng.f32();
        let mantissa = (f as f64 * 8_388_608.0) as i64;
        out.push(mantissa * 1_000_000 / 8_388_608);
    }
    out
}

#[test]
fn the_stream_follows_the_generator() {
    for seed in [0u64, 1, 42, 666_666, u64::MAX] {
        let mut stream = PSNG::new(seed);
        let expected = reference(seed, 50);
        for e in expected {
            assert_eq!(stream.next(), e);
        }
    }
}

#[test]
fn fractions_lie_in_the_unit_interval() {
    let mut stream = PSNG::new(7);
    let mut distinct = std::collections::HashSet::new();
    for _ in 0..1000 {
        let f = stream.next();
        assert!(0 <= f && f < 1_000_000);
        distinct.insert(f);
    }
    assert!(distinct.len() > 900);
}

#[test]
fn equal_seeds_give_equal_streams() {
    let mut a = PSNG::new(123);
    let mut b = PSNG::new(123);
    for _ in 0..100 {
        assert_eq!(a.next(), b.next());
    }
}

#[test]
fn different_seeds_give_different_streams() {
    let mut a = PSNG::new(1);
    let mut b = PSNG::new(2);
    let xs: Vec<i64> = (0..10).map(|_| a.next()).collect();
    let ys: Vec<i64> = (0..10).map(|_| b.next()).collect();
    assert_ne!(xs, ys);
}

#[test]
fn a_copy_continues_from_the_same_place() {
    let mut a = PSNG::new(9);
    a.next();
    let mut b = a;
    assert_eq!(a.next(), b.next());
}
