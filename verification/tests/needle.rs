use monte_carlo_pi::estimate::Estimate;
use monte_carlo_pi::needle::{
    buffons_needle, needle_crosses, needle_ratio, NEEDLE_LENGTH, PARALLEL_WIDTH,
};
use monte_carlo_pi::tally::Tally;
use rand::rngs::StdRng;
use rand::{Rng, SeedableRng};

fn float(e: Estimate) -> f64 {
    e.num as f64 / e.den as f64
}

fn random_reaches(count: usize, rng: &mut StdRng) -> Vec<i64> {
    let two_pi = 6.28318530718_f64;
    let mut reaches = Vec::with_capacity(count);
    for _ in 0..count {
        let angle = rng.gen_range(0_f64, two_pi);
        reaches.push((NEEDLE_LENGTH as f64 * f64::cos(angle)).round() as i64);
    }
    reaches
}

#[test]
fn needle_and_spacing_are_one_unit() {
    assert_eq!(NEEDLE_LENGTH, 1 << 52);
    assert_eq!(PARALLEL_WIDTH, NEEDLE_LENGTH);
}

#[test]
fn needle_within_strip_does_not_cross() {
    let w = PARALLEL_WIDTH;
    assert!(!needle_crosses(0, 0));
    assert!(!needle_crosses(w / 2, 0));
    assert!(!needle_crosses(w / 2, (w / 4) as i64));
    assert!(!needle_crosses(w / 2, -((w / 2) as i64)));
    assert!(!needle_crosses(w - 1, 0));
    assert!(!needle_crosses(0, (w - 1) as i64));
}

#[test]
fn needle_end_below_zero_crosses() {
    let w = PARALLEL_WIDTH;
    assert!(needle_crosses(0, -1));
    assert!(needle_crosses(w / 2, -((w / 2) as i64) - 1));
    assert!(needle_crosses(w - 1, -(w as i64)));
}

#[test]
fn needle_end_at_or_past_width_crosses() {
    let w = PARALLEL_WIDTH;
    assert!(needle_crosses(w - 1, 1));
    assert!(needle_crosses(0, w as i64));
    assert!(needle_crosses(w / 2, (w / 2) as i64));
    assert!(needle_crosses(w / 2, w as i64));
}

#[test]
fn needle_crossing_handles_extreme_arguments() {
    assert!(needle_crosses(u64::MAX, i64::MAX));
    assert!(needle_crosses(0, i64::MIN));
    assert!(needle_crosses(u64::MAX, i64::MIN));
    assert!(needle_crosses(u64::MAX, 0));
}

#[test]
fn needle_ratio_exact_value() {
    let unit = 1u128 << 52;
    assert_eq!(needle_ratio(1000, 637), Estimate { num: 2000 * unit, den: 637 * unit });
    assert_eq!(needle_ratio(1, 1), Estimate { num: 2 * unit, den: unit });
    let e = needle_ratio(1_000_000, 636_620);
    assert!((float(e) - 2_000_000.0 / 636_620.0).abs() < 1e-12);
}

#[test]
fn needle_ratio_extreme_counts() {
    let unit = 1u128 << 52;
    let max = u64::MAX as u128;
    assert_eq!(needle_ratio(u64::MAX, u64::MAX), Estimate { num: 2 * max * unit, den: max * unit });
}

#[test]
fn needle_ratio_without_crossings_is_infinite() {
    for iterations in [1u64, 2, 1000, u64::MAX] {
        let e = needle_ratio(iterations, 0);
        assert!(e.is_infinite());
        assert_eq!(float(e), f64::INFINITY);
    }
}

#[test]
fn needle_ratio_without_drops_is_not_a_number() {
    let e = needle_ratio(0, 0);
    assert!(e.is_nan());
    assert!(float(e).is_nan());
}

#[test]
fn needles_along_the_lines_never_cross() {
    let mut rng = StdRng::seed_from_u64(5);
    let reaches = vec![0i64; 1000];
    let e = buffons_needle(&reaches, &mut rng);
    assert!(e.is_infinite());
    assert_eq!(e.num, 2000 * (NEEDLE_LENGTH as u128));
    assert_eq!(e.den, 0);
}

#[test]
fn needles_across_the_lines_always_cross() {
    let mut rng = StdRng::seed_from_u64(5);
    let reaches = vec![NEEDLE_LENGTH as i64; 1000];
    let e = buffons_needle(&reaches, &mut rng);
    assert_eq!(
        e,
        Estimate { num: 2000 * (NEEDLE_LENGTH as u128), den: 1000 * (PARALLEL_WIDTH as u128) }
    );
    assert_eq!(float(e), 2.0);
}

#[test]
fn half_needles_cross_about_half_the_time() {
    // a needle reaching half a width forward crosses when it starts in the upper half
    let mut rng = StdRng::seed_from_u64(9);
    let reaches = vec![(PARALLEL_WIDTH / 2) as i64; 20_000];
    let e = buffons_needle(&reaches, &mut rng);
    let crossings = e.den / (PARALLEL_WIDTH as u128);
    assert_eq!(e.den % (PARALLEL_WIDTH as u128), 0);
    assert!(crossings > 9_500 && crossings < 10_500, "crossings {}", crossings);
}

#[test]
fn no_needles_give_no_number() {
    let mut rng = StdRng::seed_from_u64(5);
    let e = buffons_needle(&Vec::new(), &mut rng);
    assert_eq!(e, Estimate { num: 0, den: 0 });
    assert!(e.is_nan());
}

#[test]
fn needle_estimate_is_near_pi() {
    let mut rng = StdRng::seed_from_u64(2024);
    let reaches = random_reaches(200_000, &mut rng);
    let e = buffons_needle(&reaches, &mut rng);
    assert_eq!(e.num, 400_000 * (NEEDLE_LENGTH as u128));
    let x = float(e);
    assert!((x - std::f64::consts::PI).abs() <= 0.05, "estimate {}", x);
}

#[test]
fn needle_estimate_is_reproducible_from_the_seed() {
    let mut a = StdRng::seed_from_u64(8);
    let mut b = StdRng::seed_from_u64(8);
    let ra = random_reaches(10_000, &mut a);
    let rb = random_reaches(10_000, &mut b);
    assert_eq!(ra, rb);
    assert_eq!(buffons_needle(&ra, &mut a), buffons_needle(&rb, &mut b));
}

#[test]
fn needle_estimate_matches_a_tally_of_crossings() {
    let w = PARALLEL_WIDTH;
    let drops: [(u64, i64); 5] =
        [(0, 0), (w / 2, w as i64), (w / 4, -((w / 2) as i64)), (w - 1, 0), (w - 1, 1)];
    let mut tally = Tally::new();
    for (start, reach) in drops {
        tally.record(needle_crosses(start, reach));
    }
    assert_eq!((tally.trials(), tally.hits()), (5, 3));
    let e = needle_ratio(tally.trials(), tally.hits());
    assert_eq!(e, Estimate { num: 10 * (NEEDLE_LENGTH as u128), den: 3 * (w as u128) });
}
