use baal::effect::{ATTENUATION_ONE, DistanceModel, distance_between, isqrt};

#[test]
fn test_distance() {
    let origin = [0, 0, 0];
    let d = DistanceModel::Linear(10, 110);
    assert_eq!(d.distance(origin, origin), ATTENUATION_ONE);
    assert_eq!(d.distance(origin, [10, 0, 0]), ATTENUATION_ONE);
    assert_eq!(d.distance(origin, [60, 0, 0]), ATTENUATION_ONE / 2);
    assert!((d.distance(origin, [100, 0, 0]) as f64 / ATTENUATION_ONE as f64) - 0.1 < 0.00001);
    assert_eq!(d.distance(origin, [150, 0, 0]), 0);
}

#[test]
fn linear_model_exact_points() {
    let d = DistanceModel::Linear(10, 110);
    assert_eq!(d.gain(10), ATTENUATION_ONE);
    assert_eq!(d.gain(110), 0);
    assert_eq!(d.gain(100), ATTENUATION_ONE / 10);
    assert_eq!(d.gain(0), ATTENUATION_ONE);
    assert_eq!(d.gain(1_000), 0);
}

#[test]
fn linear_model_strictly_decreasing_between_bounds() {
    let d = DistanceModel::Linear(10, 110);
    let mut prev = d.gain(10);
    for x in 11..=110u64 {
        let g = d.gain(x);
        assert!(g < prev);
        prev = g;
    }
}

#[test]
fn wide_linear_model_still_strictly_decreasing() {
    let d = DistanceModel::Linear(0, 20_000);
    assert!(d.gain(1) > d.gain(2));
    let w = DistanceModel::Linear(0, u32::MAX);
    assert!(w.gain(1) > w.gain(2));
    assert!(w.gain(u32::MAX as u64 - 1) > w.gain(u32::MAX as u64));
    assert_eq!(w.gain(u32::MAX as u64), 0);
}

#[test]
fn pow2_model_is_linear_squared() {
    let lin = DistanceModel::Linear(10, 110);
    let sq = DistanceModel::Pow2(10, 110);
    assert_eq!(sq.gain(60), ATTENUATION_ONE / 4);
    for x in 0..200u64 {
        let l = lin.gain(x) as u128;
        assert_eq!(sq.gain(x) as u128, l * l / ATTENUATION_ONE as u128);
    }
}

#[test]
fn distance_model_constructors_reject_unordered_bounds() {
    assert_eq!(DistanceModel::linear(10, 110), Some(DistanceModel::Linear(10, 110)));
    assert_eq!(DistanceModel::linear(110, 110), None);
    assert_eq!(DistanceModel::pow2(5, 4), None);
    assert_eq!(DistanceModel::pow2(4, 5), Some(DistanceModel::Pow2(4, 5)));
}

#[test]
fn distances_round_down() {
    assert_eq!(distance_between([0, 0, 0], [3, 4, 0]), 5);
    assert_eq!(distance_between([1, 1, 1], [2, 2, 2]), 1);
    assert_eq!(distance_between([-5, 0, 0], [5, 0, 0]), 10);
    assert_eq!(distance_between([i32::MIN, i32::MIN, i32::MIN], [i32::MAX, i32::MAX, i32::MAX]), 7_439_101_571);
    assert_eq!(isqrt(0), 0);
    assert_eq!(isqrt(15), 3);
    assert_eq!(isqrt(16), 4);
}
