use gchemol_geometry::clamp_residual;
use gchemol_geometry::weights_are_degenerate;
use gchemol_geometry::weights::WEIGHT_FLOOR;

fn clamp(x: f64) -> f64 {
    f64::from_bits(clamp_residual(x.to_bits()))
}

#[test]
fn negative_numerator_becomes_zero() {
    assert_eq!(clamp(-1e-13).to_bits(), 0);
    assert_eq!(clamp(-3.0).to_bits(), 0);
    assert_eq!(clamp(f64::MIN).to_bits(), 0);
    assert_eq!(clamp(-f64::MIN_POSITIVE / 2.0).to_bits(), 0);
}

#[test]
fn other_numerators_are_kept() {
    for x in [0.0, 1e-13, 0.0037775, 2.5, f64::MAX, f64::MIN_POSITIVE] {
        assert_eq!(clamp(x).to_bits(), x.to_bits());
    }
    assert_eq!(clamp(-0.0).to_bits(), (-0.0f64).to_bits());
}

#[test]
fn failures_are_not_hidden() {
    assert!(clamp(f64::NAN).is_nan());
    assert_eq!(clamp(f64::INFINITY), f64::INFINITY);
    assert_eq!(clamp(f64::NEG_INFINITY), f64::NEG_INFINITY);
}

#[test]
fn root_of_a_clamped_finite_numerator_is_a_number() {
    for x in [-1e300, -1.0, -1e-300, -0.0, 0.0, 1e-300, 1.0, 1e300] {
        let root = (clamp(x) / 3.0).sqrt();
        assert!(!root.is_nan());
        assert!(root >= 0.0);
    }
}

#[test]
fn weight_floor_is_the_machine_epsilon() {
    assert_eq!(f64::from_bits(WEIGHT_FLOOR), f64::EPSILON);
}

#[test]
fn ordinary_weight_sums_are_accepted() {
    for total in [3e-4, 1.0, 28.0, 7.0, f64::EPSILON, 1e300, f64::INFINITY] {
        assert!(!weights_are_degenerate(total.to_bits()), "{total:?}");
    }
}

#[test]
fn vanishing_weight_sums_are_degenerate() {
    for total in [0.0, -0.0, 1e-17, f64::MIN_POSITIVE, 2.2e-16] {
        assert!(weights_are_degenerate(total.to_bits()), "{total:?}");
    }
}

#[test]
fn negative_and_nan_weight_sums_are_degenerate() {
    for total in [-1.0, -28.0, -1e-300, f64::NEG_INFINITY, f64::NAN] {
        assert!(weights_are_degenerate(total.to_bits()), "{total:?}");
    }
}

#[test]
fn degenerate_is_not_clearly_positive() {
    let totals = [0.0, -0.0, 1e-17, 2.2e-16, f64::EPSILON, 1e-15, 1.0, -1.0, f64::NAN, f64::INFINITY];
    for total in totals {
        assert_eq!(weights_are_degenerate(total.to_bits()), !(total >= f64::EPSILON), "{total:?}");
    }
}
