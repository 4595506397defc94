use gchemol_geometry::binary64::is_after;
use gchemol_geometry::select_eigenvalue;
use vecfx::nalgebra::Vector4;

fn select(values: [f64; 4]) -> usize {
    select_eigenvalue(&values.map(f64::to_bits))
}

fn numbers() -> Vec<f64> {
    vec![
        f64::NEG_INFINITY,
        -1e300,
        -347.3578842387319,
        -1.0,
        -f64::MIN_POSITIVE,
        -0.0,
        0.0,
        f64::from_bits(1),
        1e-11,
        1.0,
        347.3578842387319,
        f64::MAX,
        f64::INFINITY,
    ]
}

#[test]
fn after_is_greater_among_numbers() {
    for a in numbers() {
        for b in numbers() {
            assert_eq!(is_after(a.to_bits(), b.to_bits()), a > b, "{a:?} {b:?}");
        }
    }
}

#[test]
fn nan_comes_after_every_number_and_no_nan() {
    for x in numbers() {
        assert!(is_after(f64::NAN.to_bits(), x.to_bits()));
        assert!(!is_after(x.to_bits(), f64::NAN.to_bits()));
    }
    assert!(!is_after(f64::NAN.to_bits(), (-f64::NAN).to_bits()));
    assert!(!is_after((-f64::NAN).to_bits(), f64::NAN.to_bits()));
}

#[test]
fn largest_eigenvalue_is_selected() {
    assert_eq!(select([347.36, -12.5, -100.25, -234.61]), 0);
    assert_eq!(select([-234.61, -100.25, -12.5, 347.36]), 3);
    assert_eq!(select([-12.5, 347.36, -234.61, -100.25]), 1);
    assert_eq!(select([-4.0, -3.0, -1.0, -2.0]), 2);
}

#[test]
fn first_of_equal_eigenvalues_is_selected() {
    assert_eq!(select([1.0, 2.0, 2.0, 0.0]), 1);
    assert_eq!(select([0.0, 0.0, 0.0, 0.0]), 0);
    assert_eq!(select([-0.0, 0.0, -1.0, 0.0]), 0);
    assert_eq!(select([0.0, -0.0, -1.0, -0.0]), 0);
}

#[test]
fn nan_eigenvalue_is_selected_first() {
    assert_eq!(select([1.0, f64::NAN, 3.0, 2.0]), 1);
    assert_eq!(select([1.0, 5.0, f64::NAN, f64::NAN]), 2);
    assert_eq!(select([f64::NAN, 5.0, 3.0, f64::INFINITY]), 0);
    assert_eq!(select([f64::INFINITY, 5.0, 3.0, -f64::NAN]), 3);
}

#[test]
fn selection_agrees_with_the_matrix_library_on_numbers() {
    let pool = numbers();
    let n = pool.len();
    for a in 0..n {
        for b in 0..n {
            for c in (0..n).step_by(3) {
                for d in (0..n).step_by(2) {
                    let values = [pool[a], pool[b], pool[c], pool[d]];
                    let expected = Vector4::from(values).imax();
                    assert_eq!(select(values), expected, "{values:?}");
                }
            }
        }
    }
}
