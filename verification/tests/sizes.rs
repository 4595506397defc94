use gchemol_geometry::check_sizes;
use gchemol_geometry::Alignment;
use gchemol_geometry::SuperposeError;
use gchemol_geometry::SuperpositionAlgo;

#[test]
fn equal_sizes_are_accepted() {
    assert_eq!(check_sizes(5, 5, None), Ok(()));
    assert_eq!(check_sizes(5, 5, Some(5)), Ok(()));
    assert_eq!(check_sizes(7, 7, Some(7)), Ok(()));
}

#[test]
fn empty_sets_are_accepted() {
    assert_eq!(check_sizes(0, 0, None), Ok(()));
    assert_eq!(check_sizes(0, 0, Some(0)), Ok(()));
}

#[test]
fn short_reference_is_a_points_mismatch() {
    assert_eq!(
        check_sizes(5, 4, None),
        Err(SuperposeError::PointsSizeMismatch { expected: 5, found: 4 })
    );
}

#[test]
fn long_reference_is_a_points_mismatch() {
    assert_eq!(
        check_sizes(3, 9, Some(3)),
        Err(SuperposeError::PointsSizeMismatch { expected: 3, found: 9 })
    );
}

#[test]
fn wrong_weights_are_a_weights_mismatch() {
    assert_eq!(
        check_sizes(5, 5, Some(3)),
        Err(SuperposeError::WeightsSizeMismatch { expected: 5, found: 3 })
    );
    assert_eq!(
        check_sizes(5, 5, Some(6)),
        Err(SuperposeError::WeightsSizeMismatch { expected: 5, found: 6 })
    );
}

#[test]
fn reference_is_judged_before_weights() {
    assert_eq!(
        check_sizes(5, 4, Some(3)),
        Err(SuperposeError::PointsSizeMismatch { expected: 5, found: 4 })
    );
    assert_eq!(
        check_sizes(5, 4, Some(4)),
        Err(SuperposeError::PointsSizeMismatch { expected: 5, found: 4 })
    );
}

#[test]
fn new_alignment_uses_the_default_strategy() {
    let a = Alignment::new(12);
    assert_eq!(a.npts, 12);
    assert_eq!(a.algorithm, SuperpositionAlgo::QCP);
    assert_eq!(SuperpositionAlgo::default(), SuperpositionAlgo::QCP);
}

#[test]
fn admission_records_the_request() {
    let mut alignment = Alignment::new(7);
    alignment.algorithm = SuperpositionAlgo::Quaternion;
    let a = alignment.superpose(7, Some(7)).unwrap();
    assert_eq!(a.npts(), 7);
    assert!(a.weighted());
    assert_eq!(a.algorithm(), SuperpositionAlgo::Quaternion);

    let b = Alignment::new(3).superpose(3, None).unwrap();
    assert_eq!(b.npts(), 3);
    assert!(!b.weighted());
    assert_eq!(b.algorithm(), SuperpositionAlgo::QCP);
}

#[test]
fn one_alignment_serves_many_references() {
    let alignment = Alignment::new(4);
    assert!(alignment.superpose(4, None).is_ok());
    assert!(alignment.superpose(5, None).is_err());
    assert!(alignment.superpose(4, Some(4)).is_ok());
}

#[test]
fn admission_is_refused_as_sizes_are() {
    for algo in [SuperpositionAlgo::QCP, SuperpositionAlgo::Quaternion] {
        for npts in 0..4usize {
            for nref in 0..4usize {
                for w in [None, Some(0usize), Some(1), Some(2), Some(3)] {
                    let mut alignment = Alignment::new(npts);
                    alignment.algorithm = algo;
                    let got = alignment.superpose(nref, w);
                    match check_sizes(npts, nref, w) {
                        Ok(()) => assert!(got.is_ok()),
                        Err(e) => assert_eq!(got.err(), Some(e)),
                    }
                }
            }
        }
    }
}
