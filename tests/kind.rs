use ray_tuple::difference_kind;
use ray_tuple::negation_kind;
use ray_tuple::scaled_kind;
use ray_tuple::sum_kind;
use ray_tuple::Kind;

#[test]
fn canonical_weights() {
    assert_eq!(Kind::Point.weight(), 1);
    assert_eq!(Kind::Vector.weight(), 0);
}

#[test]
fn classification_is_exact() {
    assert_eq!(Kind::of_weight(1), Some(Kind::Point));
    assert_eq!(Kind::of_weight(0), Some(Kind::Vector));
    assert_eq!(Kind::of_weight(2), None);
    assert_eq!(Kind::of_weight(-1), None);
    assert_eq!(Kind::of_weight(i64::MAX), None);
    assert_eq!(Kind::of_weight(i64::MIN), None);
}

#[test]
fn weight_round_trips() {
    for k in [Kind::Point, Kind::Vector] {
        assert_eq!(Kind::of_weight(k.weight()), Some(k));
    }
}

#[test]
fn point_plus_vector_is_point() {
    assert_eq!(sum_kind(Kind::Point, Kind::Vector), Some(Kind::Point));
    assert_eq!(sum_kind(Kind::Vector, Kind::Point), Some(Kind::Point));
}

#[test]
fn vector_plus_vector_is_vector() {
    assert_eq!(sum_kind(Kind::Vector, Kind::Vector), Some(Kind::Vector));
}

#[test]
fn point_plus_point_is_left_alone() {
    assert_eq!(sum_kind(Kind::Point, Kind::Point), None);
}

#[test]
fn sum_commutes() {
    for a in [Kind::Point, Kind::Vector] {
        for b in [Kind::Point, Kind::Vector] {
            assert_eq!(sum_kind(a, b), sum_kind(b, a));
        }
    }
}

#[test]
fn point_minus_vector_is_point() {
    assert_eq!(difference_kind(Kind::Point, Kind::Vector), Kind::Point);
}

#[test]
fn point_minus_point_is_vector() {
    assert_eq!(difference_kind(Kind::Point, Kind::Point), Kind::Vector);
}

#[test]
fn vector_minus_vector_is_vector() {
    assert_eq!(difference_kind(Kind::Vector, Kind::Vector), Kind::Vector);
}

#[test]
fn vector_minus_point_is_point() {
    assert_eq!(difference_kind(Kind::Vector, Kind::Point), Kind::Point);
}

#[test]
fn negation_keeps_vectors() {
    assert_eq!(negation_kind(Kind::Vector), Some(Kind::Vector));
    assert_eq!(negation_kind(Kind::Point), None);
}

#[test]
fn scaling() {
    assert_eq!(scaled_kind(Kind::Vector, 35), Some(Kind::Vector));
    assert_eq!(scaled_kind(Kind::Vector, i64::MIN), Some(Kind::Vector));
    assert_eq!(scaled_kind(Kind::Point, 1), Some(Kind::Point));
    assert_eq!(scaled_kind(Kind::Point, 0), Some(Kind::Vector));
    assert_eq!(scaled_kind(Kind::Point, 3), None);
    assert_eq!(scaled_kind(Kind::Point, -1), None);
}
