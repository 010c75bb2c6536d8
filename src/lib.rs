//! The categorical side of homogeneous 3D tuples.
//!
//! A tuple `(x, y, z, w)` is a point when its weight `w` is exactly one and a
//! vector when it is exactly zero. This crate states which weights mark which
//! kind, and what kind the weight of a sum, difference, negation or integral
//! scaling of such tuples marks, with every rule proved.

use vstd::prelude::*;

verus! {

/// What the weight of a homogeneous tuple marks it as.
#[derive(Clone, Copy, Debug, PartialEq, Eq, Structural)]
pub enum Kind {
    /// A location in space.
    Point,
    /// A direction or a displacement, with no fixed location.
    Vector,
}

/// The weight that a tuple of kind `k` carries: one for a point, zero for a
/// vector.
pub open spec fn weight_of(k: Kind) -> int {
    match k {
        Kind::Point => 1,
        Kind::Vector => 0,
    }
}

/// The kind that weight `w` marks. Classification is exact: only the two
/// canonical weights mark a kind.
pub open spec fn kind_of(w: int) -> Option<Kind> {
    if w == 1 {
        Some(Kind::Point)
    } else if w == 0 {
        Some(Kind::Vector)
    } else {
        None
    }
}

/// The absolute value of `v`.
pub open spec fn abs(v: int) -> int {
    if v < 0 {
        -v
    } else {
        v
    }
}

/// Addition adds the weights.
pub open spec fn kind_of_sum(a: Kind, b: Kind) -> Option<Kind> {
    kind_of(weight_of(a) + weight_of(b))
}

/// Subtraction takes the absolute difference of the weights, so that the
/// order of the operands never changes the kind of the result.
pub open spec fn kind_of_difference(a: Kind, b: Kind) -> Option<Kind> {
    kind_of(abs(weight_of(a) - weight_of(b)))
}

/// Negation negates the weight.
pub open spec fn kind_of_negation(a: Kind) -> Option<Kind> {
    kind_of(-weight_of(a))
}

/// Scaling multiplies the weight by the scalar.
pub open spec fn kind_of_scaled(a: Kind, s: int) -> Option<Kind> {
    kind_of(s * weight_of(a))
}

impl Kind {
    /// The canonical weight of this kind.
    pub fn weight(self) -> (r: i64)
        ensures
            r == weight_of(self),
            kind_of(r as int) == Some(self),
    {
        match self {
            Kind::Point => 1,
            Kind::Vector => 0,
        }
    }

    /// The kind that weight `w` marks, if any; no tolerance is applied.
    pub fn of_weight(w: i64) -> (r: Option<Kind>)
        ensures
            r == kind_of(w as int),
    {
        if w == 1 {
            Some(Kind::Point)
        } else if w == 0 {
            Some(Kind::Vector)
        } else {
            None
        }
    }
}

/// The kind of `a + b`. Two points give weight two, which marks no kind and
/// is not corrected: the result is `None`.
pub fn sum_kind(a: Kind, b: Kind) -> (r: Option<Kind>)
    ensures
        r == kind_of_sum(a, b),
{
    Kind::of_weight(a.weight() + b.weight())
}

/// The kind of `a - b`. Every difference of two kinds is again a kind:
/// point minus point and vector minus vector give a vector, and a point and a
/// vector give a point in either order.
pub fn difference_kind(a: Kind, b: Kind) -> (r: Kind)
    ensures
        kind_of_difference(a, b) == Some(r),
{
    let d: i64 = a.weight() - b.weight();
    let m: i64 = if d < 0 {
        -d
    } else {
        d
    };
    if m == 0 {
        Kind::Vector
    } else {
        Kind::Point
    }
}

/// The kind of `-a`. A vector stays a vector; a point gets weight minus one,
/// which marks no kind and is not corrected.
pub fn negation_kind(a: Kind) -> (r: Option<Kind>)
    ensures
        r == kind_of_negation(a),
{
    Kind::of_weight(-a.weight())
}

/// The kind of `a * s` for an integral scalar `s`.
pub fn scaled_kind(a: Kind, s: i64) -> (r: Option<Kind>)
    ensures
        r == kind_of_scaled(a, s as int),
{
    match a {
        Kind::Point => Kind::of_weight(s),
        Kind::Vector => Some(Kind::Vector),
    }
}

/// The canonical weight of each kind classifies as that kind and as no
/// other: a point is never a vector.
pub proof fn lemma_weight_classifies(k: Kind)
    ensures
        kind_of(weight_of(k)) == Some(k),
        k == Kind::Point <==> weight_of(k) == 1,
        k == Kind::Vector <==> weight_of(k) == 0,
{
}

/// Adding weights does not depend on the order of the operands.
pub proof fn lemma_sum_commutative(a: Kind, b: Kind)
    ensures
        kind_of_sum(a, b) == kind_of_sum(b, a),
{
}

/// Adding weights is associative: `(a + b) + c` and `a + (b + c)` carry the
/// same weight, hence mark the same kind.
pub proof fn lemma_sum_associative(a: Kind, b: Kind, c: Kind)
    ensures
        kind_of((weight_of(a) + weight_of(b)) + weight_of(c))
            == kind_of(weight_of(a) + (weight_of(b) + weight_of(c))),
{
}

/// Subtraction is closed over the two kinds and does not depend on the order
/// of the operands.
pub proof fn lemma_difference_symmetric(a: Kind, b: Kind)
    ensures
        kind_of_difference(a, b) == kind_of_difference(b, a),
        kind_of_difference(a, b) is Some,
{
}

/// The closure rules of point and vector arithmetic.
pub proof fn lemma_closure_rules()
    ensures
        kind_of_sum(Kind::Point, Kind::Vector) == Some(Kind::Point),
        kind_of_sum(Kind::Vector, Kind::Point) == Some(Kind::Point),
        kind_of_sum(Kind::Vector, Kind::Vector) == Some(Kind::Vector),
        kind_of_sum(Kind::Point, Kind::Point) == None::<Kind>,
        kind_of_difference(Kind::Point, Kind::Point) == Some(Kind::Vector),
        kind_of_difference(Kind::Point, Kind::Vector) == Some(Kind::Point),
        kind_of_difference(Kind::Vector, Kind::Point) == Some(Kind::Point),
        kind_of_difference(Kind::Vector, Kind::Vector) == Some(Kind::Vector),
        kind_of_negation(Kind::Vector) == Some(Kind::Vector),
        kind_of_negation(Kind::Point) == None::<Kind>,
{
}

/// Scaling a vector by any scalar leaves a vector; scaling a point leaves a
/// point exactly when the scalar is one, and gives a vector when it is zero.
pub proof fn lemma_scaling(s: int)
    ensures
        kind_of_scaled(Kind::Vector, s) == Some(Kind::Vector),
        kind_of_scaled(Kind::Point, s) == kind_of(s),
{
}

} // verus!
