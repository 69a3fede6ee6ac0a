use vstd::prelude::*;

pub mod angle;
pub mod bezier;
pub mod cylinder;
pub mod kinematics;
pub mod linalg;
pub mod ode;
pub mod parametric;
pub mod rect;
pub mod rotations;
pub mod segment;

verus! {

/// A vector that holds the bytes `text`: always the same one for the same bytes.
pub open spec fn bytes_spec(text: Seq<u8>) -> Vec<u8> {
    choose|v: Vec<u8>| v@ == text
}

/// The scalar that every numerical routine of this crate computes with.
///
/// An implementation supplies the arithmetic of a floating-point type. Each
/// operation that rounds in one fixed way is paired with a specification
/// function that stands for its result: implementing the trait is a promise
/// that the operation is a function of its operands, so that equal operands
/// give equal results. Values that are not a number count as one value.
/// Nothing else is assumed of the arithmetic: no associativity, no
/// distributivity, not even that `x.add(zero)` is `x`. The trigonometric
/// functions are not taken to be functions, since their last digits may differ
/// from one evaluation to the next: each comes with a relation between its
/// operands and the values it may return, which an implementation is free to
/// make as wide as it needs.
pub trait Float: Copy {
    /// The scalar that equals the integer `n`.
    spec fn from_i32_spec(n: i32) -> Self;

    fn from_i32(n: i32) -> (r: Self)
        ensures
            r == Self::from_i32_spec(n),
    ;

    /// The scalar nearest to the ratio of a circle's circumference to its diameter.
    spec fn pi_spec() -> Self;

    fn pi() -> (r: Self)
        ensures
            r == Self::pi_spec(),
    ;

    /// The gap between one and the next larger scalar.
    spec fn epsilon_spec() -> Self;

    fn epsilon() -> (r: Self)
        ensures
            r == Self::epsilon_spec(),
    ;

    spec fn add_spec(self, rhs: Self) -> Self;

    fn add(self, rhs: Self) -> (r: Self)
        ensures
            r == self.add_spec(rhs),
    ;

    spec fn sub_spec(self, rhs: Self) -> Self;

    fn sub(self, rhs: Self) -> (r: Self)
        ensures
            r == self.sub_spec(rhs),
    ;

    spec fn mul_spec(self, rhs: Self) -> Self;

    fn mul(self, rhs: Self) -> (r: Self)
        ensures
            r == self.mul_spec(rhs),
    ;

    spec fn div_spec(self, rhs: Self) -> Self;

    /// Division never fails: a zero divisor gives an infinity or not-a-number.
    fn div(self, rhs: Self) -> (r: Self)
        ensures
            r == self.div_spec(rhs),
    ;

    /// The remainder of the truncating division, with the sign of `self`.
    spec fn rem_spec(self, rhs: Self) -> Self;

    fn rem(self, rhs: Self) -> (r: Self)
        ensures
            r == self.rem_spec(rhs),
    ;

    spec fn neg_spec(self) -> Self;

    fn neg(self) -> (r: Self)
        ensures
            r == self.neg_spec(),
    ;

    spec fn abs_spec(self) -> Self;

    fn abs(self) -> (r: Self)
        ensures
            r == self.abs_spec(),
    ;

    spec fn sqrt_spec(self) -> Self;

    fn sqrt(self) -> (r: Self)
        ensures
            r == self.sqrt_spec(),
    ;

    /// The scalar that the text `text` writes, or `None` where it writes none.
    spec fn parse_spec(text: Vec<u8>) -> Option<Self>;

    /// What the text writes depends on its bytes alone.
    fn parse(text: &[u8]) -> (r: Option<Self>)
        ensures
            r == Self::parse_spec(bytes_spec(text@)),
    ;

    /// The largest whole number that is not above `self`, as far as 32 bits
    /// without a sign can hold it: zero for a scalar below zero or not a
    /// number, the largest number of 32 bits for a scalar above that.
    spec fn floor_u32_spec(self) -> u32;

    fn floor_u32(self) -> (r: u32)
        ensures
            r == self.floor_u32_spec(),
    ;

    /// The smallest whole number that is not below `self`, held as by
    /// `floor_u32`.
    spec fn ceil_u32_spec(self) -> u32;

    fn ceil_u32(self) -> (r: u32)
        ensures
            r == self.ceil_u32_spec(),
    ;

    /// The whole number nearest to `self`, the one further from zero where
    /// two are as near, held as by `floor_u32`.
    spec fn round_u32_spec(self) -> u32;

    fn round_u32(self) -> (r: u32)
        ensures
            r == self.round_u32_spec(),
    ;

    /// Whether `self` is strictly below `rhs`; false when either is not a number.
    spec fn lt_spec(self, rhs: Self) -> bool;

    fn lt(self, rhs: Self) -> (r: bool)
        ensures
            r == self.lt_spec(rhs),
    ;

    /// Numeric equality: the two zeros are equal, not-a-number equals nothing.
    spec fn eq_spec(self, rhs: Self) -> bool;

    fn eq(self, rhs: Self) -> (r: bool)
        ensures
            r == self.eq_spec(rhs),
    ;

    /// Whether `r` is a value that the sine of `self` may come out as.
    spec fn sin_rel(self, r: Self) -> bool;

    fn sin(self) -> (r: Self)
        ensures
            self.sin_rel(r),
    ;

    /// Whether `r` is a value that the cosine of `self` may come out as.
    spec fn cos_rel(self, r: Self) -> bool;

    fn cos(self) -> (r: Self)
        ensures
            self.cos_rel(r),
    ;

    /// Whether `r` is a value that the arc sine of `self` may come out as.
    spec fn asin_rel(self, r: Self) -> bool;

    fn asin(self) -> (r: Self)
        ensures
            self.asin_rel(r),
    ;

    /// Whether `r` is a value that the arc cosine of `self` may come out as.
    spec fn acos_rel(self, r: Self) -> bool;

    fn acos(self) -> (r: Self)
        ensures
            self.acos_rel(r),
    ;

    /// Whether `r` is a value that the angle of the point `(x, self)` may come
    /// out as, in radians.
    spec fn atan2_rel(self, x: Self, r: Self) -> bool;

    fn atan2(self, x: Self) -> (r: Self)
        ensures
            self.atan2_rel(x, r),
    ;
}

/// `a <= b` in the order of the scalars.
pub open spec fn le_spec<F: Float>(a: F, b: F) -> bool {
    a.lt_spec(b) || a.eq_spec(b)
}

pub fn le<F: Float>(a: F, b: F) -> (r: bool)
    ensures
        r == le_spec(a, b),
{
    a.lt(b) || a.eq(b)
}

/// The scalar `num / den`, rounded once.
pub open spec fn ratio_spec<F: Float>(num: i32, den: i32) -> F {
    F::from_i32_spec(num).div_spec(F::from_i32_spec(den))
}

pub fn ratio<F: Float>(num: i32, den: i32) -> (r: F)
    ensures
        r == ratio_spec::<F>(num, den),
{
    F::from_i32(num).div(F::from_i32(den))
}

/// Whether `a` is not a number: the only scalars that do not equal themselves.
pub open spec fn is_nan_spec<F: Float>(a: F) -> bool {
    !a.eq_spec(a)
}

pub fn is_nan<F: Float>(a: F) -> (r: bool)
    ensures
        r == is_nan_spec(a),
{
    !a.eq(a)
}

/// The smaller of two scalars: `b` when it is below `a` or `a` is not a
/// number, else `a`.
pub open spec fn min_spec<F: Float>(a: F, b: F) -> F {
    if b.lt_spec(a) || is_nan_spec(a) {
        b
    } else {
        a
    }
}

pub fn min<F: Float>(a: F, b: F) -> (r: F)
    ensures
        r == min_spec(a, b),
{
    if b.lt(a) || is_nan(a) {
        b
    } else {
        a
    }
}

/// The larger of two scalars: `b` when it is above `a` or `a` is not a
/// number, else `a`.
pub open spec fn max_spec<F: Float>(a: F, b: F) -> F {
    if a.lt_spec(b) || is_nan_spec(a) {
        b
    } else {
        a
    }
}

pub fn max<F: Float>(a: F, b: F) -> (r: F)
    ensures
        r == max_spec(a, b),
{
    if a.lt(b) || is_nan(a) {
        b
    } else {
        a
    }
}

/// `x` brought into `[lo, hi]`: a value outside moves to the nearer bound.
pub open spec fn clamp_spec<F: Float>(x: F, lo: F, hi: F) -> F {
    if x.lt_spec(lo) {
        lo
    } else if hi.lt_spec(x) {
        hi
    } else {
        x
    }
}

pub fn clamp<F: Float>(x: F, lo: F, hi: F) -> (r: F)
    ensures
        r == clamp_spec(x, lo, hi),
{
    if x.lt(lo) {
        lo
    } else if hi.lt(x) {
        hi
    } else {
        x
    }
}

/// The least non-negative remainder of `x` modulo `m`.
pub open spec fn rem_euclid_spec<F: Float>(x: F, m: F) -> F {
    let r = x.rem_spec(m);
    if r.lt_spec(F::from_i32_spec(0)) {
        r.add_spec(m.abs_spec())
    } else {
        r
    }
}

pub fn rem_euclid<F: Float>(x: F, m: F) -> (r: F)
    ensures
        r == rem_euclid_spec(x, m),
{
    let r = x.rem(m);
    if r.lt(F::from_i32(0)) {
        r.add(m.abs())
    } else {
        r
    }
}

/// Degrees to radians: one multiplication by `pi / 180`.
pub open spec fn to_radians_spec<F: Float>(deg: F) -> F {
    deg.mul_spec(F::pi_spec().div_spec(F::from_i32_spec(180)))
}

pub fn to_radians<F: Float>(deg: F) -> (r: F)
    ensures
        r == to_radians_spec(deg),
{
    deg.mul(F::pi().div(F::from_i32(180)))
}

/// Radians to degrees: one multiplication by `180 / pi`.
pub open spec fn to_degrees_spec<F: Float>(rad: F) -> F {
    rad.mul_spec(F::from_i32_spec(180).div_spec(F::pi_spec()))
}

pub fn to_degrees<F: Float>(rad: F) -> (r: F)
    ensures
        r == to_degrees_spec(rad),
{
    rad.mul(F::from_i32(180).div(F::pi()))
}

} // verus!
