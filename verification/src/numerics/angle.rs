use vstd::prelude::*;

use crate::numerics::{
    le, le_spec, min, min_spec, rem_euclid, rem_euclid_spec, to_degrees, to_degrees_spec,
    to_radians, to_radians_spec, Float,
};

verus! {

/// An angle in radians. The constructors and the arithmetic bring it into
/// `[0, 2 pi)`; the setters store what they are given.
#[derive(Clone, Copy, Debug)]
pub struct Angle<F>(F);

/// A full turn in radians.
pub open spec fn full_turn_spec<F: Float>() -> F {
    F::pi_spec().mul_spec(F::from_i32_spec(2))
}

pub fn full_turn<F: Float>() -> (r: F)
    ensures
        r == full_turn_spec::<F>(),
{
    F::pi().mul(F::from_i32(2))
}

/// `value` radians brought into one turn.
pub open spec fn wrap_spec<F: Float>(value: F) -> F {
    rem_euclid_spec(value, full_turn_spec::<F>())
}

/// The radians of the angle between `from` and `to` at `t`, going the short
/// way round: where the two lie more than half a turn apart, the larger is
/// taken a full turn lower first.
pub open spec fn lerp_radians_spec<F: Float>(from: F, to: F, t: F) -> F {
    let apart = F::pi_spec().lt_spec(to.sub_spec(from).abs_spec());
    let turn = F::from_i32_spec(2).mul_spec(F::pi_spec());
    let a = if apart && !from.lt_spec(to) {
        from.sub_spec(turn)
    } else {
        from
    };
    let b = if apart && from.lt_spec(to) {
        to.sub_spec(turn)
    } else {
        to
    };
    a.mul_spec(F::from_i32_spec(1).sub_spec(t)).add_spec(b.mul_spec(t))
}

/// The radians of the sum of two angles, within one turn.
pub open spec fn sum_spec<F: Float>(a: F, b: F) -> F {
    wrap_spec(a.add_spec(b))
}

/// The radians of the difference of two angles, within one turn.
pub open spec fn difference_spec<F: Float>(a: F, b: F) -> F {
    wrap_spec(a.sub_spec(b))
}

/// The radians of the opposite angle, within one turn.
pub open spec fn opposite_spec<F: Float>(a: F) -> F {
    wrap_spec(a.neg_spec())
}

/// The radians of the distance between two angles: the smaller of the two
/// differences, each taken within one turn.
pub open spec fn distance_spec<F: Float>(a: F, b: F) -> F {
    wrap_spec(min_spec(difference_spec(a, b), difference_spec(b, a)))
}

/// Of the angles `a_0` and `a_1`, the one nearer to `me`: `a_0` where the
/// distances are equal.
pub open spec fn closest_spec<F: Float>(me: F, a_0: F, a_1: F) -> F {
    if le_spec(distance_spec(me, a_0), distance_spec(me, a_1)) {
        a_0
    } else {
        a_1
    }
}

impl<F: Float> View for Angle<F> {
    type V = F;

    /// The radians that the angle holds.
    closed spec fn view(&self) -> F {
        self.0
    }
}

impl<F: Float> Angle<F> {
    pub fn from_rad(value: F) -> (r: Self)
        ensures
            r@ == wrap_spec(value),
    {
        Angle(rem_euclid(value, full_turn()))
    }

    pub fn from_deg(value: F) -> (r: Self)
        ensures
            r@ == wrap_spec(to_radians_spec(value)),
    {
        Angle(rem_euclid(to_radians(value), full_turn()))
    }

    pub fn rad(&self) -> (r: F)
        ensures
            r == self@,
    {
        self.0
    }

    pub fn deg(&self) -> (r: F)
        ensures
            r == to_degrees_spec(self@),
    {
        to_degrees(self.0)
    }

    pub fn sin(&self) -> (r: F)
        ensures
            self@.sin_rel(r),
    {
        self.rad().sin()
    }

    pub fn cos(&self) -> (r: F)
        ensures
            self@.cos_rel(r),
    {
        self.rad().cos()
    }

    /// Stores `val` radians as they are.
    pub fn set_rad(&mut self, val: F)
        ensures
            final(self)@ == val,
    {
        self.0 = val;
    }

    /// Stores `val` degrees as radians, as they are.
    pub fn set_deg(&mut self, val: F)
        ensures
            final(self)@ == to_radians_spec(val),
    {
        self.0 = to_radians(val);
    }

    /// The angle between `self` (at `t = 0`) and `other` (at `t = 1`) along
    /// the shorter way round. The result is not brought into one turn.
    pub fn lerp(&self, other: Self, t: F) -> (r: Self)
        ensures
            r@ == lerp_radians_spec(self@, other@, t),
    {
        let mut a = self.0;
        let mut b = other.0;
        if F::pi().lt(b.sub(a).abs()) {
            if a.lt(b) {
                b = b.sub(F::from_i32(2).mul(F::pi()));
            } else {
                a = a.sub(F::from_i32(2).mul(F::pi()));
            }
        }
        Angle(a.mul(F::from_i32(1).sub(t)).add(b.mul(t)))
    }

    /// The sum, within one turn.
    pub fn add(self, rhs: Self) -> (r: Self)
        ensures
            r@ == sum_spec(self@, rhs@),
    {
        Self::from_rad(self.0.add(rhs.0))
    }

    /// The difference, within one turn.
    pub fn sub(self, rhs: Self) -> (r: Self)
        ensures
            r@ == difference_spec(self@, rhs@),
    {
        Self::from_rad(self.0.sub(rhs.0))
    }

    /// The opposite angle, within one turn.
    pub fn neg(self) -> (r: Self)
        ensures
            r@ == opposite_spec(self@),
    {
        Self::from_rad(self.0.neg())
    }

    /// Distance between `self` and `other` round the circle.
    pub fn dist(&self, other: Self) -> (r: Self)
        ensures
            r@ == distance_spec(self@, other@),
    {
        Self::from_rad(min(self.sub(other).0, other.sub(*self).0))
    }

    /// Returns either `a_0` or `a_1`, depending on which one is closer to
    /// `self`: `a_0` where the distances are equal.
    pub fn closest(&self, a_0: Self, a_1: Self) -> (r: Self)
        ensures
            r == if le_spec(distance_spec(self@, a_0@), distance_spec(self@, a_1@)) {
                a_0
            } else {
                a_1
            },
            r@ == closest_spec(self@, a_0@, a_1@),
    {
        let diff_0 = self.dist(a_0);
        let diff_1 = self.dist(a_1);

        if le(diff_0.0, diff_1.0) {
            a_0
        } else {
            a_1
        }
    }

    /// Half a turn.
    pub fn pi_rad() -> (r: Self)
        ensures
            r@ == wrap_spec(F::pi_spec()),
    {
        Self::from_rad(F::pi())
    }
}

impl<F: Float> Default for Angle<F> {
    fn default() -> (r: Self)
        ensures
            r@ == F::from_i32_spec(0),
    {
        Angle(F::from_i32(0))
    }
}

} // verus!
