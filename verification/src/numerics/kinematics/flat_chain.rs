use vstd::prelude::*;

use crate::numerics::linalg::Vector2;
use crate::numerics::Float;

verus! {

/// Where the two joints of the arm are: the end of the first link and the
/// end of the second.
pub struct State<F> {
    pub p_1: Vector2<F>,
    pub p_2: Vector2<F>,
}

/// An arm of two links in the plane, fixed at the origin.
pub struct System<F> {
    pub l_1: F,
    pub l_2: F,
}

/// The cosines and the sines that place an arm: of the first angle, and of
/// the sum of the two.
pub struct ArmTrig<F> {
    pub cos_1: F,
    pub sin_1: F,
    pub cos_12: F,
    pub sin_12: F,
}

impl<F: Float> System<F> {
    pub fn new(l_1: F, l_2: F) -> (r: Self)
        ensures
            r.l_1 == l_1,
            r.l_2 == l_2,
    {
        Self { l_1, l_2 }
    }

    /// The joints of the arm, from the cosines and sines of its angles: the
    /// first link points along the first angle, the second along the sum.
    pub open spec fn place_spec(&self, trig: ArmTrig<F>) -> State<F> {
        let p_1 = Vector2 { x: self.l_1.mul_spec(trig.cos_1), y: self.l_1.mul_spec(trig.sin_1) };
        let p_2 = p_1.add_spec(
            Vector2 { x: self.l_2.mul_spec(trig.cos_12), y: self.l_2.mul_spec(trig.sin_12) },
        );
        State { p_1, p_2 }
    }

    pub fn place(&self, trig: &ArmTrig<F>) -> (r: State<F>)
        ensures
            r == self.place_spec(*trig),
    {
        let p_1 = Vector2 { x: self.l_1.mul(trig.cos_1), y: self.l_1.mul(trig.sin_1) };
        let p_2 = p_1.add(
            &Vector2 { x: self.l_2.mul(trig.cos_12), y: self.l_2.mul(trig.sin_12) },
        );
        State { p_1, p_2 }
    }

    /// Whether `trig` holds values that the cosine and the sine may return
    /// for the angles `config_state`, in radians.
    pub open spec fn trig_rel(config_state: Vector2<F>, trig: ArmTrig<F>) -> bool {
        let sum = config_state.x.add_spec(config_state.y);
        &&& config_state.x.cos_rel(trig.cos_1)
        &&& config_state.x.sin_rel(trig.sin_1)
        &&& sum.cos_rel(trig.cos_12)
        &&& sum.sin_rel(trig.sin_12)
    }

    /// Whether `r` is a placement of the arm at the angles `config_state`.
    pub open spec fn is_forward_kinematics(&self, config_state: Vector2<F>, r: State<F>) -> bool {
        exists|trig: ArmTrig<F>| #[trigger]
            Self::trig_rel(config_state, trig) && r == self.place_spec(trig)
    }

    /// The joints of the arm at the angles `config_state`, in radians: `x`
    /// for the first link against the x axis, `y` for the second link
    /// against the first.
    pub fn forward_kinematics(&self, config_state: &Vector2<F>) -> (r: State<F>)
        ensures
            self.is_forward_kinematics(*config_state, r),
    {
        let sum = config_state.x.add(config_state.y);
        let trig = ArmTrig {
            cos_1: config_state.x.cos(),
            sin_1: config_state.x.sin(),
            cos_12: sum.cos(),
            sin_12: sum.sin(),
        };
        assert(Self::trig_rel(*config_state, trig));
        self.place(&trig)
    }
}

/// The configurations that bring the end of the arm to a point.
#[derive(Debug)]
pub enum ReverseSolutions<F> {
    InfinitelyMany,
    Two(Vector2<F>, Vector2<F>),
    One(Vector2<F>),
    NoSolution,
}

/// The places of the elbow from which the end of the arm reaches a point.
#[derive(Debug)]
pub enum MiddleSolutions<F> {
    Two(Vector2<F>, Vector2<F>),
    One(Vector2<F>),
    NoSolution,
}

/// The coefficients of the quadratic equation for one coordinate of the
/// elbow, and its discriminant.
pub struct Quadratic<F> {
    pub a: F,
    pub b: F,
    pub delta: F,
}

impl<F: Float> System<F> {
    /// Half of `x^2 + y^2 + l_1^2 - l_2^2`: the product of the target with
    /// the elbow, for a target at `(x, y)`.
    pub open spec fn reach_spec(&self, x2: F, y2: F) -> F {
        crate::numerics::ratio_spec::<F>(1, 2).neg_spec().mul_spec(
            self.l_2.mul_spec(self.l_2).sub_spec(x2).sub_spec(y2).sub_spec(
                self.l_1.mul_spec(self.l_1),
            ),
        )
    }

    /// The quadratic equation for the elbow's coordinate along the axis of
    /// `y`, for a target whose other coordinate `x` is not zero.
    pub open spec fn quadratic_spec(&self, y: F, x2: F, y2: F, p: F) -> Quadratic<F> {
        let a = F::from_i32_spec(1).add_spec(y2.div_spec(x2));
        let b = F::from_i32_spec(2).neg_spec().mul_spec(p).mul_spec(y).div_spec(x2);
        let c = p.mul_spec(p).div_spec(x2).sub_spec(self.l_1.mul_spec(self.l_1));
        Quadratic {
            a,
            b,
            delta: b.mul_spec(b).sub_spec(F::from_i32_spec(4).mul_spec(a).mul_spec(c)),
        }
    }

    /// The elbow whose coordinate along the axis of `y` is `middle_y`.
    pub open spec fn middle_at_spec(x: F, y: F, p: F, middle_y: F) -> Vector2<F> {
        Vector2 { x: p.sub_spec(y.mul_spec(middle_y)).div_spec(x), y: middle_y }
    }

    /// The places of the elbow for a target at `(x, y)` with `x` other than
    /// zero: two, one or none, as the discriminant is above, at or below zero.
    pub open spec fn middle_from_target_spec(&self, x: F, y: F, x2: F, y2: F, p: F)
        -> MiddleSolutions<F> {
        let q = self.quadratic_spec(y, x2, y2, p);
        let zero = F::from_i32_spec(0);
        let two_a = F::from_i32_spec(2).mul_spec(q.a);
        if q.delta.lt_spec(zero) {
            MiddleSolutions::NoSolution
        } else if zero.lt_spec(q.delta) {
            MiddleSolutions::Two(
                Self::middle_at_spec(
                    x,
                    y,
                    p,
                    q.b.neg_spec().sub_spec(q.delta.sqrt_spec()).div_spec(two_a),
                ),
                Self::middle_at_spec(
                    x,
                    y,
                    p,
                    q.b.neg_spec().add_spec(q.delta.sqrt_spec()).div_spec(two_a),
                ),
            )
        } else {
            MiddleSolutions::One(Self::middle_at_spec(x, y, p, q.b.neg_spec().div_spec(two_a)))
        }
    }

    pub fn middle_from_target(&self, x: F, y: F, x2: F, y2: F, p: F) -> (r: MiddleSolutions<F>)
        ensures
            r == self.middle_from_target_spec(x, y, x2, y2, p),
    {
        let a = F::from_i32(1).add(y2.div(x2));
        let b = F::from_i32(2).neg().mul(p).mul(y).div(x2);
        let c = p.mul(p).div(x2).sub(self.l_1.mul(self.l_1));

        let delta = b.mul(b).sub(F::from_i32(4).mul(a).mul(c));
        let zero = F::from_i32(0);
        let two_a = F::from_i32(2).mul(a);

        if delta.lt(zero) {
            MiddleSolutions::NoSolution
        } else if zero.lt(delta) {
            let middle_y_1 = b.neg().sub(delta.sqrt()).div(two_a);
            let middle_y_2 = b.neg().add(delta.sqrt()).div(two_a);
            let middle_x_1 = p.sub(y.mul(middle_y_1)).div(x);
            let middle_x_2 = p.sub(y.mul(middle_y_2)).div(x);

            MiddleSolutions::Two(
                Vector2 { x: middle_x_1, y: middle_y_1 },
                Vector2 { x: middle_x_2, y: middle_y_2 },
            )
        } else {
            let middle_y = b.neg().div(two_a);
            let middle_x = p.sub(y.mul(middle_y)).div(x);

            MiddleSolutions::One(Vector2 { x: middle_x, y: middle_y })
        }
    }

    /// The target as seen from the elbow `middle`, in the frame of the first
    /// link: turned back by the first angle, whose negative has the sine
    /// `sin` and the cosine `cos`.
    pub open spec fn in_frame_spec(target: Vector2<F>, middle: Vector2<F>, sin: F, cos: F)
        -> Vector2<F> {
        let d = target.sub_spec(middle);
        Vector2 {
            x: cos.mul_spec(d.x).add_spec(sin.neg_spec().mul_spec(d.y)),
            y: sin.mul_spec(d.x).add_spec(cos.mul_spec(d.y)),
        }
    }

    /// Whether `r` holds angles of an arm with its elbow at `middle` and its
    /// end at `target`: the first is an angle of the elbow, the second an
    /// angle of the target in the frame of the first link.
    pub open spec fn is_config_state(target: Vector2<F>, middle: Vector2<F>, r: Vector2<F>)
        -> bool {
        &&& middle.y.atan2_rel(middle.x, r.x)
        &&& exists|sin: F, cos: F|
            {
                &&& #[trigger] r.x.neg_spec().sin_rel(sin)
                &&& #[trigger] r.x.neg_spec().cos_rel(cos)
                &&& Self::in_frame_spec(target, middle, sin, cos).y.atan2_rel(
                    Self::in_frame_spec(target, middle, sin, cos).x,
                    r.y,
                )
            }
    }

    pub fn to_config_state(&self, target: &Vector2<F>, middle: &Vector2<F>) -> (r: Vector2<F>)
        ensures
            Self::is_config_state(*target, *middle, r),
    {
        let alpha_1 = middle.y.atan2(middle.x);
        let sin = alpha_1.neg().sin();
        let cos = alpha_1.neg().cos();
        let d = target.sub(middle);
        let target_in_frame_1 = Vector2 {
            x: cos.mul(d.x).add(sin.neg().mul(d.y)),
            y: sin.mul(d.x).add(cos.mul(d.y)),
        };
        assert(target_in_frame_1 == Self::in_frame_spec(*target, *middle, sin, cos));
        let alpha_2 = target_in_frame_1.y.atan2(target_in_frame_1.x);
        assert(alpha_1.neg_spec().sin_rel(sin));
        assert(alpha_1.neg_spec().cos_rel(cos));
        Vector2 { x: alpha_1, y: alpha_2 }
    }

    /// The places of the elbow for `target`, or `None` for a target at the
    /// origin, which every elbow or none reaches. A target off the y axis is
    /// solved for the elbow's y, one on it for the elbow's x.
    pub open spec fn middles_spec(&self, target: Vector2<F>) -> Option<MiddleSolutions<F>> {
        let zero = F::from_i32_spec(0);
        let x2 = target.x.mul_spec(target.x);
        let y2 = target.y.mul_spec(target.y);
        let p = self.reach_spec(x2, y2);
        if !target.x.eq_spec(zero) {
            Some(self.middle_from_target_spec(target.x, target.y, x2, y2, p))
        } else if !target.y.eq_spec(zero) {
            Some(
                match self.middle_from_target_spec(target.y, target.x, y2, x2, p) {
                    MiddleSolutions::Two(s_1, s_2) => MiddleSolutions::Two(
                        Vector2 { x: s_1.y, y: s_1.x },
                        Vector2 { x: s_2.y, y: s_2.x },
                    ),
                    MiddleSolutions::One(s_0) => MiddleSolutions::One(
                        Vector2 { x: s_0.y, y: s_0.x },
                    ),
                    MiddleSolutions::NoSolution => MiddleSolutions::NoSolution,
                },
            )
        } else {
            None
        }
    }

    /// Whether `r` holds the configurations that bring the end of the arm to
    /// `target`: one for each place of the elbow; for a target at the origin
    /// infinitely many where the links are of one length, else none.
    pub open spec fn is_inverse_kinematics(&self, target: Vector2<F>, r: ReverseSolutions<F>)
        -> bool {
        match self.middles_spec(target) {
            None => r == if self.l_1.eq_spec(self.l_2) {
                ReverseSolutions::<F>::InfinitelyMany
            } else {
                ReverseSolutions::<F>::NoSolution
            },
            Some(MiddleSolutions::NoSolution) => r == ReverseSolutions::<F>::NoSolution,
            Some(MiddleSolutions::One(m)) => match r {
                ReverseSolutions::One(c) => Self::is_config_state(target, m, c),
                _ => false,
            },
            Some(MiddleSolutions::Two(m_1, m_2)) => match r {
                ReverseSolutions::Two(c_1, c_2) => Self::is_config_state(target, m_1, c_1)
                    && Self::is_config_state(target, m_2, c_2),
                _ => false,
            },
        }
    }

    pub fn inverse_kinematics(&self, target: &Vector2<F>) -> (r: ReverseSolutions<F>)
        ensures
            self.is_inverse_kinematics(*target, r),
    {
        let x = target.x;
        let y = target.y;
        let x2 = x.mul(x);
        let y2 = y.mul(y);
        let zero = F::from_i32(0);

        let p = crate::numerics::ratio::<F>(1, 2).neg().mul(
            self.l_2.mul(self.l_2).sub(x2).sub(y2).sub(self.l_1.mul(self.l_1)),
        );

        if !target.x.eq(zero) {
            let middle = self.middle_from_target(x, y, x2, y2, p);

            match middle {
                MiddleSolutions::Two(s_1, s_2) => ReverseSolutions::Two(
                    self.to_config_state(target, &s_1),
                    self.to_config_state(target, &s_2),
                ),
                MiddleSolutions::One(s_0) => ReverseSolutions::One(
                    self.to_config_state(target, &s_0),
                ),
                MiddleSolutions::NoSolution => ReverseSolutions::NoSolution,
            }
        } else if !target.y.eq(zero) {
            let middle = self.middle_from_target(y, x, y2, x2, p);

            match middle {
                MiddleSolutions::Two(s_1, s_2) => ReverseSolutions::Two(
                    self.to_config_state(target, &Vector2 { x: s_1.y, y: s_1.x }),
                    self.to_config_state(target, &Vector2 { x: s_2.y, y: s_2.x }),
                ),
                MiddleSolutions::One(s_0) => ReverseSolutions::One(
                    self.to_config_state(target, &Vector2 { x: s_0.y, y: s_0.x }),
                ),
                MiddleSolutions::NoSolution => ReverseSolutions::NoSolution,
            }
        } else {
            if self.l_1.eq(self.l_2) {
                ReverseSolutions::InfinitelyMany
            } else {
                ReverseSolutions::NoSolution
            }
        }
    }
}

} // verus!
