use std::collections::VecDeque;
use vstd::prelude::*;

use crate::numerics::{le, le_spec, ratio, ratio_spec, Float};

verus! {

/// How many second differences are kept at most.
pub const MAX_HISTORY: usize = 10000;

/// A wheel that drives a piston through an arm whose length is not quite
/// known, with the piston's place, velocity and acceleration over time.
pub struct Hodograph<F: Float> {
    pub stddev: F,
    pub angular_speed: F,
    pub arm_length: F,
    pub wheel_radius: F,
    pub delta: F,
    pub work_left: F,
    pub error: F,
    pub x: VecDeque<F>,
    pub xp: VecDeque<F>,
    pub xpp: VecDeque<F>,
    pub time: VecDeque<F>,
    pub angle: F,
    pub simulation_speed: F,
}

/// The values of the sines and cosines that place the piston.
pub struct CrankTrig<F> {
    /// The sine of the wheel's angle.
    pub sin: F,
    /// The cosine of the wheel's angle.
    pub cos: F,
    /// The angle of the arm against the piston's line.
    pub arm_arc: F,
    /// The cosine of that angle's size.
    pub arm_cos: F,
}

/// The difference quotient over two steps: `(last - first) / 2 / delta`.
pub open spec fn central_spec<F: Float>(first: F, last: F, delta: F) -> F {
    last.sub_spec(first).div_spec(F::from_i32_spec(2)).div_spec(delta)
}

/// What is kept of `s` when `drop` entries are taken off its front.
pub open spec fn kept_spec<F: Float>(s: Seq<F>, drop: int) -> Seq<F> {
    s.subrange(drop, s.len() as int)
}

/// Whether `trig` holds values that the scalar type may give for a wheel of
/// the radius `radius` at the angle `angle` and an arm of the length `arm`.
pub open spec fn trig_rel<F: Float>(angle: F, arm: F, radius: F, trig: CrankTrig<F>) -> bool {
    &&& angle.sin_rel(trig.sin)
    &&& angle.cos_rel(trig.cos)
    &&& trig.sin.mul_spec(radius).div_spec(arm).asin_rel(trig.arm_arc)
    &&& trig.arm_arc.abs_spec().cos_rel(trig.arm_cos)
}

/// The place of the piston: the arm's and the wheel's share along the
/// piston's line.
pub open spec fn slide_from_spec<F: Float>(arm: F, radius: F, trig: CrankTrig<F>) -> F {
    trig.arm_cos.mul_spec(arm).add_spec(trig.cos.mul_spec(radius))
}

/// Whether `r` is a place of the piston.
pub open spec fn is_slide_at<F: Float>(angle: F, arm: F, radius: F, r: F) -> bool {
    exists|trig: CrankTrig<F>| #[trigger]
        trig_rel(angle, arm, radius, trig) && r == slide_from_spec(arm, radius, trig)
}

impl<F: Float> Hodograph<F> {
    /// The histories fit each other: there is a time for every place, and
    /// a difference for every place but the first and the last.
    pub open spec fn wf(&self) -> bool {
        &&& self.time@.len() == self.x@.len()
        &&& self.x@.len() >= 1
        &&& self.xp@.len() + 2 == self.x@.len() || (self.xp@.len() == 0 && self.x@.len() <= 2)
        &&& self.xpp@.len() + 2 == self.xp@.len() || (self.xpp@.len() == 0 && self.xp@.len() <= 2)
        &&& self.xpp@.len() <= MAX_HISTORY
    }

    /// The length of the arm with its error.
    pub open spec fn arm_spec(&self) -> F {
        self.arm_length.add_spec(self.error)
    }

    /// Whether `r` is a place of the piston at the wheel's angle.
    pub open spec fn is_slide(&self, r: F) -> bool {
        is_slide_at(self.angle, self.arm_spec(), self.wheel_radius, r)
    }

    /// The place of the piston.
    pub fn slide(&self) -> (r: F)
        ensures
            self.is_slide(r),
    {
        let sin = self.angle.sin();
        let arm = self.arm_length.add(self.error);
        let arm_arc = sin.mul(self.wheel_radius).div(arm).asin();
        let arm_cos = arm_arc.abs().cos();
        let cos = self.angle.cos();
        let ghost trig = CrankTrig { sin, cos, arm_arc, arm_cos };
        assert(trig_rel(self.angle, self.arm_spec(), self.wheel_radius, trig));
        arm_cos.mul(arm).add(cos.mul(self.wheel_radius))
    }

    /// The end of the wheel's spoke, from the cosine and sine of its angle.
    pub fn crank_from(&self, cos: F, sin: F) -> (r: (F, F))
        ensures
            r == (self.wheel_radius.mul_spec(cos), self.wheel_radius.mul_spec(sin)),
    {
        (self.wheel_radius.mul(cos), self.wheel_radius.mul(sin))
    }

    /// A wheel of radius a quarter that turns at a speed of one, with an
    /// arm of length four fifths, at angle and time zero; the time step is
    /// a hundredth.
    pub fn new() -> (r: Self)
        ensures
            r.wf(),
            r.stddev == ratio_spec::<F>(1, 1000000),
            r.angular_speed == F::from_i32_spec(1),
            r.arm_length == ratio_spec::<F>(4, 5),
            r.wheel_radius == ratio_spec::<F>(1, 4),
            r.delta == ratio_spec::<F>(1, 100),
            r.work_left == F::from_i32_spec(0),
            r.error == F::from_i32_spec(0),
            r.angle == F::from_i32_spec(0),
            r.simulation_speed == F::from_i32_spec(1),
            r.time@ == seq![F::from_i32_spec(0)],
            r.x@.len() == 1,
            r.is_slide(r.x@[0]),
    {
        let mut me = Hodograph {
            stddev: ratio(1, 1000000),
            angular_speed: F::from_i32(1),
            arm_length: ratio(4, 5),
            wheel_radius: ratio(1, 4),
            delta: ratio(1, 100),
            work_left: F::from_i32(0),
            error: F::from_i32(0),
            time: VecDeque::new(),
            x: VecDeque::new(),
            xp: VecDeque::new(),
            xpp: VecDeque::new(),
            angle: F::from_i32(0),
            simulation_speed: F::from_i32(1),
        };
        me.time.push_back(F::from_i32(0));
        let place = me.slide();
        me.x.push_back(place);
        me
    }

    /// Adds the share of time of one frame to the work that is left.
    pub fn begin_update(&mut self, delta: F)
        ensures
            *final(self) == (Hodograph {
                work_left: old(self).work_left.add_spec(delta.mul_spec(old(self).simulation_speed)),
                ..*old(self)
            }),
    {
        self.work_left = self.work_left.add(delta.mul(self.simulation_speed));
    }

    /// Whether a whole step of work is left.
    pub fn step_due(&self) -> (r: bool)
        ensures
            r == le_spec(self.delta, self.work_left),
    {
        le(self.delta, self.work_left)
    }

    /// How many entries a step takes off the front of every history, once
    /// there are `second` second differences: one more than are too many.
    pub open spec fn dropped_spec(second: int) -> int {
        if second > MAX_HISTORY {
            second - MAX_HISTORY + 1
        } else {
            0
        }
    }

    /// Takes one step with the arm's error `error`: the wheel turns on, the
    /// piston's new place and time are kept, and with them the difference
    /// quotients of the places and of the velocities over the last two
    /// steps. Histories that have grown too long lose their oldest entries.
    pub fn step(&mut self, error: F)
        requires
            old(self).wf(),
        ensures
            final(self).wf(),
            final(self).error == error,
            final(self).angle == old(self).angle.add_spec(
                old(self).angular_speed.mul_spec(old(self).delta),
            ),
            final(self).work_left == old(self).work_left.sub_spec(old(self).delta),
            final(self).stddev == old(self).stddev,
            final(self).angular_speed == old(self).angular_speed,
            final(self).arm_length == old(self).arm_length,
            final(self).wheel_radius == old(self).wheel_radius,
            final(self).delta == old(self).delta,
            final(self).simulation_speed == old(self).simulation_speed,
            exists|place: F|
                {
                    let time = old(self).time@.push(old(self).delta.add_spec(old(self).time@.last()));
                    let x = old(self).x@.push(place);
                    let xp = if x.len() >= 3 {
                        old(self).xp@.push(
                            central_spec(x[x.len() - 3], x[x.len() - 1], old(self).delta),
                        )
                    } else {
                        old(self).xp@
                    };
                    let xpp = if xp.len() >= 3 {
                        old(self).xpp@.push(
                            central_spec(xp[xp.len() - 3], xp[xp.len() - 1], old(self).delta),
                        )
                    } else {
                        old(self).xpp@
                    };
                    let drop = Self::dropped_spec(xpp.len() as int);
                    &&& #[trigger] final(self).is_slide(place)
                    &&& final(self).time@ == kept_spec(time, drop)
                    &&& final(self).x@ == kept_spec(x, drop)
                    &&& final(self).xp@ == kept_spec(xp, drop)
                    &&& final(self).xpp@ == kept_spec(xpp, drop)
                },
    {
        self.error = error;
        self.angle = self.angle.add(self.angular_speed.mul(self.delta));

        let last_time = self.time[self.time.len() - 1];
        self.time.push_back(self.delta.add(last_time));
        let place = self.slide();
        self.x.push_back(place);
        let two = F::from_i32(2);

        if self.x.len() >= 3 {
            let n = self.x.len();
            self.xp.push_back(self.x[n - 1].sub(self.x[n - 3]).div(two).div(self.delta));
        }

        if self.xp.len() >= 3 {
            let n = self.xp.len();
            self.xpp.push_back(self.xp[n - 1].sub(self.xp[n - 3]).div(two).div(self.delta));
        }

        let ghost time = self.time@;
        let ghost x = self.x@;
        let ghost xp = self.xp@;
        let ghost xpp = self.xpp@;

        if self.xpp.len() > MAX_HISTORY {
            let to_remove = self.xpp.len() - MAX_HISTORY;
            let mut i: usize = 0;
            while i <= to_remove
                invariant
                    i <= to_remove + 1,
                    to_remove + MAX_HISTORY == xpp.len(),
                    to_remove == 1,
                    xpp.len() + 2 == xp.len(),
                    xp.len() + 2 == x.len(),
                    time.len() == x.len(),
                    self.time@ == kept_spec(time, i as int),
                    self.x@ == kept_spec(x, i as int),
                    self.xp@ == kept_spec(xp, i as int),
                    self.xpp@ == kept_spec(xpp, i as int),
                    self.error == error,
                    self.stddev == old(self).stddev,
                    self.angular_speed == old(self).angular_speed,
                    self.arm_length == old(self).arm_length,
                    self.wheel_radius == old(self).wheel_radius,
                    self.delta == old(self).delta,
                    self.simulation_speed == old(self).simulation_speed,
                    self.work_left == old(self).work_left,
                    self.angle == old(self).angle.add_spec(
                        old(self).angular_speed.mul_spec(old(self).delta),
                    ),
                decreases to_remove + 1 - i,
            {
                self.time.pop_front();
                self.x.pop_front();
                self.xp.pop_front();
                self.xpp.pop_front();
                i += 1;
                assert(self.time@ =~= kept_spec(time, i as int));
                assert(self.x@ =~= kept_spec(x, i as int));
                assert(self.xp@ =~= kept_spec(xp, i as int));
                assert(self.xpp@ =~= kept_spec(xpp, i as int));
            }
        } else {
            assert(self.time@ =~= kept_spec(time, 0));
            assert(self.x@ =~= kept_spec(x, 0));
            assert(self.xp@ =~= kept_spec(xp, 0));
            assert(self.xpp@ =~= kept_spec(xpp, 0));
        }

        self.work_left = self.work_left.sub(self.delta);
        assert(self.is_slide(place));
    }
}

/// Sets up the view of a crank that drives a piston.
#[derive(Debug)]
pub struct HodographBuilder {}

impl HodographBuilder {
    pub fn new() -> (r: Self)
        ensures
            r == (HodographBuilder {  }),
    {
        HodographBuilder {  }
    }

    /// The line that the set-up panel shows.
    pub fn label(&self) -> (r: &'static str)
        ensures
            r@ == "Hodograph"@,
    {
        "Hodograph"
    }

    /// The crank at its start.
    pub fn build<F: Float>(&self) -> (r: Hodograph<F>)
        ensures
            r.wf(),
            r.angle == F::from_i32_spec(0),
            r.work_left == F::from_i32_spec(0),
            r.x@.len() == 1,
    {
        Hodograph::new()
    }
}

impl Default for HodographBuilder {
    fn default() -> (r: Self)
        ensures
            r == (HodographBuilder {  }),
    {
        HodographBuilder {  }
    }
}

} // verus!
