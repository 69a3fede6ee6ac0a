use vstd::prelude::*;

use crate::numerics::Float;

verus! {

/// A function of time with parameters that its user may turn.
pub trait ParametrizableFunction {
    type F: Float;

    /// Whether `r` is a value that the function may come out as at time `t`.
    spec fn value_rel(&self, t: Self::F, r: Self::F) -> bool;

    /// The formula, as the panel shows it.
    fn name(&self) -> &'static str;

    fn value(&self, t: Self::F) -> (r: Self::F)
        ensures
            self.value_rel(t, r),
    ;
}

/// The same value `A` at every time.
#[derive(Clone, Copy, Debug)]
pub struct ConstantFunction<F> {
    pub value: F,
}

/// Zero before the time `t_0`, the amplitude from then on.
#[derive(Clone, Copy, Debug)]
pub struct StepFunction<F> {
    pub amplitude: F,
    pub t_0: F,
}

/// A square wave: the amplitude with the sign of a sine.
#[derive(Clone, Copy, Debug)]
pub struct StepSine<F> {
    pub amplitude: F,
    pub frequency: F,
    pub phase: F,
}

/// A sine wave.
#[derive(Clone, Copy, Debug)]
pub struct Sine<F> {
    pub amplitude: F,
    pub frequency: F,
    pub phase: F,
}

impl<F: Float> ConstantFunction<F> {
    pub fn new(value: F) -> (r: Self)
        ensures
            r.value == value,
    {
        Self { value }
    }
}

impl<F: Float> StepFunction<F> {
    pub fn new(amplitude: F, t_0: F) -> (r: Self)
        ensures
            r.amplitude == amplitude,
            r.t_0 == t_0,
    {
        Self { amplitude, t_0 }
    }
}

impl<F: Float> StepSine<F> {
    pub fn new(amplitude: F, frequency: F, phase: F) -> (r: Self)
        ensures
            r.amplitude == amplitude,
            r.frequency == frequency,
            r.phase == phase,
    {
        Self { amplitude, frequency, phase }
    }

    /// The value for the sine `s` of the wave's angle.
    pub open spec fn value_from_spec(&self, s: F) -> F {
        if F::from_i32_spec(0).lt_spec(s) {
            self.amplitude
        } else {
            self.amplitude.neg_spec()
        }
    }
}

impl<F: Float> Sine<F> {
    pub fn new(amplitude: F, frequency: F, phase: F) -> (r: Self)
        ensures
            r.amplitude == amplitude,
            r.frequency == frequency,
            r.phase == phase,
    {
        Self { amplitude, frequency, phase }
    }
}

/// The angle of a wave at time `t`: `t * frequency + phase`.
pub open spec fn wave_angle_spec<F: Float>(t: F, frequency: F, phase: F) -> F {
    t.mul_spec(frequency).add_spec(phase)
}

impl<F: Float> ParametrizableFunction for ConstantFunction<F> {
    type F = F;

    open spec fn value_rel(&self, t: F, r: F) -> bool {
        r == self.value
    }

    fn name(&self) -> (r: &'static str)
        ensures
            r@ == "A"@,
    {
        "A"
    }

    fn value(&self, t: F) -> (r: F) {
        self.value
    }
}

impl<F: Float> ParametrizableFunction for StepFunction<F> {
    type F = F;

    open spec fn value_rel(&self, t: F, r: F) -> bool {
        r == if t.lt_spec(self.t_0) {
            F::from_i32_spec(0)
        } else {
            self.amplitude
        }
    }

    fn name(&self) -> (r: &'static str)
        ensures
            r@ == "t<0=>0, t>0=>A"@,
    {
        "t<0=>0, t>0=>A"
    }

    fn value(&self, t: F) -> (r: F) {
        if t.lt(self.t_0) {
            F::from_i32(0)
        } else {
            self.amplitude
        }
    }
}

impl<F: Float> ParametrizableFunction for StepSine<F> {
    type F = F;

    open spec fn value_rel(&self, t: F, r: F) -> bool {
        exists|s: F| #[trigger]
            wave_angle_spec(t, self.frequency, self.phase).sin_rel(s) && r == self.value_from_spec(
                s,
            )
    }

    fn name(&self) -> (r: &'static str)
        ensures
            r@ == "A*sgn(sin(ω*t+φ))"@,
    {
        "A*sgn(sin(ω*t+φ))"
    }

    fn value(&self, t: F) -> (r: F) {
        let s = t.mul(self.frequency).add(self.phase).sin();
        assert(wave_angle_spec(t, self.frequency, self.phase).sin_rel(s));
        if F::from_i32(0).lt(s) {
            self.amplitude
        } else {
            self.amplitude.neg()
        }
    }
}

impl<F: Float> ParametrizableFunction for Sine<F> {
    type F = F;

    open spec fn value_rel(&self, t: F, r: F) -> bool {
        exists|s: F| #[trigger]
            wave_angle_spec(t, self.frequency, self.phase).sin_rel(s) && r
                == self.amplitude.mul_spec(s)
    }

    fn name(&self) -> (r: &'static str)
        ensures
            r@ == "A*sin(ω*t+φ)"@,
    {
        "A*sin(ω*t+φ)"
    }

    fn value(&self, t: F) -> (r: F) {
        let s = t.mul(self.frequency).add(self.phase).sin();
        assert(wave_angle_spec(t, self.frequency, self.phase).sin_rel(s));
        self.amplitude.mul(s)
    }
}

/// One of the functions of time that can drive a body.
#[derive(Clone, Copy, Debug)]
pub enum FloatFn<F> {
    Constant(ConstantFunction<F>),
    Step(StepFunction<F>),
    StepSine(StepSine<F>),
    Sine(Sine<F>),
}

impl<F: Float> FloatFn<F> {
    /// Whether `r` is a value that the function may come out as at time `t`.
    pub open spec fn call_rel(&self, t: F, r: F) -> bool {
        match *self {
            FloatFn::Constant(f) => f.value_rel(t, r),
            FloatFn::Step(f) => f.value_rel(t, r),
            FloatFn::StepSine(f) => f.value_rel(t, r),
            FloatFn::Sine(f) => f.value_rel(t, r),
        }
    }

    pub fn call(&self, t: F) -> (r: F)
        ensures
            self.call_rel(t, r),
    {
        match self {
            FloatFn::Constant(f) => f.value(t),
            FloatFn::Step(f) => f.value(t),
            FloatFn::StepSine(f) => f.value(t),
            FloatFn::Sine(f) => f.value(t),
        }
    }
}

} // verus!
