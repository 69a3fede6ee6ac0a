use vstd::prelude::*;

use crate::numerics::linalg::{seq_add, seq_scale, seq_unscale, vec_add, vec_scale, vec_unscale};
use crate::numerics::ode::{PlainODE, Solver, SolverWithDelta, State};
use crate::numerics::{ratio, ratio_spec, Float};

verus! {

/// The classic Runge-Kutta method of order four with step `delta`.
pub struct RungeKuttaIV<F: Float, const DIM_OUT: usize, O: PlainODE<F, DIM_OUT>> {
    pub delta: F,
    pub ode: O,
}

/// The first slope: the right-hand side at the start of the step.
pub open spec fn slope_1<F: Float, const DIM_OUT: usize, O: PlainODE<F, DIM_OUT>>(
    ode: O,
    h: F,
    t: F,
    y: Seq<F>,
) -> Seq<F> {
    ode.derivative_spec(t, y)
}

/// The second slope: at half a step, following the first slope.
pub open spec fn slope_2<F: Float, const DIM_OUT: usize, O: PlainODE<F, DIM_OUT>>(
    ode: O,
    h: F,
    t: F,
    y: Seq<F>,
) -> Seq<F> {
    let half = ratio_spec::<F>(1, 2);
    ode.derivative_spec(
        t.add_spec(h.mul_spec(half)),
        seq_add(y, seq_scale(seq_scale(slope_1(ode, h, t, y), h), half)),
    )
}

/// The third slope: at half a step, following the second slope.
pub open spec fn slope_3<F: Float, const DIM_OUT: usize, O: PlainODE<F, DIM_OUT>>(
    ode: O,
    h: F,
    t: F,
    y: Seq<F>,
) -> Seq<F> {
    let half = ratio_spec::<F>(1, 2);
    ode.derivative_spec(
        t.add_spec(h.mul_spec(half)),
        seq_add(y, seq_scale(seq_scale(slope_2(ode, h, t, y), h), half)),
    )
}

/// The fourth slope: at the end of the step, following the third slope.
pub open spec fn slope_4<F: Float, const DIM_OUT: usize, O: PlainODE<F, DIM_OUT>>(
    ode: O,
    h: F,
    t: F,
    y: Seq<F>,
) -> Seq<F> {
    ode.derivative_spec(t.add_spec(h), seq_add(y, seq_scale(slope_3(ode, h, t, y), h)))
}

/// The unknowns one step later: `y + (k1 + 2 k2 + 2 k3 + k4) * h / 6`.
pub open spec fn runge_kutta_y<F: Float, const DIM_OUT: usize, O: PlainODE<F, DIM_OUT>>(
    ode: O,
    h: F,
    t: F,
    y: Seq<F>,
) -> Seq<F> {
    let two = F::from_i32_spec(2);
    let six = F::from_i32_spec(6);
    let weighted = seq_add(
        seq_add(
            seq_add(slope_1(ode, h, t, y), seq_scale(slope_2(ode, h, t, y), two)),
            seq_scale(slope_3(ode, h, t, y), two),
        ),
        slope_4(ode, h, t, y),
    );
    seq_add(y, seq_unscale(seq_scale(weighted, h), six))
}

impl<F: Float, const DIM_OUT: usize, O: PlainODE<F, DIM_OUT>> RungeKuttaIV<F, DIM_OUT, O> {
    pub fn new(step: F, ode: O) -> (r: Self)
        ensures
            r.delta == step,
            r.ode == ode,
    {
        Self { delta: step, ode }
    }
}

impl<F: Float, const DIM_OUT: usize, O: PlainODE<F, DIM_OUT>> Solver<F, DIM_OUT, O> for RungeKuttaIV<
    F,
    DIM_OUT,
    O,
> {
    open spec fn ode_spec(&self) -> O {
        self.ode
    }

    open spec fn step_t_spec(&self, t: F) -> F {
        t.add_spec(self.delta)
    }

    open spec fn step_y_spec(&self, t: F, y: Seq<F>) -> Seq<F> {
        runge_kutta_y(self.ode, self.delta, t, y)
    }

    fn step(&self, state: &State<F, DIM_OUT>) -> (r: State<F, DIM_OUT>) {
        let h = self.delta;
        let half: F = ratio(1, 2);
        let two = F::from_i32(2);
        let six = F::from_i32(6);
        let t = state.t;
        let y = &state.y;

        let k1 = self.ode.derivative(state);

        let k2 = self.ode.derivative(
            &State { t: t.add(h.mul(half)), y: vec_add(y, &vec_scale(&vec_scale(&k1, h), half)) },
        );

        let k3 = self.ode.derivative(
            &State { t: t.add(h.mul(half)), y: vec_add(y, &vec_scale(&vec_scale(&k2, h), half)) },
        );

        let k4 = self.ode.derivative(&State { t: t.add(h), y: vec_add(y, &vec_scale(&k3, h)) });

        let weighted = vec_add(
            &vec_add(&vec_add(&k1, &vec_scale(&k2, two)), &vec_scale(&k3, two)),
            &k4,
        );
        State { t: t.add(h), y: vec_add(y, &vec_unscale(&vec_scale(&weighted, h), six)) }
    }

    fn replace_ode(&mut self, ode: O) -> (r: O) {
        let mut ode = ode;
        std::mem::swap(&mut self.ode, &mut ode);
        ode
    }

    fn take_ode(self) -> (r: O) {
        self.ode
    }

    fn ode_mut(&mut self) -> (r: &mut O) {
        &mut self.ode
    }

    fn ode(&self) -> (r: &O) {
        &self.ode
    }
}

impl<F: Float, const DIM_OUT: usize, O: PlainODE<F, DIM_OUT>> SolverWithDelta<
    F,
    DIM_OUT,
    O,
> for RungeKuttaIV<F, DIM_OUT, O> {
    open spec fn delta_spec(&self) -> F {
        self.delta
    }

    fn delta_mut(&mut self) -> (r: &mut F) {
        &mut self.delta
    }

    fn delta(&self) -> (r: F) {
        self.delta
    }
}

} // verus!
