use phyesthon::numerics::linalg::{Matrix3, Vector3};
use phyesthon::numerics::ode::euler::EulerODESolver;
use phyesthon::numerics::ode::runge_kutta::RungeKuttaIV;
use phyesthon::numerics::ode::{PlainODE, Solver, SolverWithDelta, State, ODE};
use phyesthon::numerics::rotations::Quaternion;
use phyesthon::numerics::Float;
use phyesthon::physics::inertia::Inertia;
use phyesthon::presenters::jelly::{JellyBuilder, Simulation};
use phyesthon::presenters::parametrizable_function::{ConstantFunction, FloatFn, StepFunction};
use phyesthon::presenters::spinning_top::{SpinningTop, SpinningTopBuilder};
use phyesthon::presenters::spring::{create_selectable_functions, SpringBuilder};
use phyesthon::simulators::jelly::{
    point_index, room_half_size, spring_force, ControlFrameTransform, JellyODE, JellyState,
};
use phyesthon::simulators::spinning_top::{tensor, SpinningTopODE, SpinningTopState};
use phyesthon::simulators::spring::SpringODE;

#[derive(Clone, Copy, Debug, PartialEq)]
struct Real(f64);

impl Float for Real {
    fn from_i32_spec(n: i32) -> Self {
        Self::from_i32(n)
    }

    fn from_i32(n: i32) -> Self {
        Real(f64::from(n))
    }

    fn pi_spec() -> Self {
        Self::pi()
    }

    fn pi() -> Self {
        Real(std::f64::consts::PI)
    }

    fn epsilon_spec() -> Self {
        Self::epsilon()
    }

    fn epsilon() -> Self {
        Real(f64::EPSILON)
    }

    fn add_spec(self, rhs: Self) -> Self {
        self.add(rhs)
    }

    fn add(self, rhs: Self) -> Self {
        Real(self.0 + rhs.0)
    }

    fn sub_spec(self, rhs: Self) -> Self {
        self.sub(rhs)
    }

    fn sub(self, rhs: Self) -> Self {
        Real(self.0 - rhs.0)
    }

    fn mul_spec(self, rhs: Self) -> Self {
        self.mul(rhs)
    }

    fn mul(self, rhs: Self) -> Self {
        Real(self.0 * rhs.0)
    }

    fn div_spec(self, rhs: Self) -> Self {
        self.div(rhs)
    }

    fn div(self, rhs: Self) -> Self {
        Real(self.0 / rhs.0)
    }

    fn rem_spec(self, rhs: Self) -> Self {
        self.rem(rhs)
    }

    fn rem(self, rhs: Self) -> Self {
        Real(self.0 % rhs.0)
    }

    fn neg_spec(self) -> Self {
        self.neg()
    }

    fn neg(self) -> Self {
        Real(-self.0)
    }

    fn abs_spec(self) -> Self {
        self.abs()
    }

    fn abs(self) -> Self {
        Real(self.0.abs())
    }

    fn sqrt_spec(self) -> Self {
        self.sqrt()
    }

    fn sqrt(self) -> Self {
        Real(self.0.sqrt())
    }

    fn parse_spec(text: Vec<u8>) -> Option<Self> {
        Self::parse(&text)
    }

    fn parse(text: &[u8]) -> Option<Self> {
        std::str::from_utf8(text).ok()?.parse::<f64>().ok().map(Real)
    }

    fn floor_u32_spec(self) -> u32 {
        self.floor_u32()
    }

    fn floor_u32(self) -> u32 {
        self.0.floor() as u32
    }

    fn ceil_u32_spec(self) -> u32 {
        self.ceil_u32()
    }

    fn ceil_u32(self) -> u32 {
        self.0.ceil() as u32
    }

    fn round_u32_spec(self) -> u32 {
        self.round_u32()
    }

    fn round_u32(self) -> u32 {
        self.0.round() as u32
    }

    fn lt_spec(self, rhs: Self) -> bool {
        self.lt(rhs)
    }

    fn lt(self, rhs: Self) -> bool {
        self.0 < rhs.0
    }

    fn eq_spec(self, rhs: Self) -> bool {
        self.eq(rhs)
    }

    fn eq(self, rhs: Self) -> bool {
        self.0 == rhs.0
    }

    fn sin_rel(self, r: Self) -> bool {
        r.0.abs() <= 1.0
    }

    fn sin(self) -> Self {
        Real(self.0.sin())
    }

    fn cos_rel(self, r: Self) -> bool {
        r.0.abs() <= 1.0
    }

    fn cos(self) -> Self {
        Real(self.0.cos())
    }

    fn asin_rel(self, _r: Self) -> bool {
        true
    }

    fn asin(self) -> Self {
        Real(self.0.asin())
    }

    fn acos_rel(self, _r: Self) -> bool {
        true
    }

    fn acos(self) -> Self {
        Real(self.0.acos())
    }

    fn atan2_rel(self, _x: Self, _r: Self) -> bool {
        true
    }

    fn atan2(self, x: Self) -> Self {
        Real(self.0.atan2(x.0))
    }
}

fn close(a: f64, b: f64, tolerance: f64) -> bool {
    (a - b).abs() <= tolerance
}

fn v3(x: f64, y: f64, z: f64) -> Vector3<Real> {
    Vector3 { x: Real(x), y: Real(y), z: Real(z) }
}

fn reals(values: &[f64]) -> Vec<Real> {
    values.iter().map(|v| Real(*v)).collect()
}

struct Decay {
    k: f64,
}

impl PlainODE<Real, 1> for Decay {
    fn derivative_spec(&self, _t: Real, _y: vstd::seq::Seq<Real>) -> vstd::seq::Seq<Real> {
        unreachable!()
    }

    fn derivative(&self, state: &State<Real, 1>) -> Vec<Real> {
        vec![Real(-self.k * state.y[0].0)]
    }
}

struct Clock;

impl PlainODE<Real, 1> for Clock {
    fn derivative_spec(&self, _t: Real, _y: vstd::seq::Seq<Real>) -> vstd::seq::Seq<Real> {
        unreachable!()
    }

    fn derivative(&self, state: &State<Real, 1>) -> Vec<Real> {
        vec![state.t]
    }
}

struct Ramp {
    t: Real,
    y: Real,
}

impl ODE<Real, 1> for Ramp {
    type Equation = ();

    fn equation_spec(&self) {}

    fn t_spec(&self) -> Real {
        self.t
    }

    fn y_spec(&self) -> vstd::seq::Seq<Real> {
        unreachable!()
    }

    fn derivative_rel(&self, _d: vstd::seq::Seq<Real>) -> bool {
        true
    }

    fn derivative(&self) -> Vec<Real> {
        vec![Real(1.0)]
    }

    fn t(&self) -> Real {
        self.t
    }

    fn y(&self) -> Vec<Real> {
        vec![self.y]
    }

    fn set_t(&mut self, t: Real) {
        self.t = t;
    }

    fn set_y(&mut self, y: Vec<Real>) {
        self.y = y[0];
    }
}

fn decay_error(h: f64) -> f64 {
    let solver = RungeKuttaIV::new(Real(h), Decay { k: 2.0 });
    let mut state = State::<Real, 1>::new(Real(0.0), vec![Real(1.0)]).unwrap();
    let steps = (1.0 / h).round() as usize;
    for _ in 0..steps {
        state = solver.step(&state);
    }
    (state.y[0].0 - (-2.0f64).exp()).abs()
}

#[test]
fn runge_kutta_is_of_fourth_order_on_exponential_decay() {
    let coarse = decay_error(0.1);
    let fine = decay_error(0.05);
    let finer = decay_error(0.025);
    assert!(coarse < 1e-4);
    let first = coarse / fine;
    let second = fine / finer;
    assert!(first > 12.0 && first < 20.0, "ratio {}", first);
    assert!(second > 12.0 && second < 20.0, "ratio {}", second);
}

#[test]
fn runge_kutta_step_on_growth_matches_the_series() {
    let solver = RungeKuttaIV::new(Real(0.1), Decay { k: -1.0 });
    let state = State::<Real, 1>::new(Real(0.0), vec![Real(1.0)]).unwrap();
    let next = solver.step(&state);
    let h = 0.1f64;
    let series = 1.0 + h + h * h / 2.0 + h * h * h / 6.0 + h * h * h * h / 24.0;
    assert!(close(next.y[0].0, series, 1e-15));
    assert_eq!(next.t, Real(0.1));
}

#[test]
fn runge_kutta_takes_the_last_slope_at_the_end_of_the_step() {
    let solver = RungeKuttaIV::new(Real(0.5), Clock);
    let state = State::<Real, 1>::new(Real(1.0), vec![Real(0.0)]).unwrap();
    let next = solver.step(&state);
    assert!(close(next.y[0].0, (1.5f64 * 1.5 - 1.0) / 2.0, 1e-15));
    assert_eq!(next.t, Real(1.5));
}

#[test]
fn solver_hands_out_its_equation_and_its_step() {
    let mut solver = RungeKuttaIV::new(Real(0.1), Decay { k: 1.0 });
    assert_eq!(solver.delta(), Real(0.1));
    *solver.delta_mut() = Real(0.2);
    assert_eq!(solver.delta, Real(0.2));
    assert_eq!(solver.ode().k, 1.0);
    solver.ode_mut().k = 3.0;
    let old = solver.replace_ode(Decay { k: 5.0 });
    assert_eq!(old.k, 3.0);
    assert_eq!(solver.take_ode().k, 5.0);
}

#[test]
fn state_needs_the_right_number_of_unknowns() {
    assert!(State::<Real, 2>::new(Real(0.0), reals(&[1.0])).is_none());
    assert!(State::<Real, 2>::new(Real(0.0), reals(&[1.0, 2.0, 3.0])).is_none());
    let state = State::<Real, 2>::new(Real(0.5), reals(&[1.0, 2.0])).unwrap();
    assert_eq!(state.t, Real(0.5));
    assert_eq!(state.y, reals(&[1.0, 2.0]));
}

#[test]
fn euler_is_exact_on_a_constant_slope() {
    let mut solver = EulerODESolver::new(Real(0.01), Ramp { t: Real(0.0), y: Real(0.0) });
    for _ in 0..100 {
        solver.step();
    }
    assert!(close(solver.ode().y.0, 1.0, 1e-12));
    assert!(close(solver.ode().t.0, 1.0, 1e-12));
}

#[test]
fn euler_step_adds_slope_times_step() {
    let mut solver = EulerODESolver::new(Real(0.25), Ramp { t: Real(1.0), y: Real(3.0) });
    solver.step();
    assert_eq!(solver.ode.y, Real(3.25));
    assert_eq!(solver.ode.t, Real(1.25));
    *solver.step_mut() = Real(0.5);
    solver.ode_mut().y = Real(0.0);
    solver.step();
    assert_eq!(solver.ode.y, Real(0.5));
    assert_eq!(solver.take_ode().t, Real(1.75));
}

fn still_frame() -> ControlFrameTransform<Real> {
    ControlFrameTransform::new()
}

fn free_flight() -> JellyODE<Real> {
    let mut ode = JellyODE::new(still_frame());
    ode.set_corner_spring_constant(Real(0.0));
    ode.set_inner_spring_constant(Real(0.0));
    ode.set_damping_factor(Real(0.0));
    ode
}

fn position(state: &JellyState<Real>, p: usize) -> [f64; 3] {
    [state.y[3 * p].0, state.y[3 * p + 1].0, state.y[3 * p + 2].0]
}

fn velocity(state: &JellyState<Real>, p: usize) -> [f64; 3] {
    [state.y[192 + 3 * p].0, state.y[192 + 3 * p + 1].0, state.y[192 + 3 * p + 2].0]
}

fn corner_numbers() -> Vec<usize> {
    let mut corners = Vec::new();
    for u in [0usize, 3] {
        for v in [0usize, 3] {
            for w in [0usize, 3] {
                corners.push(point_index(u, v, w));
            }
        }
    }
    corners
}

fn vertex(p: usize) -> [f64; 3] {
    let c = |i: usize| if i == 0 { -1.0 } else { 1.0 };
    [c(p / 16), c((p / 4) % 4), c(p % 4)]
}

#[test]
fn jelly_starts_as_a_cube_at_rest() {
    let state = JellyODE::<Real>::default_state();
    assert_eq!(state.t, Real(0.0));
    assert_eq!(state.y.len(), 384);
    assert_eq!(position(&state, 0), [-1.0, -1.0, -1.0]);
    assert_eq!(position(&state, 63), [1.0, 1.0, 1.0]);
    assert_eq!(position(&state, point_index(1, 2, 3)), [2.0 * (1.0 / 3.0) - 1.0, 2.0 * (2.0 / 3.0) - 1.0, 1.0]);
    assert_eq!(point_index(1, 2, 3), 27);
    assert_eq!(point_index(3, 3, 3), 63);
    for i in 192..384 {
        assert_eq!(state.y[i], Real(0.0));
    }
}

#[test]
fn jelly_defaults() {
    let ode = JellyODE::<Real>::new(still_frame());
    assert_eq!(ode.point_mass(), Real(1.0));
    assert_eq!(ode.corner_spring_constant, Real(10.0));
    assert_eq!(ode.inner_spring_constant, Real(3.0));
    assert_eq!(ode.damping_factor, Real(1.0));
    assert_eq!(ode.elasticity_coefficient, Real(0.1));
    assert_eq!(room_half_size::<Real>(), Real(5.0));
    assert_eq!(ode.control_frame().translation.x, Real(0.0));
}

#[test]
fn jelly_at_rest_stays_at_rest() {
    let ode = JellyODE::<Real>::new(still_frame());
    let d = ode.derivative(&JellyODE::<Real>::default_state());
    assert_eq!(d.len(), 384);
    for (i, entry) in d.iter().enumerate() {
        assert!(close(entry.0, 0.0, 1e-12), "entry {} is {}", i, entry.0);
    }
}

#[test]
fn jelly_rate_of_a_position_is_the_velocity() {
    let ode = JellyODE::<Real>::new(still_frame());
    let mut state = JellyODE::<Real>::default_state();
    for i in 0..192 {
        state.y[192 + i] = Real(i as f64 * 0.25 - 3.0);
    }
    let d = ode.derivative(&state);
    for i in 0..192 {
        assert_eq!(d[i], state.y[192 + i]);
    }
}

#[test]
fn jelly_corner_spring_pulls_a_corner_to_its_vertex() {
    let mut ode = free_flight();
    ode.set_corner_spring_constant(Real(10.0));
    let mut state = JellyODE::<Real>::default_state();
    state.y[0] = Real(-1.5);
    state.y[3 * 21] = Real(0.1);
    let d = ode.derivative(&state);
    assert!(close(d[192].0, 5.0, 1e-12));
    assert!(close(d[193].0, 0.0, 1e-12));
    assert!(close(d[194].0, 0.0, 1e-12));
    for i in 3..192 {
        assert!(close(d[192 + i].0, 0.0, 1e-12), "entry {}", i);
    }
}

#[test]
fn jelly_corner_follows_the_control_frame() {
    let mut ode = free_flight();
    ode.set_corner_spring_constant(Real(2.0));
    ode.set_control_frame(ControlFrameTransform {
        translation: v3(0.5, 0.0, -1.0),
        rotation: Quaternion([Real(2.0), Real(0.0), Real(0.0), Real(0.0)]),
    });
    let d = ode.derivative(&JellyODE::<Real>::default_state());
    for p in corner_numbers() {
        assert!(close(d[192 + 3 * p].0, 1.0, 1e-12));
        assert!(close(d[192 + 3 * p + 1].0, 0.0, 1e-12));
        assert!(close(d[192 + 3 * p + 2].0, -2.0, 1e-12));
    }
    let half = 0.5f64.sqrt();
    ode.set_control_frame(ControlFrameTransform {
        translation: v3(0.0, 0.0, 0.0),
        rotation: Quaternion([Real(half), Real(0.0), Real(0.0), Real(half)]),
    });
    let turned = ode.derivative(&JellyODE::<Real>::default_state());
    let p = point_index(3, 0, 0);
    assert!(close(turned[192 + 3 * p].0, 0.0, 1e-12));
    assert!(close(turned[192 + 3 * p + 1].0, 4.0, 1e-12));
    assert!(close(turned[192 + 3 * p + 2].0, 0.0, 1e-12));
}

fn spring(anchor: [f64; 3], at: [f64; 3], length: f64, k: f64) -> [f64; 3] {
    let diff = [anchor[0] - at[0], anchor[1] - at[1], anchor[2] - at[2]];
    let dist = (diff[0] * diff[0] + diff[1] * diff[1] + diff[2] * diff[2]).sqrt();
    if dist == 0.0 {
        [0.0; 3]
    } else {
        [
            diff[0] / dist * k * (dist - length),
            diff[1] / dist * k * (dist - length),
            diff[2] / dist * k * (dist - length),
        ]
    }
}

#[test]
fn spring_force_follows_hooke() {
    let f = spring_force(&v3(3.0, 4.0, 0.0), &v3(0.0, 0.0, 0.0), Real(2.0), Real(10.0));
    assert!(close(f.x.0, 18.0, 1e-12));
    assert!(close(f.y.0, 24.0, 1e-12));
    assert_eq!(f.z, Real(0.0));
    let pushed = spring_force(&v3(1.0, 0.0, 0.0), &v3(0.0, 0.0, 0.0), Real(2.0), Real(3.0));
    assert_eq!(pushed.x, Real(-3.0));
    let none = spring_force(&v3(1.0, 2.0, 3.0), &v3(1.0, 2.0, 3.0), Real(2.0), Real(3.0));
    assert_eq!((none.x, none.y, none.z), (Real(0.0), Real(0.0), Real(0.0)));
}

#[test]
fn jelly_inner_springs_join_neighbours_along_axes_and_faces() {
    let mut ode = free_flight();
    ode.set_inner_spring_constant(Real(3.0));
    let mut state = JellyODE::<Real>::default_state();
    let me = point_index(1, 1, 1);
    state.y[3 * me] = Real(-0.1);
    state.y[3 * me + 1] = Real(-0.5);
    state.y[3 * me + 2] = Real(-0.2);
    let d = ode.derivative(&state);
    let at = position(&state, me);
    let mut expected = [0.0f64; 3];
    let mut joined = 0;
    for du in [-1i32, 0, 1] {
        for dv in [-1i32, 0, 1] {
            for dw in [-1i32, 0, 1] {
                let moved = du.abs() + dv.abs() + dw.abs();
                if moved == 0 || moved == 3 {
                    continue;
                }
                joined += 1;
                let other = point_index((1 + du) as usize, (1 + dv) as usize, (1 + dw) as usize);
                let length = 2.0 / 3.0 * if moved == 2 { std::f64::consts::SQRT_2 } else { 1.0 };
                let f = spring(position(&state, other), at, length, 3.0);
                for c in 0..3 {
                    expected[c] += f[c];
                }
            }
        }
    }
    assert_eq!(joined, 18);
    for c in 0..3 {
        assert!(close(d[192 + 3 * me + c].0, expected[c], 1e-12), "{} {}", d[192 + 3 * me + c].0, expected[c]);
        assert!(expected[c].abs() > 0.1);
    }
    let across = point_index(2, 2, 2);
    for c in 0..3 {
        assert!(close(d[192 + 3 * across + c].0, 0.0, 1e-12));
    }
    let next = point_index(2, 1, 1);
    let pull = spring(at, position(&state, next), 2.0 / 3.0, 3.0);
    for c in 0..3 {
        assert!(close(d[192 + 3 * next + c].0, pull[c], 1e-12));
    }
}

#[test]
fn jelly_corner_of_the_lattice_has_six_neighbours() {
    let mut ode = free_flight();
    ode.set_inner_spring_constant(Real(1.0));
    let mut state = JellyODE::<Real>::default_state();
    let me = point_index(0, 0, 0);
    state.y[0] = Real(-2.0);
    let d = ode.derivative(&state);
    let at = position(&state, me);
    let mut expected = [0.0f64; 3];
    for (du, dv, dw) in [(0, 0, 1), (0, 1, 0), (0, 1, 1), (1, 0, 0), (1, 0, 1), (1, 1, 0)] {
        let moved = du + dv + dw;
        let length = 2.0 / 3.0 * if moved == 2 { std::f64::consts::SQRT_2 } else { 1.0 };
        let f = spring(position(&state, point_index(du, dv, dw)), at, length, 1.0);
        for c in 0..3 {
            expected[c] += f[c];
        }
    }
    for c in 0..3 {
        assert!(close(d[192 + c].0, expected[c], 1e-12));
    }
}

#[test]
fn jelly_damping_acts_against_the_velocity_and_mass_divides_the_force() {
    let mut ode = free_flight();
    ode.set_damping_factor(Real(0.5));
    ode.set_point_mass(Real(4.0));
    assert_eq!(ode.point_mass(), Real(4.0));
    let mut state = JellyODE::<Real>::default_state();
    state.y[192 + 30] = Real(8.0);
    let d = ode.derivative(&state);
    assert_eq!(d[192 + 30], Real(-1.0));
    assert_eq!(d[30], Real(8.0));
}

#[test]
fn jelly_collision_mirrors_the_point_and_turns_its_velocity() {
    let ode = free_flight();
    let solver = RungeKuttaIV::new(Real(0.01), ode);
    let mut state = JellyODE::<Real>::default_state();
    state.y[0] = Real(4.95);
    state.y[192] = Real(10.0);
    let raw = solver.step(&state);
    assert!(close(raw.y[0].0, 5.05, 1e-12));
    let accepted = solver.ode().apply_collisions(raw);
    assert!(close(accepted.y[0].0, 4.95, 1e-12));
    assert!(accepted.y[0].0 <= 5.0 && accepted.y[0].0 >= -5.0);
    assert!(close(accepted.y[192].0, -1.0, 1e-12));
    assert_eq!(accepted.y[193], Real(0.0));
    assert!(close(accepted.t.0, 0.01, 1e-15));
    for i in 1..192 {
        assert_eq!(accepted.y[i], state.y[i]);
    }
}

#[test]
fn jelly_collision_scales_the_whole_velocity() {
    let ode = JellyODE::<Real>::new(still_frame());
    let mut state = JellyODE::<Real>::default_state();
    let p = 5;
    state.y[3 * p + 1] = Real(-5.5);
    state.y[192 + 3 * p] = Real(1.0);
    state.y[192 + 3 * p + 1] = Real(-2.0);
    state.y[192 + 3 * p + 2] = Real(3.0);
    let out = ode.apply_collisions(state);
    assert_eq!(position(&out, p)[1], -4.5);
    let v = velocity(&out, p);
    assert!(close(v[0], 0.1, 1e-15));
    assert!(close(v[1], 0.2, 1e-15));
    assert!(close(v[2], 0.30000000000000004, 1e-15));
}

#[test]
fn jelly_collision_leaves_points_in_the_room_alone() {
    let ode = JellyODE::<Real>::new(still_frame());
    let mut state = JellyODE::<Real>::default_state();
    state.y[0] = Real(5.0);
    state.y[1] = Real(-5.0);
    state.y[192] = Real(7.0);
    let before = state.y.clone();
    let out = ode.apply_collisions(state);
    assert_eq!(out.y, before);
}

#[test]
fn jelly_collision_is_repeated_for_a_point_beyond_two_walls() {
    let mut ode = JellyODE::<Real>::new(still_frame());
    ode.set_elasticity_coefficient(Real(0.5));
    let mut state = JellyODE::<Real>::default_state();
    state.y[0] = Real(16.0);
    state.y[2] = Real(7.0);
    state.y[192] = Real(8.0);
    state.y[194] = Real(4.0);
    let out = ode.apply_collisions(state);
    assert_eq!(position(&out, 0), [-4.0, -1.0, 3.0]);
    assert_eq!(velocity(&out, 0), [1.0, 0.0, -0.5]);
}

#[test]
fn jelly_collision_gives_up_after_a_hundred_walls() {
    let ode = JellyODE::<Real>::new(still_frame());
    let mut state = JellyODE::<Real>::default_state();
    state.y[0] = Real(5.0 + 10.0 * 99.0 + 3.0);
    let out = ode.apply_collisions(state);
    assert_eq!(out.y[0], Real(-2.0));
    let mut state = JellyODE::<Real>::default_state();
    state.y[0] = Real(5.0 + 10.0 * 100.0 + 3.0);
    let beyond = ode.apply_collisions(state);
    assert_eq!(beyond.y[0], Real(5.0 + 3.0));
}

#[test]
fn jelly_corners_settle_on_the_vertices_of_the_frame() {
    let mut ode = JellyODE::<Real>::new(ControlFrameTransform {
        translation: v3(0.5, -0.25, 0.0),
        rotation: Quaternion::identity(),
    });
    ode.set_inner_spring_constant(Real(0.0));
    ode.set_damping_factor(Real(6.0));
    let solver = RungeKuttaIV::new(Real(0.01), ode);
    let mut state = JellyODE::<Real>::default_state();
    let inner = point_index(1, 2, 1);
    state.y[192 + 3 * inner] = Real(0.5);
    let start = position(&state, inner);
    for _ in 0..1500 {
        state = solver.ode().apply_collisions(solver.step(&state));
    }
    for p in corner_numbers() {
        let at = position(&state, p);
        let v = vertex(p);
        assert!(close(at[0], v[0] + 0.5, 1e-9), "corner {} at {:?}", p, at);
        assert!(close(at[1], v[1] - 0.25, 1e-9));
        assert!(close(at[2], v[2], 1e-9));
    }
    for p in 0..64 {
        for c in velocity(&state, p) {
            assert!(close(c, 0.0, 1e-9), "point {} moves at {}", p, c);
        }
    }
    let moved = position(&state, inner);
    assert!(close(moved[0], start[0] + 0.5 / 6.0, 1e-6));
    assert_eq!(moved[1], start[1]);
}

#[test]
fn jelly_corners_approach_a_still_frame() {
    let mut ode = JellyODE::<Real>::new(still_frame());
    ode.set_inner_spring_constant(Real(0.0));
    ode.set_corner_spring_constant(Real(10.0));
    let solver = RungeKuttaIV::new(Real(0.01), ode);
    let mut state = JellyODE::<Real>::default_state();
    for _ in 0..200 {
        state = solver.step(&state);
    }
    for p in corner_numbers() {
        assert_eq!(position(&state, p), vertex(p));
    }
    let mut pulled = JellyODE::<Real>::default_state();
    for p in corner_numbers() {
        pulled.y[3 * p] = Real(pulled.y[3 * p].0 * 1.5);
    }
    let mut off = Vec::new();
    for round in 0..4 {
        for _ in 0..500 {
            pulled = solver.step(&pulled);
        }
        let worst = corner_numbers()
            .iter()
            .map(|p| (position(&pulled, *p)[0] - vertex(*p)[0]).abs())
            .fold(0.0, f64::max);
        off.push(worst);
        assert!(round == 0 || off[round] < off[round - 1] || off[round] < 1e-12, "{:?}", off);
    }
    assert!(off[3] < 1e-3, "{:?}", off);
}

#[test]
fn control_frame_turns_then_moves() {
    let half = 0.5f64.sqrt();
    let frame = ControlFrameTransform {
        translation: v3(1.0, 2.0, 3.0),
        rotation: Quaternion([Real(half), Real(0.0), Real(0.0), Real(half)]),
    };
    let moved = frame.compose().transform_point(&v3(1.0, 0.0, 0.0));
    assert!(close(moved.x.0, 1.0, 1e-12));
    assert!(close(moved.y.0, 3.0, 1e-12));
    assert!(close(moved.z.0, 3.0, 1e-12));
    let still = still_frame();
    assert_eq!(still.rotation.0[0], Real(1.0));
    assert_eq!(still.compose().0[1][1], Real(1.0));
    assert_eq!(still.compose().0[0][3], Real(0.0));
}

#[test]
fn inertia_holds_the_tensor_and_its_inverse() {
    let tensor = Matrix3([
        [Real(2.0), Real(0.0), Real(0.0)],
        [Real(0.0), Real(4.0), Real(0.0)],
        [Real(0.0), Real(0.0), Real(8.0)],
    ]);
    assert!(tensor.invertible());
    let inertia = Inertia::new(tensor);
    assert_eq!(inertia.matrix().0[1][1], Real(4.0));
    assert_eq!(inertia.inverse_matrix().0[0][0], Real(0.5));
    assert_eq!(inertia.inverse_matrix().0[2][2], Real(0.125));
    let unit = Inertia::<Real>::unit();
    assert_eq!(unit.matrix().0, Matrix3::<Real>::identity().0);
    assert_eq!(unit.inverse_matrix().0, Matrix3::<Real>::identity().0);
}

#[test]
fn top_is_not_made_of_a_cube_without_size() {
    assert!(SpinningTopODE::try_new(Real(10.0), Real(0.0)).is_none());
    assert!(SpinningTopODE::try_new(Real(0.0), Real(2.0)).is_none());
    assert!(!tensor(Real(1.0), Real(0.0)).invertible());
    assert!(SpinningTopODE::try_new(Real(10.0), Real(2.0)).is_some());
}

#[test]
fn top_tensor_mass_and_weight() {
    let t = tensor(Real(10.0), Real(2.0));
    assert!(close(t.0[0][0].0, 320.0 * 2.0 / 3.0, 1e-12));
    assert!(close(t.0[1][1].0, 320.0 * 2.0 / 3.0, 1e-12));
    assert_eq!(t.0[0][1], Real(-80.0));
    assert_eq!(t.0[2][0], Real(-80.0));
    assert!(tensor(Real(10.0), Real(2.0)).invertible());
    let mut top = SpinningTopODE::new(Real(10.0), Real(2.0));
    assert_eq!(top.mass(), Real(80.0));
    assert_eq!(top.density(), Real(10.0));
    assert_eq!(top.side_length(), Real(2.0));
    let g = top.gravity();
    assert_eq!((g.x, g.y, g.z), (Real(0.0), Real(-100.0), Real(0.0)));
    assert_eq!(top.weight().y, Real(-8000.0));
    top.set_enable_gravity(false);
    assert_eq!(top.gravity().y, Real(0.0));
    assert_eq!(top.weight().y.0, 0.0);
    top.set_enable_gravity(true);
    top.set_gravity(v3(0.0, -1.0, 0.0));
    assert_eq!(top.weight().y, Real(-80.0));
    top.set_side_length(Real(1.0));
    assert_eq!(top.mass(), Real(10.0));
    top.set_density(Real(3.0));
    assert_eq!(top.mass(), Real(3.0));
    assert_eq!(top.density(), Real(3.0));
}

#[test]
fn top_torque_is_the_lever_crossed_with_the_weight() {
    let top = SpinningTopODE::new(Real(10.0), Real(2.0));
    let upright = top.torque(&Quaternion::identity());
    assert_eq!((upright.x, upright.y, upright.z), (Real(8000.0), Real(0.0), Real(-8000.0)));
    let half = 0.5f64.sqrt();
    let turned = top.torque(&Quaternion([Real(half), Real(0.0), Real(half), Real(0.0)]));
    assert!(close(turned.x.0, 8000.0, 1e-9));
    assert!(close(turned.y.0, 0.0, 1e-9));
    assert!(close(turned.z.0, -8000.0, 1e-9));
    let about_z = top.torque(&Quaternion([Real(half), Real(0.0), Real(0.0), Real(half)]));
    assert!(close(about_z.x.0, 0.0, 1e-9));
    assert!(close(about_z.y.0, -8000.0, 1e-9));
    assert!(close(about_z.z.0, 8000.0, 1e-9));
}

#[test]
fn top_rates() {
    let mut top = SpinningTopODE::new(Real(10.0), Real(2.0));
    top.set_enable_gravity(false);
    let state = SpinningTopODE::initial_state(&Quaternion::identity(), &v3(0.0, 0.0, 2.0));
    assert_eq!(state.y, reals(&[0.0, 0.0, 2.0, 1.0, 0.0, 0.0, 0.0]));
    let d = top.derivative(&state);
    assert_eq!(d.len(), 7);
    assert_eq!(&d[3..], &reals(&[0.0, 0.0, 0.0, 1.0])[..]);
    let along = SpinningTopODE::initial_state(&Quaternion::identity(), &v3(1.0, 1.0, 1.0));
    let still = top.derivative(&along);
    for c in 0..3 {
        assert!(close(still[c].0, 0.0, 1e-12));
    }
    let long = SpinningTopODE::initial_state(
        &Quaternion([Real(0.0), Real(0.0), Real(3.0), Real(0.0)]),
        &v3(2.0, 0.0, 0.0),
    );
    let rate = top.derivative(&long);
    assert_eq!(&rate[3..], &reals(&[0.0, 0.0, 0.0, -1.0])[..]);
}

fn energy(top: &SpinningTopODE<Real>, state: &SpinningTopState<Real>) -> f64 {
    let w = v3(state.y[0].0, state.y[1].0, state.y[2].0);
    let t = tensor(top.density(), top.side_length());
    0.5 * w.dot(&t.mul_vec(&w)).0
}

fn speed(state: &SpinningTopState<Real>) -> f64 {
    (state.y[0].0.powi(2) + state.y[1].0.powi(2) + state.y[2].0.powi(2)).sqrt()
}

#[test]
fn top_without_gravity_keeps_its_spin_and_its_energy() {
    let mut top = SpinningTopODE::new(Real(10.0), Real(2.0));
    top.set_enable_gravity(false);
    let solver = RungeKuttaIV::new(Real(0.01), top);
    let mut state = SpinningTopODE::initial_state(&Quaternion::identity(), &v3(1.0, 2.0, 3.0));
    let speed_0 = speed(&state);
    let energy_0 = energy(solver.ode(), &state);
    let first = state.y.clone();
    for _ in 0..2000 {
        state = SpinningTopODE::renormalize(solver.step(&state));
        assert!(close(speed(&state) / speed_0, 1.0, 1e-6));
        assert!(close(energy(solver.ode(), &state) / energy_0, 1.0, 1e-6));
        let length = state.y[3..].iter().map(|c| c.0 * c.0).sum::<f64>().sqrt();
        assert!(close(length, 1.0, 1e-12));
    }
    assert!(!close(state.y[0].0, first[0].0, 1e-3) || !close(state.y[1].0, first[1].0, 1e-3));
}

#[test]
fn top_orientation_is_brought_back_to_unit_length() {
    let state = State::<Real, 7>::new(Real(2.0), reals(&[1.0, 2.0, 3.0, 0.0, 3.0, 0.0, 4.0])).unwrap();
    let out = SpinningTopODE::renormalize(state);
    assert_eq!(out.t, Real(2.0));
    assert_eq!(out.y, reals(&[1.0, 2.0, 3.0, 0.0, 0.6, 0.0, 0.8]));
}

#[test]
fn jelly_simulation_moves_on_with_the_frames() {
    let mut simulation = JellyBuilder::new().build::<Real>();
    assert_eq!(simulation.state.t, Real(0.0));
    assert_eq!(simulation.solver.delta, Real(0.01));
    assert_eq!(simulation.simulation_speed, Real(1.0));
    simulation.update(Real(0.055));
    assert!(close(simulation.exact_t.0, 0.055, 1e-15));
    assert!(close(simulation.state.t.0, 0.06, 1e-12));
    simulation.simulation_speed = Real(2.0);
    simulation.update(Real(0.01));
    assert!(close(simulation.exact_t.0, 0.075, 1e-15));
    assert!(close(simulation.state.t.0, 0.08, 1e-12));
    simulation.update(Real(0.0));
    assert!(close(simulation.state.t.0, 0.08, 1e-12));
    simulation.step_update();
    assert!(close(simulation.state.t.0, 0.09, 1e-12));
}

#[test]
fn jelly_simulation_stops_where_time_stands_still() {
    let mut simulation = Simulation::<Real>::new(still_frame());
    simulation.solver.delta = Real(0.0);
    simulation.update(Real(1.0));
    assert_eq!(simulation.state.t, Real(0.0));
    assert_eq!(simulation.exact_t, Real(1.0));
}

#[test]
fn jelly_disruption_pushes_the_velocities_only() {
    let mut simulation = Simulation::<Real>::new(still_frame());
    simulation.disruption_strength = Real(2.0);
    let samples: Vec<Real> = (0..192).map(|i| Real(f64::from(i) / 192.0)).collect();
    let before = simulation.state.y.clone();
    simulation.apply_disruption(&samples);
    for i in 0..192 {
        assert_eq!(simulation.state.y[i], before[i]);
        let kick = (f64::from(i as i32) / 192.0 * 2.0 - 1.0) * 2.0;
        assert_eq!(simulation.state.y[192 + i], Real(0.0 + kick));
    }
    assert_eq!(simulation.state.y[192], Real(-2.0));
    assert_eq!(simulation.state.y[192 + 96], Real(0.0));
}

#[test]
fn spinning_top_presenter_steps_and_renormalizes() {
    let mut top = SpinningTop::<Real>::new(&Quaternion::identity(), &v3(0.0, 5.0, 0.0)).unwrap();
    assert_eq!(top.solver.delta, Real(0.01));
    assert_eq!(top.solver.ode.density(), Real(10.0));
    assert_eq!(top.solver.ode.side_length(), Real(2.0));
    top.update(Real(0.1));
    assert!(close(top.state.t.0, 0.1, 0.011));
    assert!(top.state.t.0 >= top.exact_t.0);
    let length = top.state.y[3..].iter().map(|c| c.0 * c.0).sum::<f64>().sqrt();
    assert!(close(length, 1.0, 1e-12));
    let t = top.state.t;
    top.step_update();
    assert!(close(top.state.t.0, t.0 + 0.01, 1e-12));
}

#[test]
fn spinning_top_builder_stands_the_cube_on_its_corner() {
    let mut builder = SpinningTopBuilder::<Real>::new();
    assert_eq!(builder.tilt, Real(0.0));
    assert_eq!(builder.angular_velocity, Real(0.0));
    builder.angular_velocity = Real(3.0);
    let top = builder.build().unwrap();
    let q = Quaternion([top.state.y[3], top.state.y[4], top.state.y[5], top.state.y[6]]);
    let diagonal = q.rotate_vector(&v3(1.0, 1.0, 1.0));
    assert!(close(diagonal.x.0, 0.0, 1e-12), "{:?}", diagonal);
    assert!(close(diagonal.y.0, 3.0f64.sqrt(), 1e-12));
    assert!(close(diagonal.z.0, 0.0, 1e-12));
    let spin = v3(top.state.y[0].0, top.state.y[1].0, top.state.y[2].0);
    assert!(close(spin.x.0, spin.y.0, 1e-12) && close(spin.y.0, spin.z.0, 1e-12), "{:?}", spin);
    assert!(close(spin.norm().0, 3.0 * 2.0f64.sqrt(), 1e-12));
    builder.tilt = Real(30.0);
    let tilted = builder.build().unwrap();
    let q = Quaternion([tilted.state.y[3], tilted.state.y[4], tilted.state.y[5], tilted.state.y[6]]);
    let leaning = q.rotate_vector(&v3(1.0, 1.0, 1.0));
    assert!(close(leaning.y.0 / 3.0f64.sqrt(), 30.0f64.to_radians().cos(), 1e-12));
}

fn rest() -> FloatFn<Real> {
    FloatFn::Constant(ConstantFunction::new(Real(0.0)))
}

#[test]
fn spring_forces() {
    let ode = SpringODE::new(
        Real(2.0),
        FloatFn::Constant(ConstantFunction::new(Real(1.0))),
        Real(3.0),
        Real(-4.0),
        Real(5.0),
        Real(0.5),
        FloatFn::Step(StepFunction::new(Real(6.0), Real(-1.0))),
    );
    assert_eq!(ode.t, Real(0.0));
    assert_eq!(ode.equilibrium(), Real(1.0));
    assert_eq!(ode.outer_force(), Real(6.0));
    assert_eq!(ode.spring_force(), Real(-10.0));
    assert_eq!(ode.damping_force(), Real(2.0));
    assert_eq!(ode.total_force(), Real(-2.0));
    assert_eq!(ode.acceleration(), Real(-1.0));
    assert_eq!(ode.position(), Real(3.0));
    assert_eq!(ode.velocity(), Real(-4.0));
    assert_eq!(ode.derivative(), reals(&[-4.0, -1.0]));
    assert_eq!(ode.y(), reals(&[3.0, -4.0]));
    let state = ode.state();
    assert_eq!(state.total_force, Real(-2.0));
    assert_eq!(state.equilibrium, Real(1.0));
    let listed = state.iter();
    assert_eq!(listed.len(), 9);
    assert_eq!(listed[0], ("t", Real(0.0)));
    assert_eq!(listed[3], ("acceleration", Real(-1.0)));
    assert_eq!(listed[4], ("spring_force", Real(-10.0)));
    assert_eq!(listed[8], ("equilibrium", Real(1.0)));
}

#[test]
fn spring_under_euler() {
    let ode = SpringODE::new(Real(1.0), rest(), Real(1.0), Real(0.0), Real(1.0), Real(0.0), rest());
    let mut solver = EulerODESolver::new(Real(0.5), ode);
    solver.step();
    assert_eq!(solver.ode.position, Real(1.0));
    assert_eq!(solver.ode.velocity, Real(-0.5));
    assert_eq!(solver.ode.t, Real(0.5));
    solver.step();
    assert_eq!(solver.ode.position, Real(0.75));
    assert_eq!(solver.ode.velocity, Real(-1.0));
}

#[test]
fn spring_presenter_takes_the_whole_steps_that_are_owed() {
    let mut spring = SpringBuilder { position: Real(1.0), velocity: Real(0.0) }.build();
    assert_eq!(spring.states.len(), 1);
    assert_eq!(spring.euler.ode.position, Real(1.0));
    assert_eq!(spring.euler.ode.damping_factor, Real(0.2));
    assert_eq!(spring.simulation_speed, Real(0.1));
    spring.update();
    assert_eq!(spring.states.len(), 12);
    assert!(spring.pending_steps.0 >= 0.0 && spring.pending_steps.0 < 1e-9);
    assert!(close(spring.euler.ode.t.0, 0.11, 1e-12));
    assert!(spring.euler.ode.position.0 < 1.0);
    spring.simulation_speed = Real(0.005);
    spring.update();
    assert_eq!(spring.states.len(), 12);
    spring.update();
    assert_eq!(spring.states.len(), 13);
    let drives = create_selectable_functions::<Real>();
    assert_eq!(drives.len(), 4);
    assert_eq!(drives[1].call(Real(1.0)), Real(1.0));
    assert_eq!(SpringBuilder::<Real>::new().position, Real(0.0));
}
