use vstd::prelude::*;

use crate::numerics::linalg::{Matrix4, Vector3};
use crate::numerics::rotations::{EulerAngles, Quaternion, Rotation};
use crate::numerics::{clamp, clamp_spec, Float};

verus! {

/// The most keyframes that can be asked for between the two ends.
pub const MAX_KEYFRAMES: usize = 1000000;

/// A body that moves from one place and orientation to another, shown once
/// with its Euler angles interpolated and once with its quaternion.
pub struct Quaternions<F: Float> {
    pub start_rotation_euler: EulerAngles<F>,
    pub start_rotation_quaternion: Quaternion<F>,
    pub start_position: Vector3<F>,
    pub end_rotation_euler: EulerAngles<F>,
    pub end_rotation_quaternion: Quaternion<F>,
    pub end_position: Vector3<F>,
    pub slerp: bool,
    pub animation_time: F,
    pub keyframes_quaternion: Vec<Matrix4<F>>,
    pub keyframes_euler: Vec<Matrix4<F>>,
    pub current_time: F,
    pub current_quaternion: Matrix4<F>,
    pub current_euler: Matrix4<F>,
}

/// The place at `t` on the straight way from `start` to `end`.
pub open spec fn place_spec<F: Float>(start: Vector3<F>, end: Vector3<F>, t: F) -> Vector3<F> {
    start.lerp_spec(end, t)
}

pub fn place<F: Float>(start: &Vector3<F>, end: &Vector3<F>, t: F) -> (r: Vector3<F>)
    ensures
        r == place_spec(*start, *end, t),
{
    start.lerp(end, t)
}

/// The time of frame `i` where `keyframes` frames lie between the two ends:
/// `i / (keyframes + 1)`.
pub open spec fn frame_time_spec<F: Float>(i: int, keyframes: int) -> F {
    F::from_i32_spec(i as i32).div_spec(
        F::from_i32_spec(keyframes as i32).add_spec(F::from_i32_spec(1)),
    )
}

pub fn frame_time<F: Float>(i: usize, keyframes: usize) -> (r: F)
    requires
        keyframes <= MAX_KEYFRAMES,
        i <= keyframes + 1,
    ensures
        r == frame_time_spec::<F>(i as int, keyframes as int),
{
    let this: i32 = i as i32;
    let all: i32 = keyframes as i32;
    F::from_i32(this).div(F::from_i32(all).add(F::from_i32(1)))
}

/// Whether `frame` is a frame at time `t` of the way between the two ends by
/// Euler angles: the turn of the interpolated angles, then the move to the
/// interpolated place.
pub open spec fn is_euler_keyframe<F: Float>(
    start_euler: EulerAngles<F>,
    start_position: Vector3<F>,
    end_euler: EulerAngles<F>,
    end_position: Vector3<F>,
    t: F,
    frame: Matrix4<F>,
) -> bool {
    exists|turn: Matrix4<F>| #[trigger]
        start_euler.lerp_spec(end_euler, t).is_homogeneous(turn) && frame
            == Matrix4::translation_spec(place_spec(start_position, end_position, t)).mul_spec(
            turn,
        )
}

/// Whether `q` is an interpolation of the two quaternions at `t`: spherical
/// where `slerp` is set, else linear.
pub open spec fn is_interpolation<F: Float>(
    slerp: bool,
    start: Quaternion<F>,
    end: Quaternion<F>,
    t: F,
    q: Quaternion<F>,
) -> bool {
    if slerp {
        start.is_slerp(end, t, q)
    } else {
        q == start.lerp_spec(end, t)
    }
}

/// Whether `frame` is a frame at time `t` of the way between the two ends by
/// quaternions: the turn of the interpolated quaternion, then the move to
/// the interpolated place.
pub open spec fn is_quaternion_keyframe<F: Float>(
    slerp: bool,
    start_rotation: Quaternion<F>,
    start_position: Vector3<F>,
    end_rotation: Quaternion<F>,
    end_position: Vector3<F>,
    t: F,
    frame: Matrix4<F>,
) -> bool {
    exists|q: Quaternion<F>| #[trigger]
        is_interpolation(slerp, start_rotation, end_rotation, t, q) && frame
            == Matrix4::translation_spec(place_spec(start_position, end_position, t)).mul_spec(
            q.to_homogeneous_spec(),
        )
}

pub fn euler_keyframe<F: Float>(
    start_euler: &EulerAngles<F>,
    start_position: &Vector3<F>,
    end_euler: &EulerAngles<F>,
    end_position: &Vector3<F>,
    t: F,
) -> (r: Matrix4<F>)
    ensures
        is_euler_keyframe(*start_euler, *start_position, *end_euler, *end_position, t, r),
{
    let turn = start_euler.lerp(end_euler, t).to_homogeneous();
    assert(start_euler.lerp_spec(*end_euler, t).is_homogeneous(turn));
    Matrix4::translation(&place(start_position, end_position, t)).mul(&turn)
}

pub fn quaternion_keyframe<F: Float>(
    slerp: bool,
    start_rotation: &Quaternion<F>,
    start_position: &Vector3<F>,
    end_rotation: &Quaternion<F>,
    end_position: &Vector3<F>,
    t: F,
) -> (r: Matrix4<F>)
    ensures
        is_quaternion_keyframe(
            slerp,
            *start_rotation,
            *start_position,
            *end_rotation,
            *end_position,
            t,
            r,
        ),
{
    let q = if slerp {
        start_rotation.slerp(end_rotation, t)
    } else {
        start_rotation.lerp(end_rotation, t)
    };
    assert(is_interpolation(slerp, *start_rotation, *end_rotation, t, q));
    Matrix4::translation(&place(start_position, end_position, t)).mul(&q.to_homogeneous())
}

/// The frames of the way by Euler angles: the two ends and `keyframes`
/// frames between them, evenly spread in time.
pub fn euler_keyframes<F: Float>(
    start_euler: &EulerAngles<F>,
    start_position: &Vector3<F>,
    end_euler: &EulerAngles<F>,
    end_position: &Vector3<F>,
    keyframes: usize,
) -> (r: Vec<Matrix4<F>>)
    requires
        keyframes <= MAX_KEYFRAMES,
    ensures
        r@.len() == keyframes + 2,
        forall|i: int|
            0 <= i < r@.len() ==> is_euler_keyframe(
                *start_euler,
                *start_position,
                *end_euler,
                *end_position,
                frame_time_spec::<F>(i, keyframes as int),
                #[trigger] r@[i],
            ),
{
    let mut r: Vec<Matrix4<F>> = Vec::with_capacity(keyframes + 2);
    let mut i: usize = 0;
    while i < keyframes + 2
        invariant
            keyframes <= MAX_KEYFRAMES,
            i <= keyframes + 2,
            r@.len() == i,
            forall|j: int|
                0 <= j < i ==> is_euler_keyframe(
                    *start_euler,
                    *start_position,
                    *end_euler,
                    *end_position,
                    frame_time_spec::<F>(j, keyframes as int),
                    #[trigger] r@[j],
                ),
        decreases keyframes + 2 - i,
    {
        let t = frame_time(i, keyframes);
        r.push(euler_keyframe(start_euler, start_position, end_euler, end_position, t));
        i += 1;
    }
    r
}

/// The frames of the way by quaternions: the two ends and `keyframes` frames
/// between them, evenly spread in time.
pub fn quaternion_keyframes<F: Float>(
    start_quaternion: &Quaternion<F>,
    start_position: &Vector3<F>,
    end_quaternion: &Quaternion<F>,
    end_position: &Vector3<F>,
    keyframes: usize,
    slerp: bool,
) -> (r: Vec<Matrix4<F>>)
    requires
        keyframes <= MAX_KEYFRAMES,
    ensures
        r@.len() == keyframes + 2,
        forall|i: int|
            0 <= i < r@.len() ==> is_quaternion_keyframe(
                slerp,
                *start_quaternion,
                *start_position,
                *end_quaternion,
                *end_position,
                frame_time_spec::<F>(i, keyframes as int),
                #[trigger] r@[i],
            ),
{
    let mut r: Vec<Matrix4<F>> = Vec::with_capacity(keyframes + 2);
    let mut i: usize = 0;
    while i < keyframes + 2
        invariant
            keyframes <= MAX_KEYFRAMES,
            i <= keyframes + 2,
            r@.len() == i,
            forall|j: int|
                0 <= j < i ==> is_quaternion_keyframe(
                    slerp,
                    *start_quaternion,
                    *start_position,
                    *end_quaternion,
                    *end_position,
                    frame_time_spec::<F>(j, keyframes as int),
                    #[trigger] r@[j],
                ),
        decreases keyframes + 2 - i,
    {
        let t = frame_time(i, keyframes);
        r.push(
            quaternion_keyframe(
                slerp,
                start_quaternion,
                start_position,
                end_quaternion,
                end_position,
                t,
            ),
        );
        i += 1;
    }
    r
}

impl<F: Float> Quaternions<F> {
    /// Whether the two current frames are frames at the current time.
    pub open spec fn current_spec(&self) -> bool {
        &&& is_euler_keyframe(
            self.start_rotation_euler,
            self.start_position,
            self.end_rotation_euler,
            self.end_position,
            self.current_time,
            self.current_euler,
        )
        &&& is_quaternion_keyframe(
            self.slerp,
            self.start_rotation_quaternion,
            self.start_position,
            self.end_rotation_quaternion,
            self.end_position,
            self.current_time,
            self.current_quaternion,
        )
    }

    /// Whether the rotations held are those of the two rotations given, each
    /// brought to canonical form in both kinds.
    pub open spec fn holds_spec(&self, start_rotation: Rotation<F>, end_rotation: Rotation<F>)
        -> bool {
        &&& exists|q: Quaternion<F>| #[trigger]
            Self::is_quaternion_of(start_rotation, q) && self.start_rotation_quaternion
                == q.normalize_spec()
        &&& exists|q: Quaternion<F>| #[trigger]
            Self::is_quaternion_of(end_rotation, q) && self.end_rotation_quaternion
                == q.normalize_spec()
        &&& exists|e: EulerAngles<F>| #[trigger]
            Self::is_euler_of(start_rotation, e) && self.start_rotation_euler == e.normalize_spec()
        &&& exists|e: EulerAngles<F>| #[trigger]
            Self::is_euler_of(end_rotation, e) && self.end_rotation_euler == e.normalize_spec()
    }

    /// Whether `q` is a quaternion of the canonical form of `rotation`.
    pub open spec fn is_quaternion_of(rotation: Rotation<F>, q: Quaternion<F>) -> bool {
        match rotation.normalize_spec() {
            Rotation::Quaternion(n) => q == n,
            Rotation::EulerAngles(e) => e.is_quaternion(q),
        }
    }

    /// Whether `e` holds Euler angles of the canonical form of `rotation`.
    pub open spec fn is_euler_of(rotation: Rotation<F>, e: EulerAngles<F>) -> bool {
        match rotation.normalize_spec() {
            Rotation::Quaternion(q) => q.is_euler(e),
            Rotation::EulerAngles(n) => e == n,
        }
    }

    /// The way from the start to the end, at its start, to be gone through
    /// in five time units.
    pub fn new(
        start_rotation: Rotation<F>,
        start_position: Vector3<F>,
        end_rotation: Rotation<F>,
        end_position: Vector3<F>,
        slerp: bool,
        keyframes: usize,
    ) -> (r: Self)
        requires
            keyframes <= MAX_KEYFRAMES,
        ensures
            r.holds_spec(start_rotation, end_rotation),
            r.start_position == start_position,
            r.end_position == end_position,
            r.slerp == slerp,
            r.animation_time == F::from_i32_spec(5),
            r.current_time == F::from_i32_spec(0),
            r.keyframes_euler@.len() == keyframes + 2,
            r.keyframes_quaternion@.len() == keyframes + 2,
            r.current_euler == r.keyframes_euler@[0],
            r.current_quaternion == r.keyframes_quaternion@[0],
            forall|i: int|
                0 <= i < keyframes + 2 ==> is_euler_keyframe(
                    r.start_rotation_euler,
                    start_position,
                    r.end_rotation_euler,
                    end_position,
                    frame_time_spec::<F>(i, keyframes as int),
                    #[trigger] r.keyframes_euler@[i],
                ),
            forall|i: int|
                0 <= i < keyframes + 2 ==> is_quaternion_keyframe(
                    slerp,
                    r.start_rotation_quaternion,
                    start_position,
                    r.end_rotation_quaternion,
                    end_position,
                    frame_time_spec::<F>(i, keyframes as int),
                    #[trigger] r.keyframes_quaternion@[i],
                ),
    {
        let start_euler_raw = start_rotation.normalize().to_euler_angles();
        let start_quaternion_raw = start_rotation.normalize().to_quaternion();
        let end_euler_raw = end_rotation.normalize().to_euler_angles();
        let end_quaternion_raw = end_rotation.normalize().to_quaternion();
        assert(Self::is_euler_of(start_rotation, start_euler_raw));
        assert(Self::is_quaternion_of(start_rotation, start_quaternion_raw));
        assert(Self::is_euler_of(end_rotation, end_euler_raw));
        assert(Self::is_quaternion_of(end_rotation, end_quaternion_raw));
        let start_rotation_euler = start_euler_raw.normalize();
        let start_rotation_quaternion = start_quaternion_raw.normalize();
        let end_rotation_euler = end_euler_raw.normalize();
        let end_rotation_quaternion = end_quaternion_raw.normalize();

        let keyframes_euler = euler_keyframes(
            &start_rotation_euler,
            &start_position,
            &end_rotation_euler,
            &end_position,
            keyframes,
        );

        let keyframes_quaternion = quaternion_keyframes(
            &start_rotation_quaternion,
            &start_position,
            &end_rotation_quaternion,
            &end_position,
            keyframes,
            slerp,
        );

        Self {
            animation_time: F::from_i32(5),
            start_rotation_euler,
            start_rotation_quaternion,
            start_position,
            end_rotation_euler,
            end_rotation_quaternion,
            end_position,
            slerp,
            current_time: F::from_i32(0),
            current_quaternion: keyframes_quaternion[0],
            current_euler: keyframes_euler[0],
            keyframes_euler,
            keyframes_quaternion,
        }
    }

    /// Moves the body on by `delta` seconds of the animation's time; the
    /// time stays within `[0, 1]`.
    pub fn update(&mut self, delta: F)
        ensures
            final(self).current_time == clamp_spec(
                old(self).current_time.add_spec(delta.div_spec(old(self).animation_time)),
                F::from_i32_spec(0),
                F::from_i32_spec(1),
            ),
            final(self).current_spec(),
            final(self).start_rotation_euler == old(self).start_rotation_euler,
            final(self).start_rotation_quaternion == old(self).start_rotation_quaternion,
            final(self).start_position == old(self).start_position,
            final(self).end_rotation_euler == old(self).end_rotation_euler,
            final(self).end_rotation_quaternion == old(self).end_rotation_quaternion,
            final(self).end_position == old(self).end_position,
            final(self).slerp == old(self).slerp,
            final(self).animation_time == old(self).animation_time,
            final(self).keyframes_euler == old(self).keyframes_euler,
            final(self).keyframes_quaternion == old(self).keyframes_quaternion,
    {
        self.current_time = self.current_time.add(delta.div(self.animation_time));
        self.current_time = clamp(self.current_time, F::from_i32(0), F::from_i32(1));

        self.current_euler = euler_keyframe(
            &self.start_rotation_euler,
            &self.start_position,
            &self.end_rotation_euler,
            &self.end_position,
            self.current_time,
        );

        self.current_quaternion = quaternion_keyframe(
            self.slerp,
            &self.start_rotation_quaternion,
            &self.start_position,
            &self.end_rotation_quaternion,
            &self.end_position,
            self.current_time,
        );
    }
}

/// Sets up the way of a body between two places and orientations.
pub struct QuaternionsBuilder<F: Float> {
    pub start_rotation: Rotation<F>,
    pub start_position: Vector3<F>,
    pub end_rotation: Rotation<F>,
    pub end_position: Vector3<F>,
    pub slerp: bool,
    pub keyframes: usize,
}

impl<F: Float> QuaternionsBuilder<F> {
    /// A body that stays at the origin, without keyframes, by linear
    /// interpolation.
    pub fn new() -> (r: Self)
        ensures
            r.start_rotation == Rotation::Quaternion(Quaternion::<F>::identity_spec()),
            r.end_rotation == Rotation::Quaternion(Quaternion::<F>::identity_spec()),
            r.start_position == Vector3::<F>::zeros_spec(),
            r.end_position == Vector3::<F>::zeros_spec(),
            !r.slerp,
            r.keyframes == 0,
    {
        Self {
            start_rotation: Rotation::Quaternion(Quaternion::identity()),
            start_position: Vector3::zeros(),
            end_rotation: Rotation::Quaternion(Quaternion::identity()),
            end_position: Vector3::zeros(),
            slerp: false,
            keyframes: 0,
        }
    }

    /// The way as set up, at its start. More keyframes than
    /// `MAX_KEYFRAMES` are not made.
    pub fn build(&self) -> (r: Quaternions<F>)
        ensures
            r.start_position == self.start_position,
            r.end_position == self.end_position,
            r.slerp == self.slerp,
            r.current_time == F::from_i32_spec(0),
            r.keyframes_euler@.len() == r.keyframes_quaternion@.len(),
            r.keyframes_euler@.len() == if self.keyframes <= MAX_KEYFRAMES {
                self.keyframes + 2
            } else {
                MAX_KEYFRAMES + 2
            },
            r.holds_spec(self.start_rotation, self.end_rotation),
    {
        let keyframes = if self.keyframes <= MAX_KEYFRAMES {
            self.keyframes
        } else {
            MAX_KEYFRAMES
        };
        Quaternions::new(
            self.start_rotation,
            self.start_position,
            self.end_rotation,
            self.end_position,
            self.slerp,
            keyframes,
        )
    }
}

} // verus!
