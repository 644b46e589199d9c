use vstd::prelude::*;

use crate::geometry::{Vector3, zero_vector};

verus! {

/// Why a target cannot be set up from the given configuration.
#[derive(Clone, Copy, Debug, PartialEq, Eq, Structural)]
pub enum ConfigurationError {
    /// A room extent is negative.
    NegativeRoom,
    /// The speed gain is negative.
    NegativeSpeed,
    /// The home position lies outside the room.
    HomeOutsideRoom,
}

/// The point every fixture aims at, kept inside the room `[0, bounds]` on each axis.
///
/// Each sample is a displacement per unit of gain; `speed` is the gain.
pub struct Target {
    position: Vector3,
    bounds: Vector3,
    speed: i64,
}

/// The abstract state of a target.
pub struct TargetView {
    pub position: Vector3,
    pub bounds: Vector3,
    pub speed: i64,
}

impl View for Target {
    type V = TargetView;

    closed spec fn view(&self) -> TargetView {
        TargetView { position: self.position, bounds: self.bounds, speed: self.speed }
    }
}

impl Target {
    /// Holds of every target: the room and gain are not negative and the
    /// position lies inside the room.
    #[verifier::type_invariant]
    pub(crate) open spec fn inv(&self) -> bool {
        self@.wf()
    }
}

/// `v` lies in `[0, hi]`.
pub open spec fn axis_within(v: int, hi: int) -> bool {
    0 <= v <= hi
}

/// Every component of `p` lies in `[0, bounds]`.
pub open spec fn within_room(p: Vector3, bounds: Vector3) -> bool {
    axis_within(p.x as int, bounds.x as int) && axis_within(p.y as int, bounds.y as int)
        && axis_within(p.z as int, bounds.z as int)
}

/// `v` clamped to `[0, hi]`.
pub open spec fn clamp_axis(v: int, hi: int) -> int {
    if v < 0 {
        0
    } else if v > hi {
        hi
    } else {
        v
    }
}

/// One axis after a sample: moved by `sample * speed`, then clamped.
pub open spec fn integrate_axis(p: int, sample: int, speed: int, hi: int) -> int {
    clamp_axis(p + sample * speed, hi)
}

impl TargetView {
    /// The room's extents are not negative, the gain is not negative and the
    /// position lies inside the room.
    pub open spec fn wf(self) -> bool {
        self.bounds.x >= 0 && self.bounds.y >= 0 && self.bounds.z >= 0 && self.speed >= 0
            && within_room(self.position, self.bounds)
    }

    /// The position after applying `sample` once.
    pub open spec fn integrated(self, sample: Vector3) -> Vector3 {
        Vector3 {
            x: integrate_axis(self.position.x as int, sample.x as int, self.speed as int, self.bounds.x as int) as i64,
            y: integrate_axis(self.position.y as int, sample.y as int, self.speed as int, self.bounds.y as int) as i64,
            z: integrate_axis(self.position.z as int, sample.z as int, self.speed as int, self.bounds.z as int) as i64,
        }
    }

    /// The state after applying `sample` once.
    pub open spec fn step(self, sample: Vector3) -> TargetView {
        TargetView { position: self.integrated(sample), bounds: self.bounds, speed: self.speed }
    }

    /// The state after applying each of `samples` in turn.
    pub open spec fn run(self, samples: Seq<Vector3>) -> TargetView
        decreases samples.len(),
    {
        if samples.len() == 0 {
            self
        } else {
            self.run(samples.drop_last()).step(samples.last())
        }
    }
}

/// Applies one sample to one axis: `clamp(p + sample * speed, 0, hi)`.
fn integrate_one(p: i64, sample: i64, speed: i64, hi: i64) -> (r: i64)
    requires
        0 <= hi,
        0 <= speed,
    ensures
        r as int == integrate_axis(p as int, sample as int, speed as int, hi as int),
        axis_within(r as int, hi as int),
{
    let s = sample as i128;
    let g = speed as i128;
    assert(-0x4000_0000_0000_0000_0000_0000_0000_0000 <= s * g <= 0x4000_0000_0000_0000_0000_0000_0000_0000)
        by (nonlinear_arith)
        requires
            -0x8000_0000_0000_0000 <= s <= 0x7fff_ffff_ffff_ffff,
            0 <= g <= 0x7fff_ffff_ffff_ffff,
    ;
    let raw: i128 = p as i128 + s * g;
    if raw < 0 {
        0
    } else if raw > hi as i128 {
        hi
    } else {
        raw as i64
    }
}

impl Target {
    /// Sets up the target at `home` inside a room spanning `[0, room]` on each
    /// axis, moving `speed` times each sample.
    pub fn new(home: Vector3, room: Vector3, speed: i64) -> (r: Result<Target, ConfigurationError>)
        ensures
            room.x < 0 || room.y < 0 || room.z < 0 <==> r == Err::<Target, ConfigurationError>(
                ConfigurationError::NegativeRoom,
            ),
            room.x >= 0 && room.y >= 0 && room.z >= 0 && speed < 0 ==> r == Err::<Target, ConfigurationError>(
                ConfigurationError::NegativeSpeed,
            ),
            room.x >= 0 && room.y >= 0 && room.z >= 0 && speed >= 0 && !within_room(home, room)
                ==> r == Err::<Target, ConfigurationError>(ConfigurationError::HomeOutsideRoom),
            r is Ok <==> room.x >= 0 && room.y >= 0 && room.z >= 0 && speed >= 0 && within_room(home, room),
            r is Ok ==> r->Ok_0@ == (TargetView { position: home, bounds: room, speed }),
            r is Ok ==> r->Ok_0@.wf(),
    {
        if room.x < 0 || room.y < 0 || room.z < 0 {
            Err(ConfigurationError::NegativeRoom)
        } else if speed < 0 {
            Err(ConfigurationError::NegativeSpeed)
        } else if home.x < 0 || home.x > room.x || home.y < 0 || home.y > room.y || home.z < 0
            || home.z > room.z {
            Err(ConfigurationError::HomeOutsideRoom)
        } else {
            Ok(Target { position: home, bounds: room, speed })
        }
    }

    /// The current target position.
    pub fn position(&self) -> (r: Vector3)
        ensures
            r == self@.position,
    {
        self.position
    }

    /// The room's extents.
    pub fn bounds(&self) -> (r: Vector3)
        ensures
            r == self@.bounds,
    {
        self.bounds
    }

    /// The speed gain applied to every sample.
    pub fn speed(&self) -> (r: i64)
        ensures
            r == self@.speed,
    {
        self.speed
    }

    /// Moves the target by `sample * speed`, clamps every axis into the room,
    /// and returns the new position.
    pub fn integrate(&mut self, sample: Vector3) -> (r: Vector3)
        ensures
            final(self)@ == old(self)@.step(sample),
            final(self)@.wf(),
            r == final(self)@.position,
    {
        proof {
            use_type_invariant(&*self);
        }
        let x = integrate_one(self.position.x, sample.x, self.speed, self.bounds.x);
        let y = integrate_one(self.position.y, sample.y, self.speed, self.bounds.y);
        let z = integrate_one(self.position.z, sample.z, self.speed, self.bounds.z);
        self.position = Vector3 { x, y, z };
        self.position
    }
}

/// One step keeps a well-formed target well formed.
pub proof fn lemma_step_in_bounds(t: TargetView, sample: Vector3)
    requires
        t.wf(),
    ensures
        t.step(sample).wf(),
        within_room(t.step(sample).position, t.bounds),
{
    let hi = t.bounds;
    let p = t.position;
    let g = t.speed as int;
    assert(axis_within(integrate_axis(p.x as int, sample.x as int, g, hi.x as int), hi.x as int));
    assert(axis_within(integrate_axis(p.y as int, sample.y as int, g, hi.y as int), hi.y as int));
    assert(axis_within(integrate_axis(p.z as int, sample.z as int, g, hi.z as int), hi.z as int));
}

/// After every call of any sequence of samples the target lies inside the
/// room: each prefix of the sequence leaves a well-formed target.
pub proof fn lemma_run_in_bounds(t: TargetView, samples: Seq<Vector3>)
    requires
        t.wf(),
    ensures
        forall|k: int|
            0 <= k <= samples.len() ==> (#[trigger] t.run(samples.take(k))).wf()
                && within_room(t.run(samples.take(k)).position, t.bounds)
                && t.run(samples.take(k)).bounds == t.bounds,
    decreases samples.len(),
{
    if samples.len() > 0 {
        let prefix = samples.drop_last();
        lemma_run_in_bounds(t, prefix);
        assert forall|k: int| 0 <= k <= samples.len() implies (#[trigger] t.run(samples.take(k))).wf()
            && within_room(t.run(samples.take(k)).position, t.bounds) && t.run(samples.take(k)).bounds
            == t.bounds by {
            if k < samples.len() {
                assert(samples.take(k) == prefix.take(k));
            } else {
                assert(samples.take(k) == samples);
                let before = t.run(prefix);
                assert(prefix.take(prefix.len() as int) == prefix);
                lemma_step_in_bounds(before, samples.last());
            }
        }
    } else {
        assert forall|k: int| 0 <= k <= samples.len() implies (#[trigger] t.run(samples.take(k))).wf()
            && within_room(t.run(samples.take(k)).position, t.bounds) && t.run(samples.take(k)).bounds
            == t.bounds by {
            assert(samples.take(k) =~= Seq::<Vector3>::empty());
        }
    }
}

/// A zero sample never moves a well-formed target.
pub proof fn lemma_zero_sample_is_noop(t: TargetView)
    requires
        t.wf(),
    ensures
        t.step(zero_vector()) == t,
{
    assert(t.integrated(zero_vector()) == t.position);
}

/// Any number of zero samples in a row leave a well-formed target where it was.
pub proof fn lemma_zero_samples_are_noop(t: TargetView, samples: Seq<Vector3>)
    requires
        t.wf(),
        forall|i: int| 0 <= i < samples.len() ==> samples[i] == zero_vector(),
    ensures
        t.run(samples) == t,
    decreases samples.len(),
{
    if samples.len() > 0 {
        lemma_zero_samples_are_noop(t, samples.drop_last());
        lemma_zero_sample_is_noop(t);
    }
}

} // verus!
