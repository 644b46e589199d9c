use vstd::prelude::*;

verus! {

/// A point in the room, each component in a fixed integer length unit.
///
/// x runs left/right, y forward/back, z up/down.
#[derive(Clone, Copy, Debug, PartialEq, Eq, Structural)]
pub struct Vector3 {
    pub x: i64,
    pub y: i64,
    pub z: i64,
}

/// The displacement from one point to another, in the same length unit.
///
/// Components are wide enough to hold any difference of two `Vector3` components.
#[derive(Clone, Copy, Debug, PartialEq, Eq, Structural)]
pub struct Offset {
    pub x: i128,
    pub y: i128,
    pub z: i128,
}

/// Why no aiming direction exists.
#[derive(Clone, Copy, Debug, PartialEq, Eq, Structural)]
pub enum SolveError {
    /// The target coincides with the fixture, so the direction is undefined.
    DegenerateGeometry,
}

impl Vector3 {
    /// Builds a vector from its three components.
    pub fn new(x: i64, y: i64, z: i64) -> (r: Vector3)
        ensures
            r == (Vector3 { x, y, z }),
    {
        Vector3 { x, y, z }
    }

    /// The origin of the room.
    pub fn zero() -> (r: Vector3)
        ensures
            r == zero_vector(),
    {
        Vector3 { x: 0, y: 0, z: 0 }
    }
}

pub open spec fn zero_vector() -> Vector3 {
    Vector3 { x: 0, y: 0, z: 0 }
}

/// The displacement `to - from`, component by component.
pub open spec fn offset_between(from: Vector3, to: Vector3) -> Offset {
    Offset {
        x: (to.x - from.x) as i128,
        y: (to.y - from.y) as i128,
        z: (to.z - from.z) as i128,
    }
}

/// The squared length of an offset; zero exactly for the zero offset.
pub open spec fn length_squared(o: Offset) -> int {
    o.x * o.x + o.y * o.y + o.z * o.z
}

/// The direction in which a fixture at `fixture` must point to face `target`,
/// or `DegenerateGeometry` when the two points coincide.
pub open spec fn aim(fixture: Vector3, target: Vector3) -> Result<Offset, SolveError> {
    if fixture == target {
        Err(SolveError::DegenerateGeometry)
    } else {
        Ok(offset_between(fixture, target))
    }
}

/// Computes the direction from a fixture to the target.
///
/// The pan and tilt angles are functions of this direction alone; where the
/// target sits exactly on the fixture there is no direction and the call fails.
pub fn solve(fixture: Vector3, target: Vector3) -> (r: Result<Offset, SolveError>)
    ensures
        r == aim(fixture, target),
{
    if fixture == target {
        Err(SolveError::DegenerateGeometry)
    } else {
        let d = Offset {
            x: target.x as i128 - fixture.x as i128,
            y: target.y as i128 - fixture.y as i128,
            z: target.z as i128 - fixture.z as i128,
        };
        Ok(d)
    }
}

/// Coinciding points have no direction, whatever the point.
pub proof fn lemma_coincident_is_degenerate(p: Vector3)
    ensures
        aim(p, p) == Err::<Offset, SolveError>(SolveError::DegenerateGeometry),
{
}

/// A direction exists exactly when the points differ, and it is never the
/// zero offset: its squared length is positive.
pub proof fn lemma_direction_nonzero(fixture: Vector3, target: Vector3)
    ensures
        aim(fixture, target) is Ok <==> fixture != target,
        aim(fixture, target) is Ok ==> length_squared(aim(fixture, target)->Ok_0) > 0,
{
    if fixture != target {
        let o = offset_between(fixture, target);
        assert(o.x * o.x >= 0) by (nonlinear_arith);
        assert(o.y * o.y >= 0) by (nonlinear_arith);
        assert(o.z * o.z >= 0) by (nonlinear_arith);
        if o.x != 0 {
            assert(o.x * o.x > 0) by (nonlinear_arith)
                requires o.x != 0;
        } else if o.y != 0 {
            assert(o.y * o.y > 0) by (nonlinear_arith)
                requires o.y != 0;
        } else {
            assert(o.z != 0);
            assert(o.z * o.z > 0) by (nonlinear_arith)
                requires o.z != 0;
        }
    }
}

/// Solving depends on the two points alone: equal inputs give equal results.
pub proof fn lemma_solve_deterministic(f1: Vector3, t1: Vector3, f2: Vector3, t2: Vector3)
    requires
        f1 == f2,
        t1 == t2,
    ensures
        aim(f1, t1) == aim(f2, t2),
{
}

} // verus!
