//! Rigid-body pose of a car or the ball, as the statistics read it.
use vstd::prelude::*;

verus! {

/// A point or a velocity; coordinates in hundredths of a unit (per second).
#[derive(Clone, Copy, Debug, PartialEq, Eq, Structural)]
pub struct Vector3 {
    pub x: i32,
    pub y: i32,
    pub z: i32,
}

/// Observed physical state of an actor at one replay time.
#[derive(Clone, Copy, Debug, PartialEq, Eq, Structural)]
pub struct RigidBody {
    /// The physics engine has put the actor to rest.
    pub sleeping: bool,
    pub location: Vector3,
    /// Absent when the replay did not record one.
    pub linear_velocity: Option<Vector3>,
}

impl Vector3 {
    pub fn new(x: i32, y: i32, z: i32) -> (r: Vector3)
        ensures
            r == (Vector3 { x, y, z }),
    {
        Vector3 { x, y, z }
    }
}

impl RigidBody {
    pub fn new(sleeping: bool, location: Vector3, linear_velocity: Option<Vector3>) -> (r: RigidBody)
        ensures
            r == (RigidBody { sleeping, location, linear_velocity }),
    {
        RigidBody { sleeping, location, linear_velocity }
    }
}

} // verus!
