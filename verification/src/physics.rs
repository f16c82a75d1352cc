//! The shared velocity vector the physics collaborator integrates from. The
//! core writes only the horizontal component; the vertical one belongs to the
//! external physics layer (gravity, jump impulses). Components are integer
//! speeds in engine units per second.
use vstd::prelude::*;

verus! {

/// A 2D linear velocity, externally integrated into position.
#[derive(Debug, Clone, Copy, PartialEq, Eq, Structural)]
pub struct Velocity {
    pub x: i32,
    pub y: i32,
}

impl Default for Velocity {
    /// A body at rest.
    fn default() -> (r: Self)
        ensures
            r == (Velocity { x: 0, y: 0 }),
    {
        Velocity { x: 0, y: 0 }
    }
}

} // verus!
