//! Core logic of a 2D side-scrolling character controller: the per-tick input
//! snapshot, the locomotion state machine, horizontal velocity integration,
//! animation-clip selection, and sprite mirroring. The engine around it
//! (rendering, asset loading, the physics solver, the input device) is a
//! collaborator that hands this library plain values and takes plain values
//! back; the library's velocities and clip handles are integer-valued models
//! of the engine's.
use vstd::prelude::*;

pub mod environment;
pub mod input;
pub mod physics;
pub mod player;

verus! {

/// Phase of the startup sequence: textures are still loading, or loading has
/// finished and the environment may be spawned.
#[derive(Debug, Clone, Copy, PartialEq, Eq, Hash, Structural)]
pub enum AppState {
    Setup,
    Finished,
}

} // verus!
