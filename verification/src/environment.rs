//! The one decision in environment startup: the world may only be spawned
//! once every requested texture has finished loading. The asset pipeline
//! itself (requesting textures, polling their load state, spawning the
//! backdrop and platforms) is the engine's; it hands this module one
//! "finished loading" flag per requested texture.
use vstd::prelude::*;

use crate::AppState;

verus! {

/// Whether every requested texture has finished loading.
pub open spec fn all_textures_loaded(load_states: Seq<bool>) -> bool {
    forall|j: int| 0 <= j < load_states.len() ==> load_states[j]
}

/// Advance the startup phase to Finished exactly when every requested
/// texture has finished loading; otherwise leave the phase as it is, to be
/// polled again next tick.
pub fn check_textures(load_states: &Vec<bool>, state: &mut AppState)
    ensures
        all_textures_loaded(load_states@) ==> *final(state) == AppState::Finished,
        !all_textures_loaded(load_states@) ==> *final(state) == *old(state),
{
    let mut loaded: bool = true;
    let mut i: usize = 0;
    while i < load_states.len()
        invariant
            0 <= i <= load_states@.len(),
            loaded == (forall|j: int| 0 <= j < i ==> load_states@[j]),
        decreases load_states@.len() - i,
    {
        if !load_states[i] {
            loaded = false;
        }
        i = i + 1;
    }

    if loaded {
        *state = AppState::Finished;
    }
}

} // verus!
