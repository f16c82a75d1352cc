//! Per-tick input snapshot: four independent "currently held" flags, fully
//! overwritten each tick before anything reads them, so no stale intent ever
//! carries over. Resolving overlapping flags (both directions held) is the
//! state machine's policy, not the snapshot's: both may be true at once.
use vstd::prelude::*;

verus! {

/// The resolved intent flags for one tick. Movement flags reflect keys
/// currently held, not edge events.
#[derive(Debug, Clone, Copy, PartialEq, Eq, Structural)]
pub struct PlayerInput {
    pub move_right: bool,
    pub move_left: bool,
    pub jump: bool,
    pub crouch: bool,
}

impl Default for PlayerInput {
    /// A snapshot with nothing held.
    fn default() -> (r: Self)
        ensures
            r == (PlayerInput { move_right: false, move_left: false, jump: false, crouch: false }),
    {
        PlayerInput { move_right: false, move_left: false, jump: false, crouch: false }
    }
}

impl PlayerInput {
    /// Drop every flag, as the start of each tick's resampling.
    fn clear(&mut self)
        ensures
            *final(self) == (PlayerInput {
                move_right: false,
                move_left: false,
                jump: false,
                crouch: false,
            }),
    {
        *self = PlayerInput::default();
    }
}

/// The snapshot that one tick's held keys resolve to.
pub open spec fn input_snapshot(
    jump_held: bool,
    left_held: bool,
    crouch_held: bool,
    right_held: bool,
) -> PlayerInput {
    PlayerInput { move_right: right_held, move_left: left_held, jump: jump_held, crouch: crouch_held }
}

/// Replace all four flags with freshly sampled device state. The caller (the
/// device edge) says which keys are held this tick; whatever the snapshot held
/// before is discarded first, so the result carries no stale intent.
pub fn input_system(
    input: &mut PlayerInput,
    jump_held: bool,
    left_held: bool,
    crouch_held: bool,
    right_held: bool,
)
    ensures
        *final(input) == input_snapshot(jump_held, left_held, crouch_held, right_held),
{
    input.clear();

    if jump_held {
        input.jump = true;
    }
    if left_held {
        input.move_left = true;
    }
    if crouch_held {
        input.crouch = true;
    }
    if right_held {
        input.move_right = true;
    }
}

} // verus!
