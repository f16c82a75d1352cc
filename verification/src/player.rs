//! The player core: the locomotion state machine, the velocity integrator,
//! the animation selector with its reset step, and sprite mirroring — one
//! explicit, ordered pipeline per tick.
//!
//! Clip handles are opaque integer identifiers handed out by a clip store at
//! setup; the playback collaborator owns frame timing, and this core only
//! assigns clips, resets the play cursor on a genuine clip change, and
//! re-flags a stopped entity as playing.
use vstd::prelude::*;

use crate::input::PlayerInput;
use crate::input::input_snapshot;
use crate::input::input_system;
use crate::physics::Velocity;

verus! {

/// The single active locomotion state of the player.
#[derive(Debug, Clone, Copy, PartialEq, Eq, Structural)]
pub enum PlayerState {
    Idle,
    Crouched,
    Running,
    Jumping,
    Falling,
    DrawingSword,
    SheathingSword,
    Slashing,
}

/// The player actor: its locomotion state, its configured speed limit, and
/// whether the sword is out (which picks between the two idle clips).
#[derive(Debug, Clone, Copy, PartialEq, Eq, Structural)]
pub struct Player {
    pub state: PlayerState,
    pub max_speed: i32,
    pub sword_drawn: bool,
}

impl Player {
    /// A speed limit below zero would make the clamp interval empty; every
    /// actor keeps its limit nonnegative.
    pub open spec fn wf(self) -> bool {
        0 <= self.max_speed
    }

    /// A freshly spawned player: idle, sword sheathed, with the configured
    /// speed limit.
    pub fn new() -> (r: Self)
        ensures
            r == (Player { state: PlayerState::Idle, max_speed: 100, sword_drawn: false }),
            r.wf(),
    {
        Self { state: PlayerState::Idle, max_speed: 100, sword_drawn: false }
    }
}

/// An opaque handle to one registered animation clip: the index it was given
/// by the clip store.
#[derive(Debug, Clone, Copy, PartialEq, Eq, Structural)]
pub struct ClipId(pub usize);

/// What one clip is: an inclusive frame range in the sprite atlas, a frame
/// rate, and whether it plays once (one-shot) or loops.
#[derive(Debug, Clone, Copy, PartialEq, Eq, Structural)]
pub struct ClipDef {
    pub first_frame: u32,
    pub last_frame: u32,
    pub frames_per_second: u32,
    pub once: bool,
}

/// The clip store: the playback collaborator's registry of clip definitions,
/// addressed by the `ClipId` handed out at registration.
#[derive(Debug)]
pub struct ClipAssets {
    pub defs: Vec<ClipDef>,
}

impl ClipAssets {
    /// An empty store.
    pub fn new() -> (r: Self)
        ensures
            r.defs@.len() == 0,
    {
        Self { defs: Vec::new() }
    }

    /// Register one clip and hand back its opaque handle.
    pub fn add(&mut self, def: ClipDef) -> (id: ClipId)
        ensures
            final(self).defs@ == old(self).defs@.push(def),
            id.0 == old(self).defs@.len(),
    {
        let id = ClipId(self.defs.len());
        self.defs.push(def);
        id
    }
}

/// The fixed binding from locomotion state (crossed with the sword flag for
/// idle) to clip handle, set up once and read-only thereafter.
#[derive(Debug, Clone, Copy, PartialEq, Eq, Structural)]
pub struct PlayerAnimations {
    pub idle: ClipId,
    pub idle_sword_drawn: ClipId,
    pub crouched: ClipId,
    pub running: ClipId,
    pub jumping: ClipId,
    pub falling: ClipId,
    pub drawing_sword: ClipId,
    pub sheathing_sword: ClipId,
    pub slashing: ClipId,
}

impl PlayerAnimations {
    /// Register the nine player clips — their atlas frame ranges, the shared
    /// seven-frames-per-second rate, and which of them are one-shot — and
    /// keep the handles. The store's earlier entries are untouched, and the
    /// nine handles are nine distinct fresh indices.
    pub fn new(assets: &mut ClipAssets) -> (r: Self)
        ensures
            final(assets).defs@.len() == old(assets).defs@.len() + 9,
            forall|j: int|
                0 <= j < old(assets).defs@.len() ==> final(assets).defs@[j] == old(assets).defs@[j],
            r.idle.0 == old(assets).defs@.len() + 0,
            r.idle_sword_drawn.0 == old(assets).defs@.len() + 1,
            r.crouched.0 == old(assets).defs@.len() + 2,
            r.running.0 == old(assets).defs@.len() + 3,
            r.jumping.0 == old(assets).defs@.len() + 4,
            r.falling.0 == old(assets).defs@.len() + 5,
            r.drawing_sword.0 == old(assets).defs@.len() + 6,
            r.sheathing_sword.0 == old(assets).defs@.len() + 7,
            r.slashing.0 == old(assets).defs@.len() + 8,
            final(assets).defs@[r.idle.0 as int] == (ClipDef {
                first_frame: 0,
                last_frame: 3,
                frames_per_second: 7,
                once: false,
            }),
            final(assets).defs@[r.idle_sword_drawn.0 as int] == (ClipDef {
                first_frame: 38,
                last_frame: 41,
                frames_per_second: 7,
                once: false,
            }),
            final(assets).defs@[r.crouched.0 as int] == (ClipDef {
                first_frame: 4,
                last_frame: 7,
                frames_per_second: 7,
                once: false,
            }),
            final(assets).defs@[r.running.0 as int] == (ClipDef {
                first_frame: 8,
                last_frame: 13,
                frames_per_second: 7,
                once: false,
            }),
            final(assets).defs@[r.jumping.0 as int] == (ClipDef {
                first_frame: 15,
                last_frame: 17,
                frames_per_second: 7,
                once: true,
            }),
            final(assets).defs@[r.falling.0 as int] == (ClipDef {
                first_frame: 22,
                last_frame: 23,
                frames_per_second: 7,
                once: false,
            }),
            final(assets).defs@[r.drawing_sword.0 as int] == (ClipDef {
                first_frame: 69,
                last_frame: 72,
                frames_per_second: 7,
                once: true,
            }),
            final(assets).defs@[r.sheathing_sword.0 as int] == (ClipDef {
                first_frame: 73,
                last_frame: 76,
                frames_per_second: 7,
                once: true,
            }),
            final(assets).defs@[r.slashing.0 as int] == (ClipDef {
                first_frame: 47,
                last_frame: 52,
                frames_per_second: 7,
                once: true,
            }),
    {
        let idle = assets.add(ClipDef {
            first_frame: 0,
            last_frame: 3,
            frames_per_second: 7,
            once: false,
        });
        let idle_sword_drawn = assets.add(ClipDef {
            first_frame: 38,
            last_frame: 41,
            frames_per_second: 7,
            once: false,
        });
        let crouched = assets.add(ClipDef {
            first_frame: 4,
            last_frame: 7,
            frames_per_second: 7,
            once: false,
        });
        let running = assets.add(ClipDef {
            first_frame: 8,
            last_frame: 13,
            frames_per_second: 7,
            once: false,
        });
        let jumping = assets.add(ClipDef {
            first_frame: 15,
            last_frame: 17,
            frames_per_second: 7,
            once: true,
        });
        let falling = assets.add(ClipDef {
            first_frame: 22,
            last_frame: 23,
            frames_per_second: 7,
            once: false,
        });
        let drawing_sword = assets.add(ClipDef {
            first_frame: 69,
            last_frame: 72,
            frames_per_second: 7,
            once: true,
        });
        let sheathing_sword = assets.add(ClipDef {
            first_frame: 73,
            last_frame: 76,
            frames_per_second: 7,
            once: true,
        });
        let slashing = assets.add(ClipDef {
            first_frame: 47,
            last_frame: 52,
            frames_per_second: 7,
            once: true,
        });

        Self {
            idle,
            idle_sword_drawn,
            crouched,
            running,
            jumping,
            falling,
            drawing_sword,
            sheathing_sword,
            slashing,
        }
    }
}

/// The horizontal velocity one snapshot resolves to: the rightward target is
/// written first and the leftward one after it (so leftward wins when both
/// directions are held), and no direction held stops the body. The result is
/// already within the clamp interval whenever the limit is nonnegative.
pub open spec fn resolved_vx(input: PlayerInput, max_speed: int) -> int {
    if input.move_left {
        -max_speed
    } else if input.move_right {
        max_speed
    } else {
        0
    }
}

/// The locomotion state one snapshot resolves to: no direction held means
/// Idle; a direction held with resulting motion means Running; a direction
/// held with no resulting motion (a zero speed limit) keeps the current state.
pub open spec fn resolved_state(input: PlayerInput, max_speed: int, current: PlayerState) -> PlayerState {
    if !input.move_right && !input.move_left {
        PlayerState::Idle
    } else if resolved_vx(input, max_speed) != 0 {
        PlayerState::Running
    } else {
        current
    }
}

/// The sprite facing one snapshot resolves to: right held faces right
/// (unmirrored, and it wins when both directions are held), left held faces
/// left (mirrored), neither held keeps the previous facing.
pub open spec fn resolved_flip(input: PlayerInput, current_flip: bool) -> bool {
    if input.move_right {
        false
    } else if input.move_left {
        true
    } else {
        current_flip
    }
}

/// The clip the binding assigns to one locomotion state; idle splits on
/// whether the sword is drawn.
pub open spec fn clip_for(
    animations: PlayerAnimations,
    state: PlayerState,
    sword_drawn: bool,
) -> ClipId {
    match state {
        PlayerState::Idle => if sword_drawn {
            animations.idle_sword_drawn
        } else {
            animations.idle
        },
        PlayerState::Crouched => animations.crouched,
        PlayerState::Running => animations.running,
        PlayerState::Jumping => animations.jumping,
        PlayerState::Falling => animations.falling,
        PlayerState::DrawingSword => animations.drawing_sword,
        PlayerState::SheathingSword => animations.sheathing_sword,
        PlayerState::Slashing => animations.slashing,
    }
}

/// Resolve the tick's snapshot into exactly one locomotion state and a
/// horizontal velocity target, then clamp the horizontal velocity to the
/// actor's limit. Writes only the horizontal component; the vertical one is
/// the physics layer's. The speed limit and the sword flag are untouched.
pub fn movement_system(input: &PlayerInput, player: &mut Player, velocity: &mut Velocity)
    requires
        old(player).wf(),
    ensures
        final(player).wf(),
        final(player).max_speed == old(player).max_speed,
        final(player).sword_drawn == old(player).sword_drawn,
        final(player).state == resolved_state(*input, old(player).max_speed as int, old(player).state),
        final(velocity).x as int == resolved_vx(*input, old(player).max_speed as int),
        -old(player).max_speed <= final(velocity).x <= old(player).max_speed,
        final(velocity).y == old(velocity).y,
{
    if input.move_right {
        velocity.x = player.max_speed;
    }
    if input.move_left {
        velocity.x = -player.max_speed;
    }

    // If no inputs, stop.
    if !(input.move_right || input.move_left) {
        player.state = PlayerState::Idle;
        velocity.x = 0;
    }

    if (input.move_right || input.move_left) && velocity.x != 0 {
        player.state = PlayerState::Running;
    }

    if velocity.x > player.max_speed {
        velocity.x = player.max_speed;
    } else if velocity.x < -player.max_speed {
        velocity.x = -player.max_speed;
    }
}

/// Look up the clip bound to the actor's state and assign it only if it
/// differs from the currently assigned one — the sole trigger for an
/// animation change. Reports whether a change happened, the signal the reset
/// step consumes.
pub fn player_animation_system(
    player: &Player,
    animations: &PlayerAnimations,
    animation_handle: &mut ClipId,
) -> (changed: bool)
    ensures
        *final(animation_handle) == clip_for(*animations, player.state, player.sword_drawn),
        changed == (clip_for(*animations, player.state, player.sword_drawn) != *old(animation_handle)),
        !changed ==> *final(animation_handle) == *old(animation_handle),
{
    let desired_animation_handle = match player.state {
        PlayerState::Idle => {
            if player.sword_drawn {
                animations.idle_sword_drawn
            } else {
                animations.idle
            }
        },
        PlayerState::Crouched => animations.crouched,
        PlayerState::Running => animations.running,
        PlayerState::Jumping => animations.jumping,
        PlayerState::Falling => animations.falling,
        PlayerState::DrawingSword => animations.drawing_sword,
        PlayerState::SheathingSword => animations.sheathing_sword,
        PlayerState::Slashing => animations.slashing,
    };

    if desired_animation_handle != *animation_handle {
        *animation_handle = desired_animation_handle;
        true
    } else {
        false
    }
}

/// The playback collaborator's per-entity cursor: the current frame and
/// whether the entity is flagged as playing (a finished one-shot clip clears
/// the flag).
#[derive(Debug, Clone, Copy, PartialEq, Eq, Structural)]
pub struct PlaybackState {
    pub frame: u32,
    pub playing: bool,
}

impl PlaybackState {
    /// Rewind the cursor to the first frame.
    pub fn reset(&mut self)
        ensures
            *final(self) == (PlaybackState { frame: 0, playing: old(self).playing }),
    {
        self.frame = 0;
    }
}

/// After a genuine clip change — and only then — rewind the playback cursor
/// and, if a finished one-shot clip had stopped the entity, flag it as
/// playing again. Without a change the cursor is untouched, so a state that
/// persists never restarts its clip.
pub fn animation_reset_system(clip_changed: bool, playback: &mut PlaybackState)
    ensures
        clip_changed ==> *final(playback) == (PlaybackState { frame: 0, playing: true }),
        !clip_changed ==> *final(playback) == *old(playback),
{
    if clip_changed {
        playback.reset();
        if !playback.playing {
            playback.playing = true;
        }
    }
}

/// Derive the sprite mirroring from the latest nonzero horizontal intent:
/// right held faces right, else left held faces left, neither held keeps the
/// previous facing (sticky through idle).
pub fn sprite_flipping_system(input: &PlayerInput, flip_x: &mut bool)
    ensures
        *final(flip_x) == resolved_flip(*input, *old(flip_x)),
        !input.move_right && !input.move_left ==> *final(flip_x) == *old(flip_x),
{
    if input.move_right {
        *flip_x = false;
    } else if input.move_left {
        *flip_x = true;
    }
}

/// Everything that hangs off the single player entity and is touched by the
/// tick pipeline: the actor, its input snapshot, its shared velocity, the
/// assigned clip, the playback cursor, and the sprite mirror flag.
#[derive(Debug, Clone, Copy, PartialEq, Eq, Structural)]
pub struct PlayerEntity {
    pub player: Player,
    pub input: PlayerInput,
    pub velocity: Velocity,
    pub clip: ClipId,
    pub playback: PlaybackState,
    pub flip_x: bool,
}

/// Spawn the player entity: a fresh idle actor with nothing held, at rest,
/// showing the bound idle clip from its first frame, playing, unmirrored.
pub fn player_setup(animations: &PlayerAnimations) -> (e: PlayerEntity)
    ensures
        e.player == (Player { state: PlayerState::Idle, max_speed: 100, sword_drawn: false }),
        e.player.wf(),
        e.input == (PlayerInput { move_right: false, move_left: false, jump: false, crouch: false }),
        e.velocity == (Velocity { x: 0, y: 0 }),
        e.clip == animations.idle,
        e.clip == clip_for(*animations, e.player.state, e.player.sword_drawn),
        e.playback == (PlaybackState { frame: 0, playing: true }),
        e.flip_x == false,
{
    PlayerEntity {
        player: Player::new(),
        input: PlayerInput::default(),
        velocity: Velocity::default(),
        clip: animations.idle,
        playback: PlaybackState { frame: 0, playing: true },
        flip_x: false,
    }
}

impl PlayerEntity {
    /// One full tick, in the pipeline's fixed order: sample the input
    /// snapshot, resolve state and horizontal velocity, derive the sprite
    /// facing, select the clip, and reset playback exactly when the clip
    /// actually changed. Later stages observe only this tick's fully updated
    /// values — the snapshot read by every stage is the one just sampled.
    pub fn tick(
        &mut self,
        animations: &PlayerAnimations,
        jump_held: bool,
        left_held: bool,
        crouch_held: bool,
        right_held: bool,
    )
        requires
            old(self).player.wf(),
        ensures
            final(self).player.wf(),
            final(self).input == input_snapshot(jump_held, left_held, crouch_held, right_held),
            final(self).player.max_speed == old(self).player.max_speed,
            final(self).player.sword_drawn == old(self).player.sword_drawn,
            final(self).player.state == resolved_state(
                final(self).input,
                old(self).player.max_speed as int,
                old(self).player.state,
            ),
            final(self).velocity.x as int == resolved_vx(
                final(self).input,
                old(self).player.max_speed as int,
            ),
            -old(self).player.max_speed <= final(self).velocity.x <= old(self).player.max_speed,
            final(self).velocity.y == old(self).velocity.y,
            final(self).flip_x == resolved_flip(final(self).input, old(self).flip_x),
            final(self).clip == clip_for(
                *animations,
                final(self).player.state,
                old(self).player.sword_drawn,
            ),
            final(self).clip != old(self).clip ==> final(self).playback == (PlaybackState {
                frame: 0,
                playing: true,
            }),
            final(self).clip == old(self).clip ==> final(self).playback == old(self).playback,
    {
        input_system(&mut self.input, jump_held, left_held, crouch_held, right_held);
        movement_system(&self.input, &mut self.player, &mut self.velocity);
        sprite_flipping_system(&self.input, &mut self.flip_x);
        let changed = player_animation_system(&self.player, animations, &mut self.clip);
        animation_reset_system(changed, &mut self.playback);
    }
}

/// Totality of the locomotion transition: every (state, input) pair resolves
/// to a defined next state — Idle when no direction is held, Running when
/// motion results, and otherwise the current state is kept, so the state is
/// never left unset.
pub proof fn lemma_transition_total(input: PlayerInput, max_speed: int, current: PlayerState)
    ensures
        resolved_state(input, max_speed, current) == PlayerState::Idle
            || resolved_state(input, max_speed, current) == PlayerState::Running
            || resolved_state(input, max_speed, current) == current,
{
}

/// Idempotence of one input snapshot: resolving the same snapshot a second
/// time from the state the first resolution produced yields that same state
/// again. The horizontal velocity target is a function of the snapshot and
/// the speed limit alone, so the second resolution rewrites the value the
/// first wrote — zero net velocity change.
pub proof fn lemma_resolution_idempotent(input: PlayerInput, max_speed: int, current: PlayerState)
    ensures
        resolved_state(input, max_speed, resolved_state(input, max_speed, current))
            == resolved_state(input, max_speed, current),
{
}

/// Velocity clamp law: for every combination of the left/right flags and any
/// nonnegative speed limit, the magnitude of the resolved horizontal velocity
/// never exceeds the limit.
pub proof fn lemma_velocity_clamped(input: PlayerInput, max_speed: int)
    requires
        0 <= max_speed,
    ensures
        -max_speed <= resolved_vx(input, max_speed) <= max_speed,
{
}

/// Clip-switch minimality: a snapshot held over two consecutive ticks
/// resolves to the same state the second time, so the second tick looks up
/// the very clip that is already assigned — and the pipeline's reset step,
/// which fires only when the looked-up clip differs from the assigned one,
/// leaves the playback cursor untouched. Re-entering a state is thus never
/// distinguishable from staying in it.
pub proof fn lemma_repeated_snapshot_keeps_clip(
    animations: PlayerAnimations,
    input: PlayerInput,
    max_speed: int,
    current: PlayerState,
    sword_drawn: bool,
)
    ensures
        clip_for(
            animations,
            resolved_state(input, max_speed, resolved_state(input, max_speed, current)),
            sword_drawn,
        ) == clip_for(animations, resolved_state(input, max_speed, current), sword_drawn),
{
}

} // verus!
