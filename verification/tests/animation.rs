use sidescroller::AppState;
use sidescroller::environment::check_textures;
use sidescroller::input::PlayerInput;
use sidescroller::input::input_system;
use sidescroller::player::ClipAssets;
use sidescroller::player::ClipDef;
use sidescroller::player::ClipId;
use sidescroller::player::Player;
use sidescroller::player::PlaybackState;
use sidescroller::player::PlayerAnimations;
use sidescroller::player::PlayerState;
use sidescroller::player::animation_reset_system;
use sidescroller::player::player_animation_system;
use sidescroller::player::player_setup;

#[test]
fn clip_table_holds_the_nine_fixed_clips() {
    let mut assets = ClipAssets::new();
    let animations = PlayerAnimations::new(&mut assets);

    assert_eq!(assets.defs.len(), 9);
    let expect = |id: ClipId, first: u32, last: u32, once: bool| {
        assert_eq!(
            assets.defs[id.0],
            ClipDef { first_frame: first, last_frame: last, frames_per_second: 7, once }
        );
    };
    expect(animations.idle, 0, 3, false);
    expect(animations.idle_sword_drawn, 38, 41, false);
    expect(animations.crouched, 4, 7, false);
    expect(animations.running, 8, 13, false);
    expect(animations.jumping, 15, 17, true);
    expect(animations.falling, 22, 23, false);
    expect(animations.drawing_sword, 69, 72, true);
    expect(animations.sheathing_sword, 73, 76, true);
    expect(animations.slashing, 47, 52, true);

    let mut ids = vec![
        animations.idle,
        animations.idle_sword_drawn,
        animations.crouched,
        animations.running,
        animations.jumping,
        animations.falling,
        animations.drawing_sword,
        animations.sheathing_sword,
        animations.slashing,
    ];
    ids.sort_by_key(|id| id.0);
    ids.dedup();
    assert_eq!(ids.len(), 9);
}

#[test]
fn selector_picks_the_bound_clip_for_every_state() {
    let mut assets = ClipAssets::new();
    let animations = PlayerAnimations::new(&mut assets);
    let cases = [
        (PlayerState::Idle, false, animations.idle),
        (PlayerState::Idle, true, animations.idle_sword_drawn),
        (PlayerState::Crouched, false, animations.crouched),
        (PlayerState::Running, false, animations.running),
        (PlayerState::Jumping, false, animations.jumping),
        (PlayerState::Falling, false, animations.falling),
        (PlayerState::DrawingSword, false, animations.drawing_sword),
        (PlayerState::SheathingSword, false, animations.sheathing_sword),
        (PlayerState::Slashing, true, animations.slashing),
    ];
    for (state, sword_drawn, expected) in cases {
        let player = Player { state, max_speed: 100, sword_drawn };
        let mut clip = ClipId(usize::MAX);
        let changed = player_animation_system(&player, &animations, &mut clip);
        assert!(changed);
        assert_eq!(clip, expected);
    }
}

#[test]
fn selector_reports_no_change_when_clip_already_assigned() {
    let mut assets = ClipAssets::new();
    let animations = PlayerAnimations::new(&mut assets);
    let player = Player { state: PlayerState::Running, max_speed: 100, sword_drawn: false };
    let mut clip = animations.running;
    let changed = player_animation_system(&player, &animations, &mut clip);
    assert!(!changed);
    assert_eq!(clip, animations.running);
}

#[test]
fn persisting_state_never_resets_the_cursor() {
    let mut assets = ClipAssets::new();
    let animations = PlayerAnimations::new(&mut assets);
    let mut entity = player_setup(&animations);

    entity.tick(&animations, false, false, false, true);
    entity.playback.frame = 3;

    entity.tick(&animations, false, false, false, true);
    assert_eq!(entity.clip, animations.running);
    assert_eq!(entity.playback.frame, 3);
}

#[test]
fn reset_rewinds_and_replays_only_on_change() {
    let mut playback = PlaybackState { frame: 4, playing: false };
    animation_reset_system(false, &mut playback);
    assert_eq!(playback, PlaybackState { frame: 4, playing: false });

    animation_reset_system(true, &mut playback);
    assert_eq!(playback, PlaybackState { frame: 0, playing: true });
}

#[test]
fn setup_spawns_an_idle_resting_player() {
    let mut assets = ClipAssets::new();
    let animations = PlayerAnimations::new(&mut assets);
    let entity = player_setup(&animations);

    assert_eq!(entity.player.state, PlayerState::Idle);
    assert_eq!(entity.player.max_speed, 100);
    assert!(!entity.player.sword_drawn);
    assert!(!entity.input.move_right && !entity.input.move_left);
    assert!(!entity.input.jump && !entity.input.crouch);
    assert_eq!(entity.velocity.x, 0);
    assert_eq!(entity.velocity.y, 0);
    assert_eq!(entity.clip, animations.idle);
    assert_eq!(entity.playback, PlaybackState { frame: 0, playing: true });
    assert!(!entity.flip_x);
}

#[test]
fn snapshot_is_fully_overwritten_each_tick() {
    let mut snapshot = PlayerInput { move_right: true, move_left: true, jump: true, crouch: true };
    input_system(&mut snapshot, false, false, false, false);
    assert_eq!(
        snapshot,
        PlayerInput { move_right: false, move_left: false, jump: false, crouch: false }
    );

    input_system(&mut snapshot, true, false, true, false);
    assert_eq!(
        snapshot,
        PlayerInput { move_right: false, move_left: false, jump: true, crouch: true }
    );

    input_system(&mut snapshot, false, true, false, true);
    assert_eq!(
        snapshot,
        PlayerInput { move_right: true, move_left: true, jump: false, crouch: false }
    );
}

#[test]
fn startup_finishes_only_when_every_texture_loaded() {
    let mut state = AppState::Setup;
    check_textures(&vec![true, false, true], &mut state);
    assert_eq!(state, AppState::Setup);

    check_textures(&vec![true, true, true], &mut state);
    assert_eq!(state, AppState::Finished);
}

#[test]
fn startup_with_no_pending_textures_finishes() {
    let mut state = AppState::Setup;
    check_textures(&Vec::new(), &mut state);
    assert_eq!(state, AppState::Finished);
}
