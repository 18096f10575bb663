use angry_apes::common::{
    decimal_string, gameover_screen, spawn_font, spawn_game_state, AppState, DurationTimer, Score,
    Timer, TriggerTimer,
};
use angry_apes::inputs::{
    gamepad_connection_events, ButtonState, GamepadEventKind, GamepadState, InputKind,
    KeyboardState, Movements, Moving, Orientation, PlayerInput,
};
use angry_apes::player::{
    animate_units, cooldown_dashes, fall_units, move_units, reorient_units_on_sprite_change,
    spawn_life_hud, spawn_player, tick_dashes, transition_units, update_units, AnimSet, AnimSpec,
    CondAnims, DashCooldown, Unit, UnitChanged, UnitCondition, UnitKind, UnitState,
};
use angry_apes::{FLOOR_Y, JUMP_VELOCITY, WALL_X};

fn frames_of(frames: usize) -> AnimSpec {
    AnimSpec { atlas: 1, frames, frame_ms: 100 }
}

fn cond_anims() -> CondAnims {
    CondAnims {
        stand: frames_of(4),
        moving: frames_of(8),
        attack: frames_of(5),
        wound: frames_of(3),
        die: frames_of(7),
        jump: frames_of(2),
        fall: frames_of(2),
        dash: frames_of(2),
    }
}

fn anim_set() -> AnimSet {
    AnimSet { normal: cond_anims(), upgraded: cond_anims() }
}

fn player() -> Unit {
    spawn_player(1, anim_set())
}

fn idle_button() -> ButtonState {
    ButtonState { pressed: false, just_pressed: false, just_released: false }
}

fn idle_keys() -> KeyboardState {
    KeyboardState {
        left: idle_button(),
        up: idle_button(),
        down: idle_button(),
        right: idle_button(),
        jump: idle_button(),
        dash: idle_button(),
        attack: idle_button(),
    }
}

fn idle_pad() -> GamepadState {
    GamepadState {
        dpad_left: idle_button(),
        dpad_right: idle_button(),
        dpad_up: idle_button(),
        dpad_down: idle_button(),
        south: idle_button(),
        east: idle_button(),
        west: idle_button(),
        left_stick_x: 0,
        left_stick_y: 0,
    }
}

fn keyboard(keys: KeyboardState) -> PlayerInput {
    PlayerInput::Keyboard { keys }
}

#[test]
fn timer_once_finishes_and_stays() {
    let mut t = Timer::from_millis(100, false);
    t.tick(40);
    assert!(!t.finished());
    assert!(!t.just_finished());
    t.tick(60);
    assert!(t.finished());
    assert!(t.just_finished());
    t.tick(10);
    assert!(t.finished());
    assert!(!t.just_finished());
}

#[test]
fn timer_repeating_wraps() {
    let mut t = Timer::from_millis(100, true);
    t.tick(250);
    assert!(t.just_finished());
    assert_eq!(t.elapsed_ms, 50);
    t.tick(40);
    assert!(!t.just_finished());
    assert_eq!(t.elapsed_ms, 90);
}

#[test]
fn duration_timer_finishes() {
    let mut d = DurationTimer::from_millis(600);
    d.tick(599);
    assert!(!d.finished());
    d.tick(1);
    assert!(d.finished());
}

#[test]
fn trigger_timer_default_period() {
    let t = TriggerTimer::default();
    assert_eq!(t.0.duration_ms, 3_000);
    assert!(t.0.repeating);
}

#[test]
fn movements_from_keyboard_reads_arrows() {
    let mut keys = idle_keys();
    keys.left.pressed = true;
    keys.up.pressed = true;
    let m = Movements::from_keyboard(&keys);
    assert!(m.contains(Moving::Left));
    assert!(m.contains(Moving::Up));
    assert!(!m.contains(Moving::Right));
    assert!(!m.contains(Moving::Down));
}

#[test]
fn movements_from_gamepad_uses_deadzone() {
    let mut pad = idle_pad();
    pad.left_stick_x = 9;
    let m = Movements::from_gamepad(&pad);
    assert!(!m.contains(Moving::Right));
    pad.left_stick_x = 11;
    let m = Movements::from_gamepad(&pad);
    assert!(m.contains(Moving::Right));
}

#[test]
fn orientation_from_keyboard_prefers_fresh_press() {
    let mut keys = idle_keys();
    keys.left.just_pressed = true;
    assert_eq!(Orientation::from_keyboard(&keys), Some(Orientation::Left));
    keys.left.just_pressed = false;
    keys.right.pressed = true;
    keys.left.just_released = true;
    assert_eq!(Orientation::from_keyboard(&keys), Some(Orientation::Right));
}

#[test]
fn orientation_from_movements_requires_unambiguous() {
    let both = Movements { left: true, up: false, down: false, right: true };
    assert_eq!(Orientation::from_movements(&both), None);
    let left = Movements { left: true, up: false, down: false, right: false };
    assert_eq!(Orientation::from_movements(&left), Some(Orientation::Left));
}

#[test]
fn orientation_flip_x_mirrors_left() {
    assert!(Orientation::Left.flip_x());
    assert!(!Orientation::Right.flip_x());
}

#[test]
fn gamepad_connection_switches_device() {
    let mut kind = InputKind::default();
    assert_eq!(kind, InputKind::Keyboard);
    let events = vec![GamepadEventKind::Other, GamepadEventKind::Connected];
    gamepad_connection_events(&mut kind, &events);
    assert_eq!(kind, InputKind::Gamepad);
    let events = vec![GamepadEventKind::Disconnected];
    gamepad_connection_events(&mut kind, &events);
    assert_eq!(kind, InputKind::Keyboard);
}

#[test]
fn jump_posts_event_from_stand() {
    let mut p = player();
    let mut keys = idle_keys();
    keys.jump.just_pressed = true;
    let mut ev: Vec<UnitChanged> = Vec::new();
    angry_apes::inputs::handle_input(&keyboard(keys), &mut p, &mut ev);
    assert_eq!(ev.len(), 1);
    assert_eq!(ev[0].new_state, Some(UnitState::Jump));
}

#[test]
fn jump_trigger_ignored_while_falling() {
    let mut p = player();
    p.state = UnitState::Fall;
    let mut keys = idle_keys();
    keys.jump.just_pressed = true;
    let mut ev: Vec<UnitChanged> = Vec::new();
    angry_apes::inputs::handle_input(&keyboard(keys), &mut p, &mut ev);
    assert_eq!(ev.len(), 0);
    assert_eq!(p.state, UnitState::Fall);
}

#[test]
fn dash_trigger_needs_cooldown() {
    let mut p = player();
    let mut keys = idle_keys();
    keys.dash.just_pressed = true;
    let mut ev: Vec<UnitChanged> = Vec::new();
    angry_apes::inputs::handle_input(&keyboard(keys), &mut p, &mut ev);
    assert_eq!(ev.len(), 0, "a fresh cooldown forbids dashing");

    p.dash_cooldown = {
        let mut c = DashCooldown::default();
        c.0.tick(250);
        c
    };
    angry_apes::inputs::handle_input(&keyboard(keys), &mut p, &mut ev);
    assert_eq!(ev.len(), 1);
    assert_eq!(ev[0].new_state, Some(UnitState::Dash));
    let m = p.movements.expect("dash synthesizes movement");
    assert!(m.contains(Moving::Right), "facing right synthesizes rightward intent");
}

#[test]
fn dash_trigger_ignored_while_airborne() {
    let mut p = player();
    p.state = UnitState::Jump;
    p.dash_cooldown = {
        let mut c = DashCooldown::default();
        c.0.tick(250);
        c
    };
    let mut keys = idle_keys();
    keys.dash.just_pressed = true;
    let mut ev: Vec<UnitChanged> = Vec::new();
    angry_apes::inputs::handle_input(&keyboard(keys), &mut p, &mut ev);
    assert_eq!(ev.len(), 0, "a dash is legal only on the ground");
    assert!(p.movements.is_none());
}

#[test]
fn attack_trigger_ignored_while_airborne() {
    let mut p = player();
    p.state = UnitState::Fall;
    let mut keys = idle_keys();
    keys.attack.just_pressed = true;
    let mut ev: Vec<UnitChanged> = Vec::new();
    angry_apes::inputs::handle_input(&keyboard(keys), &mut p, &mut ev);
    assert_eq!(ev.len(), 0, "an attack is legal only from Stand and Move");
}

#[test]
fn direction_in_attack_state_still_turns() {
    // A locked state ignores movement but the actor still turns.
    let mut p = player();
    p.state = UnitState::Attack;
    let mut keys = idle_keys();
    keys.left.pressed = true;
    let mut ev: Vec<UnitChanged> = Vec::new();
    angry_apes::inputs::handle_input(&keyboard(keys), &mut p, &mut ev);
    assert!(p.movements.is_none(), "no movement is written in a locked state");
    assert_eq!(ev.len(), 1);
    assert_eq!(ev[0].new_state, None);
    assert_eq!(ev[0].new_orientation, Some(Orientation::Left));
}

#[test]
fn attack_trigger_ignored_while_wounded() {
    let mut p = player();
    p.state = UnitState::Wound;
    let mut keys = idle_keys();
    keys.attack.just_pressed = true;
    let mut ev: Vec<UnitChanged> = Vec::new();
    angry_apes::inputs::handle_input(&keyboard(keys), &mut p, &mut ev);
    assert_eq!(ev.len(), 0);
}

#[test]
fn consolidation_last_posted_wins_side_effects_once() {
    let p = player();
    let mut units = vec![p];
    let mut ev = vec![
        UnitChanged::entity(1).new_state(UnitState::Jump),
        UnitChanged::entity(1).new_state(UnitState::Jump),
    ];
    update_units(&mut units, &mut ev);
    assert_eq!(units[0].state, UnitState::Jump);
    assert_eq!(units[0].gravity.vy, JUMP_VELOCITY, "launch velocity set once, not accumulated");
    assert_eq!(ev.len(), 0, "the queue is drained");
}

#[test]
fn consolidation_drops_stale_target() {
    let p = player();
    let mut units = vec![p];
    let mut ev = vec![UnitChanged::entity(99).new_state(UnitState::Move)];
    update_units(&mut units, &mut ev);
    assert_eq!(units[0].state, UnitState::Stand);
}

#[test]
fn leaving_dash_arms_cooldown_and_clears_intent() {
    let mut p = player();
    p.state = UnitState::Dash;
    p.movements = Some(Movements { left: false, up: false, down: false, right: true });
    p.dash_cooldown.0.tick(250);
    let mut units = vec![p];
    let mut ev = vec![UnitChanged::entity(1).new_state(UnitState::Fall)];
    update_units(&mut units, &mut ev);
    assert_eq!(units[0].state, UnitState::Fall);
    assert!(units[0].movements.is_none(), "the synthetic intent is cleared");
    assert_eq!(units[0].dash_cooldown.0.elapsed_ms, 0, "the cooldown is re-armed");
    assert!(units[0].dash_timer.is_none());
}

#[test]
fn condition_change_keeps_state() {
    let mut p = player();
    p.state = UnitState::Move;
    let mut units = vec![p];
    let mut ev = vec![UnitChanged::entity(1).new_condition(UnitCondition::Upgraded)];
    update_units(&mut units, &mut ev);
    assert_eq!(units[0].state, UnitState::Move);
    assert_eq!(units[0].condition, UnitCondition::Upgraded);
}

#[test]
fn move_units_walks_and_clamps() {
    let mut p = player();
    p.movements = Some(Movements { left: false, up: false, down: false, right: true });
    let mut units = vec![p];
    move_units(1000, &mut units);
    assert_eq!(units[0].x, 150_000, "walking covers 150 px in one second");
    for _ in 0..10 {
        move_units(1000, &mut units);
    }
    assert_eq!(units[0].x, WALL_X, "the wall stops the walk");
}

#[test]
fn dash_moves_faster() {
    let mut p = player();
    p.state = UnitState::Dash;
    p.movements = Some(Movements { left: false, up: false, down: false, right: true });
    let mut units = vec![p];
    move_units(100, &mut units);
    assert_eq!(units[0].x, 60_000, "dashing covers 600 px per second");
}

#[test]
fn fall_lands_on_floor_and_posts_stand() {
    let mut p = player();
    p.state = UnitState::Fall;
    p.y = FLOOR_Y + 1_000;
    p.gravity.vy = -100;
    let mut units = vec![p];
    let mut ev: Vec<UnitChanged> = Vec::new();
    fall_units(100, &mut units, &mut ev);
    assert_eq!(units[0].y, FLOOR_Y);
    assert_eq!(units[0].gravity.vy, 0);
    assert_eq!(ev.len(), 1);
    assert_eq!(ev[0].new_state, Some(UnitState::Stand));
}

#[test]
fn jump_arc_rises_then_returns() {
    let mut p = player();
    let mut units = vec![p];
    let mut ev = vec![UnitChanged::entity(1).new_state(UnitState::Jump)];
    update_units(&mut units, &mut ev);
    assert_eq!(units[0].gravity.vy, JUMP_VELOCITY);
    let mut landed = false;
    for _ in 0..200 {
        let mut posts: Vec<UnitChanged> = Vec::new();
        fall_units(16, &mut units, &mut posts);
        if !posts.is_empty() {
            assert_eq!(posts[0].new_state, Some(UnitState::Stand));
            landed = true;
            break;
        }
        assert!(units[0].y >= FLOOR_Y);
    }
    assert!(landed, "gravity alone brings the jump back to the floor");
    p = units[0];
    assert_eq!(p.y, FLOOR_Y);
}

#[test]
fn dash_timer_expiry_posts_fall() {
    let mut p = player();
    p.state = UnitState::Dash;
    p.dash_timer = Some(Default::default());
    let mut units = vec![p];
    tick_dashes(300, &mut units);
    let mut ev: Vec<UnitChanged> = Vec::new();
    let mut attacks: Vec<angry_apes::player::UnitAttack> = Vec::new();
    let mut next_state: Option<AppState> = None;
    transition_units(16, &units, &mut ev, &mut attacks, &mut next_state);
    assert_eq!(ev.len(), 1);
    assert_eq!(ev[0].new_state, Some(UnitState::Fall));
}

#[test]
fn cooldown_passes_advance_every_unit() {
    let mut units = vec![player()];
    cooldown_dashes(250, &mut units);
    assert!(units[0].dash_cooldown.0.elapsed_ms == 250);
}

#[test]
fn attack_signal_fires_once_on_second_to_last_frame() {
    // An attack animation of 5 frames at 100 ms per frame: the strike
    // signal must be posted exactly once, on the crossing into the last
    // frame, and the return to Stand once the animation plays out.
    let mut p = player();
    let mut units = vec![p];
    let mut ev = vec![UnitChanged::entity(1).new_state(UnitState::Attack)];
    update_units(&mut units, &mut ev);
    assert_eq!(units[0].state, UnitState::Attack);

    let mut strike_posts = 0;
    let mut stand_posts = 0;
    let mut strike_index = None;
    for tick in 0..60 {
        let mut posts: Vec<UnitChanged> = Vec::new();
        let mut attacks: Vec<angry_apes::player::UnitAttack> = Vec::new();
        let mut next_state: Option<AppState> = None;
        transition_units(10, &units, &mut posts, &mut attacks, &mut next_state);
        if !attacks.is_empty() {
            strike_posts += attacks.len();
            strike_index = Some((tick, units[0].playback.index));
        }
        if !posts.is_empty() {
            stand_posts += posts.len();
            break;
        }
        animate_units(10, &mut units);
    }
    assert_eq!(strike_posts, 1, "the strike signal is posted exactly once");
    assert_eq!(stand_posts, 1);
    let (_, index) = strike_index.unwrap();
    assert_eq!(index, 3, "the signal fires while the second-to-last frame plays out");
}

#[test]
fn player_death_animation_ends_round() {
    let mut p = player();
    p.state = UnitState::Die;
    p.playback.index = p.playback.frames - 1;
    p.playback.timer.elapsed_ms = 99;
    let units = vec![p];
    let mut posts: Vec<UnitChanged> = Vec::new();
    let mut attacks: Vec<angry_apes::player::UnitAttack> = Vec::new();
    let mut next_state: Option<AppState> = None;
    transition_units(10, &units, &mut posts, &mut attacks, &mut next_state);
    assert_eq!(next_state, Some(AppState::GameOver));
}

#[test]
fn reorient_follows_orientation() {
    let mut p = player();
    p.orientation = Orientation::Left;
    let mut units = vec![p];
    reorient_units_on_sprite_change(&mut units);
    assert!(units[0].flip_x);
}

#[test]
fn anim_tag_pairs_state_and_condition() {
    let t = UnitKind::Player.anim_tag(UnitState::Jump, UnitCondition::Upgraded);
    assert_eq!(t.state, UnitState::Jump);
    assert_eq!(t.condition, UnitCondition::Upgraded);
}

#[test]
fn asperite_handle_follows_condition() {
    let handles = angry_apes::player::AsepriteHandles { paladin: 7, crusader: 8 };
    assert_eq!(UnitKind::Player.asperite_handle(&handles, UnitCondition::Normal), 7);
    assert_eq!(UnitKind::Player.asperite_handle(&handles, UnitCondition::Upgraded), 8);
}

#[test]
fn life_hud_allocates_five_chunks() {
    let mut next_id = 10;
    let chunks = spawn_life_hud(&mut next_id);
    assert_eq!(chunks.0, vec![10, 11, 12, 13, 14]);
    assert_eq!(next_id, 15);
}

#[test]
fn decimal_rendering() {
    assert_eq!(decimal_string(0), "0");
    assert_eq!(decimal_string(7), "7");
    assert_eq!(decimal_string(10), "10");
    assert_eq!(decimal_string(90125), "90125");
}

#[test]
fn gameover_screen_reports_score_and_restart() {
    let mut keys = idle_keys();
    keys.attack.just_released = true;
    let (text, restart) =
        gameover_screen(&InputKind::Keyboard, &keys, &None, &Score(12));
    assert_eq!(text, "You   managed   to   kill   [ 12 ]");
    assert!(restart);
    let (_, restart) =
        gameover_screen(&InputKind::Gamepad, &keys, &None, &Score(12));
    assert!(!restart, "no pad connected means no restart");
}

#[test]
fn font_handle_is_kept() {
    assert_eq!(spawn_font(3).0, 3);
}

#[test]
fn fresh_round_layout() {
    let assets = vec![angry_apes::ape::ApeAssets { texture: 20, wound_h: 21, init_h: 22, on_h: 23 }];
    let mut next_id = 0;
    let gs = spawn_game_state(&mut next_id, &anim_set(), &assets);
    assert_eq!(gs.units.len(), 1);
    assert_eq!(gs.units[0].state, UnitState::Stand);
    assert_eq!(gs.units[0].x, 0);
    assert_eq!(gs.units[0].y, FLOOR_Y);
    assert_eq!(gs.life_chunks.0.len(), 5);
    assert_eq!(gs.apes.len(), 2);
    assert_eq!(gs.apes[0].flank, angry_apes::ape::Flank::Left);
    assert_eq!(gs.apes[1].flank, angry_apes::ape::Flank::Right);
    assert!(gs.attack_anims.is_empty());
    assert_eq!(gs.dead_counter.0, 0);
    assert_eq!(next_id, 8);
}

#[test]
fn respawn_resets_score() {
    let assets = vec![angry_apes::ape::ApeAssets { texture: 20, wound_h: 21, init_h: 22, on_h: 23 }];
    let mut next_id = 0;
    let mut score = Score(9);
    let gs = angry_apes::common::respawn_game_state(&mut score, &mut next_id, &anim_set(), &assets);
    assert_eq!(score.0, 0);
    assert_eq!(gs.apes.len(), 2);
}

#[test]
fn direction_press_moves_from_stand() {
    let mut p = player();
    let mut keys = idle_keys();
    keys.right.pressed = true;
    keys.right.just_pressed = true;
    let mut ev: Vec<UnitChanged> = Vec::new();
    angry_apes::inputs::handle_input(&keyboard(keys), &mut p, &mut ev);
    assert_eq!(ev.len(), 1);
    assert_eq!(ev[0].new_state, Some(UnitState::Move));
    assert_eq!(ev[0].new_orientation, Some(Orientation::Right));
    let m = p.movements.expect("the held direction is written onto the player");
    assert!(m.contains(Moving::Right));
}

#[test]
fn direction_release_returns_to_stand() {
    let mut p = player();
    p.state = UnitState::Move;
    let mut keys = idle_keys();
    keys.right.just_released = true;
    let mut ev: Vec<UnitChanged> = Vec::new();
    angry_apes::inputs::handle_input(&keyboard(keys), &mut p, &mut ev);
    assert_eq!(ev.len(), 1);
    assert_eq!(ev[0].new_state, Some(UnitState::Stand));
}

#[test]
fn direction_in_locked_state_only_turns() {
    // A held direction while airborne posts a facing change but no state.
    let mut p = player();
    p.state = UnitState::Jump;
    let mut keys = idle_keys();
    keys.left.pressed = true;
    let mut ev: Vec<UnitChanged> = Vec::new();
    angry_apes::inputs::handle_input(&keyboard(keys), &mut p, &mut ev);
    assert_eq!(ev.len(), 1);
    assert_eq!(ev[0].new_state, None);
    assert_eq!(ev[0].new_orientation, Some(Orientation::Left));
}

#[test]
fn rise_is_capped_by_the_ceiling() {
    let mut p = player();
    p.y = angry_apes::CEILING_Y - 1_000;
    p.gravity.vy = JUMP_VELOCITY;
    let mut units = vec![p];
    let mut ev: Vec<UnitChanged> = Vec::new();
    fall_units(100, &mut units, &mut ev);
    assert_eq!(units[0].y, angry_apes::CEILING_Y);
    assert!(ev.is_empty());
}

#[test]
fn state_change_restarts_playback() {
    let mut p = player();
    p.playback.index = 2;
    let mut units = vec![p];
    let mut ev = vec![UnitChanged::entity(1).new_state(UnitState::Attack)];
    update_units(&mut units, &mut ev);
    assert_eq!(units[0].playback.index, 0, "entering a state restarts its animation");
    assert_eq!(units[0].playback.frames, 5, "the attack animation is selected");
}
