use angry_apes::ape::{
    ape_attacks_player_collision, animate_apes_attacks, animate_apes_wounds, display_dead_apes_hud,
    init_ape_icon, make_ape, move_apes, spawn_ape, spawn_ape_attack_init, spawn_ape_attack_on,
    spawn_dead_apes_hud, trigger_ape_attack, Ape, ApeAssets, ApeAttackAnim, ApeAttackRange,
    ApeLife, ApesAliveAt, DeadApesCounter, Flank, APE_ATTACK_INIT_MS, APE_ATTACK_ON_MS,
};
use angry_apes::common::{Score, StagedAnimation, TriggerTimer};
use angry_apes::eth::{
    animate_eth, decay_player_eth, init_eth, make_eth, player_collects_eth, player_eth_gauge,
    spawn_eth, EthOwned, EthPicked,
};
use angry_apes::inputs::Moving;
use angry_apes::player::{
    spawn_player, unit_attacks_ape, AnimSet, AnimSpec, CondAnims, LifeChunks, Unit, UnitAttack,
    UnitChanged, UnitCondition, UnitState, NORMAL_DAMAGES, UPGRADED_DAMAGES,
};

fn frames_of(frames: usize) -> AnimSpec {
    AnimSpec { atlas: 1, frames, frame_ms: 100 }
}

fn anim_set() -> AnimSet {
    let c = CondAnims {
        stand: frames_of(4),
        moving: frames_of(8),
        attack: frames_of(5),
        wound: frames_of(3),
        die: frames_of(7),
        jump: frames_of(2),
        fall: frames_of(2),
        dash: frames_of(2),
    };
    AnimSet { normal: c, upgraded: c }
}

fn player() -> Unit {
    spawn_player(1, anim_set())
}

fn assets() -> Vec<ApeAssets> {
    vec![ApeAssets { texture: 20, wound_h: 21, init_h: 22, on_h: 23 }]
}

fn one_ape(id: u64, flank: Flank) -> Ape {
    let mut apes = Vec::new();
    let mut next_id = id;
    spawn_ape(&mut apes, &mut next_id, &assets(), flank);
    apes.pop().unwrap()
}

#[test]
fn spawned_ape_uses_a_listed_look() {
    // With a single look on offer the random draw has no freedom: every
    // sprite handle must be the listed one.
    let a = one_ape(5, Flank::Left);
    assert_eq!(a.texture, 20);
    assert_eq!(a.wound_h.0, 21);
    assert_eq!(a.attack_spec.init_h, 22);
    assert_eq!(a.attack_spec.on_h, 23);
    assert_eq!(a.life.current, 1000);
    assert_eq!(a.life.max, 1000);
    assert_eq!(a.x, -432_000);
    assert_eq!(a.moving, Moving::Left);
}

#[test]
fn spawned_ape_hit_zone_is_scaled_and_offset() {
    let a = one_ape(5, Flank::Right);
    assert_eq!(a.attack_spec.attack_range, ApeAttackRange { offset_x: 130_000, range_x: 124_000 });
    assert_eq!(a.x, 432_000);
    assert_eq!(a.moving, Moving::Right);
}

#[test]
fn damages_ratio_is_tenfold() {
    assert_eq!(NORMAL_DAMAGES, 30);
    assert_eq!(UPGRADED_DAMAGES, 300);
    assert_eq!(UnitCondition::Upgraded.damages(), 10 * UnitCondition::Normal.damages());
}

#[test]
fn life_clamps_at_zero() {
    let mut l = ApeLife::new(100);
    l.decrease_by(30);
    assert_eq!(l.current, 70);
    l.decrease_by(300);
    assert_eq!(l.current, 0);
    l.decrease_by(30);
    assert_eq!(l.current, 0, "damage on a dead enemy keeps life at zero");
    assert_eq!(l.max, 100);
}

#[test]
fn spawn_delay_waits_three_seconds() {
    let mut apes: Vec<Ape> = Vec::new();
    let mut alive = ApesAliveAt::default();
    let mut next_id = 10;
    make_ape(2_999, &mut apes, &mut alive, &assets(), &mut next_id);
    assert!(apes.is_empty(), "before the delay runs out no enemy spawns");
    make_ape(1, &mut apes, &mut alive, &assets(), &mut next_id);
    assert_eq!(apes.len(), 2, "at the three-second mark one enemy per missing flank spawns");
    assert_eq!(apes[0].flank, Flank::Left);
    assert_eq!(apes[1].flank, Flank::Right);

    let mut alive2 = ApesAliveAt::default();
    make_ape(60_000, &mut apes, &mut alive2, &assets(), &mut next_id);
    assert_eq!(apes.len(), 2, "with both flanks manned no further spawn occurs");
    assert_eq!(alive2.0, 0, "a full pair resets the clock");
}

#[test]
fn spawn_delay_fills_single_missing_flank() {
    let mut apes = vec![one_ape(5, Flank::Left)];
    let mut alive = ApesAliveAt::default();
    let mut next_id = 10;
    make_ape(3_001, &mut apes, &mut alive, &assets(), &mut next_id);
    assert_eq!(apes.len(), 2);
    assert_eq!(apes[1].flank, Flank::Right);
    assert_eq!(apes[1].id, 10);
}

#[test]
fn apes_patrol_and_turn() {
    let mut apes = vec![one_ape(5, Flank::Left)];
    assert_eq!(apes[0].x, -432_000);
    move_apes(1000, &mut apes);
    assert_eq!(apes[0].x, -372_000, "patrolling covers 60 px per second");
    assert_eq!(apes[0].moving, Moving::Right, "the strip end turns the patrol around");
}

#[test]
fn trigger_spawns_synchronized_windups() {
    let apes = vec![one_ape(5, Flank::Left), one_ape(6, Flank::Right)];
    let mut trigger = TriggerTimer::default();
    let mut anims: Vec<ApeAttackAnim> = Vec::new();
    let mut next_id = 100;
    trigger_ape_attack(2_999, &mut trigger, &apes, &mut anims, &mut next_id);
    assert!(anims.is_empty());
    trigger_ape_attack(1, &mut trigger, &apes, &mut anims, &mut next_id);
    assert_eq!(anims.len(), 2, "one windup per enemy on the shared beat");
    assert_eq!(anims[0].ape, 5);
    assert_eq!(anims[1].ape, 6);
    assert!(matches!(anims[0].anim, StagedAnimation::Init { .. }));
    assert!(anims[0].attack_range.is_none(), "the windup carries no hit-zone");
}

#[test]
fn windup_becomes_strike_then_expires() {
    let apes = vec![one_ape(5, Flank::Left)];
    let mut anims: Vec<ApeAttackAnim> = Vec::new();
    spawn_ape_attack_init(&mut anims, 5, &apes[0].attack_spec, 50);
    animate_apes_attacks(APE_ATTACK_INIT_MS, &apes, &mut anims);
    assert_eq!(anims.len(), 1);
    assert!(matches!(anims[0].anim, StagedAnimation::On { .. }), "the windup becomes the strike");
    assert!(anims[0].attack_range.is_some(), "the strike carries the live hit-zone");
    animate_apes_attacks(APE_ATTACK_ON_MS, &apes, &mut anims);
    assert!(anims.is_empty(), "the strike expires after its lifetime");
}

#[test]
fn orphaned_stage_animation_is_dropped() {
    let apes = vec![one_ape(5, Flank::Left)];
    let mut anims: Vec<ApeAttackAnim> = Vec::new();
    spawn_ape_attack_init(&mut anims, 99, &apes[0].attack_spec, 50);
    animate_apes_attacks(10, &apes, &mut anims);
    assert!(anims.is_empty(), "an animation whose enemy is gone disappears");
}

#[test]
fn windup_deals_no_damage() {
    // Hit-zone liveness: with only windup animations present the player
    // is never matched, wherever they stand.
    let ape = one_ape(5, Flank::Left);
    let mut anims: Vec<ApeAttackAnim> = Vec::new();
    spawn_ape_attack_init(&mut anims, 5, &ape.attack_spec, 50);
    let apes = vec![ape];
    for x in [-432_000i64, -200_000, 0, 200_000, 432_000] {
        let mut p = player();
        p.x = x;
        let mut health = LifeChunks(vec![1, 2, 3]);
        let mut ev: Vec<UnitChanged> = Vec::new();
        ape_attacks_player_collision(&apes, &anims, &mut p, &mut health, &mut ev);
        assert_eq!(ev.len(), 0);
        assert_eq!(health.0.len(), 3);
    }
}

fn live_strike(ape: &Ape) -> ApeAttackAnim {
    let mut anims = Vec::new();
    spawn_ape_attack_on(&mut anims, ape.id, &ape.attack_spec, 60);
    anims.pop().unwrap()
}

#[test]
fn strike_wounds_player_in_zone() {
    let ape = one_ape(5, Flank::Left);
    // The zone of a left-flank enemy at -432 px spans from the animation
    // anchor at -282 px: (-282+130, -282+130+124) = (-152, -28) px.
    let anims = vec![live_strike(&ape)];
    let apes = vec![ape];
    let mut p = player();
    p.x = -100_000;
    let mut health = LifeChunks(vec![1, 2, 3]);
    let mut ev: Vec<UnitChanged> = Vec::new();
    ape_attacks_player_collision(&apes, &anims, &mut p, &mut health, &mut ev);
    assert_eq!(health.0.len(), 2, "one chunk pops");
    assert_eq!(ev.len(), 1);
    assert_eq!(ev[0].new_state, Some(UnitState::Wound));
    assert!(p.movements.is_none(), "the hit cancels movement");
}

#[test]
fn strike_misses_player_outside_zone() {
    let ape = one_ape(5, Flank::Left);
    let anims = vec![live_strike(&ape)];
    let apes = vec![ape];
    let mut p = player();
    p.x = 0;
    let mut health = LifeChunks(vec![1, 2, 3]);
    let mut ev: Vec<UnitChanged> = Vec::new();
    ape_attacks_player_collision(&apes, &anims, &mut p, &mut health, &mut ev);
    assert_eq!(health.0.len(), 3);
    assert_eq!(ev.len(), 0);
}

#[test]
fn dash_grants_invulnerability() {
    let ape = one_ape(5, Flank::Left);
    let anims = vec![live_strike(&ape)];
    let apes = vec![ape];
    let mut p = player();
    p.x = -100_000;
    p.state = UnitState::Dash;
    let mut health = LifeChunks(vec![1, 2, 3]);
    let mut ev: Vec<UnitChanged> = Vec::new();
    ape_attacks_player_collision(&apes, &anims, &mut p, &mut health, &mut ev);
    assert_eq!(ev.len(), 0, "a dashing player takes no damage");
    assert_eq!(health.0.len(), 3);
    assert_eq!(p.state, UnitState::Dash);
}

#[test]
fn upgraded_player_is_hit_like_any_other() {
    // The condition axis is independent of the state machine: only
    // dashing or airborne evasion prevents the hit.
    let ape = one_ape(5, Flank::Left);
    let anims = vec![live_strike(&ape)];
    let apes = vec![ape];
    let mut p = player();
    p.x = -100_000;
    p.condition = UnitCondition::Upgraded;
    let mut health = LifeChunks(vec![1, 2, 3]);
    let mut ev: Vec<UnitChanged> = Vec::new();
    ape_attacks_player_collision(&apes, &anims, &mut p, &mut health, &mut ev);
    assert_eq!(health.0.len(), 2);
    assert_eq!(ev.len(), 1);
    assert_eq!(ev[0].new_state, Some(UnitState::Wound));
    assert_eq!(ev[0].new_condition, Some(UnitCondition::Upgraded));
}

#[test]
fn last_chunk_means_death() {
    let ape = one_ape(5, Flank::Left);
    let anims = vec![live_strike(&ape)];
    let apes = vec![ape];
    let mut p = player();
    p.x = -100_000;
    let mut health = LifeChunks(vec![1]);
    let mut ev: Vec<UnitChanged> = Vec::new();
    ape_attacks_player_collision(&apes, &anims, &mut p, &mut health, &mut ev);
    assert_eq!(health.0.len(), 0);
    assert_eq!(ev.len(), 1);
    assert_eq!(ev[0].new_state, Some(UnitState::Die), "the last chunk kills instead of wounding");
}

#[test]
fn overlapping_zones_pop_one_chunk() {
    let ape_l = one_ape(5, Flank::Left);
    let anims = vec![live_strike(&ape_l), live_strike(&ape_l)];
    let apes = vec![ape_l];
    let mut p = player();
    p.x = -100_000;
    let mut health = LifeChunks(vec![1, 2, 3]);
    let mut ev: Vec<UnitChanged> = Vec::new();
    ape_attacks_player_collision(&apes, &anims, &mut p, &mut health, &mut ev);
    assert_eq!(health.0.len(), 2, "two overlapping zones still cost one chunk");
    assert_eq!(ev.len(), 1);
}

#[test]
fn wounded_player_is_not_hit_again() {
    let ape = one_ape(5, Flank::Left);
    let anims = vec![live_strike(&ape)];
    let apes = vec![ape];
    let mut p = player();
    p.x = -100_000;
    p.state = UnitState::Wound;
    let mut health = LifeChunks(vec![1, 2]);
    let mut ev: Vec<UnitChanged> = Vec::new();
    ape_attacks_player_collision(&apes, &anims, &mut p, &mut health, &mut ev);
    assert_eq!(health.0.len(), 2, "an already-wounded player loses no chunk");
    assert_eq!(ev.len(), 0);
    assert!(p.movements.is_none());
}

#[test]
fn player_strike_damages_near_enemy() {
    let mut p = player();
    p.x = -400_000;
    let units = vec![p];
    let mut apes = vec![one_ape(5, Flank::Left), one_ape(6, Flank::Right)];
    let mut wounds = Vec::new();
    let mut next_id = 100;
    let ev = vec![UnitAttack(1)];
    unit_attacks_ape(&ev, &units, &mut apes, &mut wounds, &mut next_id);
    assert_eq!(apes[0].life.current, 1000 - NORMAL_DAMAGES, "the near enemy takes normal damage");
    assert_eq!(apes[1].life.current, 1000, "the far enemy is untouched");
    assert_eq!(wounds.len(), 1);
    assert_eq!(wounds[0].ape, 5);
    assert_eq!(wounds[0].life.current, 970);
    let width = wounds[0].healthbar_width.unwrap();
    assert_eq!(width, 970 * 200_000 / 1000, "the health bar is proportional");
}

#[test]
fn upgraded_strike_deals_tenfold() {
    let mut p = player();
    p.x = -400_000;
    p.condition = UnitCondition::Upgraded;
    let units = vec![p];
    let mut apes = vec![one_ape(5, Flank::Left)];
    let mut wounds = Vec::new();
    let mut next_id = 100;
    unit_attacks_ape(&vec![UnitAttack(1)], &units, &mut apes, &mut wounds, &mut next_id);
    assert_eq!(apes[0].life.current, 1000 - UPGRADED_DAMAGES);
}

#[test]
fn stale_striker_is_ignored() {
    let mut apes = vec![one_ape(5, Flank::Left)];
    let mut wounds = Vec::new();
    let mut next_id = 100;
    unit_attacks_ape(&vec![UnitAttack(42)], &Vec::new(), &mut apes, &mut wounds, &mut next_id);
    assert_eq!(apes[0].life.current, 1000);
    assert!(wounds.is_empty());
}

#[test]
fn stale_striker_does_not_block_later_signals() {
    // A stale reference is a per-signal no-op: the signals after it
    // still resolve.
    let mut p = player();
    p.x = -400_000;
    let units = vec![p];
    let mut apes = vec![one_ape(5, Flank::Left)];
    let mut wounds = Vec::new();
    let mut next_id = 100;
    let ev = vec![UnitAttack(42), UnitAttack(1)];
    unit_attacks_ape(&ev, &units, &mut apes, &mut wounds, &mut next_id);
    assert_eq!(apes[0].life.current, 1000 - NORMAL_DAMAGES);
    assert_eq!(wounds.len(), 1);
}

#[test]
fn wound_flash_books_death_once() {
    // An enemy beaten to zero life with two flashes in flight: when the
    // flashes run out, exactly one death is booked, however many flashes
    // finish on the same tick.
    let mut p = player();
    p.x = -400_000;
    p.condition = UnitCondition::Upgraded;
    let units = vec![p];
    let mut apes = vec![one_ape(5, Flank::Left)];
    let mut wounds = Vec::new();
    let mut next_id = 100;
    for _ in 0..4 {
        unit_attacks_ape(&vec![UnitAttack(1)], &units, &mut apes, &mut wounds, &mut next_id);
    }
    assert_eq!(apes[0].life.current, 0);
    assert_eq!(wounds.len(), 4);

    let mut score = Score(0);
    let mut counter = spawn_dead_apes_hud();
    // Each flash needs 4 frame advances of 80 ms and a final wrap: run
    // the pass until everything settles.
    for _ in 0..10 {
        animate_apes_wounds(80, &mut apes, &mut wounds, &mut score, &mut counter);
    }
    assert!(apes.is_empty(), "the dead enemy is removed");
    assert!(wounds.is_empty(), "its flashes die with it");
    assert_eq!(score.0, 1, "the kill is scored exactly once");
    assert_eq!(counter.0, 1);
}

#[test]
fn surviving_enemy_keeps_living_after_flash() {
    let mut p = player();
    p.x = -400_000;
    let units = vec![p];
    let mut apes = vec![one_ape(5, Flank::Left)];
    let mut wounds = Vec::new();
    let mut next_id = 100;
    unit_attacks_ape(&vec![UnitAttack(1)], &units, &mut apes, &mut wounds, &mut next_id);
    let mut score = Score(0);
    let mut counter = DeadApesCounter(0);
    for _ in 0..10 {
        animate_apes_wounds(80, &mut apes, &mut wounds, &mut score, &mut counter);
    }
    assert_eq!(apes.len(), 1, "a wounded enemy persists beyond the flash");
    assert!(wounds.is_empty());
    assert_eq!(score.0, 0);
    assert_eq!(counter.0, 0);
}

#[test]
fn dead_apes_hud_renders_count() {
    assert_eq!(display_dead_apes_hud(&DeadApesCounter(0)), "0");
    assert_eq!(display_dead_apes_hud(&DeadApesCounter(42)), "42");
    assert_eq!(init_ape_icon(9).0, 9);
}

#[test]
fn eth_spawn_delay_and_weights() {
    let mut picked = init_eth(1).1;
    assert_eq!(make_eth(2_999, 0, &mut picked, 0), None);
    assert_eq!(make_eth(1, 0, &mut picked, 0), Some((5, 5)));
    assert_eq!(make_eth(2, 0, &mut picked, -200_000), Some((50, 10)));
    assert_eq!(make_eth(2, 0, &mut picked, 300_000), Some((10, 30)));
    assert_eq!(make_eth(2, 1, &mut picked, 0), None, "an existing pickup blocks the next spawn");
}

#[test]
fn eth_collection_fills_and_upgrades() {
    let mut p = player();
    p.x = 100_000;
    p.y = -150_000;
    let mut picked = EthPicked(5_000);
    let mut eths = Vec::new();
    let mut next_id = 50;
    spawn_eth(&mut eths, &mut next_id, 110_000);
    spawn_eth(&mut eths, &mut next_id, 300_000);
    let mut ev: Vec<UnitChanged> = Vec::new();
    player_collects_eth(&mut picked, &mut p, &mut eths, &mut ev);
    assert_eq!(p.eth.current, 10_000, "the near pickup is absorbed");
    assert_eq!(eths.len(), 1, "the far pickup stays");
    assert_eq!(picked.0, 0, "collection resets the clock");
    assert!(ev.is_empty(), "holdings below the cap post nothing");

    p.eth = EthOwned { current: 25_000, max: 30_000 };
    eths.clear();
    spawn_eth(&mut eths, &mut next_id, 100_000);
    player_collects_eth(&mut picked, &mut p, &mut eths, &mut ev);
    assert_eq!(p.eth.current, 30_000, "holdings saturate at the cap");
    assert_eq!(ev.len(), 1);
    assert_eq!(ev[0].new_condition, Some(UnitCondition::Upgraded));
}

#[test]
fn airborne_player_collects_nothing() {
    let mut p = player();
    p.x = 100_000;
    p.y = 0;
    let mut picked = EthPicked(5_000);
    let mut eths = Vec::new();
    let mut next_id = 50;
    spawn_eth(&mut eths, &mut next_id, 100_000);
    let mut ev: Vec<UnitChanged> = Vec::new();
    player_collects_eth(&mut picked, &mut p, &mut eths, &mut ev);
    assert_eq!(eths.len(), 1, "a pickup is only reachable near the ground");
    assert_eq!(picked.0, 5_000);
}

#[test]
fn upgrade_decays_and_expires() {
    let mut p = player();
    p.condition = UnitCondition::Upgraded;
    p.eth = EthOwned { current: 100, max: 30_000 };
    let mut ev: Vec<UnitChanged> = Vec::new();
    decay_player_eth(40, &mut p, &mut ev);
    assert_eq!(p.eth.current, 20, "holdings drain at two thousandths per millisecond");
    assert!(ev.is_empty());
    decay_player_eth(40, &mut p, &mut ev);
    assert_eq!(p.eth.current, 0);
    assert_eq!(ev.len(), 1);
    assert_eq!(ev[0].new_condition, Some(UnitCondition::Normal));
}

#[test]
fn normal_player_does_not_decay() {
    let mut p = player();
    p.eth = EthOwned { current: 100, max: 30_000 };
    let mut ev: Vec<UnitChanged> = Vec::new();
    decay_player_eth(1_000, &mut p, &mut ev);
    assert_eq!(p.eth.current, 100);
    assert!(ev.is_empty());
}

#[test]
fn eth_gauge_is_proportional() {
    assert_eq!(player_eth_gauge(&EthOwned { current: 0, max: 30_000 }), 0);
    assert_eq!(player_eth_gauge(&EthOwned { current: 30_000, max: 30_000 }), 247_000);
    assert_eq!(player_eth_gauge(&EthOwned { current: 15_000, max: 30_000 }), 123_500);
}

#[test]
fn eth_sprite_cycles() {
    let mut eths = Vec::new();
    let mut next_id = 1;
    spawn_eth(&mut eths, &mut next_id, 0);
    animate_eth(120, &mut eths);
    assert_eq!(eths[0].sprite_index, 1);
    for _ in 0..10 {
        animate_eth(120, &mut eths);
    }
    assert_eq!(eths[0].sprite_index, 0, "the sprite wraps over the sheet");
}

#[test]
fn wound_flash_advances_and_wraps_sprite() {
    let mut p = player();
    p.x = -400_000;
    let units = vec![p];
    let mut apes = vec![one_ape(5, Flank::Left)];
    let mut wounds = Vec::new();
    let mut next_id = 100;
    unit_attacks_ape(&vec![UnitAttack(1)], &units, &mut apes, &mut wounds, &mut next_id);
    let mut score = Score(0);
    let mut counter = DeadApesCounter(0);
    animate_apes_wounds(80, &mut apes, &mut wounds, &mut score, &mut counter);
    assert_eq!(wounds[0].sprite_index, 1);
    assert_eq!(wounds[0].anim.count, Some(3));
}
