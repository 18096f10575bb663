//! Timers, staged animations and other shared game components.

use vstd::prelude::*;
use vstd::string::StringExecFns;

use crate::ape::{Ape, ApeAssets, ApeAttackAnim, ApeWoundAnim, DeadApesCounter};
use crate::eth::EthCoin;
use crate::inputs::{GamepadState, InputKind, KeyboardState};
use crate::player::{
    spawn_life_hud, spawn_player, AnimSet, LifeChunks, Unit, UnitAttack, UnitChanged,
};

verus! {

/// Which top-level screen the application is on.
#[derive(Clone, Copy, Debug, PartialEq, Eq, Structural)]
pub enum AppState {
    Loading,
    InGame,
    GameOver,
}

/// A countdown that is advanced once per tick by an explicit delta in
/// milliseconds.  A one-shot timer saturates at its duration; a repeating
/// timer wraps around.  `just_finished` is true exactly on the tick whose
/// delta reached (or, repeating, crossed) the duration.
#[derive(Clone, Copy, Debug, PartialEq, Eq, Structural)]
pub struct Timer {
    pub duration_ms: u32,
    pub elapsed_ms: u32,
    pub repeating: bool,
    pub just_finished: bool,
}

impl Timer {
    /// Well-formedness: a positive duration, and the elapsed time inside it.
    pub open spec fn wf(self) -> bool {
        &&& self.duration_ms >= 1
        &&& self.elapsed_ms <= self.duration_ms
        &&& self.repeating ==> self.elapsed_ms < self.duration_ms
    }

    /// The timer as it stands after one tick of `dt` milliseconds.
    pub open spec fn spec_tick(self, dt: u32) -> Timer {
        let total = self.elapsed_ms + dt;
        if self.repeating {
            if total >= self.duration_ms {
                Timer {
                    elapsed_ms: (total % (self.duration_ms as int)) as u32,
                    just_finished: true,
                    ..self
                }
            } else {
                Timer { elapsed_ms: total as u32, just_finished: false, ..self }
            }
        } else {
            if total >= self.duration_ms {
                Timer {
                    elapsed_ms: self.duration_ms,
                    just_finished: self.elapsed_ms < self.duration_ms,
                    ..self
                }
            } else {
                Timer { elapsed_ms: total as u32, just_finished: false, ..self }
            }
        }
    }

    /// Whether the countdown has run out.  A one-shot timer stays finished;
    /// a repeating timer reports the tick on which it wrapped.
    pub open spec fn spec_finished(self) -> bool {
        if self.repeating {
            self.just_finished
        } else {
            self.elapsed_ms >= self.duration_ms
        }
    }

    pub fn from_millis(duration_ms: u32, repeating: bool) -> (t: Timer)
        requires
            duration_ms >= 1,
        ensures
            t == (Timer { duration_ms, elapsed_ms: 0, repeating, just_finished: false }),
    {
        Timer { duration_ms, elapsed_ms: 0, repeating, just_finished: false }
    }

    pub fn tick(&mut self, dt: u32)
        requires
            old(self).wf(),
        ensures
            *final(self) == old(self).spec_tick(dt),
            final(self).wf(),
    {
        let total: u64 = self.elapsed_ms as u64 + dt as u64;
        if self.repeating {
            if total >= self.duration_ms as u64 {
                self.elapsed_ms = (total % self.duration_ms as u64) as u32;
                self.just_finished = true;
            } else {
                self.elapsed_ms = total as u32;
                self.just_finished = false;
            }
        } else {
            if total >= self.duration_ms as u64 {
                self.just_finished = self.elapsed_ms < self.duration_ms;
                self.elapsed_ms = self.duration_ms;
            } else {
                self.elapsed_ms = total as u32;
                self.just_finished = false;
            }
        }
    }

    pub fn finished(&self) -> (r: bool)
        ensures
            r == self.spec_finished(),
    {
        if self.repeating {
            self.just_finished
        } else {
            self.elapsed_ms >= self.duration_ms
        }
    }

    pub fn just_finished(&self) -> (r: bool)
        ensures
            r == self.just_finished,
    {
        self.just_finished
    }
}

/// One-shot timer bounding the lifetime of one stage of a staged animation.
#[derive(Clone, Copy, Debug, PartialEq, Eq, Structural)]
pub struct DurationTimer(pub Timer);

impl DurationTimer {
    pub fn from_millis(duration_ms: u32) -> (t: DurationTimer)
        requires
            duration_ms >= 1,
        ensures
            t.0 == (Timer {
                duration_ms,
                elapsed_ms: 0,
                repeating: false,
                just_finished: false,
            }),
    {
        DurationTimer(Timer::from_millis(duration_ms, false))
    }

    pub fn finished(&self) -> (r: bool)
        ensures
            r == self.0.spec_finished(),
    {
        self.0.finished()
    }

    pub fn tick(&mut self, dt: u32)
        requires
            old(self).0.wf(),
        ensures
            final(self).0 == old(self).0.spec_tick(dt),
            final(self).0.wf(),
    {
        self.0.tick(dt);
    }
}

/// Repeating timer that fires the synchronized enemy attacks.
#[derive(Clone, Copy, Debug, PartialEq, Eq, Structural)]
pub struct TriggerTimer(pub Timer);

/// Period of the enemy attack trigger, in milliseconds.
pub const ATTACK_TRIGGER_PERIOD_MS: u32 = 3_000;

impl Default for TriggerTimer {
    /// A repeating three-second timer, starting from zero.
    fn default() -> (t: TriggerTimer)
        ensures
            t.0 == (Timer {
                duration_ms: ATTACK_TRIGGER_PERIOD_MS,
                elapsed_ms: 0,
                repeating: true,
                just_finished: false,
            }),
    {
        TriggerTimer(Timer::from_millis(ATTACK_TRIGGER_PERIOD_MS, true))
    }
}

/// Sprite-frame cycling attached to a transient visual entity: a repeating
/// frame timer, and for one-shot effects the number of advances left.
#[derive(Clone, Copy, Debug, PartialEq, Eq, Structural)]
pub struct Animation {
    pub timer: Timer,
    pub count: Option<usize>,
}

/// The two stages of a telegraphed enemy attack: a harmless windup, then
/// the active strike.  Each stage owns its lifetime countdown and its own
/// sprite-frame timer.
#[derive(Clone, Copy, Debug, PartialEq, Eq, Structural)]
pub enum StagedAnimation {
    Init { duration: DurationTimer, timer: Timer },
    On { duration: DurationTimer, timer: Timer },
}

impl StagedAnimation {
    pub fn init(duration: DurationTimer, timer: Timer) -> (s: StagedAnimation)
        ensures
            s == (StagedAnimation::Init { duration, timer }),
    {
        StagedAnimation::Init { duration, timer }
    }

    pub fn on(duration: DurationTimer, timer: Timer) -> (s: StagedAnimation)
        ensures
            s == (StagedAnimation::On { duration, timer }),
    {
        StagedAnimation::On { duration, timer }
    }
}

/// How many enemies the player has put down this round.
#[derive(Clone, Copy, Debug, PartialEq, Eq, Structural, Default)]
pub struct Score(pub usize);

/// Opaque handle to the loaded HUD font.
#[derive(Clone, Copy, Debug, PartialEq, Eq, Structural)]
pub struct FontHandle(pub u64);

/// Registers the font asset under an opaque handle chosen by the caller.
pub fn spawn_font(handle: u64) -> (f: FontHandle)
    ensures
        f == FontHandle(handle),
{
    FontHandle(handle)
}

/// The empty sequence for `None`, the singleton for `Some`: the messages a
/// pass appends for one optional decision.
pub open spec fn opt_to_seq<A>(o: Option<A>) -> Seq<A> {
    match o {
        Option::None => Seq::empty(),
        Option::Some(a) => seq![a],
    }
}


/// The decimal digit character for `d`.
pub open spec fn spec_digit_char(d: nat) -> char {
    if d == 0 {
        '0'
    } else if d == 1 {
        '1'
    } else if d == 2 {
        '2'
    } else if d == 3 {
        '3'
    } else if d == 4 {
        '4'
    } else if d == 5 {
        '5'
    } else if d == 6 {
        '6'
    } else if d == 7 {
        '7'
    } else if d == 8 {
        '8'
    } else {
        '9'
    }
}

/// The decimal digits of `n`, most significant first, no leading zeros.
pub open spec fn spec_digits(n: nat) -> Seq<char>
    decreases n,
{
    if n < 10 {
        seq![spec_digit_char(n)]
    } else {
        spec_digits(n / 10) + seq![spec_digit_char(n % 10)]
    }
}

/// The one-character string for the digit `d`.
fn digit_str(d: u64) -> (r: &'static str)
    requires
        d < 10,
    ensures
        r@ == seq![spec_digit_char(d as nat)],
{
    proof {
        reveal_strlit("0");
        reveal_strlit("1");
        reveal_strlit("2");
        reveal_strlit("3");
        reveal_strlit("4");
        reveal_strlit("5");
        reveal_strlit("6");
        reveal_strlit("7");
        reveal_strlit("8");
        reveal_strlit("9");
    }
    let r = match d {
        0 => "0",
        1 => "1",
        2 => "2",
        3 => "3",
        4 => "4",
        5 => "5",
        6 => "6",
        7 => "7",
        8 => "8",
        _ => "9",
    };
    proof {
        assert(r@ =~= seq![spec_digit_char(d as nat)]);
    }
    r
}

/// Renders `n` in decimal.
pub fn decimal_string(n: u64) -> (s: String)
    ensures
        s@ == spec_digits(n as nat),
{
    let mut s = String::from_str(digit_str(n % 10));
    let mut m = n / 10;
    proof {
        if m > 0 {
            assert(spec_digits(n as nat) == spec_digits(m as nat) + seq![
                spec_digit_char((n % 10) as nat),
            ]);
        }
    }
    while m > 0
        invariant
            spec_digits(n as nat) == (if m > 0 {
                spec_digits(m as nat) + s@
            } else {
                s@
            }),
        decreases m,
    {
        let ghost m0 = m as nat;
        let ghost s0 = s@;
        let d = digit_str(m % 10);
        let mut t = String::from_str(d);
        t.append(s.as_str());
        s = t;
        m = m / 10;
        proof {
            if m > 0 {
                assert(spec_digits(m0) == spec_digits(m as nat) + seq![
                    spec_digit_char((m0 % 10) as nat),
                ]);
                assert(spec_digits(m as nat) + s@ =~= (spec_digits(m as nat) + seq![
                    spec_digit_char((m0 % 10) as nat),
                ]) + s0);
            } else {
                assert(spec_digits(m0) =~= seq![spec_digit_char((m0 % 10) as nat)]);
            }
        }
    }
    s
}

/// Whether the player asked to restart from the game-over screen: the
/// attack control released on the active device, with a pad required to be
/// connected when it is the active device.
pub open spec fn spec_restart_requested(
    kind: InputKind,
    keys: KeyboardState,
    pad: Option<GamepadState>,
) -> bool {
    match kind {
        InputKind::Keyboard => keys.attack.just_released,
        InputKind::Gamepad => pad is Some && pad->0.west.just_released,
    }
}

/// The game-over screen pass: renders the final score line and decides
/// whether the player asked for a new round.
pub fn gameover_screen(
    input_kind: &InputKind,
    keys: &KeyboardState,
    pad: &Option<GamepadState>,
    score: &Score,
) -> (r: (String, bool))
    ensures
        r.0@ == "You   managed   to   kill   [ "@ + spec_digits(score.0 as nat) + " ]"@,
        r.1 == spec_restart_requested(*input_kind, *keys, *pad),
{
    let mut text = String::from_str("You   managed   to   kill   [ ");
    let count = decimal_string(score.0 as u64);
    text.append(count.as_str());
    text.append(" ]");
    let restart = match input_kind {
        InputKind::Keyboard => keys.attack.just_released,
        InputKind::Gamepad => {
            match pad {
                Some(p) => p.west.just_released,
                None => false,
            }
        },
    };
    (text, restart)
}

/// The whole simulation state of one round: the actor store, the event
/// queues, the transient combat entities and the round's tallies.
#[derive(Debug)]
pub struct GameState {
    pub units: Vec<Unit>,
    pub life_chunks: LifeChunks,
    pub apes: Vec<Ape>,
    pub attack_anims: Vec<ApeAttackAnim>,
    pub wound_anims: Vec<ApeWoundAnim>,
    pub eths: Vec<EthCoin>,
    pub unit_changed: Vec<UnitChanged>,
    pub unit_attacks: Vec<UnitAttack>,
    pub dead_counter: DeadApesCounter,
}

impl GameState {
    /// Well-formedness of the whole store.
    pub open spec fn wf(self) -> bool {
        &&& forall|i: int| 0 <= i < self.units@.len() ==> (#[trigger] self.units@[i]).wf()
        &&& crate::player::spec_unique_unit_ids(self.units@)
        &&& forall|i: int| 0 <= i < self.apes@.len() ==> (#[trigger] self.apes@[i]).wf()
        &&& forall|i: int|
            0 <= i < self.attack_anims@.len() ==> (#[trigger] self.attack_anims@[i]).wf()
        &&& forall|i: int|
            0 <= i < self.wound_anims@.len() ==> (#[trigger] self.wound_anims@[i]).wf()
    }
}

/// Builds a fresh round: the player standing mid-arena with a full life
/// display, one enemy per flank, no transient entities, and the tally at
/// zero.
pub fn spawn_game_state(
    next_id: &mut u64,
    player_anims: &AnimSet,
    ape_assets: &Vec<ApeAssets>,
) -> (gs: GameState)
    requires
        player_anims.wf(),
        ape_assets@.len() >= 1,
        *old(next_id) + 8 <= u64::MAX,
    ensures
        gs.units@.len() == 1,
        gs.units@[0] == crate::player::spec_new_player(*old(next_id), *player_anims),
        gs.life_chunks.0@.len() == crate::player::LIFE_CHUNK_COUNT,
        forall|i: int|
            0 <= i < gs.life_chunks.0@.len() ==> gs.life_chunks.0@[i] == *old(next_id) + 1 + i,
        gs.apes@.len() == 2,
        exists|k: int|
            0 <= k < ape_assets@.len() && gs.apes@[0] == crate::ape::spec_new_ape(
                (*old(next_id) + 6) as u64,
                crate::ape::Flank::Left,
                ape_assets@[k],
            ),
        exists|k: int|
            0 <= k < ape_assets@.len() && gs.apes@[1] == crate::ape::spec_new_ape(
                (*old(next_id) + 7) as u64,
                crate::ape::Flank::Right,
                ape_assets@[k],
            ),
        gs.attack_anims@.len() == 0,
        gs.wound_anims@.len() == 0,
        gs.eths@.len() == 0,
        gs.unit_changed@.len() == 0,
        gs.unit_attacks@.len() == 0,
        gs.dead_counter == DeadApesCounter(0),
        gs.wf(),
        *final(next_id) == *old(next_id) + 8,
{
    let player = spawn_player(*next_id, *player_anims);
    *next_id = *next_id + 1;
    let life_chunks = spawn_life_hud(next_id);
    let mut units: Vec<Unit> = Vec::new();
    units.push(player);
    let mut apes: Vec<Ape> = Vec::new();
    crate::ape::spawn_ape(&mut apes, next_id, ape_assets, crate::ape::Flank::Left);
    crate::ape::spawn_ape(&mut apes, next_id, ape_assets, crate::ape::Flank::Right);
    GameState {
        units,
        life_chunks,
        apes,
        attack_anims: Vec::new(),
        wound_anims: Vec::new(),
        eths: Vec::new(),
        unit_changed: Vec::new(),
        unit_attacks: Vec::new(),
        dead_counter: spawn_dead_apes_hud_counter(),
    }
}

/// The tally of a fresh round.
fn spawn_dead_apes_hud_counter() -> (c: DeadApesCounter)
    ensures
        c == DeadApesCounter(0),
{
    crate::ape::spawn_dead_apes_hud()
}

/// Starts a new round after game over: the score resets and the round is
/// rebuilt from scratch.
pub fn respawn_game_state(
    score: &mut Score,
    next_id: &mut u64,
    player_anims: &AnimSet,
    ape_assets: &Vec<ApeAssets>,
) -> (gs: GameState)
    requires
        player_anims.wf(),
        ape_assets@.len() >= 1,
        *old(next_id) + 8 <= u64::MAX,
    ensures
        final(score).0 == 0,
        gs.units@.len() == 1,
        gs.units@[0] == crate::player::spec_new_player(*old(next_id), *player_anims),
        gs.life_chunks.0@.len() == crate::player::LIFE_CHUNK_COUNT,
        forall|i: int|
            0 <= i < gs.life_chunks.0@.len() ==> gs.life_chunks.0@[i] == *old(next_id) + 1 + i,
        gs.apes@.len() == 2,
        gs.attack_anims@.len() == 0,
        gs.wound_anims@.len() == 0,
        gs.eths@.len() == 0,
        gs.dead_counter == DeadApesCounter(0),
        gs.wf(),
        *final(next_id) == *old(next_id) + 8,
{
    score.0 = 0;
    spawn_game_state(next_id, player_anims, ape_assets)
}

} // verus!
