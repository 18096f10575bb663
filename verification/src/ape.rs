//! The enemy bosses: spawning, patrol, the staged two-phase attack, the
//! hit-zone collision against the player, and death bookkeeping.

use vstd::prelude::*;

use rand::Rng;

use crate::common::{Animation, DurationTimer, Score, StagedAnimation, Timer, TriggerTimer};
use crate::inputs::Moving;
use crate::player::{LifeChunks, Unit, UnitChanged, UnitCondition, UnitState};
use crate::{APE_VELOCITY, GLOBAL_WIDTH, MAX_TICK_MS, PROJECTION_SCALE};

verus! {

/// Opaque handle to the enemy icon image.
#[derive(Clone, Copy, Debug, PartialEq, Eq, Structural)]
pub struct ApeIconHandle(pub u64);

/// Registers the enemy icon under an opaque handle chosen by the caller.
pub fn init_ape_icon(handle: u64) -> (h: ApeIconHandle)
    ensures
        h == ApeIconHandle(handle),
{
    ApeIconHandle(handle)
}

/// Opaque handle to an enemy's wound-flash sprite sheet.
#[derive(Clone, Copy, Debug, PartialEq, Eq, Structural)]
pub struct ApeWoundHandle(pub u64);

/// Half-width of the melee reach around an enemy, in millipixels.
#[derive(Clone, Copy, Debug, PartialEq, Eq, Structural)]
pub struct ApeWoundWidth(pub i64);

/// An enemy's hit-zone shape, relative to its attack animation and facing:
/// the zone spans from `offset_x` to `offset_x + range_x` on the side the
/// enemy faces.  In millipixels.
#[derive(Clone, Copy, Debug, PartialEq, Eq, Structural)]
pub struct ApeAttackRange {
    pub offset_x: i64,
    pub range_x: i64,
}

impl ApeAttackRange {
    pub fn new(offset_x: i64, range_x: i64) -> (r: ApeAttackRange)
        ensures
            r == (ApeAttackRange { offset_x, range_x }),
    {
        ApeAttackRange { offset_x, range_x }
    }

    /// The zone scaled by `permille` thousandths, truncating division.
    pub fn scaled_by(self, permille: i64) -> (r: ApeAttackRange)
        requires
            0 <= permille <= 1000,
            0 <= self.offset_x <= 1_000_000_000,
            0 <= self.range_x <= 1_000_000_000,
        ensures
            r == (ApeAttackRange {
                offset_x: (self.offset_x * permille / 1000) as i64,
                range_x: (self.range_x * permille / 1000) as i64,
            }),
    {
        proof {
            assert(0 <= self.offset_x * permille <= 1_000_000_000_000) by (nonlinear_arith)
                requires
                    0 <= permille <= 1000,
                    0 <= self.offset_x <= 1_000_000_000,
            ;
            assert(0 <= self.range_x * permille <= 1_000_000_000_000) by (nonlinear_arith)
                requires
                    0 <= permille <= 1000,
                    0 <= self.range_x <= 1_000_000_000,
            ;
        }
        ApeAttackRange {
            offset_x: self.offset_x * permille / 1000,
            range_x: self.range_x * permille / 1000,
        }
    }

    /// The zone pulled `offset` millipixels closer to its anchor.
    pub fn with_offset(self, offset: i64) -> (r: ApeAttackRange)
        requires
            i64::MIN <= self.offset_x - offset <= i64::MAX,
        ensures
            r == (ApeAttackRange { offset_x: (self.offset_x - offset) as i64, ..self }),
    {
        ApeAttackRange { offset_x: self.offset_x - offset, ..self }
    }
}

/// An enemy's life, clamped to `[0, max]`.
#[derive(Clone, Copy, Debug, PartialEq, Eq, Structural)]
pub struct ApeLife {
    pub current: u64,
    pub max: u64,
}

impl ApeLife {
    /// Well-formedness: a positive cap that the current value never
    /// exceeds, small enough for exact HUD arithmetic.
    pub open spec fn wf(self) -> bool {
        &&& self.max >= 1
        &&& self.max <= 1_000_000_000_000
        &&& self.current <= self.max
    }

    /// The life after losing `amount`, saturating at zero.
    pub open spec fn spec_decrease_by(self, amount: u64) -> ApeLife {
        if self.current >= amount {
            ApeLife { current: (self.current - amount) as u64, ..self }
        } else {
            ApeLife { current: 0, ..self }
        }
    }

    pub fn new(amount: u64) -> (l: ApeLife)
        requires
            1 <= amount <= 1_000_000_000_000,
        ensures
            l == (ApeLife { current: amount, max: amount }),
            l.wf(),
    {
        ApeLife { current: amount, max: amount }
    }

    pub fn decrease_by(&mut self, amount: u64)
        requires
            old(self).wf(),
        ensures
            *final(self) == old(self).spec_decrease_by(amount),
            final(self).wf(),
    {
        if self.current >= amount {
            self.current = self.current - amount;
        } else {
            self.current = 0;
        }
    }
}

/// Which side of the arena an enemy patrols and faces from.
#[derive(Clone, Copy, Debug, PartialEq, Eq, Structural, Hash)]
pub enum Flank {
    Left,
    Right,
}

/// Patrol margin at the arena edge, in millipixels.
pub const APE_EDGE_MARGIN: i64 = 168_000;

/// Patrol margin toward the arena center, in millipixels.
pub const APE_CENTER_MARGIN: i64 = 116_000;

impl Flank {
    /// The left end of this flank's patrol strip, in millipixels.
    pub open spec fn spec_min(self) -> int {
        match self {
            Flank::Left => -(GLOBAL_WIDTH / 2 - APE_EDGE_MARGIN) as int,
            Flank::Right => APE_CENTER_MARGIN as int,
        }
    }

    /// The right end of this flank's patrol strip, in millipixels.
    pub open spec fn spec_max(self) -> int {
        match self {
            Flank::Left => -APE_CENTER_MARGIN as int,
            Flank::Right => (GLOBAL_WIDTH / 2 - APE_EDGE_MARGIN) as int,
        }
    }

    /// Where an enemy of this flank spawns: the end away from the center.
    pub open spec fn spec_start_pos(self) -> int {
        match self {
            Flank::Left => self.spec_min(),
            Flank::Right => self.spec_max(),
        }
    }

    /// The direction an enemy of this flank first patrols in.
    pub open spec fn spec_initial_move(self) -> Moving {
        match self {
            Flank::Left => Moving::Left,
            Flank::Right => Moving::Right,
        }
    }

    /// Whether sprites of this flank are mirrored horizontally.
    pub open spec fn spec_flip_x(self) -> bool {
        match self {
            Flank::Left => false,
            Flank::Right => true,
        }
    }

    pub fn min(&self) -> (r: i64)
        ensures
            r == self.spec_min(),
    {
        match self {
            Flank::Left => -(GLOBAL_WIDTH / 2 - APE_EDGE_MARGIN),
            Flank::Right => APE_CENTER_MARGIN,
        }
    }

    pub fn max(&self) -> (r: i64)
        ensures
            r == self.spec_max(),
    {
        match self {
            Flank::Left => -APE_CENTER_MARGIN,
            Flank::Right => GLOBAL_WIDTH / 2 - APE_EDGE_MARGIN,
        }
    }

    pub fn start_pos(&self) -> (r: i64)
        ensures
            r == self.spec_start_pos(),
    {
        match self {
            Flank::Left => self.min(),
            Flank::Right => self.max(),
        }
    }

    pub fn initial_move(&self) -> (m: Moving)
        ensures
            m == self.spec_initial_move(),
    {
        match self {
            Flank::Left => Moving::Left,
            Flank::Right => Moving::Right,
        }
    }

    pub fn flip_x(&self) -> (r: bool)
        ensures
            r == self.spec_flip_x(),
    {
        match self {
            Flank::Left => false,
            Flank::Right => true,
        }
    }
}

/// The resources and stage durations of an enemy's staged attack.
#[derive(Clone, Copy, Debug, PartialEq, Eq, Structural)]
pub struct ApeAttackSpec {
    pub attack_range: ApeAttackRange,
    pub init_h: u64,
    pub init_duration: DurationTimer,
    pub init_timer: Timer,
    pub on_h: u64,
    pub on_duration: DurationTimer,
    pub on_timer: Timer,
    pub flank: Flank,
}

impl ApeAttackSpec {
    pub open spec fn wf(self) -> bool {
        &&& -1_000_000_000 <= self.attack_range.offset_x <= 1_000_000_000
        &&& 0 <= self.attack_range.range_x <= 1_000_000_000
        &&& self.init_duration.0.wf()
        &&& !self.init_duration.0.repeating
        &&& self.init_timer.wf()
        &&& self.init_timer.repeating
        &&& self.on_duration.0.wf()
        &&& !self.on_duration.0.repeating
        &&& self.on_timer.wf()
        &&& self.on_timer.repeating
    }
}

/// One enemy boss, patrolling a flank of the arena.
#[derive(Clone, Copy, Debug)]
pub struct Ape {
    pub id: u64,
    pub x: i64,
    pub texture: u64,
    pub life: ApeLife,
    pub wound_h: ApeWoundHandle,
    pub wound_width: ApeWoundWidth,
    pub flank: Flank,
    pub moving: Moving,
    pub attack_spec: ApeAttackSpec,
}

/// Patrol positions never leave this bound, in millipixels.
pub const APE_X_LIMIT: i64 = 2_000_000;

impl Ape {
    /// Well-formedness: the position near the arena, a horizontal patrol
    /// direction, a clamped life, consistent timers.
    pub open spec fn wf(self) -> bool {
        &&& -APE_X_LIMIT <= self.x <= APE_X_LIMIT
        &&& 0 <= self.wound_width.0 <= 1_000_000_000
        &&& (self.moving == Moving::Left || self.moving == Moving::Right)
        &&& self.life.wf()
        &&& self.attack_spec.wf()
    }
}

/// The opaque sprite handles one enemy look is drawn with.
#[derive(Clone, Copy, Debug, PartialEq, Eq, Structural)]
pub struct ApeAssets {
    pub texture: u64,
    pub wound_h: u64,
    pub init_h: u64,
    pub on_h: u64,
}

/// A fresh enemy's life total.
pub const APE_LIFE: u64 = 1_000;

/// A fresh enemy's melee half-width, in millipixels.
pub const APE_WOUND_WIDTH: i64 = 136_000;

/// Milliseconds the windup stage of an enemy attack lasts.
pub const APE_ATTACK_INIT_MS: u32 = 600;

/// Milliseconds the active stage of an enemy attack lasts.
pub const APE_ATTACK_ON_MS: u32 = 1_000;

/// Frame period of the staged attack sprites, in milliseconds.
pub const APE_ATTACK_FRAME_MS: u32 = 100;

/// Frame count of the windup sprite sheet.
pub const APE_ATTACK_INIT_FRAMES: usize = 2;

/// Frame count of the active-stage sprite sheet.
pub const APE_ATTACK_ON_FRAMES: usize = 3;

/// Frame count of the wound-flash sprite sheet.
pub const APE_WOUND_FRAMES: usize = 3;

/// The enemy spawned on `flank` with the look `assets`, under the
/// identifier `id`: full life, at the flank's far end, patrolling outward,
/// with the standard hit-zone scaled to the enemy's sprite scale.
pub open spec fn spec_new_ape(id: u64, flank: Flank, assets: ApeAssets) -> Ape {
    Ape {
        id,
        x: flank.spec_start_pos() as i64,
        texture: assets.texture,
        life: ApeLife { current: APE_LIFE, max: APE_LIFE },
        wound_h: ApeWoundHandle(assets.wound_h),
        wound_width: ApeWoundWidth(APE_WOUND_WIDTH),
        flank,
        moving: flank.spec_initial_move(),
        attack_spec: ApeAttackSpec {
            attack_range: ApeAttackRange { offset_x: 130_000, range_x: 124_000 },
            init_h: assets.init_h,
            init_duration: DurationTimer(Timer {
                duration_ms: APE_ATTACK_INIT_MS,
                elapsed_ms: 0,
                repeating: false,
                just_finished: false,
            }),
            init_timer: Timer {
                duration_ms: APE_ATTACK_FRAME_MS,
                elapsed_ms: 0,
                repeating: true,
                just_finished: false,
            },
            on_h: assets.on_h,
            on_duration: DurationTimer(Timer {
                duration_ms: APE_ATTACK_ON_MS,
                elapsed_ms: 0,
                repeating: false,
                just_finished: false,
            }),
            on_timer: Timer {
                duration_ms: APE_ATTACK_FRAME_MS,
                elapsed_ms: 0,
                repeating: true,
                just_finished: false,
            },
            flank,
        },
    }
}

/// Relies on `rand::Rng::gen_range` over `0..n`: the result is uniformly
/// drawn from the range, so it is below `n`; an empty range would panic,
/// which the precondition rules out.
#[verifier::external_body]
fn pick_index(n: usize) -> (r: usize)
    requires
        n >= 1,
    ensures
        r < n,
{
    rand::thread_rng().gen_range(0..n)
}

/// Spawns one enemy on `flank`, with a look drawn at random from `assets`,
/// under a fresh identifier.
pub fn spawn_ape(apes: &mut Vec<Ape>, next_id: &mut u64, assets: &Vec<ApeAssets>, flank: Flank)
    requires
        assets@.len() >= 1,
        *old(next_id) < u64::MAX,
    ensures
        exists|k: int|
            0 <= k < assets@.len() && final(apes)@ == old(apes)@.push(
                spec_new_ape(*old(next_id), flank, assets@[k]),
            ),
        *final(next_id) == *old(next_id) + 1,
{
    let k = pick_index(assets.len());
    let a = assets[k];
    let id = *next_id;
    *next_id = *next_id + 1;
    let attack_range = ApeAttackRange::new(350_000, 155_000).scaled_by(800).with_offset(
        PROJECTION_SCALE / 2,
    );
    let ape = Ape {
        id,
        x: flank.start_pos(),
        texture: a.texture,
        life: ApeLife::new(APE_LIFE),
        wound_h: ApeWoundHandle(a.wound_h),
        wound_width: ApeWoundWidth(APE_WOUND_WIDTH),
        flank,
        moving: flank.initial_move(),
        attack_spec: ApeAttackSpec {
            attack_range,
            init_h: a.init_h,
            init_duration: DurationTimer::from_millis(APE_ATTACK_INIT_MS),
            init_timer: Timer::from_millis(APE_ATTACK_FRAME_MS, true),
            on_h: a.on_h,
            on_duration: DurationTimer::from_millis(APE_ATTACK_ON_MS),
            on_timer: Timer::from_millis(APE_ATTACK_FRAME_MS, true),
            flank,
        },
    };
    proof {
        assert(ape == spec_new_ape(id, flank, assets@[k as int]));
    }
    apes.push(ape);
}

/// Whether some enemy patrols `flank`.
pub open spec fn spec_has_flank(apes: Seq<Ape>, flank: Flank) -> bool {
    exists|i: int| 0 <= i < apes.len() && apes[i].flank == flank
}

/// Milliseconds both flanks must have been empty-or-partial before an
/// enemy spawns; reaching the threshold spawns.
pub const APE_SPAWN_GATE_MS: u64 = 3_000;

/// Cap on the both-flanks-alive clock, far above the spawn delay.
pub const APES_ALIVE_CAP: u64 = 3_600_000;

/// Milliseconds since both flanks were last fully manned, capped.
#[derive(Clone, Copy, Debug, PartialEq, Eq, Structural)]
pub struct ApesAliveAt(pub u64);

impl Default for ApesAliveAt {
    fn default() -> (a: ApesAliveAt)
        ensures
            a == ApesAliveAt(0),
    {
        ApesAliveAt(0)
    }
}

/// The both-flanks clock after this tick: reset while both flanks are
/// manned, otherwise advanced by the delta and capped.
pub open spec fn spec_alive_after(apes: Seq<Ape>, alive: u64, dt: u32) -> u64 {
    if spec_has_flank(apes, Flank::Left) && spec_has_flank(apes, Flank::Right) {
        0
    } else if alive + dt >= APES_ALIVE_CAP {
        APES_ALIVE_CAP
    } else {
        (alive + dt) as u64
    }
}

/// The spawn rule: once no full pair of enemies has been present for at
/// least the spawn delay, spawns exactly one enemy per missing flank, left
/// first, each with a randomly drawn look.
pub fn make_ape(
    dt: u32,
    apes: &mut Vec<Ape>,
    apes_alive_at: &mut ApesAliveAt,
    assets: &Vec<ApeAssets>,
    next_id: &mut u64,
)
    requires
        assets@.len() >= 1,
        old(apes_alive_at).0 <= APES_ALIVE_CAP,
        *old(next_id) + 2 <= u64::MAX,
    ensures
        final(apes_alive_at).0 == spec_alive_after(old(apes)@, old(apes_alive_at).0, dt),
        final(apes_alive_at).0 <= APES_ALIVE_CAP,
        ({
            let alive = spec_alive_after(old(apes)@, old(apes_alive_at).0, dt);
            let has_l = spec_has_flank(old(apes)@, Flank::Left);
            let has_r = spec_has_flank(old(apes)@, Flank::Right);
            &&& (alive < APE_SPAWN_GATE_MS ==> final(apes)@ == old(apes)@ && *final(next_id)
                == *old(next_id))
            &&& (alive >= APE_SPAWN_GATE_MS && has_l && has_r ==> final(apes)@ == old(apes)@
                && *final(next_id) == *old(next_id))
            &&& (alive >= APE_SPAWN_GATE_MS && !has_l && has_r ==> *final(next_id) == *old(next_id)
                + 1 && exists|k: int|
                0 <= k < assets@.len() && final(apes)@ == old(apes)@.push(
                    spec_new_ape(*old(next_id), Flank::Left, assets@[k]),
                ))
            &&& (alive >= APE_SPAWN_GATE_MS && has_l && !has_r ==> *final(next_id) == *old(next_id)
                + 1 && exists|k: int|
                0 <= k < assets@.len() && final(apes)@ == old(apes)@.push(
                    spec_new_ape(*old(next_id), Flank::Right, assets@[k]),
                ))
            &&& (alive >= APE_SPAWN_GATE_MS && !has_l && !has_r ==> *final(next_id) == *old(next_id)
                + 2 && exists|k1: int, k2: int|
                0 <= k1 < assets@.len() && 0 <= k2 < assets@.len() && final(apes)@ == old(
                    apes,
                )@.push(spec_new_ape(*old(next_id), Flank::Left, assets@[k1])).push(
                    spec_new_ape((*old(next_id) + 1) as u64, Flank::Right, assets@[k2]),
                ))
        }),
{
    let mut has_l = false;
    let mut has_r = false;
    let n = apes.len();
    let mut i: usize = 0;
    while i < n
        invariant
            n == apes@.len(),
            i <= n,
            has_l == exists|j: int| 0 <= j < i && apes@[j].flank == Flank::Left,
            has_r == exists|j: int| 0 <= j < i && apes@[j].flank == Flank::Right,
        decreases n - i,
    {
        if matches!(apes[i].flank, Flank::Left) {
            has_l = true;
        }
        if matches!(apes[i].flank, Flank::Right) {
            has_r = true;
        }
        i = i + 1;
    }
    if has_l && has_r {
        apes_alive_at.0 = 0;
    } else if apes_alive_at.0 + dt as u64 >= APES_ALIVE_CAP {
        apes_alive_at.0 = APES_ALIVE_CAP;
    } else {
        apes_alive_at.0 = apes_alive_at.0 + dt as u64;
    }
    if apes_alive_at.0 >= APE_SPAWN_GATE_MS {
        if !has_l {
            spawn_ape(apes, next_id, assets, Flank::Left);
        }
        if !has_r {
            spawn_ape(apes, next_id, assets, Flank::Right);
        }
    }
}

/// The enemy after one patrol step: it advances by its speed times the
/// delta, and turns around instead of leaving its flank's strip.
pub open spec fn spec_move_ape(a: Ape, dt: u32) -> Ape {
    let inc = APE_VELOCITY * dt;
    match a.moving {
        Moving::Left => {
            if a.x - inc > a.flank.spec_min() {
                Ape { x: (a.x - inc) as i64, ..a }
            } else {
                Ape { x: (a.x + inc) as i64, moving: Moving::Right, ..a }
            }
        },
        Moving::Right => {
            if a.x + inc < a.flank.spec_max() {
                Ape { x: (a.x + inc) as i64, ..a }
            } else {
                Ape { x: (a.x - inc) as i64, moving: Moving::Left, ..a }
            }
        },
        _ => a,
    }
}

/// The patrol pass: every enemy walks its flank's strip, bouncing off the
/// strip's ends.
pub fn move_apes(dt: u32, apes: &mut Vec<Ape>)
    requires
        dt <= MAX_TICK_MS,
        forall|i: int| 0 <= i < old(apes)@.len() ==> (#[trigger] old(apes)@[i]).wf(),
    ensures
        final(apes)@.len() == old(apes)@.len(),
        forall|i: int|
            0 <= i < old(apes)@.len() ==> final(apes)@[i] == spec_move_ape(old(apes)@[i], dt),
        forall|i: int| 0 <= i < final(apes)@.len() ==> (#[trigger] final(apes)@[i]).wf(),
{
    let n = apes.len();
    let mut i: usize = 0;
    while i < n
        invariant
            n == apes@.len(),
            n == old(apes)@.len(),
            i <= n,
            dt <= MAX_TICK_MS,
            forall|j: int| 0 <= j < old(apes)@.len() ==> (#[trigger] old(apes)@[j]).wf(),
            forall|j: int| 0 <= j < i ==> apes@[j] == spec_move_ape(old(apes)@[j], dt),
            forall|j: int| 0 <= j < i ==> (#[trigger] apes@[j]).wf(),
            forall|j: int| i <= j < n ==> apes@[j] == old(apes)@[j],
        decreases n - i,
    {
        let mut a = apes[i];
        proof {
            assert(old(apes)@[i as int].wf());
        }
        let inc: i64 = APE_VELOCITY * dt as i64;
        match a.moving {
            Moving::Left => {
                if a.x - inc > a.flank.min() {
                    a.x = a.x - inc;
                } else {
                    a.x = a.x + inc;
                    a.moving = Moving::Right;
                }
            },
            Moving::Right => {
                if a.x + inc < a.flank.max() {
                    a.x = a.x + inc;
                } else {
                    a.x = a.x - inc;
                    a.moving = Moving::Left;
                }
            },
            _ => {},
        }
        apes.set(i, a);
        i = i + 1;
    }
}


/// A staged attack animation entity, parented to the enemy `ape` by a
/// non-owning back-reference.  Only the active (`On`) stage carries a live
/// hit-zone.
#[derive(Clone, Copy, Debug, PartialEq, Eq, Structural)]
pub struct ApeAttackAnim {
    pub id: u64,
    pub ape: u64,
    pub anim: StagedAnimation,
    pub sprite_index: usize,
    pub frames: usize,
    pub atlas: u64,
    pub attack_range: Option<ApeAttackRange>,
    pub flank: Flank,
}

impl ApeAttackAnim {
    /// Well-formedness: consistent timers and frames, and a hit-zone
    /// exactly while the active stage runs.
    pub open spec fn wf(self) -> bool {
        &&& self.frames >= 1
        &&& self.sprite_index < self.frames
        &&& match self.anim {
            StagedAnimation::Init { duration, timer } => {
                &&& duration.0.wf()
                &&& !duration.0.repeating
                &&& timer.wf()
                &&& timer.repeating
                &&& self.attack_range is None
            },
            StagedAnimation::On { duration, timer } => {
                &&& duration.0.wf()
                &&& !duration.0.repeating
                &&& timer.wf()
                &&& timer.repeating
                &&& self.attack_range is Some
                &&& -1_000_000_000 <= self.attack_range->Some_0.offset_x <= 1_000_000_000
                &&& 0 <= self.attack_range->Some_0.range_x <= 1_000_000_000
            },
        }
    }
}

/// The windup animation entity spawned for `ape` from its attack spec.
pub open spec fn spec_init_anim(id: u64, ape: u64, sp: ApeAttackSpec) -> ApeAttackAnim {
    ApeAttackAnim {
        id,
        ape,
        anim: StagedAnimation::Init { duration: sp.init_duration, timer: sp.init_timer },
        sprite_index: 0,
        frames: APE_ATTACK_INIT_FRAMES,
        atlas: sp.init_h,
        attack_range: None,
        flank: sp.flank,
    }
}

/// The active-stage animation entity spawned for `ape`, carrying the
/// enemy's current hit-zone.
pub open spec fn spec_on_anim(id: u64, ape: u64, sp: ApeAttackSpec) -> ApeAttackAnim {
    ApeAttackAnim {
        id,
        ape,
        anim: StagedAnimation::On { duration: sp.on_duration, timer: sp.on_timer },
        sprite_index: 0,
        frames: APE_ATTACK_ON_FRAMES,
        atlas: sp.on_h,
        attack_range: Some(sp.attack_range),
        flank: sp.flank,
    }
}

/// Spawns the windup stage of an attack for `ape`, under the identifier
/// `id`.
pub fn spawn_ape_attack_init(
    anims: &mut Vec<ApeAttackAnim>,
    ape: u64,
    attack_spec: &ApeAttackSpec,
    id: u64,
)
    ensures
        final(anims)@ == old(anims)@.push(spec_init_anim(id, ape, *attack_spec)),
{
    anims.push(ApeAttackAnim {
        id,
        ape,
        anim: StagedAnimation::init(attack_spec.init_duration, attack_spec.init_timer),
        sprite_index: 0,
        frames: APE_ATTACK_INIT_FRAMES,
        atlas: attack_spec.init_h,
        attack_range: None,
        flank: attack_spec.flank,
    });
}

/// Spawns the active stage of an attack for `ape`, under the identifier
/// `id`, carrying the enemy's current hit-zone.
pub fn spawn_ape_attack_on(
    anims: &mut Vec<ApeAttackAnim>,
    ape: u64,
    attack_spec: &ApeAttackSpec,
    id: u64,
)
    ensures
        final(anims)@ == old(anims)@.push(spec_on_anim(id, ape, *attack_spec)),
{
    anims.push(ApeAttackAnim {
        id,
        ape,
        anim: StagedAnimation::on(attack_spec.on_duration, attack_spec.on_timer),
        sprite_index: 0,
        frames: APE_ATTACK_ON_FRAMES,
        atlas: attack_spec.on_h,
        attack_range: Some(attack_spec.attack_range),
        flank: attack_spec.flank,
    });
}

/// The windup entities one trigger firing spawns: one per enemy, in enemy
/// order, under consecutive identifiers from `base_id`.
pub open spec fn spec_triggered_anims(apes: Seq<Ape>, base_id: u64) -> Seq<ApeAttackAnim>
    decreases apes.len(),
{
    if apes.len() == 0 {
        Seq::empty()
    } else {
        spec_triggered_anims(apes.drop_last(), base_id).push(
            spec_init_anim(
                (base_id + apes.len() - 1) as u64,
                apes.last().id,
                apes.last().attack_spec,
            ),
        )
    }
}

/// The synchronized attack trigger: advances the shared three-second
/// timer, and on each firing spawns one windup animation per enemy, all in
/// phase but each with its own lifetime.
pub fn trigger_ape_attack(
    dt: u32,
    trigger: &mut TriggerTimer,
    apes: &Vec<Ape>,
    anims: &mut Vec<ApeAttackAnim>,
    next_id: &mut u64,
)
    requires
        old(trigger).0.wf(),
        *old(next_id) + apes@.len() <= u64::MAX,
    ensures
        final(trigger).0 == old(trigger).0.spec_tick(dt),
        ({
            if old(trigger).0.spec_tick(dt).just_finished {
                &&& final(anims)@ == old(anims)@ + spec_triggered_anims(apes@, *old(next_id))
                &&& *final(next_id) == *old(next_id) + apes@.len()
            } else {
                &&& final(anims)@ == old(anims)@
                &&& *final(next_id) == *old(next_id)
            }
        }),
{
    trigger.0.tick(dt);
    if trigger.0.just_finished() {
        let n = apes.len();
        let mut i: usize = 0;
        while i < n
            invariant
                n == apes@.len(),
                i <= n,
                *next_id == *old(next_id) + i,
                *old(next_id) + n <= u64::MAX,
                anims@ == old(anims)@ + spec_triggered_anims(apes@.take(i as int), *old(next_id)),
            decreases n - i,
        {
            let ape = apes[i];
            spawn_ape_attack_init(anims, ape.id, &ape.attack_spec, *next_id);
            *next_id = *next_id + 1;
            proof {
                assert(apes@.take(i + 1).drop_last() =~= apes@.take(i as int));
                assert(apes@.take(i + 1).last() == apes@[i as int]);
            }
            i = i + 1;
        }
        proof {
            assert(apes@.take(n as int) =~= apes@);
        }
    }
}

/// The first enemy with identifier `id`, if any.
pub open spec fn spec_find_ape(apes: Seq<Ape>, id: u64) -> Option<Ape>
    decreases apes.len(),
{
    if apes.len() == 0 {
        None
    } else if apes.first().id == id {
        Some(apes.first())
    } else {
        spec_find_ape(apes.drop_first(), id)
    }
}

/// One stage step of an attack animation whose parent enemy still exists:
/// both timers advance; a windup whose lifetime ran out is replaced in
/// place by the active stage built from the enemy's current attack spec;
/// an active stage whose lifetime ran out disappears; otherwise the sprite
/// frame advances whenever the frame timer wraps.
pub open spec fn spec_step_attack_anim(a: ApeAttackAnim, sp: ApeAttackSpec, dt: u32) -> Option<
    ApeAttackAnim,
> {
    match a.anim {
        StagedAnimation::Init { duration, timer } => {
            let d = DurationTimer(duration.0.spec_tick(dt));
            let t = timer.spec_tick(dt);
            if d.0.spec_finished() {
                Some(spec_on_anim(a.id, a.ape, sp))
            } else if t.just_finished {
                Some(ApeAttackAnim {
                    anim: StagedAnimation::Init { duration: d, timer: t },
                    sprite_index: ((a.sprite_index + 1) % (a.frames as int)) as usize,
                    ..a
                })
            } else {
                Some(ApeAttackAnim { anim: StagedAnimation::Init { duration: d, timer: t }, ..a })
            }
        },
        StagedAnimation::On { duration, timer } => {
            let d = DurationTimer(duration.0.spec_tick(dt));
            let t = timer.spec_tick(dt);
            if d.0.spec_finished() {
                None
            } else if t.just_finished {
                Some(ApeAttackAnim {
                    anim: StagedAnimation::On { duration: d, timer: t },
                    sprite_index: ((a.sprite_index + 1) % (a.frames as int)) as usize,
                    ..a
                })
            } else {
                Some(ApeAttackAnim { anim: StagedAnimation::On { duration: d, timer: t }, ..a })
            }
        },
    }
}

/// The staged animations after one tick: an orphaned animation (its enemy
/// already removed) disappears, the rest step through their stages.
pub open spec fn spec_step_attack_anims(apes: Seq<Ape>, anims: Seq<ApeAttackAnim>, dt: u32) -> Seq<
    ApeAttackAnim,
>
    decreases anims.len(),
{
    if anims.len() == 0 {
        Seq::empty()
    } else {
        let rest = spec_step_attack_anims(apes, anims.drop_last(), dt);
        match spec_find_ape(apes, anims.last().ape) {
            None => rest,
            Some(parent) => {
                match spec_step_attack_anim(anims.last(), parent.attack_spec, dt) {
                    None => rest,
                    Some(stepped) => rest.push(stepped),
                }
            },
        }
    }
}

/// Looks up an enemy by identifier.
fn find_ape(apes: &Vec<Ape>, id: u64) -> (r: Option<Ape>)
    ensures
        r == spec_find_ape(apes@, id),
        r is Some ==> exists|j: int| 0 <= j < apes@.len() && apes@[j] == r->Some_0,
{
    let n = apes.len();
    let mut i: usize = 0;
    proof {
        assert(apes@.skip(0) =~= apes@);
    }
    while i < n
        invariant
            n == apes@.len(),
            i <= n,
            spec_find_ape(apes@, id) == spec_find_ape(apes@.skip(i as int), id),
            forall|j: int| 0 <= j < i ==> apes@[j].id != id,
        decreases n - i,
    {
        proof {
            assert(apes@.skip(i as int).first() == apes@[i as int]);
            assert(apes@.skip(i as int).drop_first() =~= apes@.skip(i + 1));
        }
        if apes[i].id == id {
            return Some(apes[i]);
        }
        i = i + 1;
    }
    proof {
        assert(apes@.skip(n as int) =~= Seq::<Ape>::empty());
    }
    None
}

/// The stage pass: steps every staged attack animation — windups become
/// strikes when their telegraph runs out, strikes disappear when their
/// lifetime does, sprite frames cycle — and drops animations whose enemy
/// is gone.
pub fn animate_apes_attacks(dt: u32, apes: &Vec<Ape>, anims: &mut Vec<ApeAttackAnim>)
    requires
        forall|i: int| 0 <= i < old(anims)@.len() ==> (#[trigger] old(anims)@[i]).wf(),
        forall|i: int| 0 <= i < apes@.len() ==> (#[trigger] apes@[i]).wf(),
    ensures
        final(anims)@ == spec_step_attack_anims(apes@, old(anims)@, dt),
        forall|i: int| 0 <= i < final(anims)@.len() ==> (#[trigger] final(anims)@[i]).wf(),
{
    let n = anims.len();
    let mut out: Vec<ApeAttackAnim> = Vec::new();
    let mut i: usize = 0;
    while i < n
        invariant
            n == anims@.len(),
            i <= n,
            forall|j: int| 0 <= j < anims@.len() ==> (#[trigger] anims@[j]).wf(),
            forall|j: int| 0 <= j < apes@.len() ==> (#[trigger] apes@[j]).wf(),
            out@ == spec_step_attack_anims(apes@, anims@.take(i as int), dt),
            forall|j: int| 0 <= j < out@.len() ==> (#[trigger] out@[j]).wf(),
        decreases n - i,
    {
        let a = anims[i];
        proof {
            assert(anims@[i as int].wf());
            assert(anims@.take(i + 1).drop_last() =~= anims@.take(i as int));
            assert(anims@.take(i + 1).last() == anims@[i as int]);
        }
        match find_ape(apes, a.ape) {
            None => {},
            Some(parent) => {
                proof {
                    let j = choose|j: int| 0 <= j < apes@.len() && apes@[j] == parent;
                    assert(apes@[j].wf());
                }
                let mut stepped = a;
                let (despawn, replace_with_on) = match &mut stepped.anim {
                    StagedAnimation::Init { duration, timer } => {
                        duration.tick(dt);
                        timer.tick(dt);
                        let fin = duration.finished();
                        (false, fin)
                    },
                    StagedAnimation::On { duration, timer } => {
                        timer.tick(dt);
                        duration.tick(dt);
                        let fin = duration.finished();
                        (fin, false)
                    },
                };
                let frame_wrapped = match &stepped.anim {
                    StagedAnimation::Init { timer, .. } => timer.just_finished,
                    StagedAnimation::On { timer, .. } => timer.just_finished,
                };
                if replace_with_on {
                    let on = ApeAttackAnim {
                        id: a.id,
                        ape: a.ape,
                        anim: StagedAnimation::on(
                            parent.attack_spec.on_duration,
                            parent.attack_spec.on_timer,
                        ),
                        sprite_index: 0,
                        frames: APE_ATTACK_ON_FRAMES,
                        atlas: parent.attack_spec.on_h,
                        attack_range: Some(parent.attack_spec.attack_range),
                        flank: parent.attack_spec.flank,
                    };
                    proof {
                        assert(spec_step_attack_anim(a, parent.attack_spec, dt) == Some(on));
                    }
                    out.push(on);
                } else if despawn {
                    proof {
                        assert(spec_step_attack_anim(a, parent.attack_spec, dt) is None);
                    }
                } else {
                    if frame_wrapped {
                        stepped.sprite_index = (stepped.sprite_index + 1) % stepped.frames;
                    }
                    proof {
                        assert(spec_step_attack_anim(a, parent.attack_spec, dt) == Some(stepped));
                    }
                    out.push(stepped);
                }
            },
        }
        i = i + 1;
    }
    proof {
        assert(anims@.take(n as int) =~= anims@);
    }
    *anims = out;
}


/// Horizontal offset of a staged attack animation from its enemy, toward
/// the arena center, in millipixels.
pub const APE_ANIM_OFFSET: i64 = 150_000;

/// Whether the live hit-zone of `anim` covers the horizontal position
/// `px`.  Only an active-stage animation whose enemy still exists has a
/// live zone; the zone extends from the animation's position by the
/// carried offset and width, toward the side the enemy faces.
pub open spec fn spec_zone_hits(apes: Seq<Ape>, anim: ApeAttackAnim, px: int) -> bool {
    match anim.attack_range {
        None => false,
        Some(range) => match spec_find_ape(apes, anim.ape) {
            None => false,
            Some(parent) => {
                match anim.flank {
                    Flank::Left => {
                        let ax = parent.x + APE_ANIM_OFFSET;
                        ax + range.offset_x < px < ax + range.offset_x + range.range_x
                    },
                    Flank::Right => {
                        let ax = parent.x - APE_ANIM_OFFSET;
                        ax - range.offset_x - range.range_x < px < ax - range.offset_x
                    },
                }
            },
        },
    }
}

/// Whether any live hit-zone covers `px`.
pub open spec fn spec_any_zone_hits(apes: Seq<Ape>, anims: Seq<ApeAttackAnim>, px: int) -> bool {
    exists|i: int| 0 <= i < anims.len() && spec_zone_hits(apes, anims[i], px)
}

/// Whether the player can be hurt by enemy hit-zones: not while dashing
/// or airborne — those evade by design.
pub open spec fn spec_player_vulnerable(u: Unit) -> bool {
    &&& u.state != UnitState::Dash
    &&& u.state != UnitState::Jump
    &&& u.state != UnitState::Fall
}

/// The wound-or-death request a landed enemy hit posts: death exactly when
/// the popped chunk was the last one.
pub open spec fn spec_enemy_hit_event(u: Unit, chunks: Seq<u64>) -> UnitChanged {
    UnitChanged {
        unit: u.id,
        new_state: Some(
            if chunks.len() <= 1 {
                UnitState::Die
            } else {
                UnitState::Wound
            },
        ),
        new_condition: Some(u.condition),
        new_orientation: None,
    }
}

/// The enemy-damages-player check.  If any live hit-zone covers a
/// vulnerable player, the player's movement is cancelled and — unless the
/// player is already wounded or dying — one life chunk is popped and a
/// single `Wound` (or, on the last chunk, `Die`) request is posted.  At
/// most one chunk is popped per tick however many zones overlap: the state
/// guard is re-evaluated after the first hit resolves.
pub fn ape_attacks_player_collision(
    apes: &Vec<Ape>,
    anims: &Vec<ApeAttackAnim>,
    player: &mut Unit,
    health: &mut LifeChunks,
    ev_unit_changed: &mut Vec<UnitChanged>,
)
    requires
        old(player).wf(),
        forall|i: int| 0 <= i < anims@.len() ==> (#[trigger] anims@[i]).wf(),
        forall|i: int| 0 <= i < apes@.len() ==> (#[trigger] apes@[i]).wf(),
    ensures
        ({
            let hit = spec_player_vulnerable(*old(player)) && spec_any_zone_hits(
                apes@,
                anims@,
                old(player).x as int,
            );
            let guarded = old(player).state != UnitState::Wound && old(player).state
                != UnitState::Die;
            &&& (!hit ==> *final(player) == *old(player) && final(health).0@ == old(health).0@
                && final(ev_unit_changed)@ == old(ev_unit_changed)@)
            &&& (hit ==> *final(player) == (Unit { movements: None, ..*old(player) }))
            &&& (hit && !guarded ==> final(health).0@ == old(health).0@ && final(ev_unit_changed)@
                == old(ev_unit_changed)@)
            &&& (hit && guarded ==> final(health).0@ == (if old(health).0@.len() > 0 {
                old(health).0@.drop_last()
            } else {
                old(health).0@
            }) && final(ev_unit_changed)@ == old(ev_unit_changed)@.push(
                spec_enemy_hit_event(*old(player), old(health).0@),
            ))
        }),
{
    let vulnerable = !matches!(player.state, UnitState::Dash | UnitState::Jump | UnitState::Fall);
    if !vulnerable {
        return ;
    }
    let px = player.x;
    let n = anims.len();
    let mut hit = false;
    let mut i: usize = 0;
    while i < n
        invariant
            n == anims@.len(),
            i <= n,
            forall|j: int| 0 <= j < anims@.len() ==> (#[trigger] anims@[j]).wf(),
            forall|j: int| 0 <= j < apes@.len() ==> (#[trigger] apes@[j]).wf(),
            -APE_X_LIMIT <= px <= APE_X_LIMIT,
            hit == exists|j: int| 0 <= j < i && spec_zone_hits(apes@, anims@[j], px as int),
        decreases n - i,
    {
        let a = anims[i];
        proof {
            assert(anims@[i as int].wf());
        }
        match a.attack_range {
            None => {},
            Some(range) => {
                match find_ape(apes, a.ape) {
                    None => {},
                    Some(parent) => {
                        proof {
                            let j = choose|j: int|
                                0 <= j < apes@.len() && apes@[j] == parent;
                            assert(apes@[j].wf());
                        }
                        let in_range = match a.flank {
                            Flank::Left => {
                                let ax = parent.x + APE_ANIM_OFFSET;
                                ax + range.offset_x < px && px < ax + range.offset_x
                                    + range.range_x
                            },
                            Flank::Right => {
                                let ax = parent.x - APE_ANIM_OFFSET;
                                ax - range.offset_x - range.range_x < px && px < ax
                                    - range.offset_x
                            },
                        };
                        if in_range {
                            hit = true;
                        }
                    },
                }
            },
        }
        i = i + 1;
    }
    if hit {
        player.movements = None;
        if !matches!(player.state, UnitState::Wound | UnitState::Die) {
            let was_last = health.0.len() <= 1;
            if health.0.len() > 0 {
                health.0.pop();
            }
            let new_state = if was_last {
                UnitState::Die
            } else {
                UnitState::Wound
            };
            ev_unit_changed.push(
                UnitChanged::entity(player.id).new_state(new_state).new_condition(
                    player.condition,
                ),
            );
        }
    }
}


/// Frame period of the wound-flash animation, in milliseconds.
pub const APE_WOUND_FRAME_MS: u32 = 80;

/// How many frame advances a wound flash plays before it ends.
pub const APE_WOUND_FLASH_COUNT: usize = 4;

/// Width of a full health bar, in millipixels.
pub const HEALTHBAR_FULL: u64 = 200_000;

/// A wound-flash animation entity above an enemy, holding a snapshot of
/// the enemy's life as of the hit that spawned it.  When the flash ends
/// and that snapshot is zero, the enemy is removed and scored.
#[derive(Clone, Copy, Debug, PartialEq, Eq, Structural)]
pub struct ApeWoundAnim {
    pub id: u64,
    pub ape: u64,
    pub anim: Animation,
    pub sprite_index: usize,
    pub frames: usize,
    pub atlas: u64,
    pub life: ApeLife,
    pub healthbar_width: Option<i64>,
}

impl ApeWoundAnim {
    /// Well-formedness: consistent frames and timer, a counted flash, a
    /// clamped life snapshot.
    pub open spec fn wf(self) -> bool {
        &&& self.frames >= 1
        &&& self.sprite_index < self.frames
        &&& self.anim.timer.wf()
        &&& self.anim.timer.repeating
        &&& self.anim.count is Some
        &&& self.life.wf()
    }
}

/// The wound flash spawned over the enemy `a` (already carrying its
/// reduced life), under the identifier `id`: a proportional health bar is
/// attached while any life remains.
pub open spec fn spec_wound_anim(id: u64, a: Ape) -> ApeWoundAnim {
    ApeWoundAnim {
        id,
        ape: a.id,
        anim: Animation {
            timer: Timer {
                duration_ms: APE_WOUND_FRAME_MS,
                elapsed_ms: 0,
                repeating: true,
                just_finished: false,
            },
            count: Some(APE_WOUND_FLASH_COUNT),
        },
        sprite_index: 0,
        frames: APE_WOUND_FRAMES,
        atlas: a.wound_h.0,
        life: a.life,
        healthbar_width: if a.life.current > 0 {
            Some((a.life.current * HEALTHBAR_FULL / (a.life.max as int)) as i64)
        } else {
            None
        },
    }
}

/// Spawns the wound flash for the enemy `ape`, whose life already carries
/// the hit, under the identifier `id`.
pub fn spawn_ape_damaged_anim(wound_anims: &mut Vec<ApeWoundAnim>, ape: &Ape, id: u64)
    requires
        ape.life.wf(),
    ensures
        final(wound_anims)@ == old(wound_anims)@.push(spec_wound_anim(id, *ape)),
{
    let healthbar_width = if ape.life.current > 0 {
        Some((ape.life.current * HEALTHBAR_FULL / ape.life.max) as i64)
    } else {
        None
    };
    wound_anims.push(ApeWoundAnim {
        id,
        ape: ape.id,
        anim: Animation {
            timer: Timer::from_millis(APE_WOUND_FRAME_MS, true),
            count: Some(APE_WOUND_FLASH_COUNT),
        },
        sprite_index: 0,
        frames: APE_WOUND_FRAMES,
        atlas: ape.wound_h.0,
        life: ape.life,
        healthbar_width,
    });
}


/// The dead-enemy tally shown on the HUD.
#[derive(Clone, Copy, Debug, PartialEq, Eq, Structural, Default)]
pub struct DeadApesCounter(pub usize);

/// Creates the dead-enemy tally, starting at zero.
pub fn spawn_dead_apes_hud() -> (c: DeadApesCounter)
    ensures
        c == DeadApesCounter(0),
{
    DeadApesCounter(0)
}

/// Whether an enemy with identifier `id` exists.
pub open spec fn spec_ape_present(apes: Seq<Ape>, id: u64) -> bool {
    spec_find_ape(apes, id) is Some
}

/// The enemies with the first occurrence of `id` removed.
pub open spec fn spec_remove_ape(apes: Seq<Ape>, id: u64) -> Seq<Ape>
    decreases apes.len(),
{
    if apes.len() == 0 {
        Seq::empty()
    } else if apes.first().id == id {
        apes.drop_first()
    } else {
        seq![apes.first()] + spec_remove_ape(apes.drop_first(), id)
    }
}

proof fn lemma_remove_ape_at(apes: Seq<Ape>, id: u64, j: int)
    requires
        0 <= j < apes.len(),
        apes[j].id == id,
        forall|i: int| 0 <= i < j ==> apes[i].id != id,
    ensures
        spec_remove_ape(apes, id) == apes.remove(j),
    decreases j,
{
    if j == 0 {
        assert(apes.drop_first() =~= apes.remove(0));
    } else {
        lemma_remove_ape_at(apes.drop_first(), id, j - 1);
        assert(seq![apes.first()] + apes.drop_first().remove(j - 1) =~= apes.remove(j));
    }
}

/// Removes the first enemy with identifier `id`, if present.
fn remove_ape(apes: &mut Vec<Ape>, id: u64)
    ensures
        final(apes)@ == spec_remove_ape(old(apes)@, id),
{
    let n = apes.len();
    let mut j: usize = 0;
    while j < n
        invariant
            n == apes@.len(),
            j <= n,
            apes@ == old(apes)@,
            forall|i: int| 0 <= i < j ==> apes@[i].id != id,
        decreases n - j,
    {
        if apes[j].id == id {
            proof {
                lemma_remove_ape_at(apes@, id, j as int);
            }
            apes.remove(j);
            return ;
        }
        j = j + 1;
    }
    proof {
        lemma_remove_ape_absent(apes@, id);
    }
}

proof fn lemma_remove_ape_wf(apes: Seq<Ape>, id: u64)
    requires
        forall|i: int| 0 <= i < apes.len() ==> (#[trigger] apes[i]).wf(),
    ensures
        forall|i: int|
            0 <= i < spec_remove_ape(apes, id).len() ==> (#[trigger] spec_remove_ape(apes, id)[i]).wf(),
    decreases apes.len(),
{
    if apes.len() > 0 {
        assert(forall|i: int|
            0 <= i < apes.drop_first().len() ==> (#[trigger] apes.drop_first()[i]).wf());
        lemma_remove_ape_wf(apes.drop_first(), id);
        if apes.first().id != id {
            let r = spec_remove_ape(apes, id);
            assert forall|i: int| 0 <= i < r.len() implies (#[trigger] r[i]).wf() by {
                if i == 0 {
                    assert(r[0] == apes.first());
                    assert(apes[0].wf());
                } else {
                    assert(r[i] == spec_remove_ape(apes.drop_first(), id)[i - 1]);
                }
            }
        }
    }
}

proof fn lemma_remove_ape_absent(apes: Seq<Ape>, id: u64)
    requires
        forall|i: int| 0 <= i < apes.len() ==> apes[i].id != id,
    ensures
        spec_remove_ape(apes, id) == apes,
    decreases apes.len(),
{
    if apes.len() > 0 {
        lemma_remove_ape_absent(apes.drop_first(), id);
        assert(seq![apes.first()] + apes.drop_first() =~= apes);
    }
}

/// The wound flash after one tick it survives: its frame timer advances,
/// and while advances remain, a wrap consumes one and steps the sprite.
pub open spec fn spec_tick_wound_anim(w: ApeWoundAnim, dt: u32) -> ApeWoundAnim {
    let t = w.anim.timer.spec_tick(dt);
    if t.just_finished && w.anim.count is Some && w.anim.count->0 != 0 {
        ApeWoundAnim {
            anim: Animation { timer: t, count: Some((w.anim.count->0 - 1) as usize) },
            sprite_index: ((w.sprite_index + 1) % (w.frames as int)) as usize,
            ..w
        }
    } else {
        ApeWoundAnim { anim: Animation { timer: t, ..w.anim }, ..w }
    }
}

/// Whether the flash ends this tick: its timer wraps with no advances left.
pub open spec fn spec_wound_finishes(w: ApeWoundAnim, dt: u32) -> bool {
    w.anim.timer.spec_tick(dt).just_finished && w.anim.count == Some(0usize)
}

/// The enemies, surviving wound flashes and number of deaths booked after
/// one tick of the wound pass, processing flashes in order: an orphaned
/// flash (its enemy already removed) is dropped without bookkeeping; a
/// flash that ends with a zero life snapshot removes its enemy and books
/// one death; other flashes advance.
pub open spec fn spec_wounds_step(apes: Seq<Ape>, anims: Seq<ApeWoundAnim>, dt: u32) -> (
    Seq<Ape>,
    Seq<ApeWoundAnim>,
    int,
)
    decreases anims.len(),
{
    if anims.len() == 0 {
        (apes, Seq::empty(), 0int)
    } else {
        let w = anims.first();
        let rest = anims.drop_first();
        if !spec_ape_present(apes, w.ape) {
            spec_wounds_step(apes, rest, dt)
        } else if spec_wound_finishes(w, dt) {
            if w.life.current == 0 {
                let r = spec_wounds_step(spec_remove_ape(apes, w.ape), rest, dt);
                (r.0, r.1, r.2 + 1)
            } else {
                spec_wounds_step(apes, rest, dt)
            }
        } else {
            let r = spec_wounds_step(apes, rest, dt);
            (r.0, seq![spec_tick_wound_anim(w, dt)] + r.1, r.2)
        }
    }
}

proof fn lemma_wounds_step_killed_bounds(apes: Seq<Ape>, anims: Seq<ApeWoundAnim>, dt: u32)
    ensures
        0 <= spec_wounds_step(apes, anims, dt).2 <= anims.len(),
    decreases anims.len(),
{
    if anims.len() > 0 {
        let w = anims.first();
        let rest = anims.drop_first();
        lemma_wounds_step_killed_bounds(apes, rest, dt);
        lemma_wounds_step_killed_bounds(spec_remove_ape(apes, w.ape), rest, dt);
    }
}

/// The wound pass: advances every wound flash; when a flash ends over an
/// enemy whose snapshot shows no life left, that enemy is removed and the
/// score and dead-enemy tally each rise by one — exactly once per enemy,
/// since the flashes a removed enemy leaves behind are dropped as orphans.
pub fn animate_apes_wounds(
    dt: u32,
    apes: &mut Vec<Ape>,
    wound_anims: &mut Vec<ApeWoundAnim>,
    score: &mut Score,
    dead_counter: &mut DeadApesCounter,
)
    requires
        forall|i: int| 0 <= i < old(wound_anims)@.len() ==> (#[trigger] old(wound_anims)@[i]).wf(),
        forall|i: int| 0 <= i < old(apes)@.len() ==> (#[trigger] old(apes)@[i]).wf(),
        old(score).0 + old(wound_anims)@.len() <= usize::MAX,
        old(dead_counter).0 + old(wound_anims)@.len() <= usize::MAX,
    ensures
        ({
            let r = spec_wounds_step(old(apes)@, old(wound_anims)@, dt);
            &&& final(apes)@ == r.0
            &&& final(wound_anims)@ == r.1
            &&& final(score).0 == old(score).0 + r.2
            &&& final(dead_counter).0 == old(dead_counter).0 + r.2
        }),
        forall|i: int| 0 <= i < final(apes)@.len() ==> (#[trigger] final(apes)@[i]).wf(),
        forall|i: int|
            0 <= i < final(wound_anims)@.len() ==> (#[trigger] final(wound_anims)@[i]).wf(),
{
    let ghost total = spec_wounds_step(old(apes)@, old(wound_anims)@, dt);
    let n = wound_anims.len();
    let mut out: Vec<ApeWoundAnim> = Vec::new();
    let ghost mut killed: int = 0int;
    let mut i: usize = 0;
    proof {
        assert(old(wound_anims)@.skip(0) =~= old(wound_anims)@);
        assert(out@ + spec_wounds_step(apes@, old(wound_anims)@, dt).1 =~= spec_wounds_step(
            apes@,
            old(wound_anims)@,
            dt,
        ).1);
    }
    while i < n
        invariant
            n == wound_anims@.len(),
            wound_anims@ == old(wound_anims)@,
            i <= n,
            0 <= killed <= i,
            score.0 == old(score).0 + killed,
            dead_counter.0 == old(dead_counter).0 + killed,
            old(score).0 + n <= usize::MAX,
            old(dead_counter).0 + n <= usize::MAX,
            forall|j: int| 0 <= j < wound_anims@.len() ==> (#[trigger] wound_anims@[j]).wf(),
            forall|j: int| 0 <= j < apes@.len() ==> (#[trigger] apes@[j]).wf(),
            forall|j: int| 0 <= j < out@.len() ==> (#[trigger] out@[j]).wf(),
            total == spec_wounds_step(old(apes)@, old(wound_anims)@, dt),
            total == ({
                let r = spec_wounds_step(apes@, old(wound_anims)@.skip(i as int), dt);
                (r.0, out@ + r.1, killed + r.2)
            }),
        decreases n - i,
    {
        let w = wound_anims[i];
        proof {
            assert(wound_anims@[i as int].wf());
            assert(old(wound_anims)@.skip(i as int).first() == old(wound_anims)@[i as int]);
            assert(old(wound_anims)@.skip(i as int).drop_first() =~= old(wound_anims)@.skip(
                i + 1,
            ));
            lemma_wounds_step_killed_bounds(apes@, old(wound_anims)@.skip(i + 1), dt);
        }
        let present = find_ape(apes, w.ape).is_some();
        if present {
            let mut ticked = w;
            let crossing = ticked.anim.timer.elapsed_ms as u64 + dt as u64
                >= ticked.anim.timer.duration_ms as u64;
            ticked.anim.timer.tick(dt);
            let count = match ticked.anim.count {
                Some(c) => c,
                None => 0,
            };
            if ticked.anim.timer.just_finished() && count == 0 {
                if w.life.current == 0 {
                    proof {
                        lemma_remove_ape_wf(apes@, w.ape);
                    }
                    remove_ape(apes, w.ape);
                    score.0 = score.0 + 1;
                    dead_counter.0 = dead_counter.0 + 1;
                    proof {
                        killed = killed + 1;
                        lemma_wounds_step_killed_bounds(
                            spec_remove_ape(apes@, w.ape),
                            old(wound_anims)@.skip(i + 1),
                            dt,
                        );
                    }
                }
            } else {
                if ticked.anim.timer.just_finished() && count != 0 {
                    ticked.anim.count = Some(count - 1);
                    ticked.sprite_index = (ticked.sprite_index + 1) % ticked.frames;
                }
                proof {
                    assert(ticked == spec_tick_wound_anim(w, dt));
                }
                out.push(ticked);
                proof {
                    let r = spec_wounds_step(apes@, old(wound_anims)@.skip(i + 1), dt);
                    assert(out@ + r.1 =~= out@.drop_last() + (seq![spec_tick_wound_anim(w, dt)]
                        + r.1));
                }
            }
        }
        i = i + 1;
    }
    proof {
        assert(old(wound_anims)@.skip(n as int) =~= Seq::<ApeWoundAnim>::empty());
        assert(out@ + Seq::<ApeWoundAnim>::empty() =~= out@);
    }
    *wound_anims = out;
}

/// Renders the dead-enemy tally for the HUD, in decimal.
pub fn display_dead_apes_hud(counter: &DeadApesCounter) -> (s: String)
    ensures
        s@ == crate::common::spec_digits(counter.0 as nat),
{
    crate::common::decimal_string(counter.0 as u64)
}


/// An enemy's life after a whole sequence of hits, applied in order.
pub open spec fn spec_life_after_hits(l: ApeLife, hits: Seq<u64>) -> ApeLife
    decreases hits.len(),
{
    if hits.len() == 0 {
        l
    } else {
        spec_life_after_hits(l, hits.drop_last()).spec_decrease_by(hits.last())
    }
}

/// Law — damage clamping.  However many hits land, of whatever sizes, the
/// enemy's life stays within `[0, max]` and the cap itself never moves.
pub proof fn lemma_damage_clamped(l: ApeLife, hits: Seq<u64>)
    requires
        l.wf(),
    ensures
        spec_life_after_hits(l, hits).wf(),
        0 <= spec_life_after_hits(l, hits).current <= l.max,
        spec_life_after_hits(l, hits).max == l.max,
    decreases hits.len(),
{
    if hits.len() > 0 {
        lemma_damage_clamped(l, hits.drop_last());
    }
}

/// Law — hit-zone liveness.  While no active-stage attack animation
/// exists, no hit-zone covers any player position: the windup stage is
/// harmless by construction.
pub proof fn lemma_hit_zone_liveness(apes: Seq<Ape>, anims: Seq<ApeAttackAnim>, px: int)
    requires
        forall|i: int| 0 <= i < anims.len() ==> (#[trigger] anims[i]).wf(),
        forall|i: int| 0 <= i < anims.len() ==> !((#[trigger] anims[i]).anim is On),
    ensures
        !spec_any_zone_hits(apes, anims, px),
{
    assert forall|i: int| 0 <= i < anims.len() implies !spec_zone_hits(apes, anims[i], px) by {
        assert(anims[i].wf());
        assert(anims[i].attack_range is None);
    }
}

/// Law — idempotent zero life.  Damage applied to an enemy already at
/// zero life leaves it at zero.
pub proof fn lemma_zero_life_idempotent(l: ApeLife, amount: u64)
    requires
        l.current == 0,
    ensures
        l.spec_decrease_by(amount).current == 0,
{
}

/// A present identifier has a witness index, and a witness index makes
/// the identifier present.
proof fn lemma_present_witness(apes: Seq<Ape>, id: u64)
    ensures
        spec_ape_present(apes, id) <==> exists|k: int| 0 <= k < apes.len() && apes[k].id == id,
    decreases apes.len(),
{
    if apes.len() > 0 {
        lemma_present_witness(apes.drop_first(), id);
        if spec_find_ape(apes, id) is Some && apes.first().id != id {
            let k = choose|k: int|
                0 <= k < apes.drop_first().len() && apes.drop_first()[k].id == id;
            assert(apes[k + 1].id == id);
        }
        if exists|k: int| 0 <= k < apes.len() && apes[k].id == id {
            let k = choose|k: int| 0 <= k < apes.len() && apes[k].id == id;
            if k > 0 && apes.first().id != id {
                assert(apes.drop_first()[k - 1].id == id);
            }
        }
    }
}

proof fn lemma_remove_ape_not_present(apes: Seq<Ape>, id: u64)
    requires
        forall|i: int, j: int| 0 <= i < j < apes.len() ==> apes[i].id != apes[j].id,
    ensures
        !spec_ape_present(spec_remove_ape(apes, id), id),
    decreases apes.len(),
{
    if apes.len() > 0 {
        if apes.first().id == id {
            if spec_ape_present(apes.drop_first(), id) {
                lemma_present_witness(apes.drop_first(), id);
                let k = choose|k: int|
                    0 <= k < apes.drop_first().len() && apes.drop_first()[k].id == id;
                assert(apes.drop_first()[k] == apes[k + 1]);
                assert(apes[k + 1].id == apes[0].id);
            }
        } else {
            lemma_remove_ape_not_present(apes.drop_first(), id);
            let r = seq![apes.first()] + spec_remove_ape(apes.drop_first(), id);
            if spec_ape_present(r, id) {
                lemma_present_witness(r, id);
                let k = choose|k: int| 0 <= k < r.len() && r[k].id == id;
                assert(r[0] == apes.first());
                assert(k > 0);
                assert(r[k] == spec_remove_ape(apes.drop_first(), id)[k - 1]);
                lemma_present_witness(spec_remove_ape(apes.drop_first(), id), id);
                assert(spec_ape_present(spec_remove_ape(apes.drop_first(), id), id));
            }
        }
    }
}

proof fn lemma_absent_no_kills(apes: Seq<Ape>, anims: Seq<ApeWoundAnim>, a_id: u64, dt: u32)
    requires
        !spec_ape_present(apes, a_id),
        forall|i: int| 0 <= i < anims.len() ==> (#[trigger] anims[i]).ape == a_id,
    ensures
        spec_wounds_step(apes, anims, dt).2 == 0,
    decreases anims.len(),
{
    if anims.len() > 0 {
        lemma_absent_no_kills(apes, anims.drop_first(), a_id, dt);
    }
}

/// Law — death booked once.  Whatever wound flashes one enemy carries,
/// and however many of them end on the same tick, the wound pass books
/// that enemy's death at most once: the first ending flash removes the
/// enemy, and the flashes it leaves behind are dropped as orphans.
pub proof fn lemma_death_booked_once(apes: Seq<Ape>, anims: Seq<ApeWoundAnim>, a_id: u64, dt: u32)
    requires
        forall|i: int, j: int| 0 <= i < j < apes.len() ==> apes[i].id != apes[j].id,
        forall|i: int| 0 <= i < anims.len() ==> (#[trigger] anims[i]).ape == a_id,
    ensures
        0 <= spec_wounds_step(apes, anims, dt).2 <= 1,
    decreases anims.len(),
{
    lemma_wounds_step_killed_bounds(apes, anims, dt);
    if anims.len() > 0 {
        let w = anims.first();
        let rest = anims.drop_first();
        if spec_ape_present(apes, w.ape) && spec_wound_finishes(w, dt) && w.life.current == 0 {
            lemma_remove_ape_not_present(apes, w.ape);
            lemma_absent_no_kills(spec_remove_ape(apes, w.ape), rest, a_id, dt);
        } else {
            lemma_death_booked_once(apes, rest, a_id, dt);
        }
    }
}

} // verus!
