//! The player actor: its lifecycle state machine, the state-change event
//! bus, and the per-tick passes that move, drop, dash and animate units.

use vstd::prelude::*;

use crate::ape::{spawn_ape_damaged_anim, spec_wound_anim, Ape, ApeWoundAnim};
use crate::common::{opt_to_seq, Timer};
use crate::eth::EthOwned;
use crate::inputs::{Movements, Orientation, PlayerInput};
use crate::{
    CEILING_Y, DASH_VELOCITY, FLOOR_Y, JUMP_VELOCITY, MAX_FALL_VELOCITY, MAX_TICK_MS,
    WALK_VELOCITY, WALL_X,
};

verus! {

/// The lifecycle state of an actor.  `Attack`, `Wound`, `Die` and `Dash`
/// are locked states: externally-requested movement is ignored in them.
#[derive(Clone, Copy, Debug, PartialEq, Eq, Structural)]
pub enum UnitState {
    Stand,
    Move,
    Attack,
    Wound,
    Die,
    Jump,
    Fall,
    Dash,
}

/// The player's secondary axis, independent of `UnitState`: it selects the
/// active animation set and scales damage output.
#[derive(Clone, Copy, Debug, PartialEq, Eq, Structural)]
pub enum UnitCondition {
    Normal,
    Upgraded,
}

/// Damage dealt per landed hit in the normal condition, in life points.
pub const NORMAL_DAMAGES: u64 = 30;

/// Damage dealt per landed hit in the upgraded condition, in life points.
pub const UPGRADED_DAMAGES: u64 = 300;

impl UnitCondition {
    /// How much one landed hit takes from an enemy's life.
    pub open spec fn spec_damages(self) -> u64 {
        match self {
            UnitCondition::Normal => NORMAL_DAMAGES,
            UnitCondition::Upgraded => UPGRADED_DAMAGES,
        }
    }

    pub fn damages(&self) -> (r: u64)
        ensures
            r == self.spec_damages(),
    {
        match self {
            UnitCondition::Normal => NORMAL_DAMAGES,
            UnitCondition::Upgraded => UPGRADED_DAMAGES,
        }
    }
}

/// What species of unit an actor is.
#[derive(Clone, Copy, Debug, PartialEq, Eq, Structural)]
pub enum UnitKind {
    Player,
}

/// The key the presentation adapter resolves to a concrete animation: the
/// `(condition, state)` pair of the unit.
#[derive(Clone, Copy, Debug, PartialEq, Eq, Structural)]
pub struct AnimTag {
    pub condition: UnitCondition,
    pub state: UnitState,
}

/// Opaque handles to the two condition-dependent sprite resources.
#[derive(Clone, Copy, Debug, PartialEq, Eq, Structural)]
pub struct AsepriteHandles {
    pub paladin: u64,
    pub crusader: u64,
}

impl UnitKind {
    /// The animation key for a unit of this kind in the given state and
    /// condition.  The upgraded condition has no death animation: the
    /// upgrade has always decayed before life runs out.
    pub fn anim_tag(&self, unit_state: UnitState, unit_condition: UnitCondition) -> (t: AnimTag)
        requires
            !(unit_condition == UnitCondition::Upgraded && unit_state == UnitState::Die),
        ensures
            t == (AnimTag { condition: unit_condition, state: unit_state }),
    {
        AnimTag { condition: unit_condition, state: unit_state }
    }

    /// The sprite resource for a unit of this kind in the given condition.
    pub fn asperite_handle(&self, handles: &AsepriteHandles, unit_condition: UnitCondition) -> (h:
        u64)
        ensures
            h == (match unit_condition {
                UnitCondition::Normal => handles.paladin,
                UnitCondition::Upgraded => handles.crusader,
            }),
    {
        match unit_condition {
            UnitCondition::Normal => handles.paladin,
            UnitCondition::Upgraded => handles.crusader,
        }
    }
}

/// Vertical velocity, in pixels per second; positive is upward.
#[derive(Clone, Copy, Debug, PartialEq, Eq, Structural)]
pub struct Gravity {
    pub vy: i64,
}

impl Default for Gravity {
    fn default() -> (g: Gravity)
        ensures
            g == (Gravity { vy: 0 }),
    {
        Gravity { vy: 0 }
    }
}

/// One-shot countdown bounding how long a dash lasts.
#[derive(Clone, Copy, Debug, PartialEq, Eq, Structural)]
pub struct DashTimer(pub Timer);

/// How long a dash lasts, in milliseconds.
pub const DASH_DURATION_MS: u32 = 300;

impl Default for DashTimer {
    fn default() -> (t: DashTimer)
        ensures
            t.0 == (Timer {
                duration_ms: DASH_DURATION_MS,
                elapsed_ms: 0,
                repeating: false,
                just_finished: false,
            }),
    {
        DashTimer(Timer::from_millis(DASH_DURATION_MS, false))
    }
}

/// One-shot countdown before a dash may be triggered again.
#[derive(Clone, Copy, Debug, PartialEq, Eq, Structural)]
pub struct DashCooldown(pub Timer);

/// How long after a dash the next one is refused, in milliseconds.
pub const DASH_COOLDOWN_MS: u32 = 250;

impl Default for DashCooldown {
    fn default() -> (t: DashCooldown)
        ensures
            t.0 == (Timer {
                duration_ms: DASH_COOLDOWN_MS,
                elapsed_ms: 0,
                repeating: false,
                just_finished: false,
            }),
    {
        DashCooldown(Timer::from_millis(DASH_COOLDOWN_MS, false))
    }
}

impl DashCooldown {
    pub fn finished(&self) -> (r: bool)
        ensures
            r == self.0.spec_finished(),
    {
        self.0.finished()
    }
}

/// A state-change request posted to the event bus.  Every field is
/// optional; unset fields leave the actor's attribute untouched.  Requests
/// are consolidated in posting order, once per tick, by `update_units`.
#[derive(Clone, Copy, Debug, PartialEq, Eq, Structural)]
pub struct UnitChanged {
    pub unit: u64,
    pub new_state: Option<UnitState>,
    pub new_condition: Option<UnitCondition>,
    pub new_orientation: Option<Orientation>,
}

impl UnitChanged {
    /// An empty request aimed at `unit`.
    pub fn entity(unit: u64) -> (e: UnitChanged)
        ensures
            e == (UnitChanged {
                unit,
                new_state: None,
                new_condition: None,
                new_orientation: None,
            }),
    {
        UnitChanged { unit, new_state: None, new_condition: None, new_orientation: None }
    }

    pub fn new_state(self, new_state: UnitState) -> (e: UnitChanged)
        ensures
            e == (UnitChanged { new_state: Some(new_state), ..self }),
    {
        UnitChanged { new_state: Some(new_state), ..self }
    }

    pub fn new_condition(self, new_condition: UnitCondition) -> (e: UnitChanged)
        ensures
            e == (UnitChanged { new_condition: Some(new_condition), ..self }),
    {
        UnitChanged { new_condition: Some(new_condition), ..self }
    }

    pub fn new_orientation(self, new_orientation: Option<Orientation>) -> (e: UnitChanged)
        ensures
            e == (UnitChanged { new_orientation, ..self }),
    {
        UnitChanged { new_orientation, ..self }
    }
}

/// "This actor's attack lands now": posted on the strike frame of an attack
/// animation and consumed by the combat resolver the same tick.
#[derive(Clone, Copy, Debug, PartialEq, Eq, Structural)]
pub struct UnitAttack(pub u64);

/// The player's discrete hit points, as the ordered handles of their HUD
/// chunks.  Each landed enemy hit pops the last one; on empty the player
/// dies instead of being wounded.
#[derive(Debug)]
pub struct LifeChunks(pub Vec<u64>);

/// How many hit-point chunks a fresh player has.
pub const LIFE_CHUNK_COUNT: usize = 5;

/// Creates the player's life display: `LIFE_CHUNK_COUNT` chunks under
/// consecutive fresh identifiers.
pub fn spawn_life_hud(next_id: &mut u64) -> (l: LifeChunks)
    requires
        *old(next_id) + LIFE_CHUNK_COUNT <= u64::MAX,
    ensures
        l.0@.len() == LIFE_CHUNK_COUNT,
        forall|i: int| 0 <= i < l.0@.len() ==> l.0@[i] == *old(next_id) + i,
        *final(next_id) == *old(next_id) + LIFE_CHUNK_COUNT,
{
    let mut chunks: Vec<u64> = Vec::new();
    let base = *next_id;
    let mut i: usize = 0;
    while i < LIFE_CHUNK_COUNT
        invariant
            i <= LIFE_CHUNK_COUNT,
            base + LIFE_CHUNK_COUNT <= u64::MAX,
            chunks@.len() == i,
            forall|j: int| 0 <= j < i ==> chunks@[j] == base + j,
        decreases LIFE_CHUNK_COUNT - i,
    {
        chunks.push(base + i as u64);
        i = i + 1;
    }
    *next_id = base + LIFE_CHUNK_COUNT as u64;
    LifeChunks(chunks)
}

/// One animation of a unit's set: its sheet, frame count and frame period.
#[derive(Clone, Copy, Debug, PartialEq, Eq, Structural)]
pub struct AnimSpec {
    pub atlas: u64,
    pub frames: usize,
    pub frame_ms: u32,
}

impl AnimSpec {
    pub open spec fn wf(self) -> bool {
        &&& self.frames >= 1
        &&& self.frame_ms >= 1
    }
}

/// The animations of one condition, one per lifecycle state.  The table is
/// total by construction: no `(state, condition)` pair can lack an entry.
#[derive(Clone, Copy, Debug, PartialEq, Eq, Structural)]
pub struct CondAnims {
    pub stand: AnimSpec,
    pub moving: AnimSpec,
    pub attack: AnimSpec,
    pub wound: AnimSpec,
    pub die: AnimSpec,
    pub jump: AnimSpec,
    pub fall: AnimSpec,
    pub dash: AnimSpec,
}

impl CondAnims {
    pub open spec fn wf(self) -> bool {
        &&& self.stand.wf()
        &&& self.moving.wf()
        &&& self.attack.wf()
        &&& self.wound.wf()
        &&& self.die.wf()
        &&& self.jump.wf()
        &&& self.fall.wf()
        &&& self.dash.wf()
    }

    pub open spec fn spec_for_state(self, state: UnitState) -> AnimSpec {
        match state {
            UnitState::Stand => self.stand,
            UnitState::Move => self.moving,
            UnitState::Attack => self.attack,
            UnitState::Wound => self.wound,
            UnitState::Die => self.die,
            UnitState::Jump => self.jump,
            UnitState::Fall => self.fall,
            UnitState::Dash => self.dash,
        }
    }
}

/// A unit's full animation table, keyed by `(state, condition)`.
#[derive(Clone, Copy, Debug, PartialEq, Eq, Structural)]
pub struct AnimSet {
    pub normal: CondAnims,
    pub upgraded: CondAnims,
}

impl AnimSet {
    pub open spec fn wf(self) -> bool {
        &&& self.normal.wf()
        &&& self.upgraded.wf()
    }

    pub open spec fn spec_anim_for(self, state: UnitState, condition: UnitCondition) -> AnimSpec {
        match condition {
            UnitCondition::Normal => self.normal.spec_for_state(state),
            UnitCondition::Upgraded => self.upgraded.spec_for_state(state),
        }
    }

    pub fn anim_for(&self, state: UnitState, condition: UnitCondition) -> (s: AnimSpec)
        ensures
            s == self.spec_anim_for(state, condition),
    {
        let set = match condition {
            UnitCondition::Normal => &self.normal,
            UnitCondition::Upgraded => &self.upgraded,
        };
        match state {
            UnitState::Stand => set.stand,
            UnitState::Move => set.moving,
            UnitState::Attack => set.attack,
            UnitState::Wound => set.wound,
            UnitState::Die => set.die,
            UnitState::Jump => set.jump,
            UnitState::Fall => set.fall,
            UnitState::Dash => set.dash,
        }
    }
}

/// Where an animation's playback currently stands: the sheet, the frame
/// index, and the repeating timer that advances it.
#[derive(Clone, Copy, Debug, PartialEq, Eq, Structural)]
pub struct AnimPlayback {
    pub atlas: u64,
    pub frames: usize,
    pub index: usize,
    pub timer: Timer,
}

impl AnimPlayback {
    pub open spec fn wf(self) -> bool {
        &&& self.frames >= 1
        &&& self.index < self.frames
        &&& self.timer.wf()
        &&& self.timer.repeating
    }

    /// How many frames are left after the current one.
    pub open spec fn spec_remaining_frames(self) -> int {
        self.frames - 1 - self.index
    }

    /// Whether this tick's delta completes the current frame.
    pub open spec fn spec_frame_crossing(self, dt: u32) -> bool {
        self.timer.elapsed_ms + dt >= self.timer.duration_ms
    }
}

/// Fresh playback of the animation `entry`, starting at its first frame.
pub open spec fn spec_fresh_playback(entry: AnimSpec) -> AnimPlayback {
    AnimPlayback {
        atlas: entry.atlas,
        frames: entry.frames,
        index: 0,
        timer: Timer {
            duration_ms: entry.frame_ms,
            elapsed_ms: 0,
            repeating: true,
            just_finished: false,
        },
    }
}

/// A combat actor: the player unit.  Enemies have their own, reduced shape.
#[derive(Clone, Copy, Debug)]
pub struct Unit {
    pub id: u64,
    pub kind: UnitKind,
    pub state: UnitState,
    pub condition: UnitCondition,
    pub orientation: Orientation,
    pub movements: Option<Movements>,
    pub x: i64,
    pub y: i64,
    pub gravity: Gravity,
    pub dash_timer: Option<DashTimer>,
    pub dash_cooldown: DashCooldown,
    pub eth: EthOwned,
    pub anims: AnimSet,
    pub playback: AnimPlayback,
    pub flip_x: bool,
}

impl Unit {
    /// Well-formedness: the position inside the playfield, the velocity
    /// within its physical bounds, the timers and tables consistent.
    pub open spec fn wf(self) -> bool {
        &&& -WALL_X <= self.x <= WALL_X
        &&& FLOOR_Y <= self.y <= CEILING_Y
        &&& -MAX_FALL_VELOCITY <= self.gravity.vy <= JUMP_VELOCITY
        &&& self.dash_cooldown.0.wf()
        &&& !self.dash_cooldown.0.repeating
        &&& match self.dash_timer {
            Some(t) => t.0.wf() && !t.0.repeating,
            None => true,
        }
        &&& self.eth.wf()
        &&& self.anims.wf()
        &&& self.playback.wf()
    }
}

/// The player as constructed at round start: standing on the ground in the
/// middle, facing right, normal condition, with everything at rest.
pub open spec fn spec_new_player(id: u64, anims: AnimSet) -> Unit {
    Unit {
        id,
        kind: UnitKind::Player,
        state: UnitState::Stand,
        condition: UnitCondition::Normal,
        orientation: Orientation::Right,
        movements: None,
        x: 0,
        y: FLOOR_Y,
        gravity: Gravity { vy: 0 },
        dash_timer: None,
        dash_cooldown: DashCooldown(Timer {
            duration_ms: DASH_COOLDOWN_MS,
            elapsed_ms: 0,
            repeating: false,
            just_finished: false,
        }),
        eth: EthOwned { current: 0, max: crate::eth::ETH_OWNED_MAX },
        anims,
        playback: spec_fresh_playback(anims.normal.stand),
        flip_x: false,
    }
}

/// Creates the player actor under the identifier `id`.
pub fn spawn_player(id: u64, anims: AnimSet) -> (u: Unit)
    requires
        anims.wf(),
    ensures
        u == spec_new_player(id, anims),
        u.wf(),
{
    let stand = anims.normal.stand;
    Unit {
        id,
        kind: UnitKind::Player,
        state: UnitState::Stand,
        condition: UnitCondition::Normal,
        orientation: Orientation::Right,
        movements: None,
        x: 0,
        y: FLOOR_Y,
        gravity: Gravity::default(),
        dash_timer: None,
        dash_cooldown: DashCooldown::default(),
        eth: EthOwned::default(),
        anims,
        playback: AnimPlayback {
            atlas: stand.atlas,
            frames: stand.frames,
            index: 0,
            timer: Timer::from_millis(stand.frame_ms, true),
        },
        flip_x: false,
    }
}

/// The unit after entering `ns`: playback restarts on the animation of
/// `(ns, condition)`, and the entry side effects fire, re-derived at
/// application time — leaving a locked-or-grounded state clears movement,
/// leaving `Dash` arms the cooldown and drops the dash timer, entering
/// `Jump` sets the launch velocity, entering `Dash` arms the dash timer.
pub open spec fn spec_apply_state_change(u: Unit, ns: UnitState) -> Unit {
    let entered = Unit {
        playback: spec_fresh_playback(u.anims.spec_anim_for(ns, u.condition)),
        state: ns,
        ..u
    };
    match ns {
        UnitState::Stand | UnitState::Attack | UnitState::Fall | UnitState::Wound
            | UnitState::Die => {
            let cleared = Unit { movements: None, ..entered };
            if u.state == UnitState::Dash {
                Unit {
                    dash_cooldown: DashCooldown(Timer {
                        duration_ms: DASH_COOLDOWN_MS,
                        elapsed_ms: 0,
                        repeating: false,
                        just_finished: false,
                    }),
                    dash_timer: None,
                    ..cleared
                }
            } else {
                cleared
            }
        },
        UnitState::Jump => Unit { gravity: Gravity { vy: JUMP_VELOCITY }, ..entered },
        UnitState::Dash => Unit {
            dash_timer: Some(DashTimer(Timer {
                duration_ms: DASH_DURATION_MS,
                elapsed_ms: 0,
                repeating: false,
                just_finished: false,
            })),
            ..entered
        },
        UnitState::Move => entered,
    }
}

/// The unit after one request is applied to it.  A request aimed at
/// another unit leaves it untouched.
pub open spec fn spec_apply_unit_changed(u: Unit, ev: UnitChanged) -> Unit {
    if ev.unit != u.id {
        u
    } else {
        let u1 = match ev.new_state {
            Some(ns) => spec_apply_state_change(u, ns),
            None => u,
        };
        let u2 = match ev.new_condition {
            Some(nc) => Unit {
                playback: spec_fresh_playback(u1.anims.spec_anim_for(u1.state, nc)),
                condition: nc,
                ..u1
            },
            None => u1,
        };
        match ev.new_orientation {
            Some(no) => Unit { flip_x: no.spec_flip_x(), orientation: no, ..u2 },
            None => u2,
        }
    }
}

/// The unit after a whole tick's requests are applied in posting order.
pub open spec fn spec_apply_unit_events(u: Unit, evs: Seq<UnitChanged>) -> Unit
    decreases evs.len(),
{
    if evs.len() == 0 {
        u
    } else {
        spec_apply_unit_changed(spec_apply_unit_events(u, evs.drop_last()), evs.last())
    }
}

/// No two units share an identifier.
pub open spec fn spec_unique_unit_ids(units: Seq<Unit>) -> bool {
    forall|i: int, j: int|
        0 <= i < j < units.len() ==> units[i].id != units[j].id
}

proof fn lemma_apply_state_change_wf(u: Unit, ns: UnitState)
    requires
        u.wf(),
    ensures
        spec_apply_state_change(u, ns).wf(),
        spec_apply_state_change(u, ns).id == u.id,
        spec_apply_state_change(u, ns).anims == u.anims,
{
}

proof fn lemma_apply_unit_changed_wf(u: Unit, ev: UnitChanged)
    requires
        u.wf(),
    ensures
        spec_apply_unit_changed(u, ev).wf(),
        spec_apply_unit_changed(u, ev).id == u.id,
        spec_apply_unit_changed(u, ev).anims == u.anims,
{
    if ev.unit == u.id {
        match ev.new_state {
            Some(ns) => lemma_apply_state_change_wf(u, ns),
            None => {},
        }
    }
}

proof fn lemma_apply_unit_events_wf(u: Unit, evs: Seq<UnitChanged>)
    requires
        u.wf(),
    ensures
        spec_apply_unit_events(u, evs).wf(),
        spec_apply_unit_events(u, evs).id == u.id,
        spec_apply_unit_events(u, evs).anims == u.anims,
    decreases evs.len(),
{
    if evs.len() > 0 {
        lemma_apply_unit_events_wf(u, evs.drop_last());
        lemma_apply_unit_changed_wf(spec_apply_unit_events(u, evs.drop_last()), evs.last());
    }
}

/// Applies one posted request to the unit it targets, if present.
#[verifier::rlimit(60)]
fn apply_unit_changed(units: &mut Vec<Unit>, ev: &UnitChanged)
    requires
        forall|i: int| 0 <= i < old(units)@.len() ==> (#[trigger] old(units)@[i]).wf(),
        spec_unique_unit_ids(old(units)@),
    ensures
        final(units)@.len() == old(units)@.len(),
        forall|i: int|
            0 <= i < old(units)@.len() ==> final(units)@[i] == spec_apply_unit_changed(
                old(units)@[i],
                *ev,
            ),
{
    let n = units.len();
    let mut j: usize = 0;
    while j < n
        invariant
            n == units@.len(),
            j <= n,
            forall|i: int| 0 <= i < n ==> (#[trigger] units@[i]).wf(),
            spec_unique_unit_ids(units@),
            forall|i: int| 0 <= i < j ==> units@[i] == spec_apply_unit_changed(old(units)@[i], *ev),
            forall|i: int| j <= i < n ==> units@[i] == old(units)@[i],
        decreases n - j,
    {
        if units[j].id == ev.unit {
            let u = &units[j];
            let ghost u0 = units@[j as int];
            let mut u1 = u.clone();
            if let Some(ns) = ev.new_state {
                let entry = u1.anims.anim_for(ns, u1.condition);
                u1.playback = AnimPlayback {
                    atlas: entry.atlas,
                    frames: entry.frames,
                    index: 0,
                    timer: Timer::from_millis(entry.frame_ms, true),
                };
                let old_state = u1.state;
                u1.state = ns;
                match ns {
                    UnitState::Stand | UnitState::Attack | UnitState::Fall | UnitState::Wound
                        | UnitState::Die => {
                        u1.movements = None;
                        if old_state == UnitState::Dash {
                            u1.dash_cooldown = DashCooldown::default();
                            u1.dash_timer = None;
                        }
                    },
                    UnitState::Jump => {
                        u1.gravity = Gravity { vy: JUMP_VELOCITY };
                    },
                    UnitState::Dash => {
                        u1.dash_timer = Some(DashTimer::default());
                    },
                    UnitState::Move => {},
                }
                proof {
                    assert(u1 == spec_apply_state_change(u0, ns));
                }
            }
            if let Some(nc) = ev.new_condition {
                let entry = u1.anims.anim_for(u1.state, nc);
                u1.playback = AnimPlayback {
                    atlas: entry.atlas,
                    frames: entry.frames,
                    index: 0,
                    timer: Timer::from_millis(entry.frame_ms, true),
                };
                u1.condition = nc;
            }
            if let Some(no) = ev.new_orientation {
                u1.flip_x = no.flip_x();
                u1.orientation = no;
            }
            proof {
                assert(u1 == spec_apply_unit_changed(u0, *ev));
                lemma_apply_unit_changed_wf(u0, *ev);
            }
            units.set(j, u1);
        } else {
            proof {
                assert(units@[j as int] == spec_apply_unit_changed(old(units)@[j as int], *ev));
            }
        }
        j = j + 1;
    }
}

/// The consolidation pass: drains the tick's posted requests in posting
/// order and applies each to its target actor, deriving entry side effects
/// at application time.  Requests aimed at absent actors are dropped.
pub fn update_units(units: &mut Vec<Unit>, events: &mut Vec<UnitChanged>)
    requires
        forall|i: int| 0 <= i < old(units)@.len() ==> (#[trigger] old(units)@[i]).wf(),
        spec_unique_unit_ids(old(units)@),
    ensures
        final(units)@.len() == old(units)@.len(),
        forall|i: int|
            0 <= i < old(units)@.len() ==> final(units)@[i] == spec_apply_unit_events(
                old(units)@[i],
                old(events)@,
            ),
        forall|i: int| 0 <= i < final(units)@.len() ==> (#[trigger] final(units)@[i]).wf(),
        final(events)@.len() == 0,
{
    let n_ev = events.len();
    let mut k: usize = 0;
    while k < n_ev
        invariant
            n_ev == events@.len(),
            k <= n_ev,
            units@.len() == old(units)@.len(),
            forall|i: int| 0 <= i < old(units)@.len() ==> (#[trigger] old(units)@[i]).wf(),
            forall|i: int| 0 <= i < units@.len() ==> (#[trigger] units@[i]).wf(),
            spec_unique_unit_ids(units@),
            forall|i: int|
                0 <= i < units@.len() ==> units@[i] == spec_apply_unit_events(
                    old(units)@[i],
                    events@.take(k as int),
                ),
            events@ == old(events)@,
        decreases n_ev - k,
    {
        let ghost pre = units@;
        let ev = events[k];
        apply_unit_changed(units, &ev);
        proof {
            assert(events@.take(k + 1).drop_last() =~= events@.take(k as int));
            assert(events@.take(k + 1).last() == events@[k as int]);
            assert forall|i: int| 0 <= i < units@.len() implies units@[i]
                == spec_apply_unit_events(old(units)@[i], events@.take(k + 1)) by {
                assert(units@[i] == spec_apply_unit_changed(pre[i], events@[k as int]));
            }
            assert forall|i: int| 0 <= i < units@.len() implies (#[trigger] units@[i]).wf() by {
                lemma_apply_unit_events_wf(old(units)@[i], events@.take(k + 1));
            }
            assert forall|i: int, j: int|
                0 <= i < j < units@.len() implies units@[i].id != units@[j].id by {
                lemma_apply_unit_events_wf(old(units)@[i], events@.take(k + 1));
                lemma_apply_unit_events_wf(old(units)@[j], events@.take(k + 1));
            }
        }
        k = k + 1;
    }
    proof {
        assert(events@.take(n_ev as int) =~= events@);
    }
    events.clear();
}


/// The state-change request the animation-completion pass posts for `u`
/// this tick, if any: `Attack` and `Wound` return to `Stand` when their
/// animation plays out, `Dash` falls when its timer runs out.
pub open spec fn spec_transition_event(u: Unit, dt: u32) -> Option<UnitChanged> {
    match u.state {
        UnitState::Attack => {
            if u.playback.spec_remaining_frames() == 0 && u.playback.spec_frame_crossing(dt) {
                Some(UnitChanged {
                    unit: u.id,
                    new_state: Some(UnitState::Stand),
                    new_condition: None,
                    new_orientation: None,
                })
            } else {
                None
            }
        },
        UnitState::Dash => {
            match u.dash_timer {
                Some(t) => {
                    if t.0.just_finished {
                        Some(UnitChanged {
                            unit: u.id,
                            new_state: Some(UnitState::Fall),
                            new_condition: None,
                            new_orientation: None,
                        })
                    } else {
                        None
                    }
                },
                None => None,
            }
        },
        UnitState::Wound => {
            if u.playback.spec_remaining_frames() == 0 && u.playback.spec_frame_crossing(dt) {
                Some(UnitChanged {
                    unit: u.id,
                    new_state: Some(UnitState::Stand),
                    new_condition: None,
                    new_orientation: None,
                })
            } else {
                None
            }
        },
        _ => None,
    }
}

/// The strike signal the animation-completion pass posts for `u` this
/// tick, if any: exactly the tick on which an `Attack` animation crosses
/// into its last frame.
pub open spec fn spec_attack_event(u: Unit, dt: u32) -> Option<UnitAttack> {
    if u.state == UnitState::Attack && u.playback.spec_remaining_frames() == 1
        && u.playback.spec_frame_crossing(dt) {
        Some(UnitAttack(u.id))
    } else {
        None
    }
}

/// Whether `u` ends the round this tick: the player's death animation
/// plays out.
pub open spec fn spec_gameover_fires(u: Unit, dt: u32) -> bool {
    &&& u.state == UnitState::Die
    &&& u.kind == UnitKind::Player
    &&& u.playback.spec_remaining_frames() == 0
    &&& u.playback.spec_frame_crossing(dt)
}

/// All state-change requests the animation-completion pass posts, in unit
/// order.
pub open spec fn spec_transition_events(units: Seq<Unit>, dt: u32) -> Seq<UnitChanged>
    decreases units.len(),
{
    if units.len() == 0 {
        Seq::empty()
    } else {
        spec_transition_events(units.drop_last(), dt) + opt_to_seq(
            spec_transition_event(units.last(), dt),
        )
    }
}

/// All strike signals the animation-completion pass posts, in unit order.
pub open spec fn spec_attack_events(units: Seq<Unit>, dt: u32) -> Seq<UnitAttack>
    decreases units.len(),
{
    if units.len() == 0 {
        Seq::empty()
    } else {
        spec_attack_events(units.drop_last(), dt) + opt_to_seq(
            spec_attack_event(units.last(), dt),
        )
    }
}

/// The animation-completion pass.  Reads every unit's playback position
/// (before this tick's frame advance) and posts the transitions and strike
/// signals that the crossing of this tick's delta implies.  Sets the round
/// over when the player's death animation completes.
pub fn transition_units(
    dt: u32,
    units: &Vec<Unit>,
    ev_unit_changed: &mut Vec<UnitChanged>,
    ev_unit_attack: &mut Vec<UnitAttack>,
    next_state: &mut Option<crate::common::AppState>,
)
    requires
        forall|i: int| 0 <= i < units@.len() ==> (#[trigger] units@[i]).wf(),
    ensures
        final(ev_unit_changed)@ == old(ev_unit_changed)@ + spec_transition_events(units@, dt),
        final(ev_unit_attack)@ == old(ev_unit_attack)@ + spec_attack_events(units@, dt),
        *final(next_state) == (if exists|i: int|
            0 <= i < units@.len() && spec_gameover_fires(units@[i], dt) {
            Some(crate::common::AppState::GameOver)
        } else {
            *old(next_state)
        }),
{
    let n = units.len();
    let mut i: usize = 0;
    while i < n
        invariant
            n == units@.len(),
            i <= n,
            forall|j: int| 0 <= j < units@.len() ==> (#[trigger] units@[j]).wf(),
            ev_unit_changed@ == old(ev_unit_changed)@ + spec_transition_events(
                units@.take(i as int),
                dt,
            ),
            ev_unit_attack@ == old(ev_unit_attack)@ + spec_attack_events(
                units@.take(i as int),
                dt,
            ),
            *next_state == (if exists|j: int|
                0 <= j < i && spec_gameover_fires(units@[j], dt) {
                Some(crate::common::AppState::GameOver)
            } else {
                *old(next_state)
            }),
        decreases n - i,
    {
        let u = &units[i];
        proof {
            assert(units@[i as int].wf());
        }
        let remaining = u.playback.frames - 1 - u.playback.index;
        let crossing = u.playback.timer.elapsed_ms as u64 + dt as u64
            >= u.playback.timer.duration_ms as u64;
        match u.state {
            UnitState::Attack => {
                if remaining == 1 && crossing {
                    ev_unit_attack.push(UnitAttack(u.id));
                }
                if remaining == 0 && crossing {
                    ev_unit_changed.push(UnitChanged::entity(u.id).new_state(UnitState::Stand));
                }
            },
            UnitState::Dash => {
                match &u.dash_timer {
                    Some(t) => {
                        if t.0.just_finished() {
                            ev_unit_changed.push(
                                UnitChanged::entity(u.id).new_state(UnitState::Fall),
                            );
                        }
                    },
                    None => {},
                }
            },
            UnitState::Wound => {
                if remaining == 0 && crossing {
                    ev_unit_changed.push(UnitChanged::entity(u.id).new_state(UnitState::Stand));
                }
            },
            UnitState::Die => {
                if matches!(u.kind, UnitKind::Player) && remaining == 0 && crossing {
                    *next_state = Some(crate::common::AppState::GameOver);
                }
            },
            _ => {},
        }
        proof {
            assert(units@.take(i + 1).drop_last() =~= units@.take(i as int));
            assert(units@.take(i + 1).last() == units@[i as int]);
        }
        i = i + 1;
    }
    proof {
        assert(units@.take(n as int) =~= units@);
    }
}

/// `x` clamped into the playfield walls.
pub open spec fn spec_clamp_wall(x: int) -> int {
    if x < -WALL_X {
        -WALL_X as int
    } else if x > WALL_X {
        WALL_X as int
    } else {
        x
    }
}

/// The unit after the movement pass: each active horizontal direction
/// shifts it by its speed times the delta, clamped at the walls after each
/// step, left before right.  Units without a movement set stay put.
pub open spec fn spec_move_unit(u: Unit, dt: u32) -> Unit {
    match u.movements {
        None => u,
        Some(m) => {
            let v = if u.state == UnitState::Dash {
                DASH_VELOCITY
            } else {
                WALK_VELOCITY
            };
            let x1 = if m.left {
                spec_clamp_wall(u.x - v * dt)
            } else {
                u.x as int
            };
            let x2 = if m.right {
                spec_clamp_wall(x1 + v * dt)
            } else {
                x1
            };
            Unit { x: x2 as i64, ..u }
        },
    }
}

/// The movement pass: applies every unit's active direction set to its
/// horizontal position, dashing units at dash speed, the rest at walking
/// speed.
pub fn move_units(dt: u32, units: &mut Vec<Unit>)
    requires
        forall|i: int| 0 <= i < old(units)@.len() ==> (#[trigger] old(units)@[i]).wf(),
    ensures
        final(units)@.len() == old(units)@.len(),
        forall|i: int|
            0 <= i < old(units)@.len() ==> final(units)@[i] == spec_move_unit(old(units)@[i], dt),
        forall|i: int| 0 <= i < final(units)@.len() ==> (#[trigger] final(units)@[i]).wf(),
{
    let n = units.len();
    let mut i: usize = 0;
    while i < n
        invariant
            n == units@.len(),
            n == old(units)@.len(),
            i <= n,
            forall|j: int| 0 <= j < old(units)@.len() ==> (#[trigger] old(units)@[j]).wf(),
            forall|j: int| 0 <= j < i ==> units@[j] == spec_move_unit(old(units)@[j], dt),
            forall|j: int| 0 <= j < i ==> (#[trigger] units@[j]).wf(),
            forall|j: int| i <= j < n ==> units@[j] == old(units)@[j],
        decreases n - i,
    {
        let has_movements = units[i].movements.is_some();
        if has_movements {
            let mut u = units[i];
            proof {
                assert(old(units)@[i as int].wf());
            }
            let m = u.movements.unwrap();
            let dx: i64 = if matches!(u.state, UnitState::Dash) {
                DASH_VELOCITY * dt as i64
            } else {
                WALK_VELOCITY * dt as i64
            };
            if m.left {
                let moved = u.x - dx;
                u.x = if moved < -WALL_X {
                    -WALL_X
                } else if moved > WALL_X {
                    WALL_X
                } else {
                    moved
                };
            }
            if m.right {
                let moved = u.x + dx;
                u.x = if moved < -WALL_X {
                    -WALL_X
                } else if moved > WALL_X {
                    WALL_X
                } else {
                    moved
                };
            }
            proof {
                assert(u == spec_move_unit(old(units)@[i as int], dt));
            }
            units.set(i, u);
        } else {
            proof {
                assert(units@[i as int] == spec_move_unit(old(units)@[i as int], dt));
            }
        }
        i = i + 1;
    }
}

/// Whether the gravity pass lands `u` this tick: its position would sink
/// below the floor.
pub open spec fn spec_fall_lands(u: Unit, dt: u32) -> bool {
    u.y + (u.gravity.vy - dt) * dt < FLOOR_Y
}

/// The unit after the gravity pass: velocity decreases with the delta, the
/// position follows it, the floor catches the fall (zeroing the velocity)
/// and the playfield ceiling caps the rise.
pub open spec fn spec_fall_unit(u: Unit, dt: u32) -> Unit {
    let vy1 = u.gravity.vy - dt;
    let ycand = u.y + vy1 * dt;
    if ycand < FLOOR_Y {
        Unit { y: FLOOR_Y, gravity: Gravity { vy: 0 }, ..u }
    } else if ycand > CEILING_Y {
        Unit { y: CEILING_Y, gravity: Gravity { vy: vy1 as i64 }, ..u }
    } else {
        Unit { y: ycand as i64, gravity: Gravity { vy: vy1 as i64 }, ..u }
    }
}

/// The ground-contact request the gravity pass posts for `u`, if any: an
/// airborne unit that lands returns to `Stand`.
pub open spec fn spec_fall_event(u: Unit, dt: u32) -> Option<UnitChanged> {
    if spec_fall_lands(u, dt) && (u.state == UnitState::Jump || u.state == UnitState::Fall) {
        Some(UnitChanged {
            unit: u.id,
            new_state: Some(UnitState::Stand),
            new_condition: None,
            new_orientation: None,
        })
    } else {
        None
    }
}

/// All ground-contact requests the gravity pass posts, in unit order.
pub open spec fn spec_fall_events(units: Seq<Unit>, dt: u32) -> Seq<UnitChanged>
    decreases units.len(),
{
    if units.len() == 0 {
        Seq::empty()
    } else {
        spec_fall_events(units.drop_last(), dt) + opt_to_seq(spec_fall_event(units.last(), dt))
    }
}

/// The gravity pass: pulls every unit down, lands those that reach the
/// floor, and posts `Stand` for the airborne ones among them.
pub fn fall_units(dt: u32, units: &mut Vec<Unit>, ev_unit_changed: &mut Vec<UnitChanged>)
    requires
        1 <= dt <= MAX_TICK_MS,
        forall|i: int| 0 <= i < old(units)@.len() ==> (#[trigger] old(units)@[i]).wf(),
    ensures
        final(units)@.len() == old(units)@.len(),
        forall|i: int|
            0 <= i < old(units)@.len() ==> final(units)@[i] == spec_fall_unit(old(units)@[i], dt),
        forall|i: int| 0 <= i < final(units)@.len() ==> (#[trigger] final(units)@[i]).wf(),
        final(ev_unit_changed)@ == old(ev_unit_changed)@ + spec_fall_events(old(units)@, dt),
{
    let n = units.len();
    let mut i: usize = 0;
    while i < n
        invariant
            n == units@.len(),
            n == old(units)@.len(),
            i <= n,
            1 <= dt <= MAX_TICK_MS,
            forall|j: int| 0 <= j < old(units)@.len() ==> (#[trigger] old(units)@[j]).wf(),
            forall|j: int| 0 <= j < i ==> units@[j] == spec_fall_unit(old(units)@[j], dt),
            forall|j: int| 0 <= j < i ==> (#[trigger] units@[j]).wf(),
            forall|j: int| i <= j < n ==> units@[j] == old(units)@[j],
            ev_unit_changed@ == old(ev_unit_changed)@ + spec_fall_events(
                old(units)@.take(i as int),
                dt,
            ),
        decreases n - i,
    {
        let mut u = units[i];
        let ghost u0 = u;
        proof {
            assert(old(units)@[i as int].wf());
        }
        let vy1: i64 = u.gravity.vy - dt as i64;
        proof {
            assert(-610_000 * 10_000 <= vy1 * (dt as int) <= 500 * 10_000) by (nonlinear_arith)
                requires
                    -610_000 <= vy1 <= 500,
                    1 <= dt <= 10_000,
            ;
        }
        let ycand: i64 = u.y + vy1 * dt as i64;
        if ycand < FLOOR_Y {
            u.y = FLOOR_Y;
            u.gravity = Gravity { vy: 0 };
            units.set(i, u);
            if matches!(u.state, UnitState::Jump | UnitState::Fall) {
                ev_unit_changed.push(UnitChanged::entity(u.id).new_state(UnitState::Stand));
            }
        } else {
            proof {
                if vy1 <= 0 {
                    assert(vy1 * (dt as int) <= vy1) by (nonlinear_arith)
                        requires
                            vy1 <= 0,
                            dt >= 1,
                    ;
                    assert(vy1 >= FLOOR_Y - CEILING_Y);
                }
            }
            if ycand > CEILING_Y {
                u.y = CEILING_Y;
            } else {
                u.y = ycand;
            }
            u.gravity = Gravity { vy: vy1 };
            units.set(i, u);
        }
        proof {
            assert(units@[i as int] == spec_fall_unit(u0, dt));
            assert(old(units)@.take(i + 1).drop_last() =~= old(units)@.take(i as int));
            assert(old(units)@.take(i + 1).last() == old(units)@[i as int]);
        }
        i = i + 1;
    }
    proof {
        assert(old(units)@.take(n as int) =~= old(units)@);
    }
}

/// The dash-timer pass: advances every armed dash countdown by the delta.
pub fn tick_dashes(dt: u32, units: &mut Vec<Unit>)
    requires
        forall|i: int| 0 <= i < old(units)@.len() ==> (#[trigger] old(units)@[i]).wf(),
    ensures
        final(units)@.len() == old(units)@.len(),
        forall|i: int|
            0 <= i < old(units)@.len() ==> final(units)@[i] == (match old(units)@[i].dash_timer {
                Some(t) => (Unit {
                    dash_timer: Some(DashTimer(t.0.spec_tick(dt))),
                    ..old(units)@[i]
                }),
                None => old(units)@[i],
            }),
        forall|i: int| 0 <= i < final(units)@.len() ==> (#[trigger] final(units)@[i]).wf(),
{
    let n = units.len();
    let mut i: usize = 0;
    while i < n
        invariant
            n == units@.len(),
            n == old(units)@.len(),
            i <= n,
            forall|j: int| 0 <= j < old(units)@.len() ==> (#[trigger] old(units)@[j]).wf(),
            forall|j: int|
                0 <= j < i ==> units@[j] == (match old(units)@[j].dash_timer {
                    Some(t) => (Unit {
                        dash_timer: Some(DashTimer(t.0.spec_tick(dt))),
                        ..old(units)@[j]
                    }),
                    None => old(units)@[j],
                }),
            forall|j: int| 0 <= j < i ==> (#[trigger] units@[j]).wf(),
            forall|j: int| i <= j < n ==> units@[j] == old(units)@[j],
        decreases n - i,
    {
        let mut u = units[i];
        proof {
            assert(old(units)@[i as int].wf());
        }
        match &mut u.dash_timer {
            Some(t) => {
                t.0.tick(dt);
                units.set(i, u);
            },
            None => {},
        }
        i = i + 1;
    }
}

/// The cooldown pass: advances every unit's dash cooldown by the delta.
pub fn cooldown_dashes(dt: u32, units: &mut Vec<Unit>)
    requires
        forall|i: int| 0 <= i < old(units)@.len() ==> (#[trigger] old(units)@[i]).wf(),
    ensures
        final(units)@.len() == old(units)@.len(),
        forall|i: int|
            0 <= i < old(units)@.len() ==> final(units)@[i] == (Unit {
                dash_cooldown: DashCooldown(old(units)@[i].dash_cooldown.0.spec_tick(dt)),
                ..old(units)@[i]
            }),
        forall|i: int| 0 <= i < final(units)@.len() ==> (#[trigger] final(units)@[i]).wf(),
{
    let n = units.len();
    let mut i: usize = 0;
    while i < n
        invariant
            n == units@.len(),
            n == old(units)@.len(),
            i <= n,
            forall|j: int| 0 <= j < old(units)@.len() ==> (#[trigger] old(units)@[j]).wf(),
            forall|j: int|
                0 <= j < i ==> units@[j] == (Unit {
                    dash_cooldown: DashCooldown(old(units)@[j].dash_cooldown.0.spec_tick(dt)),
                    ..old(units)@[j]
                }),
            forall|j: int| 0 <= j < i ==> (#[trigger] units@[j]).wf(),
            forall|j: int| i <= j < n ==> units@[j] == old(units)@[j],
        decreases n - i,
    {
        let mut u = units[i];
        proof {
            assert(old(units)@[i as int].wf());
        }
        u.dash_cooldown.0.tick(dt);
        units.set(i, u);
        i = i + 1;
    }
}

/// The re-orientation pass: keeps every unit's sprite mirroring in step
/// with its facing after a sprite swap.
pub fn reorient_units_on_sprite_change(units: &mut Vec<Unit>)
    ensures
        final(units)@.len() == old(units)@.len(),
        forall|i: int|
            0 <= i < old(units)@.len() ==> final(units)@[i] == (Unit {
                flip_x: old(units)@[i].orientation.spec_flip_x(),
                ..old(units)@[i]
            }),
{
    let n = units.len();
    let mut i: usize = 0;
    while i < n
        invariant
            n == units@.len(),
            i <= n,
            forall|j: int|
                0 <= j < i ==> units@[j] == (Unit {
                    flip_x: old(units)@[j].orientation.spec_flip_x(),
                    ..old(units)@[j]
                }),
            forall|j: int| i <= j < n ==> units@[j] == old(units)@[j],
        decreases n - i,
    {
        let mut u = units[i];
        u.flip_x = u.orientation.flip_x();
        units.set(i, u);
        i = i + 1;
    }
}

/// The frame-advance pass: advances every unit's playback timer and steps
/// the frame index, wrapping over the sheet, whenever it crosses.
pub fn animate_units(dt: u32, units: &mut Vec<Unit>)
    requires
        forall|i: int| 0 <= i < old(units)@.len() ==> (#[trigger] old(units)@[i]).wf(),
    ensures
        final(units)@.len() == old(units)@.len(),
        forall|i: int|
            0 <= i < old(units)@.len() ==> final(units)@[i] == (Unit {
                playback: AnimPlayback {
                    timer: old(units)@[i].playback.timer.spec_tick(dt),
                    index: (if old(units)@[i].playback.spec_frame_crossing(dt) {
                        ((old(units)@[i].playback.index + 1) % (
                        old(units)@[i].playback.frames as int)) as usize
                    } else {
                        old(units)@[i].playback.index
                    }),
                    ..old(units)@[i].playback
                },
                ..old(units)@[i]
            }),
        forall|i: int| 0 <= i < final(units)@.len() ==> (#[trigger] final(units)@[i]).wf(),
{
    let n = units.len();
    let mut i: usize = 0;
    while i < n
        invariant
            n == units@.len(),
            n == old(units)@.len(),
            i <= n,
            forall|j: int| 0 <= j < old(units)@.len() ==> (#[trigger] old(units)@[j]).wf(),
            forall|j: int|
                0 <= j < i ==> units@[j] == (Unit {
                    playback: AnimPlayback {
                        timer: old(units)@[j].playback.timer.spec_tick(dt),
                        index: (if old(units)@[j].playback.spec_frame_crossing(dt) {
                            ((old(units)@[j].playback.index + 1) % (
                            old(units)@[j].playback.frames as int)) as usize
                        } else {
                            old(units)@[j].playback.index
                        }),
                        ..old(units)@[j].playback
                    },
                    ..old(units)@[j]
                }),
            forall|j: int| 0 <= j < i ==> (#[trigger] units@[j]).wf(),
            forall|j: int| i <= j < n ==> units@[j] == old(units)@[j],
        decreases n - i,
    {
        let mut u = units[i];
        proof {
            assert(old(units)@[i as int].wf());
        }
        let crossing = u.playback.timer.elapsed_ms as u64 + dt as u64
            >= u.playback.timer.duration_ms as u64;
        u.playback.timer.tick(dt);
        if crossing {
            u.playback.index = (u.playback.index + 1) % u.playback.frames;
        }
        units.set(i, u);
        i = i + 1;
    }
}


/// Whether the player at horizontal position `ux` is within melee reach
/// of the enemy `a`.
pub open spec fn spec_in_melee(a: Ape, ux: int) -> bool {
    -a.wound_width.0 < ux - a.x < a.wound_width.0
}

/// The enemy after one player strike from `ux` dealing `dmg`: its life
/// drops, clamped at zero, if it is in reach; otherwise it is untouched.
pub open spec fn spec_hit_ape(a: Ape, ux: int, dmg: u64) -> Ape {
    if spec_in_melee(a, ux) {
        Ape { life: a.life.spec_decrease_by(dmg), ..a }
    } else {
        a
    }
}

/// All enemies after one player strike.
pub open spec fn spec_strike_apes(apes: Seq<Ape>, ux: int, dmg: u64) -> Seq<Ape> {
    Seq::new(apes.len(), |i: int| spec_hit_ape(apes[i], ux, dmg))
}

/// How many enemies one strike from `ux` reaches.
pub open spec fn spec_hit_count(apes: Seq<Ape>, ux: int) -> int
    decreases apes.len(),
{
    if apes.len() == 0 {
        0
    } else {
        spec_hit_count(apes.drop_last(), ux) + (if spec_in_melee(apes.last(), ux) {
            1int
        } else {
            0int
        })
    }
}

proof fn lemma_hit_count_bounds(apes: Seq<Ape>, ux: int)
    ensures
        0 <= spec_hit_count(apes, ux) <= apes.len(),
    decreases apes.len(),
{
    if apes.len() > 0 {
        lemma_hit_count_bounds(apes.drop_last(), ux);
    }
}

/// The wound flashes one strike spawns: one per enemy in reach, in enemy
/// order, under consecutive identifiers from `base_id`, each holding the
/// enemy's life as reduced by this strike.
pub open spec fn spec_strike_anims(apes: Seq<Ape>, ux: int, dmg: u64, base_id: u64) -> Seq<
    ApeWoundAnim,
>
    decreases apes.len(),
{
    if apes.len() == 0 {
        Seq::empty()
    } else {
        spec_strike_anims(apes.drop_last(), ux, dmg, base_id) + (if spec_in_melee(
            apes.last(),
            ux,
        ) {
            seq![
                spec_wound_anim(
                    (base_id + spec_hit_count(apes.drop_last(), ux)) as u64,
                    spec_hit_ape(apes.last(), ux, dmg),
                ),
            ]
        } else {
            Seq::empty()
        })
    }
}

/// Applies one landed strike from `ux` dealing `dmg` to every enemy in
/// reach, spawning a wound flash per reached enemy.
fn strike_apes_once(
    ux: i64,
    dmg: u64,
    apes: &mut Vec<Ape>,
    wound_anims: &mut Vec<ApeWoundAnim>,
    next_id: &mut u64,
)
    requires
        -WALL_X <= ux <= WALL_X,
        forall|i: int| 0 <= i < old(apes)@.len() ==> (#[trigger] old(apes)@[i]).wf(),
        *old(next_id) + old(apes)@.len() <= u64::MAX,
    ensures
        final(apes)@ == spec_strike_apes(old(apes)@, ux as int, dmg),
        forall|i: int| 0 <= i < final(apes)@.len() ==> (#[trigger] final(apes)@[i]).wf(),
        final(wound_anims)@ == old(wound_anims)@ + spec_strike_anims(
            old(apes)@,
            ux as int,
            dmg,
            *old(next_id),
        ),
        *final(next_id) == *old(next_id) + spec_hit_count(old(apes)@, ux as int),
{
    let n = apes.len();
    let mut j: usize = 0;
    while j < n
        invariant
            n == apes@.len(),
            n == old(apes)@.len(),
            j <= n,
            -WALL_X <= ux <= WALL_X,
            *old(next_id) + n <= u64::MAX,
            forall|i: int| 0 <= i < old(apes)@.len() ==> (#[trigger] old(apes)@[i]).wf(),
            forall|i: int| 0 <= i < j ==> apes@[i] == spec_hit_ape(old(apes)@[i], ux as int, dmg),
            forall|i: int| 0 <= i < j ==> (#[trigger] apes@[i]).wf(),
            forall|i: int| j <= i < n ==> apes@[i] == old(apes)@[i],
            wound_anims@ == old(wound_anims)@ + spec_strike_anims(
                old(apes)@.take(j as int),
                ux as int,
                dmg,
                *old(next_id),
            ),
            *next_id == *old(next_id) + spec_hit_count(old(apes)@.take(j as int), ux as int),
        decreases n - j,
    {
        proof {
            lemma_hit_count_bounds(old(apes)@.take(j as int), ux as int);
            assert(old(apes)@.take(j + 1).drop_last() =~= old(apes)@.take(j as int));
            assert(old(apes)@.take(j + 1).last() == old(apes)@[j as int]);
        }
        let mut a = apes[j];
        proof {
            assert(old(apes)@[j as int].wf());
        }
        let d = ux - a.x;
        let in_melee = -a.wound_width.0 < d && d < a.wound_width.0;
        if in_melee {
            a.life.decrease_by(dmg);
            apes.set(j, a);
            spawn_ape_damaged_anim(wound_anims, &a, *next_id);
            *next_id = *next_id + 1;
        }
        j = j + 1;
    }
    proof {
        assert(old(apes)@.take(n as int) =~= old(apes)@);
        assert(final(apes)@ =~= spec_strike_apes(old(apes)@, ux as int, dmg));
    }
}

/// The first unit with identifier `id`, if any.
pub open spec fn spec_find_unit(units: Seq<Unit>, id: u64) -> Option<Unit>
    decreases units.len(),
{
    if units.len() == 0 {
        None
    } else if units.first().id == id {
        Some(units.first())
    } else {
        spec_find_unit(units.drop_first(), id)
    }
}

/// Looks up a unit by identifier.
fn find_unit(units: &Vec<Unit>, id: u64) -> (r: Option<Unit>)
    ensures
        r == spec_find_unit(units@, id),
        r is Some ==> exists|j: int| 0 <= j < units@.len() && units@[j] == r->Some_0,
{
    let n = units.len();
    let mut i: usize = 0;
    proof {
        assert(units@.skip(0) =~= units@);
    }
    while i < n
        invariant
            n == units@.len(),
            i <= n,
            spec_find_unit(units@, id) == spec_find_unit(units@.skip(i as int), id),
            forall|j: int| 0 <= j < i ==> units@[j].id != id,
        decreases n - i,
    {
        proof {
            assert(units@.skip(i as int).first() == units@[i as int]);
            assert(units@.skip(i as int).drop_first() =~= units@.skip(i + 1));
        }
        if units[i].id == id {
            return Some(units[i]);
        }
        i = i + 1;
    }
    proof {
        assert(units@.skip(n as int) =~= Seq::<Unit>::empty());
    }
    None
}

/// The enemies, spawned wound flashes and next identifier after the
/// tick's strike signals are resolved in posting order.  A signal whose
/// striker no longer exists is a stale reference: it is skipped as a
/// no-op and the remaining signals still apply.
pub open spec fn spec_process_attack_events(
    evs: Seq<UnitAttack>,
    units: Seq<Unit>,
    apes: Seq<Ape>,
    base_id: u64,
) -> (Seq<Ape>, Seq<ApeWoundAnim>, u64)
    decreases evs.len(),
{
    if evs.len() == 0 {
        (apes, Seq::empty(), base_id)
    } else {
        match spec_find_unit(units, evs.first().0) {
            None => spec_process_attack_events(evs.drop_first(), units, apes, base_id),
            Some(u) => {
                let dmg = u.condition.spec_damages();
                let apes1 = spec_strike_apes(apes, u.x as int, dmg);
                let anims1 = spec_strike_anims(apes, u.x as int, dmg, base_id);
                let base1 = (base_id + spec_hit_count(apes, u.x as int)) as u64;
                let r = spec_process_attack_events(evs.drop_first(), units, apes1, base1);
                (r.0, anims1 + r.1, r.2)
            },
        }
    }
}

/// The player-damages-enemy check: for each strike signal posted this
/// tick, every enemy within its striker's melee reach loses the striker's
/// condition-dependent damage, clamped at zero, and gets a wound flash
/// showing its remaining life.  A signal whose striker was removed
/// earlier in the tick is a stale reference and is skipped as a no-op.
pub fn unit_attacks_ape(
    ev_unit_attack: &Vec<UnitAttack>,
    units: &Vec<Unit>,
    apes: &mut Vec<Ape>,
    wound_anims: &mut Vec<ApeWoundAnim>,
    next_id: &mut u64,
)
    requires
        forall|i: int| 0 <= i < units@.len() ==> (#[trigger] units@[i]).wf(),
        forall|i: int| 0 <= i < old(apes)@.len() ==> (#[trigger] old(apes)@[i]).wf(),
        *old(next_id) + ev_unit_attack@.len() * old(apes)@.len() <= u64::MAX,
    ensures
        ({
            let r = spec_process_attack_events(
                ev_unit_attack@,
                units@,
                old(apes)@,
                *old(next_id),
            );
            &&& final(apes)@ == r.0
            &&& final(wound_anims)@ == old(wound_anims)@ + r.1
            &&& *final(next_id) == r.2
        }),
        forall|i: int| 0 <= i < final(apes)@.len() ==> (#[trigger] final(apes)@[i]).wf(),
{
    let n_ev = ev_unit_attack.len();
    let n_apes = apes.len();
    let ghost total = spec_process_attack_events(
        ev_unit_attack@,
        units@,
        old(apes)@,
        *old(next_id),
    );
    let mut k: usize = 0;
    proof {
        assert(ev_unit_attack@.skip(0) =~= ev_unit_attack@);
        assert(wound_anims@.skip(old(wound_anims)@.len() as int) =~= Seq::<ApeWoundAnim>::empty());
    }
    while k < n_ev
        invariant
            n_ev == ev_unit_attack@.len(),
            k <= n_ev,
            apes@.len() == old(apes)@.len(),
            n_apes == apes@.len(),
            forall|i: int| 0 <= i < units@.len() ==> (#[trigger] units@[i]).wf(),
            forall|i: int| 0 <= i < apes@.len() ==> (#[trigger] apes@[i]).wf(),
            old(wound_anims)@.len() <= wound_anims@.len(),
            wound_anims@.take(old(wound_anims)@.len() as int) == old(wound_anims)@,
            *next_id + (n_ev - k) * n_apes <= u64::MAX,
            total == spec_process_attack_events(
                ev_unit_attack@,
                units@,
                old(apes)@,
                *old(next_id),
            ),
            total == ({
                let r = spec_process_attack_events(
                    ev_unit_attack@.skip(k as int),
                    units@,
                    apes@,
                    *next_id,
                );
                (
                    r.0,
                    wound_anims@.skip(old(wound_anims)@.len() as int) + r.1,
                    r.2,
                )
            }),
        decreases n_ev - k,
    {
        let ghost pre_apes = apes@;
        let ghost pre_w = wound_anims@;
        let ghost pre_id = *next_id;
        proof {
            assert(ev_unit_attack@.skip(k as int).first() == ev_unit_attack@[k as int]);
            assert(ev_unit_attack@.skip(k as int).drop_first() =~= ev_unit_attack@.skip(k + 1));
            assert((n_ev - k) * n_apes >= 1 * n_apes) by (nonlinear_arith)
                requires
                    n_ev - k >= 1,
                    n_apes >= 0,
            ;
            assert((n_ev - (k + 1)) * n_apes == (n_ev - k) * n_apes - n_apes) by (nonlinear_arith);
        }
        let ev = ev_unit_attack[k];
        match find_unit(units, ev.0) {
            None => {
                proof {
                    assert(spec_process_attack_events(
                        ev_unit_attack@.skip(k as int),
                        units@,
                        apes@,
                        *next_id,
                    ) == spec_process_attack_events(
                        ev_unit_attack@.skip(k + 1),
                        units@,
                        apes@,
                        *next_id,
                    ));
                }
            },
            Some(u) => {
                proof {
                    let j = choose|j: int| 0 <= j < units@.len() && units@[j] == u;
                    assert(units@[j].wf());
                }
                let dmg = u.condition.damages();
                strike_apes_once(u.x, dmg, apes, wound_anims, next_id);
                proof {
                    lemma_hit_count_bounds(pre_apes, u.x as int);
                    assert(wound_anims@.take(old(wound_anims)@.len() as int)
                        =~= old(wound_anims)@);
                    assert(wound_anims@.skip(old(wound_anims)@.len() as int) =~= pre_w.skip(
                        old(wound_anims)@.len() as int,
                    ) + spec_strike_anims(pre_apes, u.x as int, dmg, pre_id));
                    let r2 = spec_process_attack_events(
                        ev_unit_attack@.skip(k + 1),
                        units@,
                        apes@,
                        *next_id,
                    );
                    assert(pre_w.skip(old(wound_anims)@.len() as int) + (spec_strike_anims(
                        pre_apes,
                        u.x as int,
                        dmg,
                        pre_id,
                    ) + r2.1) =~= wound_anims@.skip(old(wound_anims)@.len() as int) + r2.1);
                }
            },
        }
        k = k + 1;
    }
    proof {
        assert(ev_unit_attack@.skip(n_ev as int) =~= Seq::<UnitAttack>::empty());
        assert(final(wound_anims)@ =~= old(wound_anims)@ + wound_anims@.skip(
            old(wound_anims)@.len() as int,
        ));
    }
}


/// Law — exactly-once consolidation.  When two requests posted in the
/// same tick both carry a new state for the same actor, consolidation
/// applies the last-posted state, and the entry side effects fire exactly
/// once: a jump leaves the launch velocity set, not accumulated.
pub proof fn lemma_consolidation_exactly_once(
    u: Unit,
    m1: UnitChanged,
    m2: UnitChanged,
    s1: UnitState,
    s2: UnitState,
)
    requires
        m1.unit == u.id,
        m2.unit == u.id,
        m1.new_state == Some(s1),
        m2.new_state == Some(s2),
    ensures
        spec_apply_unit_events(u, seq![m1, m2]).state == s2,
        s2 == UnitState::Jump ==> spec_apply_unit_events(u, seq![m1, m2]).gravity.vy
            == JUMP_VELOCITY,
{
    let evs = seq![m1, m2];
    assert(evs.drop_last() =~= seq![m1]);
    assert(evs.last() == m2);
    assert(seq![m1].drop_last() =~= Seq::<UnitChanged>::empty());
    assert(seq![m1].last() == m1);
    assert(spec_apply_unit_events(u, Seq::<UnitChanged>::empty()) == u);
    assert(spec_apply_unit_events(u, seq![m1]) == spec_apply_unit_changed(
        spec_apply_unit_events(u, seq![m1].drop_last()),
        m1,
    ));
    assert(spec_apply_unit_events(u, evs) == spec_apply_unit_changed(
        spec_apply_unit_events(u, evs.drop_last()),
        m2,
    ));
}

/// Law — damage ratio.  The upgraded condition deals ten times the normal
/// condition's damage per landed hit.
pub proof fn lemma_upgraded_tenfold()
    ensures
        UnitCondition::Upgraded.spec_damages() == 10 * UnitCondition::Normal.spec_damages(),
{
}

} // verus!
