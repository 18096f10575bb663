//! Collectible currency: pickups, the player's holdings, and their decay.

use vstd::prelude::*;

use crate::common::{Animation, Timer};

verus! {

/// Opaque handle to the pickup sprite sheet.
#[derive(Clone, Copy, Debug, PartialEq, Eq, Structural)]
pub struct EthHandle(pub u64);

/// Frame count of the pickup sprite sheet.
pub const ETH_FRAMES: usize = 11;

/// Frame period of the pickup animation, in milliseconds.
pub const ETH_FRAME_MS: u32 = 120;

/// The amount one pickup is worth.  Amounts are in thousandths throughout,
/// so decay per millisecond stays exact.
#[derive(Clone, Copy, Debug, PartialEq, Eq, Structural)]
pub struct Eth {
    pub quantity: u64,
}

/// What one pickup is worth, in thousandths.
pub const ETH_PICKUP_QUANTITY: u64 = 10_000;

impl Default for Eth {
    fn default() -> (e: Eth)
        ensures
            e == (Eth { quantity: ETH_PICKUP_QUANTITY }),
    {
        Eth { quantity: ETH_PICKUP_QUANTITY }
    }
}

/// The player's current holdings, clamped to `[0, max]`, in thousandths.
#[derive(Clone, Copy, Debug, PartialEq, Eq, Structural)]
pub struct EthOwned {
    pub current: u64,
    pub max: u64,
}

/// The holdings cap, in thousandths.
pub const ETH_OWNED_MAX: u64 = 30_000;

impl Default for EthOwned {
    fn default() -> (e: EthOwned)
        ensures
            e == (EthOwned { current: 0, max: ETH_OWNED_MAX }),
    {
        EthOwned { current: 0, max: ETH_OWNED_MAX }
    }
}

impl EthOwned {
    /// Well-formedness: the holdings never exceed the positive cap, which
    /// is small enough for exact HUD arithmetic.
    pub open spec fn wf(self) -> bool {
        &&& self.max >= 1
        &&& self.max <= 1_000_000_000_000
        &&& self.current <= self.max
    }

    /// The holdings after collecting `eth`, saturating at the cap.
    pub open spec fn spec_add(self, eth: Eth) -> EthOwned {
        if self.current + eth.quantity >= self.max {
            EthOwned { current: self.max, ..self }
        } else {
            EthOwned { current: (self.current + eth.quantity) as u64, ..self }
        }
    }

    /// The holdings after `decayed` drains away, saturating at zero.
    pub open spec fn spec_remove(self, decayed: u64) -> EthOwned {
        if self.current >= decayed {
            EthOwned { current: (self.current - decayed) as u64, ..self }
        } else {
            EthOwned { current: 0, ..self }
        }
    }

    pub fn add(&mut self, eth: &Eth)
        requires
            old(self).wf(),
        ensures
            *final(self) == old(self).spec_add(*eth),
            final(self).wf(),
    {
        if self.max - self.current <= eth.quantity {
            self.current = self.max;
        } else {
            self.current = self.current + eth.quantity;
        }
    }

    pub fn remove(&mut self, decayed: u64)
        requires
            old(self).wf(),
        ensures
            *final(self) == old(self).spec_remove(decayed),
            final(self).wf(),
    {
        if self.current >= decayed {
            self.current = self.current - decayed;
        } else {
            self.current = 0;
        }
    }

    pub fn is_full(&self) -> (r: bool)
        ensures
            r == (self.current == self.max),
    {
        self.current == self.max
    }

    pub fn is_empty(&self) -> (r: bool)
        ensures
            r == (self.current == 0),
    {
        self.current == 0
    }
}

/// A pickup present in the world.
#[derive(Clone, Copy, Debug, PartialEq, Eq, Structural)]
pub struct EthCoin {
    pub id: u64,
    pub x: i64,
    pub y: i64,
    pub eth: Eth,
    pub anim: Animation,
    pub sprite_index: usize,
}

/// Vertical position pickups rest at, in millipixels.
pub const ETH_SPAWN_Y: i64 = -222_000;

/// Milliseconds since a pickup was last collected, capped at one hour.
#[derive(Clone, Copy, Debug, PartialEq, Eq, Structural)]
pub struct EthPicked(pub u64);

/// Cap on the collected-ago clock, far above every threshold read from it.
pub const PICKED_ELAPSED_CAP: u64 = 3_600_000;

/// Registers the pickup sprite sheet under an opaque handle and starts the
/// collected-ago clock at zero.
pub fn init_eth(atlas: u64) -> (r: (EthHandle, EthPicked))
    ensures
        r.0 == EthHandle(atlas),
        r.1 == EthPicked(0),
{
    (EthHandle(atlas), EthPicked(0))
}

/// The pickup entity spawned at `x`: resting on the ground, worth the
/// default amount, cycling its sprite on the default frame timer.
pub open spec fn spec_new_eth_coin(id: u64, x: i64) -> EthCoin {
    EthCoin {
        id,
        x,
        y: ETH_SPAWN_Y,
        eth: Eth { quantity: ETH_PICKUP_QUANTITY },
        anim: Animation {
            timer: Timer {
                duration_ms: ETH_FRAME_MS,
                elapsed_ms: 0,
                repeating: true,
                just_finished: false,
            },
            count: None,
        },
        sprite_index: 0,
    }
}

/// Adds a pickup at horizontal position `x`, under a fresh identifier.
pub fn spawn_eth(eths: &mut Vec<EthCoin>, next_id: &mut u64, x: i64)
    requires
        *old(next_id) < u64::MAX,
        -crate::GLOBAL_WIDTH <= x <= crate::GLOBAL_WIDTH,
    ensures
        final(eths)@ == old(eths)@.push(spec_new_eth_coin(*old(next_id), x)),
        final(eths)@.last().wf(),
        *final(next_id) == *old(next_id) + 1,
{
    let id = *next_id;
    *next_id = *next_id + 1;
    eths.push(EthCoin {
        id,
        x,
        y: ETH_SPAWN_Y,
        eth: Eth::default(),
        anim: Animation {
            timer: Timer::from_millis(ETH_FRAME_MS, true),
            count: None,
        },
        sprite_index: 0,
    });
}


impl EthCoin {
    /// Well-formedness: placed within the arena, with a cycling sprite
    /// inside its sheet.
    pub open spec fn wf(self) -> bool {
        &&& -crate::GLOBAL_WIDTH <= self.x <= crate::GLOBAL_WIDTH
        &&& self.sprite_index < ETH_FRAMES
        &&& self.anim.timer.wf()
        &&& self.anim.timer.repeating
    }
}

/// The collected-ago clock after one tick, capped.
pub open spec fn spec_picked_after(elapsed: u64, dt: u32) -> u64 {
    if elapsed + dt >= PICKED_ELAPSED_CAP {
        PICKED_ELAPSED_CAP
    } else {
        (elapsed + dt) as u64
    }
}

/// Milliseconds the arena must have been empty of pickups before a new
/// one may appear.
pub const ETH_SPAWN_GATE_MS: u64 = 3_000;

/// The placement weights for the next pickup, in tenths, chosen by which
/// third of the arena the player stands in: the draw leans away from the
/// player.
pub open spec fn spec_eth_weights(player_x: int) -> (u64, u64) {
    if player_x < -180_000 {
        (50u64, 10u64)
    } else if player_x > 240_000 {
        (10u64, 30u64)
    } else {
        (5u64, 5u64)
    }
}

/// The pickup rule: advances the collected-ago clock, and once no pickup
/// has existed for at least the spawn delay, hands back the placement
/// weights for the one to spawn.  The caller draws the position from the
/// weights and calls `spawn_eth` with it.
pub fn make_eth(dt: u32, eth_count: usize, picked: &mut EthPicked, player_x: i64) -> (r: Option<
    (u64, u64),
>)
    requires
        old(picked).0 <= PICKED_ELAPSED_CAP,
    ensures
        final(picked).0 == spec_picked_after(old(picked).0, dt),
        r == (if eth_count == 0 && spec_picked_after(old(picked).0, dt) >= ETH_SPAWN_GATE_MS {
            Some(spec_eth_weights(player_x as int))
        } else {
            Option::<(u64, u64)>::None
        }),
{
    if picked.0 + dt as u64 >= PICKED_ELAPSED_CAP {
        picked.0 = PICKED_ELAPSED_CAP;
    } else {
        picked.0 = picked.0 + dt as u64;
    }
    if eth_count == 0 && picked.0 >= ETH_SPAWN_GATE_MS {
        if player_x < -180_000 {
            Some((50, 10))
        } else if player_x > 240_000 {
            Some((10, 30))
        } else {
            Some((5, 5))
        }
    } else {
        None
    }
}

/// Whether the player at `(x, y)` reaches the pickup `c`: close enough
/// horizontally and near the ground.
pub open spec fn spec_coin_collected(x: int, y: int, c: EthCoin) -> bool {
    &&& -30_000 < x - c.x < 30_000
    &&& y < -100_000
}

/// The holdings, surviving pickups, whether anything was collected, and
/// the requests posted, after the player sweeps the pickups in order:
/// each reached pickup is absorbed into the holdings (saturating at the
/// cap), and reaching the cap posts an upgrade request.
pub open spec fn spec_collect_eths(
    player_id: u64,
    x: int,
    y: int,
    eth0: EthOwned,
    coins: Seq<EthCoin>,
) -> (EthOwned, Seq<EthCoin>, bool, Seq<crate::player::UnitChanged>)
    decreases coins.len(),
{
    if coins.len() == 0 {
        (eth0, Seq::empty(), false, Seq::empty())
    } else {
        let c = coins.first();
        let rest = coins.drop_first();
        if spec_coin_collected(x, y, c) {
            let e1 = eth0.spec_add(c.eth);
            let here = if e1.current == e1.max {
                seq![
                    crate::player::UnitChanged {
                        unit: player_id,
                        new_state: None,
                        new_condition: Some(crate::player::UnitCondition::Upgraded),
                        new_orientation: None,
                    },
                ]
            } else {
                Seq::empty()
            };
            let r = spec_collect_eths(player_id, x, y, e1, rest);
            (r.0, r.1, true, here + r.3)
        } else {
            let r = spec_collect_eths(player_id, x, y, eth0, rest);
            (r.0, seq![c] + r.1, r.2, r.3)
        }
    }
}

/// The collection pass: the player absorbs every pickup within reach; a
/// collection resets the collected-ago clock, and filling the holdings to
/// the cap posts an upgrade request per filling pickup.
pub fn player_collects_eth(
    picked: &mut EthPicked,
    player: &mut crate::player::Unit,
    eths: &mut Vec<EthCoin>,
    ev_unit_changed: &mut Vec<crate::player::UnitChanged>,
)
    requires
        old(player).wf(),
        forall|i: int| 0 <= i < old(eths)@.len() ==> (#[trigger] old(eths)@[i]).wf(),
    ensures
        ({
            let r = spec_collect_eths(
                old(player).id,
                old(player).x as int,
                old(player).y as int,
                old(player).eth,
                old(eths)@,
            );
            &&& *final(player) == (crate::player::Unit { eth: r.0, ..*old(player) })
            &&& final(eths)@ == r.1
            &&& final(picked).0 == (if r.2 {
                0
            } else {
                old(picked).0
            })
            &&& final(ev_unit_changed)@ == old(ev_unit_changed)@ + r.3
        }),
        final(player).wf(),
{
    let ghost total = spec_collect_eths(
        old(player).id,
        old(player).x as int,
        old(player).y as int,
        old(player).eth,
        old(eths)@,
    );
    let px = player.x;
    let py = player.y;
    let n = eths.len();
    let mut out: Vec<EthCoin> = Vec::new();
    let mut collected_any = false;
    let mut i: usize = 0;
    proof {
        assert(old(eths)@.skip(0) =~= old(eths)@);
    }
    while i < n
        invariant
            n == eths@.len(),
            eths@ == old(eths)@,
            i <= n,
            forall|j: int| 0 <= j < old(eths)@.len() ==> (#[trigger] old(eths)@[j]).wf(),
            px == old(player).x,
            py == old(player).y,
            player.wf(),
            *player == (crate::player::Unit { eth: player.eth, ..*old(player) }),
            total == spec_collect_eths(
                old(player).id,
                old(player).x as int,
                old(player).y as int,
                old(player).eth,
                old(eths)@,
            ),
            total == ({
                let r = spec_collect_eths(
                    old(player).id,
                    old(player).x as int,
                    old(player).y as int,
                    player.eth,
                    old(eths)@.skip(i as int),
                );
                (
                    r.0,
                    out@ + r.1,
                    collected_any || r.2,
                    ev_unit_changed@.skip(old(ev_unit_changed)@.len() as int) + r.3,
                )
            }),
            old(ev_unit_changed)@.len() <= ev_unit_changed@.len(),
            ev_unit_changed@.take(old(ev_unit_changed)@.len() as int) == old(ev_unit_changed)@,
        decreases n - i,
    {
        let c = eths[i];
        proof {
            assert(old(eths)@[i as int].wf());
            assert(old(eths)@.skip(i as int).first() == old(eths)@[i as int]);
            assert(old(eths)@.skip(i as int).drop_first() =~= old(eths)@.skip(i + 1));
        }
        let ghost pre_ev = ev_unit_changed@;
        let dx = px - c.x;
        if -30_000 < dx && dx < 30_000 && py < -100_000 {
            player.eth.add(&c.eth);
            collected_any = true;
            if player.eth.is_full() {
                ev_unit_changed.push(
                    crate::player::UnitChanged::entity(player.id).new_condition(
                        crate::player::UnitCondition::Upgraded,
                    ),
                );
            }
            proof {
                let r2 = spec_collect_eths(
                    old(player).id,
                    old(player).x as int,
                    old(player).y as int,
                    player.eth,
                    old(eths)@.skip(i + 1),
                );
                assert(ev_unit_changed@.take(old(ev_unit_changed)@.len() as int) =~= old(
                    ev_unit_changed,
                )@);
                if player.eth.current == player.eth.max {
                    assert(ev_unit_changed@.skip(old(ev_unit_changed)@.len() as int) =~= pre_ev.skip(
                        old(ev_unit_changed)@.len() as int,
                    ) + seq![
                        crate::player::UnitChanged {
                            unit: old(player).id,
                            new_state: None,
                            new_condition: Some(crate::player::UnitCondition::Upgraded),
                            new_orientation: None,
                        },
                    ]);
                    assert(pre_ev.skip(old(ev_unit_changed)@.len() as int) + (seq![
                        crate::player::UnitChanged {
                            unit: old(player).id,
                            new_state: None,
                            new_condition: Some(crate::player::UnitCondition::Upgraded),
                            new_orientation: None,
                        },
                    ] + r2.3) =~= ev_unit_changed@.skip(old(ev_unit_changed)@.len() as int)
                        + r2.3);
                } else {
                    assert(Seq::<crate::player::UnitChanged>::empty() + r2.3 =~= r2.3);
                }
            }
        } else {
            out.push(c);
            proof {
                let r2 = spec_collect_eths(
                    old(player).id,
                    old(player).x as int,
                    old(player).y as int,
                    player.eth,
                    old(eths)@.skip(i + 1),
                );
                assert(out@ + r2.1 =~= out@.drop_last() + (seq![c] + r2.1));
            }
        }
        i = i + 1;
    }
    proof {
        assert(old(eths)@.skip(n as int) =~= Seq::<EthCoin>::empty());
        assert(out@ + Seq::<EthCoin>::empty() =~= out@);
        assert(ev_unit_changed@.skip(old(ev_unit_changed)@.len() as int) + Seq::<
            crate::player::UnitChanged,
        >::empty() =~= ev_unit_changed@.skip(old(ev_unit_changed)@.len() as int));
        assert(ev_unit_changed@ =~= ev_unit_changed@.take(old(ev_unit_changed)@.len() as int)
            + ev_unit_changed@.skip(old(ev_unit_changed)@.len() as int));
    }
    *eths = out;
    if collected_any {
        picked.0 = 0;
    }
}

/// Holdings drained per millisecond while upgraded, in thousandths.
pub const ETH_DECAY_PER_MS: u64 = 2;

/// The decay pass: while upgraded, the player's holdings drain with time,
/// and the tick on which they run dry posts the downgrade request.
pub fn decay_player_eth(
    dt: u32,
    player: &mut crate::player::Unit,
    ev_unit_changed: &mut Vec<crate::player::UnitChanged>,
)
    requires
        old(player).wf(),
    ensures
        ({
            if old(player).condition == crate::player::UnitCondition::Upgraded {
                let e1 = old(player).eth.spec_remove((ETH_DECAY_PER_MS * dt) as u64);
                &&& *final(player) == (crate::player::Unit { eth: e1, ..*old(player) })
                &&& final(ev_unit_changed)@ == (if e1.current == 0 {
                    old(ev_unit_changed)@.push(
                        crate::player::UnitChanged {
                            unit: old(player).id,
                            new_state: None,
                            new_condition: Some(crate::player::UnitCondition::Normal),
                            new_orientation: None,
                        },
                    )
                } else {
                    old(ev_unit_changed)@
                })
            } else {
                &&& *final(player) == *old(player)
                &&& final(ev_unit_changed)@ == old(ev_unit_changed)@
            }
        }),
        final(player).wf(),
{
    if matches!(player.condition, crate::player::UnitCondition::Upgraded) {
        player.eth.remove(ETH_DECAY_PER_MS * dt as u64);
        if player.eth.is_empty() {
            ev_unit_changed.push(
                crate::player::UnitChanged::entity(player.id).new_condition(
                    crate::player::UnitCondition::Normal,
                ),
            );
        }
    }
}

/// Width of the full holdings gauge, in millipixels.
pub const ETH_GAUGE_FULL: u64 = 247_000;

/// The filled width of the holdings gauge, proportional to the holdings.
pub fn player_eth_gauge(eth: &EthOwned) -> (width: u64)
    requires
        eth.wf(),
    ensures
        width == eth.current * ETH_GAUGE_FULL / (eth.max as int),
{
    (eth.current * ETH_GAUGE_FULL) / eth.max
}

/// The sparkle pass: every pickup's sprite cycles on its frame timer.
pub fn animate_eth(dt: u32, eths: &mut Vec<EthCoin>)
    requires
        forall|i: int| 0 <= i < old(eths)@.len() ==> (#[trigger] old(eths)@[i]).wf(),
    ensures
        final(eths)@.len() == old(eths)@.len(),
        forall|i: int|
            0 <= i < old(eths)@.len() ==> final(eths)@[i] == (EthCoin {
                anim: Animation {
                    timer: old(eths)@[i].anim.timer.spec_tick(dt),
                    ..old(eths)@[i].anim
                },
                sprite_index: (if old(eths)@[i].anim.timer.elapsed_ms + dt
                    >= old(eths)@[i].anim.timer.duration_ms {
                    ((old(eths)@[i].sprite_index + 1) % (ETH_FRAMES as int)) as usize
                } else {
                    old(eths)@[i].sprite_index
                }),
                ..old(eths)@[i]
            }),
        forall|i: int| 0 <= i < final(eths)@.len() ==> (#[trigger] final(eths)@[i]).wf(),
{
    let n = eths.len();
    let mut i: usize = 0;
    while i < n
        invariant
            n == eths@.len(),
            n == old(eths)@.len(),
            i <= n,
            forall|j: int| 0 <= j < old(eths)@.len() ==> (#[trigger] old(eths)@[j]).wf(),
            forall|j: int|
                0 <= j < i ==> eths@[j] == (EthCoin {
                    anim: Animation {
                        timer: old(eths)@[j].anim.timer.spec_tick(dt),
                        ..old(eths)@[j].anim
                    },
                    sprite_index: (if old(eths)@[j].anim.timer.elapsed_ms + dt
                        >= old(eths)@[j].anim.timer.duration_ms {
                        ((old(eths)@[j].sprite_index + 1) % (ETH_FRAMES as int)) as usize
                    } else {
                        old(eths)@[j].sprite_index
                    }),
                    ..old(eths)@[j]
                }),
            forall|j: int| 0 <= j < i ==> (#[trigger] eths@[j]).wf(),
            forall|j: int| i <= j < n ==> eths@[j] == old(eths)@[j],
        decreases n - i,
    {
        let mut c = eths[i];
        proof {
            assert(old(eths)@[i as int].wf());
        }
        let crossing = c.anim.timer.elapsed_ms as u64 + dt as u64
            >= c.anim.timer.duration_ms as u64;
        c.anim.timer.tick(dt);
        if crossing {
            c.sprite_index = (c.sprite_index + 1) % ETH_FRAMES;
        }
        eths.set(i, c);
        i = i + 1;
    }
}

} // verus!
