//! The behaviour pass: every adversary's state machine takes one tick,
//! producing its movement vector for the movement pass and its side
//! effects — a ranged shot, an instant teleport, a batch of summoned
//! minions. Without a player every machine skips its player-dependent
//! work and nothing moves.

use vstd::prelude::*;

verus! {

use crate::geom::Vec2i;
use crate::geom::dir_milli;
use crate::geom::dir_spec;
use crate::geom::in_world;
use crate::geom::scale_spec;
use crate::geom::vel_from_dir;
use crate::geom::vel_spec;
use crate::ranged::RangedState;
use crate::ranged::beyond_leash;
use crate::ranged::fire_due;
use crate::ranged::in_shoot_range;
use crate::skirmisher::SkirmisherState;
use crate::skirmisher::targetable_spec;
use crate::charger::ChargerState;
use crate::spawner::make_adversary;
use crate::spawner::ring_point_near;
use crate::stats::Archetype;
use crate::timer::TICK_MS_LIMIT;
use crate::timer::TickTimer;
use crate::world::ADVERSARY_PROJECTILE_LIFETIME_MS;
use crate::world::Adversary;
use crate::world::BehaviorState;
use crate::world::Projectile;
use crate::world::World;

/// Minion spawn offsets from the summoner, in milliunits.
pub const MINION_OFFSET_MIN_MILLI: u64 = 20_000;

pub const MINION_OFFSET_MAX_MILLI: u64 = 50_000;

/// Collect the ids of all live adversaries, in order.
fn collect_ids(advs: &Vec<Adversary>) -> (r: Vec<u64>)
    ensures
        r@.len() == advs@.len(),
        forall|i: int| 0 <= i < advs@.len() ==> r@[i] == (#[trigger] advs@[i]).id,
{
    let n: usize = advs.len();
    let mut out: Vec<u64> = Vec::new();
    let mut i: usize = 0;
    while i < n
        invariant
            i <= n,
            n == advs@.len(),
            out@.len() == i,
            forall|j: int| 0 <= j < i ==> out@[j] == (#[trigger] advs@[j]).id,
        decreases n - i,
    {
        out.push(advs[i].id);
        i = i + 1;
    }
    out
}

/// What one behaviour tick must have done to one adversary, restated per
/// machine state: the movement vector the movement pass will consume, the
/// transitions forced by timers and distances, and the teleport
/// relocation. `speed` is the slow-adjusted movement speed.
pub open spec fn pass_tick_ok(a0: Adversary, a1: Adversary, player_pos: Vec2i, dt_ms: int) -> bool {
    let speed = a0.effective_speed_spec();
    match a0.behavior {
        BehaviorState::Chaser => a1.behavior is Chaser && a1.pos == a0.pos && a1.vel == vel_spec(
            dir_spec(a0.pos, player_pos),
            speed,
        ),
        BehaviorState::Ranged(m0) => match a1.behavior {
            BehaviorState::Ranged(m1) => {
                &&& a1.pos == a0.pos
                &&& (m0.state == RangedState::Idle ==> a1.vel == vel_spec(
                    dir_spec(a0.pos, player_pos),
                    speed,
                ) && m1.state == (if in_shoot_range(
                    a0.pos,
                    player_pos,
                    m0.shooting_range_milli as int,
                ) {
                    RangedState::Attacking
                } else {
                    RangedState::Idle
                }))
                &&& (m0.state == RangedState::Attacking ==> a1.vel == (Vec2i { x: 0, y: 0 }))
                &&& (m0.state == RangedState::Attacking && beyond_leash(
                    a0.pos,
                    player_pos,
                    m0.shooting_range_milli as int,
                ) ==> m1.state == RangedState::Idle)
                &&& (m0.state == RangedState::Attacking && !beyond_leash(
                    a0.pos,
                    player_pos,
                    m0.shooting_range_milli as int,
                ) && fire_due(m0, dt_ms) ==> m1.state == RangedState::Repositioning)
                &&& (m0.state == RangedState::Repositioning ==> (m1.state == RangedState::Idle
                    <==> (m0.reposition_timer.elapsed_ms + dt_ms
                    >= m0.reposition_timer.duration_ms || (m0.reposition_target matches Some(t)
                    && crate::geom::dist_sq_spec(a0.pos, t) < crate::geom::sq(
                    crate::ranged::REPOSITION_ARRIVE_MILLI as int,
                )))))
            },
            _ => false,
        },
        BehaviorState::Skirmisher(m0) => match a1.behavior {
            BehaviorState::Skirmisher(m1) => {
                &&& (!targetable_spec(m0.state) ==> a1.vel == (Vec2i { x: 0, y: 0 }))
                &&& (m0.state == SkirmisherState::Chasing ==> a1.pos == a0.pos && a1.vel
                    == vel_spec(dir_spec(a0.pos, player_pos), speed) && (m1.state
                    == SkirmisherState::PhasingOut <==> m0.action_timer.elapsed_ms + dt_ms
                    >= m0.action_timer.duration_ms))
                &&& (m0.state == SkirmisherState::Cooldown ==> a1.pos == a0.pos && a1.vel
                    == vel_spec(
                    dir_spec(a0.pos, player_pos),
                    scale_spec(speed, crate::skirmisher::COOLDOWN_SPEED_PM as int, 1000),
                ) && (m1.state == SkirmisherState::Chasing <==> m0.action_timer.elapsed_ms + dt_ms
                    >= m0.action_timer.duration_ms))
                // The relocation happens exactly on leaving the phased-out
                // moment, to the stored destination.
                &&& (m0.state == SkirmisherState::PhasedOut && m1.state
                    == SkirmisherState::PhasingIn ==> a1.pos == m0.teleport_destination->Some_0)
                &&& (m0.state == SkirmisherState::PhasedOut && m1.state
                    == SkirmisherState::PhasedOut ==> a1.pos == a0.pos)
                &&& (m0.state == SkirmisherState::PhasingOut || m0.state
                    == SkirmisherState::PhasingIn ==> a1.pos == a0.pos)
            },
            _ => false,
        },
        BehaviorState::Summoner(m0) => match a1.behavior {
            BehaviorState::Summoner(m1) => {
                &&& a1.pos == a0.pos
                &&& m1.max_minions == m0.max_minions
                &&& m1.minion_ids@.len() <= m1.max_minions
                &&& (crate::geom::dist_sq_spec(a0.pos, player_pos)
                    < crate::summoner::COMFORT_NEAR_MILLI * crate::summoner::COMFORT_NEAR_MILLI
                    ==> a1.vel == vel_spec(
                    dir_spec(player_pos, a0.pos),
                    scale_spec(speed, crate::summoner::SUMMONER_SPEED_PM as int, 1000),
                ))
                &&& (crate::geom::dist_sq_spec(a0.pos, player_pos)
                    > crate::summoner::COMFORT_FAR_MILLI * crate::summoner::COMFORT_FAR_MILLI
                    ==> a1.vel == vel_spec(
                    dir_spec(a0.pos, player_pos),
                    scale_spec(speed, crate::summoner::SUMMONER_SPEED_PM as int, 1000),
                ))
                &&& (crate::summoner::COMFORT_NEAR_MILLI * crate::summoner::COMFORT_NEAR_MILLI
                    <= crate::geom::dist_sq_spec(a0.pos, player_pos)
                    <= crate::summoner::COMFORT_FAR_MILLI * crate::summoner::COMFORT_FAR_MILLI
                    ==> a1.vel == (Vec2i { x: 0, y: 0 }))
            },
            _ => false,
        },
        BehaviorState::Charger(m0) => match a1.behavior {
            BehaviorState::Charger(m1) => {
                &&& a1.pos == a0.pos
                &&& (m0.state == ChargerState::Roaming ==> a1.vel == vel_spec(
                    dir_spec(a0.pos, player_pos),
                    speed,
                ) && (m1.state == ChargerState::Telegraphing <==> {
                    &&& m0.cooldown_timer.elapsed_ms + dt_ms >= m0.cooldown_timer.duration_ms
                    &&& crate::geom::dist_sq_spec(a0.pos, player_pos)
                        < crate::charger::DETECTION_RANGE_MILLI
                        * crate::charger::DETECTION_RANGE_MILLI
                    &&& crate::geom::dist_sq_spec(a0.pos, player_pos)
                        > crate::charger::MIN_CHARGE_RANGE_MILLI
                        * crate::charger::MIN_CHARGE_RANGE_MILLI
                }))
                &&& (m0.state == ChargerState::Telegraphing || m0.state == ChargerState::Cooldown
                    ==> a1.vel == (Vec2i { x: 0, y: 0 }))
                &&& (m0.state == ChargerState::Telegraphing && m1.state == ChargerState::Charging
                    ==> m1.charge_direction == Some(
                    dir_spec(a0.pos, m0.charge_target->Some_0),
                ))
                // The charge rush ignores partial slow factors; a full
                // freeze halts it.
                &&& (m0.state == ChargerState::Charging ==> a1.vel == vel_spec(
                    m0.charge_direction->Some_0,
                    (if a0.speed_factor_pm == 0 {
                        0int
                    } else {
                        a0.stats.speed_milli as int
                    }) * 3500 / 1000,
                ))
                &&& (m0.state == ChargerState::Charging && m1.state == ChargerState::Charging
                    ==> m1.charge_direction == m0.charge_direction)
            },
            _ => false,
        },
    }
}

/// The summoner at index `s` tracks minion `id` in its raised list.
pub open spec fn minion_tracked(advs: Seq<Adversary>, s: int, id: u64) -> bool {
    &&& 0 <= s < advs.len()
    &&& match advs[s].behavior {
        BehaviorState::Summoner(m) => m.minion_ids@.contains(id),
        _ => false,
    }
}

/// A raised minion stands on the offset ring around its summoner's
/// position, whatever the draws.
pub open spec fn minion_placed_ok(summoner_pos: Vec2i, a: Adversary) -> bool {
    &&& (exists|d: Vec2i, dist: int|
        #[trigger] crate::spawner::on_ring(
            summoner_pos,
            a.pos,
            d,
            dist,
            MINION_OFFSET_MIN_MILLI as int,
            MINION_OFFSET_MAX_MILLI as int,
        ))
    &&& -(MINION_OFFSET_MAX_MILLI as int) <= a.pos.x - summoner_pos.x <= MINION_OFFSET_MAX_MILLI
    &&& -(MINION_OFFSET_MAX_MILLI as int) <= a.pos.y - summoner_pos.y <= MINION_OFFSET_MAX_MILLI
}

/// A ranged machine that must fire this tick: attacking, inside the
/// leash, with its fire timer due.
pub open spec fn must_fire(a0: Adversary, player_pos: Vec2i, dt_ms: int) -> bool {
    match a0.behavior {
        BehaviorState::Ranged(m0) => m0.state == RangedState::Attacking && !beyond_leash(
            a0.pos,
            player_pos,
            m0.shooting_range_milli as int,
        ) && fire_due(m0, dt_ms),
        _ => false,
    }
}

/// The projectile a firing machine leaves: adversary-side, at the firing
/// adversary's position, aimed at the player with the machine's attack
/// parameters, with a fresh lifetime.
pub open spec fn fired_projectile_ok(a0: Adversary, player_pos: Vec2i, q: Projectile) -> bool {
    match a0.behavior {
        BehaviorState::Ranged(m0) => {
            &&& !q.from_player
            &&& q.pos == a0.pos
            &&& q.vel == vel_spec(dir_spec(a0.pos, player_pos), m0.projectile_speed_milli as int)
            &&& q.damage == m0.projectile_damage
            &&& q.pierce_left == 0
            &&& q.chain_left == 0
            &&& !q.chain_capable
            &&& q.lifetime == (TickTimer {
                elapsed_ms: 0,
                duration_ms: ADVERSARY_PROJECTILE_LIFETIME_MS,
                repeating: false,
            })
        },
        _ => false,
    }
}

/// One adversary's behaviour step: tick its machine in place, leaving the
/// movement vector in `vel` and the relocation applied, and report the
/// shot to fire and the minions to raise. Identity and combat state never
/// change here.
fn step_one(a: &mut Adversary, dt_ms: u64, player_pos: Vec2i, live_ids: &Vec<u64>) -> (out: (
    Option<crate::ranged::ProjectileOrder>,
    usize,
))
    requires
        old(a).wf(),
        dt_ms <= TICK_MS_LIMIT,
        in_world(player_pos),
    ensures
        final(a).wf(),
        final(a).id == old(a).id,
        final(a).stats == old(a).stats,
        final(a).health == old(a).health,
        final(a).elite == old(a).elite,
        final(a).speed_factor_pm == old(a).speed_factor_pm,
        pass_tick_ok(*old(a), *final(a), player_pos, dt_ms as int),
        // A shot comes exactly from a firing ranged machine, aimed at the
        // player with the machine's parameters.
        out.0 is Some <==> must_fire(*old(a), player_pos, dt_ms as int),
        out.0 matches Some(o) ==> (old(a).behavior matches BehaviorState::Ranged(m0) && {
            &&& o.dir_milli == dir_spec(old(a).pos, player_pos)
            &&& o.speed_milli == m0.projectile_speed_milli
            &&& o.damage == m0.projectile_damage
            &&& 0 <= o.speed_milli <= 0x100_0000_0000i64
            &&& 0 <= o.damage <= 0x10_0000_0000i64
            &&& -crate::MILLI <= o.dir_milli.x <= crate::MILLI
            &&& -crate::MILLI <= o.dir_milli.y <= crate::MILLI
        }),
        out.0 is Some ==> final(a).pos == old(a).pos,
        // A summon order leaves room under the cap for every minion.
        out.1 > 0 ==> (final(a).behavior matches BehaviorState::Summoner(m1)
            && m1.minion_ids@.len() + out.1 <= m1.max_minions),
        out.1 <= crate::summoner::MINIONS_PER_SUMMON,
{
    let self_pos: Vec2i = a.pos;
    let speed: i64 = a.effective_speed();
    // The charge rush ignores partial slow factors, but a full freeze
    // halts it like everything else.
    let charge_speed: i64 = if a.speed_factor_pm == 0 {
        0
    } else {
        a.stats.speed_milli
    };
    let mut b: BehaviorState = BehaviorState::Chaser;
    core::mem::swap(&mut b, &mut a.behavior);
    let mut fired: Option<crate::ranged::ProjectileOrder> = None;
    let mut want: usize = 0;
    let mut new_pos: Option<Vec2i> = None;
    let vel: Vec2i;
    match b {
        BehaviorState::Chaser => {
            let d = dir_milli(self_pos, player_pos);
            vel = vel_from_dir(d, speed);
            b = BehaviorState::Chaser;
        },
        BehaviorState::Ranged(mut m) => {
            let out = m.tick(dt_ms, self_pos, player_pos, speed);
            vel = out.velocity;
            fired = out.fired;
            b = BehaviorState::Ranged(m);
        },
        BehaviorState::Skirmisher(mut m) => {
            let out = m.tick(dt_ms, self_pos, player_pos, speed);
            vel = out.velocity;
            new_pos = out.teleport_to;
            b = BehaviorState::Skirmisher(m);
        },
        BehaviorState::Summoner(mut m) => {
            m.prune_minions(live_ids);
            let out = m.tick(dt_ms, self_pos, player_pos, speed);
            vel = out.0;
            want = out.1;
            b = BehaviorState::Summoner(m);
        },
        BehaviorState::Charger(mut m) => {
            vel = m.tick(dt_ms, self_pos, player_pos, speed, charge_speed);
            b = BehaviorState::Charger(m);
        },
    }
    core::mem::swap(&mut b, &mut a.behavior);
    a.vel = vel;
    match new_pos {
        Some(np) => {
            a.pos = np;
        },
        None => {},
    }
    (fired, want)
}

/// The behaviour pass over every adversary. Each machine ticks once, in
/// arena order; ranged shots become adversary projectiles, a skirmisher
/// leaving its phased-out moment relocates, and summoners raise minions
/// that join the end of the arena. Ids, stats, healths and elite flags of
/// the existing adversaries never change here.
#[verifier::rlimit(100)]
pub fn behavior_pass(world: &mut World, dt_ms: u64)
    requires
        old(world).wf(),
        dt_ms <= TICK_MS_LIMIT,
    ensures
        final(world).wf(),
        final(world).adversaries@.len() >= old(world).adversaries@.len(),
        // The existing adversaries keep their identity and combat state.
        forall|i: int|
            0 <= i < old(world).adversaries@.len() ==> {
                let a0 = old(world).adversaries@[i];
                let a1 = #[trigger] final(world).adversaries@[i];
                a1.id == a0.id && a1.stats == a0.stats && a1.health == a0.health && a1.elite
                    == a0.elite
            },
        // Every machine took its tick: velocities, transitions and
        // relocations are those its own contract pins.
        old(world).player matches Some(pl) ==> forall|i: int|
            0 <= i < old(world).adversaries@.len() ==> pass_tick_ok(
                old(world).adversaries@[i],
                #[trigger] final(world).adversaries@[i],
                pl.pos,
                dt_ms as int,
            ),
        // Every firing ranged machine left its projectile.
        old(world).player matches Some(pl) ==> forall|i: int|
            0 <= i < old(world).adversaries@.len() && must_fire(
                #[trigger] old(world).adversaries@[i],
                pl.pos,
                dt_ms as int,
            ) ==> exists|k: int|
                old(world).projectiles@.len() <= k < final(world).projectiles@.len()
                    && #[trigger] fired_projectile_ok(
                    old(world).adversaries@[i],
                    pl.pos,
                    final(world).projectiles@[k],
                ),
        // Anything appended is a freshly summoned minion from the stat
        // table at the current difficulty, chasing at full speed.
        forall|i: int|
            old(world).adversaries@.len() <= i < final(world).adversaries@.len() ==> {
                let a = #[trigger] final(world).adversaries@[i];
                &&& a.id >= old(world).next_id
                &&& a.stats == crate::stats::stats_for_spec(
                    Archetype::CrawlingTorment,
                    old(world).difficulty.mult_tenths_spec(),
                )
                &&& a.stats.archetype == Archetype::CrawlingTorment
                &&& !a.elite
                &&& a.health == a.stats.health
                &&& a.speed_factor_pm == 1000
                &&& a.behavior is Chaser
                // It was raised by a summoner that now tracks its id, on
                // the 20-50 unit ring around that summoner.
                &&& (exists|s: int|
                    #[trigger] minion_tracked(final(world).adversaries@, s, a.id) && s < old(world).adversaries@.len() && minion_placed_ok(old(world).adversaries@[s].pos, a))
            },
        // Without a player, nothing spawns and nothing will move.
        old(world).player is None ==> final(world).adversaries@.len() == old(
            world,
        ).adversaries@.len() && forall|i: int|
            0 <= i < old(world).adversaries@.len() ==> #[trigger] final(world).adversaries@[i]
                == (Adversary { vel: Vec2i { x: 0, y: 0 }, ..old(world).adversaries@[i] }),
        // Projectiles are only appended, and only adversary-side ones.
        final(world).projectiles@.len() >= old(world).projectiles@.len(),
        forall|i: int|
            0 <= i < old(world).projectiles@.len() ==> #[trigger] final(world).projectiles@[i]
                == old(world).projectiles@[i],
        forall|i: int|
            old(world).projectiles@.len() <= i < final(world).projectiles@.len() ==> !(
            #[trigger] final(world).projectiles@[i]).from_player,
        final(world).chain_requests == old(world).chain_requests,
        final(world).player == old(world).player,
        final(world).difficulty == old(world).difficulty,
        final(world).spawn_timer == old(world).spawn_timer,
        final(world).score == old(world).score,
        final(world).next_id >= old(world).next_id,
{
    let player_pos: Vec2i = match &world.player {
        Some(p) => p.pos,
        None => {
            let n: usize = world.adversaries.len();
            let mut i: usize = 0;
            while i < n
                invariant
                    i <= n,
                    n == world.adversaries@.len(),
                    n == old(world).adversaries@.len(),
                    forall|j: int|
                        0 <= j < i ==> #[trigger] world.adversaries@[j] == (Adversary {
                            vel: Vec2i { x: 0, y: 0 },
                            ..old(world).adversaries@[j]
                        }),
                    forall|j: int|
                        i <= j < n ==> #[trigger] world.adversaries@[j] == old(
                            world,
                        ).adversaries@[j],
                    world.projectiles == old(world).projectiles,
                    world.chain_requests == old(world).chain_requests,
                    world.player == old(world).player,
                    world.difficulty == old(world).difficulty,
                    world.spawn_timer == old(world).spawn_timer,
                    world.next_id == old(world).next_id,
                    world.score == old(world).score,
                    old(world).wf(),
                decreases n - i,
            {
                proof {
                    assert(old(world).adversaries@[i as int].wf());
                }
                let a = &mut world.adversaries[i];
                a.vel = Vec2i { x: 0, y: 0 };
                i = i + 1;
            }
            proof {
                assert forall|j: int|
                    0 <= j < world.adversaries@.len() implies (
                #[trigger] world.adversaries@[j]).wf() by {
                    assert(old(world).adversaries@[j].wf());
                }
            }
            return ;
        },
    };
    let live_ids: Vec<u64> = collect_ids(&world.adversaries);
    let mult: u32 = world.difficulty.mult_tenths();
    let n: usize = world.adversaries.len();
    let mut spawned: Vec<Adversary> = Vec::new();
    let mut fresh_id: u64 = world.next_id;
    let mut i: usize = 0;
    while i < n
        invariant
            i <= n,
            n == world.adversaries@.len(),
            n == old(world).adversaries@.len(),
            dt_ms <= TICK_MS_LIMIT,
            in_world(player_pos),
            10 <= mult <= crate::stats::MULT_TENTHS_LIMIT,
            mult == old(world).difficulty.mult_tenths_spec(),
            old(world).player matches Some(pl) && player_pos == pl.pos,
            forall|j: int| 0 <= j < n ==> (#[trigger] world.adversaries@[j]).wf(),
            forall|j: int|
                0 <= j < i ==> {
                    let a0 = old(world).adversaries@[j];
                    let a1 = #[trigger] world.adversaries@[j];
                    a1.id == a0.id && a1.stats == a0.stats && a1.health == a0.health && a1.elite
                        == a0.elite
                },
            forall|j: int|
                0 <= j < i ==> pass_tick_ok(
                    old(world).adversaries@[j],
                    #[trigger] world.adversaries@[j],
                    player_pos,
                    dt_ms as int,
                ),
            forall|j: int|
                i <= j < n ==> #[trigger] world.adversaries@[j] == old(world).adversaries@[j],
            // Fresh minions collected so far: ids strictly rising from the
            // session counter.
            old(world).next_id <= fresh_id,
            fresh_id - old(world).next_id == spawned@.len(),
            forall|j: int|
                0 <= j < spawned@.len() ==> (#[trigger] spawned@[j]).id == old(world).next_id + j,
            forall|j: int| 0 <= j < spawned@.len() ==> (#[trigger] spawned@[j]).wf(),
            forall|j: int|
                0 <= j < spawned@.len() ==> (#[trigger] spawned@[j]).stats
                    == crate::stats::stats_for_spec(
                    Archetype::CrawlingTorment,
                    old(world).difficulty.mult_tenths_spec(),
                ) && spawned@[j].stats.archetype == Archetype::CrawlingTorment && !spawned@[j].elite
                    && spawned@[j].health == spawned@[j].stats.health && spawned@[j].speed_factor_pm
                    == 1000 && spawned@[j].behavior is Chaser,
            forall|k: int| #![trigger spawned@[k]]
                0 <= k < spawned@.len() ==> exists|s: int|
                    #[trigger] minion_tracked(world.adversaries@, s, spawned@[k].id) && s < i
                        && minion_placed_ok(old(world).adversaries@[s].pos, spawned@[k]),
            world.projectiles@.len() >= old(world).projectiles@.len(),
            forall|j: int|
                0 <= j < old(world).projectiles@.len() ==> #[trigger] world.projectiles@[j] == old(
                    world,
                ).projectiles@[j],
            forall|j: int|
                old(world).projectiles@.len() <= j < world.projectiles@.len() ==> (
                #[trigger] world.projectiles@[j]).wf() && !world.projectiles@[j].from_player,
            forall|j: int|
                0 <= j < i && must_fire(
                    #[trigger] old(world).adversaries@[j],
                    player_pos,
                    dt_ms as int,
                ) ==> exists|k: int|
                    old(world).projectiles@.len() <= k < world.projectiles@.len()
                        && #[trigger] fired_projectile_ok(
                        old(world).adversaries@[j],
                        player_pos,
                        world.projectiles@[k],
                    ),
            world.chain_requests == old(world).chain_requests,
            world.player == old(world).player,
            world.difficulty == old(world).difficulty,
            world.spawn_timer == old(world).spawn_timer,
            world.next_id == old(world).next_id,
            world.score == old(world).score,
            old(world).wf(),
        decreases n - i,
    {
        let ghost advs_pre_step = world.adversaries@;
        let (fired, want) = step_one(&mut world.adversaries[i], dt_ms, player_pos, &live_ids);
        let ghost projs_pre = world.projectiles@;
        proof {
            // Earlier minions keep their summoner witnesses across this
            // adversary's step.
            assert forall|k: int| #![trigger spawned@[k]]
                0 <= k < spawned@.len() implies exists|s: int|
                #[trigger] minion_tracked(world.adversaries@, s, spawned@[k].id) && s <= i
                    && minion_placed_ok(old(world).adversaries@[s].pos, spawned@[k]) by {
                let s0 = choose|s: int|
                    #[trigger] minion_tracked(advs_pre_step, s, spawned@[k].id) && s < i
                        && minion_placed_ok(old(world).adversaries@[s].pos, spawned@[k]);
                assert(world.adversaries@[s0] == advs_pre_step[s0]);
                assert(minion_tracked(world.adversaries@, s0, spawned@[k].id));
            }
        }
        match fired {
            Some(o) => {
                let fire_pos: Vec2i = world.adversaries[i].pos;
                let pvel: Vec2i = vel_from_dir(o.dir_milli, o.speed_milli);
                world.projectiles.push(
                    Projectile {
                        from_player: false,
                        pos: fire_pos,
                        vel: pvel,
                        damage: o.damage,
                        pierce_left: 0,
                        chain_left: 0,
                        chain_capable: false,
                        chain_range_milli: crate::world::CHAIN_RANGE_MILLI,
                        struck: Vec::new(),
                        lifetime: TickTimer::new(ADVERSARY_PROJECTILE_LIFETIME_MS, false),
                    },
                );
                proof {
                    assert(fired_projectile_ok(
                        old(world).adversaries@[i as int],
                        player_pos,
                        world.projectiles@[world.projectiles@.len() - 1],
                    ));
                    // Earlier shots keep their witnesses across the push.
                    assert forall|k: int|
                        0 <= k < i && must_fire(
                            old(world).adversaries@[k],
                            player_pos,
                            dt_ms as int,
                        ) implies exists|kk: int|
                        old(world).projectiles@.len() <= kk < world.projectiles@.len()
                            && #[trigger] fired_projectile_ok(
                            old(world).adversaries@[k],
                            player_pos,
                            world.projectiles@[kk],
                        ) by {
                        let kk0 = choose|kk: int|
                            old(world).projectiles@.len() <= kk < projs_pre.len()
                                && #[trigger] fired_projectile_ok(
                                old(world).adversaries@[k],
                                player_pos,
                                projs_pre[kk],
                            );
                        assert(world.projectiles@[kk0] == projs_pre[kk0]);
                        assert(fired_projectile_ok(
                            old(world).adversaries@[k],
                            player_pos,
                            world.projectiles@[kk0],
                        ));
                    }
                }
            },
            None => {},
        }
        let ghost a_stepped = world.adversaries@[i as int];
        let mut j: usize = 0;
        while j < want
            invariant
                j <= want,
                i < n,
                n == world.adversaries@.len(),
                n == old(world).adversaries@.len(),
                dt_ms <= TICK_MS_LIMIT,
                in_world(player_pos),
                10 <= mult <= crate::stats::MULT_TENTHS_LIMIT,
                mult == old(world).difficulty.mult_tenths_spec(),
                old(world).player matches Some(pl) && player_pos == pl.pos,
                forall|k: int| 0 <= k < n ==> (#[trigger] world.adversaries@[k]).wf(),
                forall|k: int|
                    0 <= k < i ==> {
                        let a0 = old(world).adversaries@[k];
                        let a1 = #[trigger] world.adversaries@[k];
                        a1.id == a0.id && a1.stats == a0.stats && a1.health == a0.health
                            && a1.elite == a0.elite
                    },
                forall|k: int|
                    0 <= k < i ==> pass_tick_ok(
                        old(world).adversaries@[k],
                        #[trigger] world.adversaries@[k],
                        player_pos,
                        dt_ms as int,
                    ),
                forall|k: int|
                    i < k < n ==> #[trigger] world.adversaries@[k] == old(world).adversaries@[k],
                world.projectiles@.len() >= old(world).projectiles@.len(),
                forall|k: int|
                    0 <= k < old(world).projectiles@.len() ==> #[trigger] world.projectiles@[k]
                        == old(world).projectiles@[k],
                forall|k: int|
                    old(world).projectiles@.len() <= k < world.projectiles@.len() ==> (
                    #[trigger] world.projectiles@[k]).wf() && !world.projectiles@[k].from_player,
                forall|k: int|
                    0 <= k <= i && must_fire(
                        #[trigger] old(world).adversaries@[k],
                        player_pos,
                        dt_ms as int,
                    ) && (k < i || fired is Some) ==> exists|kk: int|
                        old(world).projectiles@.len() <= kk < world.projectiles@.len()
                            && #[trigger] fired_projectile_ok(
                            old(world).adversaries@[k],
                            player_pos,
                            world.projectiles@[kk],
                        ),
                world.chain_requests == old(world).chain_requests,
                world.player == old(world).player,
                world.difficulty == old(world).difficulty,
                world.spawn_timer == old(world).spawn_timer,
                world.next_id == old(world).next_id,
                world.score == old(world).score,
                old(world).wf(),
                // Recording tracked ids touches only the summoner machine's
                // id list; everything else of the stepped adversary stays.
                world.adversaries@[i as int].id == a_stepped.id,
                world.adversaries@[i as int].pos == a_stepped.pos,
                world.adversaries@[i as int].vel == a_stepped.vel,
                world.adversaries@[i as int].health == a_stepped.health,
                world.adversaries@[i as int].stats == a_stepped.stats,
                world.adversaries@[i as int].elite == a_stepped.elite,
                world.adversaries@[i as int].speed_factor_pm == a_stepped.speed_factor_pm,
                pass_tick_ok(
                    old(world).adversaries@[i as int],
                    world.adversaries@[i as int],
                    player_pos,
                    dt_ms as int,
                ),
                want > 0 && j < want ==> (world.adversaries@[i as int].behavior matches
                    BehaviorState::Summoner(m1) && m1.minion_ids@.len() + (want - j)
                    <= m1.max_minions),
                old(world).next_id <= fresh_id,
                fresh_id - old(world).next_id == spawned@.len(),
                forall|k: int|
                    0 <= k < spawned@.len() ==> (#[trigger] spawned@[k]).id == old(world).next_id
                        + k,
                forall|k: int| 0 <= k < spawned@.len() ==> (#[trigger] spawned@[k]).wf(),
                forall|k: int|
                    0 <= k < spawned@.len() ==> (#[trigger] spawned@[k]).stats
                        == crate::stats::stats_for_spec(
                        Archetype::CrawlingTorment,
                        old(world).difficulty.mult_tenths_spec(),
                    ) && spawned@[k].stats.archetype == Archetype::CrawlingTorment && !spawned@[
                        k
                    ].elite && spawned@[k].health == spawned@[k].stats.health && spawned@[
                        k
                    ].speed_factor_pm == 1000 && spawned@[k].behavior is Chaser,
                forall|k: int| #![trigger spawned@[k]]
                    0 <= k < spawned@.len() ==> exists|s: int|
                        #[trigger] minion_tracked(world.adversaries@, s, spawned@[k].id) && s
                            <= i && minion_placed_ok(old(world).adversaries@[s].pos, spawned@[k]),
            decreases want - j,
        {
            if fresh_id < u64::MAX {
                let mp: Vec2i = ring_point_near(
                    world.adversaries[i].pos,
                    MINION_OFFSET_MIN_MILLI,
                    MINION_OFFSET_MAX_MILLI,
                );
                let minion: Adversary = make_adversary(
                    fresh_id,
                    Archetype::CrawlingTorment,
                    mult,
                    false,
                    mp,
                );
                let ghost advs_pre_rec = world.adversaries@;
                spawned.push(minion);
                match &mut world.adversaries[i].behavior {
                    BehaviorState::Summoner(m) => {
                        m.record_minion(fresh_id);
                    },
                    _ => {},
                }
                proof {
                    broadcast use vstd::seq_lib::lemma_seq_contains_after_push;

                    assert(a_stepped.pos == old(world).adversaries@[i as int].pos);
                    assert(minion_tracked(world.adversaries@, i as int, fresh_id));
                    assert(minion_placed_ok(old(world).adversaries@[i as int].pos, minion));
                    // Earlier minions stay tracked: no summoner loses an
                    // id when this one's list only grows.
                    assert forall|k: int| #![trigger spawned@[k]]
                        0 <= k < spawned@.len() implies exists|s: int|
                        #[trigger] minion_tracked(world.adversaries@, s, spawned@[k].id) && s
                            <= i && minion_placed_ok(
                            old(world).adversaries@[s].pos,
                            spawned@[k],
                        ) by {
                        if k < spawned@.len() - 1 {
                            let s0 = choose|s: int|
                                #[trigger] minion_tracked(advs_pre_rec, s, spawned@[k].id) && s
                                    <= i && minion_placed_ok(
                                    old(world).adversaries@[s].pos,
                                    spawned@[k],
                                );
                            if s0 < i as int {
                                assert(world.adversaries@[s0] == advs_pre_rec[s0]);
                            }
                            assert(minion_tracked(world.adversaries@, s0, spawned@[k].id));
                        } else {
                            assert(minion_tracked(world.adversaries@, i as int, spawned@[k].id));
                        }
                    }
                }
                fresh_id = fresh_id + 1;
            }
            j = j + 1;
        }
        i = i + 1;
    }

    world.next_id = fresh_id;
    let ghost sp_final = spawned@;
    let ghost advs_pre_append = world.adversaries@;
    world.adversaries.append(&mut spawned);
    proof {
        // The appended minions keep their summoner witnesses: the append
        // leaves the first `n` adversaries in place.
        assert forall|i2: int| #![trigger world.adversaries@[i2]]
            n <= i2 < world.adversaries@.len() implies exists|s: int|
            #[trigger] minion_tracked(world.adversaries@, s, world.adversaries@[i2].id) && s < n
                && minion_placed_ok(
                old(world).adversaries@[s].pos,
                world.adversaries@[i2],
            ) by {
            let k = i2 - n;
            assert(world.adversaries@[i2] == sp_final[k]);
            let s0 = choose|s: int|
                #[trigger] minion_tracked(advs_pre_append, s, sp_final[k].id) && s < n
                    && minion_placed_ok(old(world).adversaries@[s].pos, sp_final[k]);
            assert(world.adversaries@[s0] == advs_pre_append[s0]);
            assert(minion_tracked(world.adversaries@, s0, world.adversaries@[i2].id));
        }
        assert forall|j: int|
            0 <= j < world.adversaries@.len() implies (#[trigger] world.adversaries@[j]).wf() by {}
        assert forall|j1: int, j2: int|
            0 <= j1 < j2 < world.adversaries@.len() implies world.adversaries@[j1].id
            != world.adversaries@[j2].id by {
            if j1 < n && j2 >= n {
                assert(world.adversaries@[j1].id == old(world).adversaries@[j1].id);
                assert(old(world).adversaries@[j1].id < old(world).next_id);
            }
        }
    }
}

} // verus!
