//! The spawner: on a repeating interval, if the world is under the
//! adversary cap and a player exists, rolls an archetype from the
//! cycle-indexed weighted table, rolls the elite upgrade, and places the
//! new adversary on a ring around the player.

use vstd::prelude::*;

verus! {

use crate::geom::Vec2i;
use crate::geom::clamp_world;
use crate::geom::dir_milli;
use crate::geom::in_world;
use crate::geom::scale_milli;
use crate::ranged::RangedAttacker;
use crate::rng::roll_range;
use crate::skirmisher::TeleportSkirmisher;
use crate::charger::Charger;
use crate::summoner::Summoner;
use crate::stats::Archetype;
use crate::stats::BaseStats;
use crate::stats::MULT_TENTHS_LIMIT;
use crate::stats::apply_elite;
use crate::stats::elite_capable;
use crate::stats::elite_capable_spec;
use crate::stats::elite_spec;
use crate::stats::ranged_params_spec;
use crate::stats::stats_for;
use crate::stats::stats_for_spec;
use crate::timer::TICK_MS_LIMIT;
use crate::world::Adversary;
use crate::world::BehaviorState;
use crate::world::World;

/// Chance of an elite spawn, in per-mille.
pub const ELITE_CHANCE_PM: u64 = 50;

/// The spawn ring around the player, in milliunits: seventy percent to one
/// hundred percent of the viewport width.
pub const SPAWN_DIST_MIN_MILLI: u64 = 896_000;

pub const SPAWN_DIST_MAX_MILLI: u64 = 1_280_000;

/// The spawn timer's accumulated time after it is brought to the current
/// interval, capped there.
pub open spec fn spawn_elapsed_capped(timer: crate::timer::TickTimer, interval_ms: int) -> int {
    if timer.elapsed_ms <= interval_ms {
        timer.elapsed_ms as int
    } else {
        interval_ms
    }
}

/// Whether the spawn interval lapses during this tick: the timer is first
/// brought to the given interval, keeping its accumulated time capped at
/// that interval.
pub open spec fn spawn_lapses(
    timer: crate::timer::TickTimer,
    interval_ms: int,
    dt_ms: int,
) -> bool {
    spawn_elapsed_capped(timer, interval_ms) + dt_ms >= interval_ms
}

/// Whether this world's spawn interval lapses during this tick.
pub open spec fn spawn_due(w: World, dt_ms: int) -> bool {
    spawn_lapses(w.spawn_timer, w.difficulty.spawn_interval_ms as int, dt_ms)
}

/// The spawn timer's accumulated time after the pass: retimed to the
/// interval, advanced by the tick, wrapped on a lapse.
pub open spec fn spawn_elapsed_after(
    timer: crate::timer::TickTimer,
    interval_ms: int,
    dt_ms: int,
) -> int {
    let eff = spawn_elapsed_capped(timer, interval_ms);
    if eff + dt_ms >= interval_ms {
        (eff + dt_ms) % interval_ms
    } else {
        eff + dt_ms
    }
}

/// The archetype the weighted table picks for a cycle and two per-mille
/// rolls. Early cycles offer only the weakest archetype; later cycles add
/// higher tiers, up to a six-way roll.
pub open spec fn choose_archetype_spec(cycle: int, r1: int, r2: int) -> Archetype {
    if cycle <= 2 {
        Archetype::SkitteringShadowling
    } else if cycle <= 4 {
        if r1 < 300 {
            Archetype::SkitteringShadowling
        } else if r2 < 300 {
            Archetype::FloatingEyeball
        } else {
            Archetype::VoidBlinker
        }
    } else if cycle <= 6 {
        if r1 < 200 {
            Archetype::SkitteringShadowling
        } else if r1 < 400 {
            Archetype::FloatingEyeball
        } else if r1 < 600 {
            Archetype::VoidBlinker
        } else {
            Archetype::FleshWeaver
        }
    } else {
        if r1 < 150 {
            Archetype::SkitteringShadowling
        } else if r1 < 300 {
            Archetype::FloatingEyeball
        } else if r1 < 450 {
            Archetype::VoidBlinker
        } else if r1 < 600 {
            Archetype::FleshWeaver
        } else if r1 < 800 {
            Archetype::FrenziedBehemoth
        } else {
            Archetype::AmorphousFleshbeast
        }
    }
}

/// Exact executable form of [`choose_archetype_spec`].
pub fn choose_archetype(cycle: u32, r1: u64, r2: u64) -> (r: Archetype)
    ensures
        r == choose_archetype_spec(cycle as int, r1 as int, r2 as int),
{
    if cycle <= 2 {
        Archetype::SkitteringShadowling
    } else if cycle <= 4 {
        if r1 < 300 {
            Archetype::SkitteringShadowling
        } else if r2 < 300 {
            Archetype::FloatingEyeball
        } else {
            Archetype::VoidBlinker
        }
    } else if cycle <= 6 {
        if r1 < 200 {
            Archetype::SkitteringShadowling
        } else if r1 < 400 {
            Archetype::FloatingEyeball
        } else if r1 < 600 {
            Archetype::VoidBlinker
        } else {
            Archetype::FleshWeaver
        }
    } else {
        if r1 < 150 {
            Archetype::SkitteringShadowling
        } else if r1 < 300 {
            Archetype::FloatingEyeball
        } else if r1 < 450 {
            Archetype::VoidBlinker
        } else if r1 < 600 {
            Archetype::FleshWeaver
        } else if r1 < 800 {
            Archetype::FrenziedBehemoth
        } else {
            Archetype::AmorphousFleshbeast
        }
    }
}

/// The behaviour payload an archetype spawns with.
pub open spec fn behavior_matches(archetype: Archetype, b: BehaviorState) -> bool {
    match archetype {
        Archetype::FloatingEyeball => b is Ranged,
        Archetype::VoidBlinker => b is Skirmisher,
        Archetype::FleshWeaver => b is Summoner,
        Archetype::FrenziedBehemoth => b is Charger,
        _ => b is Chaser,
    }
}

/// Build one fresh adversary: roll the stat table once, apply the elite
/// transform exactly once if the elite roll succeeded, and attach the
/// archetype's behaviour machine in its initial state.
pub fn make_adversary(id: u64, archetype: Archetype, mult_tenths: u32, elite: bool, pos: Vec2i) -> (a:
    Adversary)
    requires
        10 <= mult_tenths <= MULT_TENTHS_LIMIT,
        in_world(pos),
        elite ==> elite_capable_spec(archetype),
    ensures
        a.wf(),
        a.id == id,
        a.pos == pos,
        a.vel == (Vec2i { x: 0, y: 0 }),
        a.elite == elite,
        a.speed_factor_pm == 1000,
        a.stats == if elite {
            elite_spec(stats_for_spec(archetype, mult_tenths as int))
        } else {
            stats_for_spec(archetype, mult_tenths as int)
        },
        a.stats.archetype == archetype,
        a.health == a.stats.health,
        behavior_matches(archetype, a.behavior),
        // A ranged spawn carries exactly the table's attack parameters,
        // and starts idle.
        a.behavior matches BehaviorState::Ranged(m) ==> ranged_params_spec(archetype) == Some(
            crate::stats::RangedParams {
                range_milli: m.shooting_range_milli,
                fire_interval_ms: m.fire_timer.duration_ms,
                projectile_speed_milli: m.projectile_speed_milli,
                projectile_damage: m.projectile_damage,
            },
        ) && m.state == crate::ranged::RangedState::Idle,
        // The other machines start in their rest states.
        a.behavior matches BehaviorState::Skirmisher(m) ==> m.state
            == crate::skirmisher::SkirmisherState::Chasing && m.teleport_destination is None,
        a.behavior matches BehaviorState::Summoner(m) ==> m.max_minions
            == crate::summoner::SUMMONER_MINION_CAP && m.minion_ids@.len() == 0,
        a.behavior matches BehaviorState::Charger(m) ==> m.state
            == crate::charger::ChargerState::Roaming && m.charge_target is None
            && m.charge_direction is None,
{
    let base: BaseStats = stats_for(archetype, mult_tenths);
    let stats: BaseStats = if elite {
        apply_elite(base)
    } else {
        base
    };
    let behavior: BehaviorState = match archetype {
        Archetype::FloatingEyeball => {
            match crate::stats::ranged_params(archetype) {
                Some(rp) => BehaviorState::Ranged(
                    RangedAttacker::new(
                        rp.range_milli,
                        rp.fire_interval_ms,
                        rp.projectile_speed_milli,
                        rp.projectile_damage,
                    ),
                ),
                // The table always carries ranged parameters for this
                // archetype.
                None => BehaviorState::Chaser,
            }
        },
        Archetype::VoidBlinker => BehaviorState::Skirmisher(TeleportSkirmisher::new()),
        Archetype::FleshWeaver => BehaviorState::Summoner(Summoner::new()),
        Archetype::FrenziedBehemoth => BehaviorState::Charger(Charger::new()),
        _ => BehaviorState::Chaser,
    };
    Adversary {
        id,
        pos,
        vel: Vec2i { x: 0, y: 0 },
        health: stats.health,
        stats,
        elite,
        speed_factor_pm: 1000,
        behavior,
    }
}

/// A drawn ring point: `r` is `center` plus a nonzero fixed-point unit
/// direction scaled into the distance band, clamped to the world.
pub open spec fn on_ring(center: Vec2i, r: Vec2i, d: Vec2i, dist: int, lo: int, hi: int) -> bool {
    &&& -crate::MILLI <= d.x <= crate::MILLI
    &&& -crate::MILLI <= d.y <= crate::MILLI
    &&& !(d.x == 0 && d.y == 0)
    &&& lo <= dist < hi
    &&& r.x == crate::geom::clamp_world_spec(center.x + crate::geom::scale_spec(d.x as int, dist, 1000))
    &&& r.y == crate::geom::clamp_world_spec(center.y + crate::geom::scale_spec(d.y as int, dist, 1000))
}

/// A random point on a ring around `center`: a random direction, at a
/// distance drawn from the given band, clamped to the world. Whatever the
/// draws, the result is a ring point of the band, never further than the
/// band's bound from the center on either axis.
pub fn ring_point_near(center: Vec2i, dist_min_milli: u64, dist_max_milli: u64) -> (r: Vec2i)
    requires
        in_world(center),
        0 < dist_min_milli < dist_max_milli,
        dist_max_milli <= 0x100_0000_0000u64,
    ensures
        in_world(r),
        exists|d: Vec2i, dist: int|
            #[trigger] on_ring(center, r, d, dist, dist_min_milli as int, dist_max_milli as int),
        -(dist_max_milli as int) <= r.x - center.x <= dist_max_milli,
        -(dist_max_milli as int) <= r.y - center.y <= dist_max_milli,
{
    let rx: u64 = roll_range(0, 2001);
    let ry: u64 = roll_range(0, 2001);
    let raw = Vec2i { x: (rx as i64) - 1000, y: (ry as i64) - 1000 };
    let dir: Vec2i = if raw.x == 0 && raw.y == 0 {
        Vec2i { x: 1000, y: 0 }
    } else {
        dir_milli(Vec2i { x: 0, y: 0 }, raw)
    };
    let dist: u64 = roll_range(dist_min_milli, dist_max_milli);
    proof {
        crate::geom::lemma_scale_component_bound(dir.x as int, dist as int);
        crate::geom::lemma_scale_component_bound(dir.y as int, dist as int);
    }
    let off_x: i64 = scale_milli(dir.x, dist, 1000);
    let off_y: i64 = scale_milli(dir.y, dist, 1000);
    let out = Vec2i { x: clamp_world(center.x + off_x), y: clamp_world(center.y + off_y) };
    proof {
        assert(on_ring(
            center,
            out,
            dir,
            dist as int,
            dist_min_milli as int,
            dist_max_milli as int,
        ));
    }
    out
}

/// A random point on the spawn ring around the player: seventy to one
/// hundred percent of the viewport width away.
pub fn spawn_point_near(center: Vec2i) -> (r: Vec2i)
    requires
        in_world(center),
    ensures
        in_world(r),
        exists|d: Vec2i, dist: int|
            #[trigger] on_ring(center, r, d, dist, SPAWN_DIST_MIN_MILLI as int, SPAWN_DIST_MAX_MILLI as int),
        -(SPAWN_DIST_MAX_MILLI as int) <= r.x - center.x <= SPAWN_DIST_MAX_MILLI,
        -(SPAWN_DIST_MAX_MILLI as int) <= r.y - center.y <= SPAWN_DIST_MAX_MILLI,
{
    ring_point_near(center, SPAWN_DIST_MIN_MILLI, SPAWN_DIST_MAX_MILLI)
}

/// The spawner pass. The interval timer follows the difficulty state's
/// spawn interval; when it lapses with a player present and the world
/// under the adversary cap, exactly one adversary spawns on the ring
/// around the player. Without a player the lapse is skipped silently.
pub fn spawner_pass(world: &mut World, dt_ms: u64)
    requires
        old(world).wf(),
        dt_ms <= TICK_MS_LIMIT,
    ensures
        final(world).wf(),
        // Exactly one adversary spawns when the interval lapses with a
        // player present, room under the cap and id space left — and none
        // otherwise.
        final(world).adversaries@.len() == old(world).adversaries@.len() + (
        if spawn_due(*old(world), dt_ms as int) && old(world).player is Some && old(
            world,
        ).adversaries@.len() < old(world).difficulty.max_adversaries && old(world).next_id
            != u64::MAX {
            1int
        } else {
            0int
        }),
        // The interval timer now runs at the difficulty state's interval,
        // and its accumulated time is advanced by the tick whether or not
        // anything spawned — a missing player skips only the spawn itself.
        final(world).spawn_timer == (crate::timer::TickTimer {
            elapsed_ms: spawn_elapsed_after(
                old(world).spawn_timer,
                old(world).difficulty.spawn_interval_ms as int,
                dt_ms as int,
            ) as u64,
            duration_ms: old(world).difficulty.spawn_interval_ms,
            repeating: true,
        }),
        // The id counter advances with the spawn and only with it.
        final(world).next_id == old(world).next_id + (
        if spawn_due(*old(world), dt_ms as int) && old(world).player is Some && old(world).adversaries@.len() < old(world).difficulty.max_adversaries && old(world).next_id
            != u64::MAX {
            1int
        } else {
            0int
        }),
        final(world).adversaries@.len() <= old(world).adversaries@.len() + 1,
        old(world).adversaries@.len() >= old(world).difficulty.max_adversaries ==> final(world).adversaries@.len() == old(world).adversaries@.len(),
        old(world).player is None ==> final(world).adversaries@ == old(world).adversaries@,
        // Existing adversaries are untouched.
        forall|i: int|
            0 <= i < old(world).adversaries@.len() ==> #[trigger] final(world).adversaries@[i]
                == old(world).adversaries@[i],
        // A fresh spawn took its stats from the table for the current
        // cycle, with the elite transform applied exactly once when it
        // rolled elite; minions, summoners and chargers never spawn elite.
        final(world).adversaries@.len() == old(world).adversaries@.len() + 1 ==> {
            let a = final(world).adversaries@.last();
            &&& a.id == old(world).next_id
            &&& a.health == a.stats.health
            &&& (a.elite ==> elite_capable_spec(a.stats.archetype))
            &&& a.stats == if a.elite {
                elite_spec(
                    stats_for_spec(
                        a.stats.archetype,
                        old(world).difficulty.mult_tenths_spec(),
                    ),
                )
            } else {
                stats_for_spec(a.stats.archetype, old(world).difficulty.mult_tenths_spec())
            }
            &&& behavior_matches(a.stats.archetype, a.behavior)
            // The archetype came out of the cycle's weighted table, for
            // some pair of per-mille rolls.
            &&& (exists|r1: int, r2: int|
                0 <= r1 < 1000 && 0 <= r2 < 1000 && a.stats.archetype
                    == #[trigger] choose_archetype_spec(
                    old(world).difficulty.cycle as int,
                    r1,
                    r2,
                ))
            // The spawn stands on the ring around the player, inside the
            // viewport band, whatever the draws.
            &&& (old(world).player matches Some(pl) ==> (exists|d: Vec2i, dist: int|
                #[trigger] on_ring(
                    pl.pos,
                    a.pos,
                    d,
                    dist,
                    SPAWN_DIST_MIN_MILLI as int,
                    SPAWN_DIST_MAX_MILLI as int,
                )) && -(SPAWN_DIST_MAX_MILLI as int) <= a.pos.x - pl.pos.x <= SPAWN_DIST_MAX_MILLI
                && -(SPAWN_DIST_MAX_MILLI as int) <= a.pos.y - pl.pos.y <= SPAWN_DIST_MAX_MILLI)
        },
        final(world).projectiles == old(world).projectiles,
        final(world).chain_requests == old(world).chain_requests,
        final(world).player == old(world).player,
        final(world).difficulty == old(world).difficulty,
        final(world).score == old(world).score,
{
    // Keep the interval in step with the difficulty scaling.
    if world.spawn_timer.duration_ms != world.difficulty.spawn_interval_ms {
        let interval: u64 = world.difficulty.spawn_interval_ms;
        world.spawn_timer.retime(interval);
    }
    let lapsed: bool = world.spawn_timer.tick(dt_ms);
    if !lapsed {
        return ;
    }
    let count: usize = world.adversaries.len();
    if count as u64 >= world.difficulty.max_adversaries as u64 {
        return ;
    }
    let player_pos: Vec2i = match &world.player {
        Some(p) => p.pos,
        None => {
            return ;
        },
    };
    if world.next_id == u64::MAX {
        // The id space is spent; no further spawns this session.
        return ;
    }
    let r1: u64 = roll_range(0, 1000);
    let r2: u64 = roll_range(0, 1000);
    let elite_roll: u64 = roll_range(0, 1000);
    let archetype: Archetype = choose_archetype(world.difficulty.cycle, r1, r2);
    proof {
        assert(archetype == choose_archetype_spec(
            world.difficulty.cycle as int,
            r1 as int,
            r2 as int,
        ));
    }
    let elite: bool = elite_roll < ELITE_CHANCE_PM && elite_capable(archetype);
    let pos: Vec2i = spawn_point_near(player_pos);
    let mult: u32 = world.difficulty.mult_tenths();
    let id: u64 = world.next_id;
    let a: Adversary = make_adversary(id, archetype, mult, elite, pos);
    world.adversaries.push(a);
    world.next_id = world.next_id + 1;
}

} // verus!
