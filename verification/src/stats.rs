//! Stat tables: pure functions from an adversary archetype and a difficulty
//! multiplier to base combat stats, and the elite variant transform.
//!
//! The difficulty multiplier is carried in tenths (a value of 10 is the
//! session-start multiplier of one). Health scales multiplicatively with the
//! multiplier and is floored at 1; speed grows linearly above the base.

use vstd::prelude::*;

verus! {

use crate::geom::Vec2i;

/// Base experience granted by the weakest full adversary.
pub const SOUL_XP: u64 = 25;

/// Largest difficulty multiplier the tables accept, in tenths.
pub const MULT_TENTHS_LIMIT: u32 = 10_000_000;

/// The fixed catalog of adversary archetypes.
#[derive(Clone, Copy, PartialEq, Eq, Structural, Debug)]
pub enum Archetype {
    /// Fast light melee chaser.
    SkitteringShadowling,
    /// Ranged attacker that keeps its distance and fires projectiles.
    FloatingEyeball,
    /// Slow heavy melee bruiser.
    AmorphousFleshbeast,
    /// Teleporting skirmisher that phases out and relocates near the player.
    VoidBlinker,
    /// Summoner that keeps a comfortable distance and raises minions.
    FleshWeaver,
    /// Cheap minion raised by the summoner.
    CrawlingTorment,
    /// Charger that telegraphs and rushes in a locked direction.
    FrenziedBehemoth,
}

/// Parameters of an archetype's ranged attack, when it has one.
#[derive(Clone, Copy, PartialEq, Eq, Structural, Debug)]
pub struct RangedParams {
    /// Shooting range, in milliunits.
    pub range_milli: i64,
    /// Interval between shots, in milliseconds.
    pub fire_interval_ms: u64,
    /// Projectile speed, in milliunits per second.
    pub projectile_speed_milli: i64,
    /// Damage of one projectile hit.
    pub projectile_damage: i64,
}

/// Base combat stats of one adversary, before any elite transform.
#[derive(Clone, Copy, PartialEq, Eq, Structural, Debug)]
pub struct BaseStats {
    pub archetype: Archetype,
    pub health: i64,
    /// Damage dealt to the player on contact.
    pub contact_damage: i64,
    /// Movement speed, in milliunits per second.
    pub speed_milli: i64,
    /// Sprite extent, in milliunits; the collision radius is half of `x`.
    pub size: Vec2i,
    /// Experience granted on death.
    pub xp_value: u64,
    /// Chance of a loot drop on death, in per-mille.
    pub loot_chance_pm: u32,
}

/// Health scaled multiplicatively by the difficulty multiplier (given as
/// `base * 10` times tenths divided out), floored at 1.
pub open spec fn scaled_health(base_times_ten: int, mult_tenths: int) -> int {
    let h = (base_times_ten * mult_tenths) / 100;
    if h < 1 {
        1
    } else {
        h
    }
}

/// Speed growth above the base: `growth_milli` milliunits per second for each
/// whole multiplier step, interpolated per tenth.
pub open spec fn scaled_speed(base_milli: int, growth_per_tenth: int, mult_tenths: int) -> int {
    base_milli + growth_per_tenth * (mult_tenths - 10)
}

pub open spec fn stats_for_spec(archetype: Archetype, mult_tenths: int) -> BaseStats {
    match archetype {
        Archetype::SkitteringShadowling => BaseStats {
            archetype,
            health: scaled_health(200, mult_tenths) as i64,
            contact_damage: 10,
            speed_milli: scaled_speed(100_000, 2_000, mult_tenths) as i64,
            size: Vec2i { x: 35_000, y: 35_000 },
            xp_value: SOUL_XP as u64,
            loot_chance_pm: 50,
        },
        Archetype::FloatingEyeball => BaseStats {
            archetype,
            health: scaled_health(150, mult_tenths) as i64,
            contact_damage: 5,
            speed_milli: scaled_speed(70_000, 1_500, mult_tenths) as i64,
            size: Vec2i { x: 40_000, y: 40_000 },
            xp_value: (SOUL_XP + 5) as u64,
            loot_chance_pm: 70,
        },
        Archetype::AmorphousFleshbeast => BaseStats {
            archetype,
            health: scaled_health(900, mult_tenths) as i64,
            contact_damage: 20,
            speed_milli: scaled_speed(50_000, 1_000, mult_tenths) as i64,
            size: Vec2i { x: 60_000, y: 60_000 },
            xp_value: (SOUL_XP + 15) as u64,
            loot_chance_pm: 100,
        },
        Archetype::VoidBlinker => BaseStats {
            archetype,
            health: scaled_health(300, mult_tenths) as i64,
            contact_damage: 15,
            speed_milli: scaled_speed(110_000, 2_000, mult_tenths) as i64,
            size: Vec2i { x: 30_000, y: 45_000 },
            xp_value: (SOUL_XP + 10) as u64,
            loot_chance_pm: 80,
        },
        Archetype::FleshWeaver => BaseStats {
            archetype,
            health: scaled_health(480, mult_tenths) as i64,
            contact_damage: 8,
            speed_milli: scaled_speed(60_000, 1_000, mult_tenths) as i64,
            size: Vec2i { x: 45_000, y: 45_000 },
            xp_value: (SOUL_XP + 20) as u64,
            loot_chance_pm: 120,
        },
        Archetype::CrawlingTorment => BaseStats {
            archetype,
            health: scaled_health(50, mult_tenths) as i64,
            contact_damage: 5,
            speed_milli: scaled_speed(120_000, 1_000, mult_tenths) as i64,
            size: Vec2i { x: 25_000, y: 25_000 },
            xp_value: (SOUL_XP / 5) as u64,
            loot_chance_pm: 10,
        },
        Archetype::FrenziedBehemoth => BaseStats {
            archetype,
            health: scaled_health(910, mult_tenths) as i64,
            contact_damage: 25,
            speed_milli: scaled_speed(80_000, 1_500, mult_tenths) as i64,
            size: Vec2i { x: 55_000, y: 50_000 },
            xp_value: (SOUL_XP + 25) as u64,
            loot_chance_pm: 150,
        },
    }
}

/// The ranged-attack parameters that come with an archetype, if any.
pub open spec fn ranged_params_spec(archetype: Archetype) -> Option<RangedParams> {
    match archetype {
        Archetype::FloatingEyeball => Some(
            RangedParams {
                range_milli: 350_000,
                fire_interval_ms: 2_800,
                projectile_speed_milli: 280_000,
                projectile_damage: 10,
            },
        ),
        _ => None,
    }
}

/// Exact executable form of [`ranged_params_spec`].
pub fn ranged_params(archetype: Archetype) -> (r: Option<RangedParams>)
    ensures
        r == ranged_params_spec(archetype),
{
    match archetype {
        Archetype::FloatingEyeball => Some(
            RangedParams {
                range_milli: 350_000,
                fire_interval_ms: 2_800,
                projectile_speed_milli: 280_000,
                projectile_damage: 10,
            },
        ),
        _ => None,
    }
}

/// Well-formedness of a stat block held by a live adversary: every derived
/// computation of the simulation stays within machine ranges under these
/// bounds. Both fresh table outputs and their elite transforms satisfy this.
pub open spec fn valid_stats(s: BaseStats) -> bool {
    &&& 1 <= s.health <= 0x10_0000_0000i64
    &&& 0 <= s.contact_damage <= 0x10_0000_0000i64
    &&& 0 <= s.speed_milli <= 0x40_0000_0000i64
    &&& 0 < s.size.x <= 2_000_000 && 0 < s.size.y <= 2_000_000
    &&& s.xp_value <= 0x4_0000_0000u64
    &&& s.loot_chance_pm <= 1000
}

/// The tighter ranges that the stat table itself guarantees; the elite
/// transform of any such block stays within [`valid_stats`].
pub open spec fn table_range(s: BaseStats) -> bool {
    &&& 1 <= s.health <= 0x1_0000_0000i64
    &&& 0 <= s.contact_damage <= 0x1_0000_0000i64
    &&& 0 <= s.speed_milli <= 0x8_0000_0000i64
    &&& 0 < s.size.x <= 1_000_000 && 0 < s.size.y <= 1_000_000
    &&& s.xp_value <= 0x1_0000_0000u64
    &&& s.loot_chance_pm <= 1000
}

/// Deterministic stat table: archetype and difficulty multiplier (in tenths,
/// at least 10) to base combat stats.
pub fn stats_for(archetype: Archetype, mult_tenths: u32) -> (r: BaseStats)
    requires
        10 <= mult_tenths <= MULT_TENTHS_LIMIT,
    ensures
        r == stats_for_spec(archetype, mult_tenths as int),
        table_range(r),
        valid_stats(r),
        r.health >= 1,
        r.contact_damage >= 0,
        r.speed_milli >= 0,
        r.archetype == archetype,
{
    let m: u64 = mult_tenths as u64;
    match archetype {
        Archetype::SkitteringShadowling => BaseStats {
            archetype,
            health: health_part(200, m),
            contact_damage: 10,
            speed_milli: speed_part(100_000, 2_000, m),
            size: Vec2i { x: 35_000, y: 35_000 },
            xp_value: SOUL_XP,
            loot_chance_pm: 50,
        },
        Archetype::FloatingEyeball => BaseStats {
            archetype,
            health: health_part(150, m),
            contact_damage: 5,
            speed_milli: speed_part(70_000, 1_500, m),
            size: Vec2i { x: 40_000, y: 40_000 },
            xp_value: SOUL_XP + 5,
            loot_chance_pm: 70,
        },
        Archetype::AmorphousFleshbeast => BaseStats {
            archetype,
            health: health_part(900, m),
            contact_damage: 20,
            speed_milli: speed_part(50_000, 1_000, m),
            size: Vec2i { x: 60_000, y: 60_000 },
            xp_value: SOUL_XP + 15,
            loot_chance_pm: 100,
        },
        Archetype::VoidBlinker => BaseStats {
            archetype,
            health: health_part(300, m),
            contact_damage: 15,
            speed_milli: speed_part(110_000, 2_000, m),
            size: Vec2i { x: 30_000, y: 45_000 },
            xp_value: SOUL_XP + 10,
            loot_chance_pm: 80,
        },
        Archetype::FleshWeaver => BaseStats {
            archetype,
            health: health_part(480, m),
            contact_damage: 8,
            speed_milli: speed_part(60_000, 1_000, m),
            size: Vec2i { x: 45_000, y: 45_000 },
            xp_value: SOUL_XP + 20,
            loot_chance_pm: 120,
        },
        Archetype::CrawlingTorment => BaseStats {
            archetype,
            health: health_part(50, m),
            contact_damage: 5,
            speed_milli: speed_part(120_000, 1_000, m),
            size: Vec2i { x: 25_000, y: 25_000 },
            xp_value: SOUL_XP / 5,
            loot_chance_pm: 10,
        },
        Archetype::FrenziedBehemoth => BaseStats {
            archetype,
            health: health_part(910, m),
            contact_damage: 25,
            speed_milli: speed_part(80_000, 1_500, m),
            size: Vec2i { x: 55_000, y: 50_000 },
            xp_value: SOUL_XP + 25,
            loot_chance_pm: 150,
        },
    }
}

/// Exact executable form of [`scaled_health`].
fn health_part(base_times_ten: u64, mult_tenths: u64) -> (r: i64)
    requires
        base_times_ten <= 1000,
        10 <= mult_tenths <= MULT_TENTHS_LIMIT,
    ensures
        r == scaled_health(base_times_ten as int, mult_tenths as int),
        1 <= r <= 0x1_0000_0000i64,
{
    proof {
        assert((base_times_ten as int) * (mult_tenths as int) <= 10_000_000_000) by (nonlinear_arith)
            requires
                base_times_ten <= 1000,
                mult_tenths <= MULT_TENTHS_LIMIT,
                MULT_TENTHS_LIMIT == 10_000_000u32,
        ;
        assert(0 <= (base_times_ten as int) * (mult_tenths as int)) by (nonlinear_arith);
    }
    let h: u64 = (base_times_ten * mult_tenths) / 100;
    if h < 1 {
        1
    } else {
        h as i64
    }
}

/// Exact executable form of [`scaled_speed`].
fn speed_part(base_milli: u64, growth_per_tenth: u64, mult_tenths: u64) -> (r: i64)
    requires
        base_milli <= 200_000,
        growth_per_tenth <= 2_000,
        10 <= mult_tenths <= MULT_TENTHS_LIMIT,
    ensures
        r == scaled_speed(base_milli as int, growth_per_tenth as int, mult_tenths as int),
        0 <= r <= 0x8_0000_0000i64,
{
    proof {
        assert(0 <= (growth_per_tenth as int) * (mult_tenths - 10) <= 20_000_000_000) by (
        nonlinear_arith)
            requires
                growth_per_tenth <= 2_000,
                10 <= mult_tenths <= MULT_TENTHS_LIMIT,
                MULT_TENTHS_LIMIT == 10_000_000u32,
        ;
    }
    (base_milli + growth_per_tenth * (mult_tenths - 10)) as i64
}

/// The elite transform on a stat block: health x2.5 and contact damage x1.8
/// rounded up, speed x1.15 and size x1.25 rounded down, double experience,
/// and a 0.10 higher loot chance capped at one.
pub open spec fn elite_spec(s: BaseStats) -> BaseStats {
    BaseStats {
        archetype: s.archetype,
        health: ((s.health * 5 + 1) / 2) as i64,
        contact_damage: ((s.contact_damage * 9 + 4) / 5) as i64,
        speed_milli: ((s.speed_milli * 23) / 20) as i64,
        size: Vec2i { x: ((s.size.x * 5) / 4) as i64, y: ((s.size.y * 5) / 4) as i64 },
        xp_value: (s.xp_value * 2) as u64,
        loot_chance_pm: if s.loot_chance_pm + 100 >= 1000 {
            1000u32
        } else {
            (s.loot_chance_pm + 100) as u32
        },
    }
}

/// Whether an archetype may spawn as an elite: minions, summoners and
/// chargers are excluded.
pub open spec fn elite_capable_spec(archetype: Archetype) -> bool {
    match archetype {
        Archetype::CrawlingTorment => false,
        Archetype::FleshWeaver => false,
        Archetype::FrenziedBehemoth => false,
        _ => true,
    }
}

pub fn elite_capable(archetype: Archetype) -> (r: bool)
    ensures
        r == elite_capable_spec(archetype),
{
    match archetype {
        Archetype::CrawlingTorment => false,
        Archetype::FleshWeaver => false,
        Archetype::FrenziedBehemoth => false,
        _ => true,
    }
}

/// Apply the elite transform. The spawner calls this exactly once, on the
/// freshly rolled base stats of an elite spawn; stat blocks are never
/// transformed a second time.
pub fn apply_elite(s: BaseStats) -> (r: BaseStats)
    requires
        table_range(s),
    ensures
        r == elite_spec(s),
        valid_stats(r),
        r.health >= s.health,
        r.contact_damage >= s.contact_damage,
        r.speed_milli >= s.speed_milli,
        r.size.x >= s.size.x,
        r.size.y >= s.size.y,
        r.xp_value >= s.xp_value,
        r.loot_chance_pm >= s.loot_chance_pm,
{
    BaseStats {
        archetype: s.archetype,
        health: (s.health * 5 + 1) / 2,
        contact_damage: (s.contact_damage * 9 + 4) / 5,
        speed_milli: (s.speed_milli * 23) / 20,
        size: Vec2i { x: (s.size.x * 5) / 4, y: (s.size.y * 5) / 4 },
        xp_value: s.xp_value * 2,
        loot_chance_pm: if s.loot_chance_pm + 100 >= 1000 {
            1000
        } else {
            s.loot_chance_pm + 100
        },
    }
}

/// For every archetype and every difficulty multiplier of at least one, the
/// stat table yields health of at least 1 and no negative damage or speed.
pub proof fn lemma_stats_positive(archetype: Archetype, mult_tenths: int)
    requires
        10 <= mult_tenths <= MULT_TENTHS_LIMIT,
    ensures
        stats_for_spec(archetype, mult_tenths).health >= 1,
        stats_for_spec(archetype, mult_tenths).contact_damage >= 0,
        stats_for_spec(archetype, mult_tenths).speed_milli >= 0,
{
}

/// The elite transform never reduces any stat of a stat block in table
/// range, and its result is again well formed.
pub proof fn lemma_elite_never_reduces(s: BaseStats)
    requires
        table_range(s),
    ensures
        elite_spec(s).health >= s.health,
        elite_spec(s).contact_damage >= s.contact_damage,
        elite_spec(s).speed_milli >= s.speed_milli,
        elite_spec(s).size.x >= s.size.x,
        elite_spec(s).size.y >= s.size.y,
        elite_spec(s).xp_value >= s.xp_value,
        elite_spec(s).loot_chance_pm >= s.loot_chance_pm,
        valid_stats(elite_spec(s)),
{
}

} // verus!
