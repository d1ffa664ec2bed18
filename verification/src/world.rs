//! The simulation world: the player, the live adversaries, the projectiles
//! in flight, the pending chain-strike requests, and the session state.
//! Adversary ids come from a monotone counter and are never reused, so a
//! stale id simply fails every lookup.

use vstd::prelude::*;

verus! {

use crate::charger::Charger;
use crate::difficulty::DifficultyState;
use crate::geom::Vec2i;
use crate::geom::in_world;
use crate::ranged::RangedAttacker;
use crate::skirmisher::SkirmisherState;
use crate::skirmisher::TeleportSkirmisher;
use crate::skirmisher::targetable_spec;
use crate::stats::Archetype;
use crate::stats::BaseStats;
use crate::stats::valid_stats;
use crate::summoner::Summoner;
use crate::timer::TickTimer;

/// Bound on every velocity component the simulation produces, in
/// milliunits per second.
pub const VEL_LIMIT: i64 = 0x1_0000_0000_0000;

/// Bound on a single damage value.
pub const DAMAGE_LIMIT: i64 = 0x10_0000_0000;

/// Health never drops further than this, whatever hits accumulate in one
/// session.
pub const HEALTH_FLOOR: i64 = -0x4000_0000_0000_0000;

/// Collision radius of a player projectile, in milliunits.
pub const PLAYER_PROJECTILE_RADIUS_MILLI: i64 = 5_000;

/// Collision radius of an adversary projectile, in milliunits: half its
/// 15-unit sprite.
pub const ADVERSARY_PROJECTILE_RADIUS_MILLI: i64 = 7_500;

/// Collision radius of the player, in milliunits: half its 50-unit sprite.
pub const PLAYER_RADIUS_MILLI: i64 = 25_000;

/// Lifetime of an adversary projectile, in milliseconds.
pub const ADVERSARY_PROJECTILE_LIFETIME_MS: u64 = 3_500;

/// The player's invincibility window after contact damage, in
/// milliseconds.
pub const INVINCIBILITY_MS: u64 = 1_000;

/// Base search radius of a chain strike, in milliunits.
pub const CHAIN_RANGE_MILLI: i64 = 300_000;

/// The per-adversary behaviour payload: exactly one per adversary.
pub enum BehaviorState {
    /// Plain melee chase straight at the player.
    Chaser,
    Ranged(RangedAttacker),
    Skirmisher(TeleportSkirmisher),
    Summoner(Summoner),
    Charger(Charger),
}

impl BehaviorState {
    pub open spec fn wf(self) -> bool {
        match self {
            BehaviorState::Chaser => true,
            BehaviorState::Ranged(b) => b.wf(),
            BehaviorState::Skirmisher(b) => b.wf(),
            BehaviorState::Summoner(b) => b.wf(),
            BehaviorState::Charger(b) => b.wf(),
        }
    }
}

/// Whether collision detection sees this adversary at all: a skirmisher in
/// any phased state is invisible to projectiles and deals no contact
/// damage.
pub open spec fn targetable(b: BehaviorState) -> bool {
    match b {
        BehaviorState::Skirmisher(s) => targetable_spec(s.state),
        _ => true,
    }
}

pub struct Adversary {
    /// Arena id: unique for the whole session.
    pub id: u64,
    pub pos: Vec2i,
    /// Velocity set by the behaviour pass, in milliunits per second,
    /// consumed by the movement pass.
    pub vel: Vec2i,
    pub health: i64,
    pub stats: BaseStats,
    pub elite: bool,
    /// Host-applied slow factor in per-mille: 1000 moves at full speed, 0
    /// stands frozen. Set through [`World::set_speed_factor`] by effects
    /// outside this core. It scales every movement; the charge rush alone
    /// ignores partial factors, but a full freeze halts it too.
    pub speed_factor_pm: u32,
    pub behavior: BehaviorState,
}

impl Adversary {
    pub open spec fn wf(self) -> bool {
        &&& in_world(self.pos)
        &&& -VEL_LIMIT <= self.vel.x <= VEL_LIMIT
        &&& -VEL_LIMIT <= self.vel.y <= VEL_LIMIT
        &&& HEALTH_FLOOR <= self.health <= 0x10_0000_0000i64
        &&& valid_stats(self.stats)
        &&& self.speed_factor_pm <= 1000
        &&& self.behavior.wf()
    }

    /// Movement speed after the slow factor, in milliunits per second.
    pub open spec fn effective_speed_spec(self) -> int {
        crate::geom::scale_spec(
            self.stats.speed_milli as int,
            self.speed_factor_pm as int,
            1000,
        )
    }

    /// Collision radius, in milliunits: half the sprite width.
    pub open spec fn radius_spec(self) -> int {
        self.stats.size.x / 2
    }

    /// Executable form of [`Adversary::effective_speed_spec`].
    pub fn effective_speed(&self) -> (r: i64)
        requires
            valid_stats(self.stats),
            self.speed_factor_pm <= 1000,
        ensures
            r == self.effective_speed_spec(),
            0 <= r <= self.stats.speed_milli,
    {
        proof {
            assert(0 <= (self.stats.speed_milli as int) * (self.speed_factor_pm as int) / 1000
                <= self.stats.speed_milli) by (nonlinear_arith)
                requires
                    0 <= self.stats.speed_milli,
                    0 <= self.speed_factor_pm <= 1000,
            ;
        }
        crate::geom::scale_milli(self.stats.speed_milli, self.speed_factor_pm as u64, 1000)
    }

    pub fn radius_milli(&self) -> (r: i64)
        requires
            valid_stats(self.stats),
        ensures
            r == self.radius_spec(),
            0 <= r <= 1_000_000,
    {
        self.stats.size.x / 2
    }

    /// Executable form of [`targetable`].
    pub fn is_targetable(&self) -> (r: bool)
        ensures
            r == targetable(self.behavior),
    {
        match &self.behavior {
            BehaviorState::Skirmisher(s) => {
                match s.state {
                    SkirmisherState::Chasing => true,
                    SkirmisherState::Cooldown => true,
                    _ => false,
                }
            },
            _ => true,
        }
    }
}

pub struct Projectile {
    /// Fired by the player's weapon (true) or by an adversary (false).
    pub from_player: bool,
    pub pos: Vec2i,
    pub vel: Vec2i,
    pub damage: i64,
    /// Further adversaries this projectile may damage before despawning.
    pub pierce_left: u32,
    /// Chain strikes left to trigger; only the chain-capable weapon's
    /// projectiles carry a nonzero count.
    pub chain_left: u32,
    /// Whether this projectile belongs to the chain-capable weapon.
    pub chain_capable: bool,
    /// Search radius of the chain strikes this projectile triggers, in
    /// milliunits: the base radius scaled by the player's chain-range
    /// multiplier, handed in by the host at fire time.
    pub chain_range_milli: i64,
    /// Ids already damaged by this projectile: never hit twice.
    pub struck: Vec<u64>,
    pub lifetime: TickTimer,
}

impl Projectile {
    pub open spec fn wf(self) -> bool {
        &&& in_world(self.pos)
        &&& -VEL_LIMIT <= self.vel.x <= VEL_LIMIT
        &&& -VEL_LIMIT <= self.vel.y <= VEL_LIMIT
        &&& 0 <= self.damage <= DAMAGE_LIMIT
        &&& 0 < self.chain_range_milli <= 0x1_0000_0000i64
        &&& self.lifetime.wf()
        &&& !self.lifetime.repeating
    }
}

/// Ephemeral record of a pending chain strike, consumed by the chain
/// resolver within a tick of its creation.
pub struct ChainStrikeRequest {
    pub source_pos: Vec2i,
    /// Ids already struck along this chain: never revisited.
    pub struck: Vec<u64>,
    /// Damage the next link will deal.
    pub damage: i64,
    /// Links left, this one included.
    pub chains_left: u32,
    /// Search radius around the source, in milliunits.
    pub range_milli: i64,
}

impl ChainStrikeRequest {
    pub open spec fn wf(self) -> bool {
        &&& in_world(self.source_pos)
        &&& 0 <= self.damage <= DAMAGE_LIMIT
        &&& 0 < self.range_milli <= 0x1_0000_0000i64
    }
}

pub struct PlayerState {
    pub pos: Vec2i,
    pub health: i64,
    pub max_health: i64,
    /// One-shot window during which further contact damage is suppressed.
    pub invincibility: TickTimer,
}

impl PlayerState {
    pub open spec fn wf(self) -> bool {
        &&& in_world(self.pos)
        &&& HEALTH_FLOOR <= self.health <= 0x10_0000_0000i64
        &&& 1 <= self.max_health <= 0x10_0000_0000i64
        &&& self.invincibility.wf()
        &&& !self.invincibility.repeating
    }

    /// A fresh player at the origin with the stock 100 endurance. The
    /// invincibility window starts running, so a newly spawned player is
    /// shielded for its first second.
    pub fn new() -> (r: PlayerState)
        ensures
            r.wf(),
            r.pos == (Vec2i { x: 0, y: 0 }),
            r.health == 100,
            r.max_health == 100,
            r.invincibility == (TickTimer {
                elapsed_ms: 0,
                duration_ms: INVINCIBILITY_MS,
                repeating: false,
            }),
    {
        PlayerState {
            pos: Vec2i { x: 0, y: 0 },
            health: 100,
            max_health: 100,
            invincibility: TickTimer::new(INVINCIBILITY_MS, false),
        }
    }
}

pub struct World {
    /// Next adversary id; ids are handed out in order and never reused.
    pub next_id: u64,
    /// The player, when one exists; every player-dependent pass skips
    /// silently without one.
    pub player: Option<PlayerState>,
    pub adversaries: Vec<Adversary>,
    pub projectiles: Vec<Projectile>,
    pub chain_requests: Vec<ChainStrikeRequest>,
    pub difficulty: DifficultyState,
    /// Repeating spawn timer, kept at the difficulty state's interval.
    pub spawn_timer: TickTimer,
    /// Session score.
    pub score: u64,
}

impl World {
    pub open spec fn wf(self) -> bool {
        &&& forall|i: int|
            0 <= i < self.adversaries@.len() ==> (#[trigger] self.adversaries@[i]).wf()
        &&& forall|i: int|
            0 <= i < self.adversaries@.len() ==> (#[trigger] self.adversaries@[i]).id
                < self.next_id
        &&& forall|i: int, j: int|
            0 <= i < j < self.adversaries@.len() ==> (#[trigger] self.adversaries@[i]).id != (
            #[trigger] self.adversaries@[j]).id
        &&& forall|i: int|
            0 <= i < self.projectiles@.len() ==> (#[trigger] self.projectiles@[i]).wf()
        &&& forall|i: int|
            0 <= i < self.chain_requests@.len() ==> (#[trigger] self.chain_requests@[i]).wf()
        &&& match self.player {
            Some(p) => p.wf(),
            None => true,
        }
        &&& self.difficulty.wf()
        &&& self.spawn_timer.wf()
        &&& self.spawn_timer.repeating
    }

    /// An empty session with a fresh player.
    pub fn new() -> (r: World)
        ensures
            r.wf(),
            r.player is Some,
            r.adversaries@.len() == 0,
            r.projectiles@.len() == 0,
            r.chain_requests@.len() == 0,
            r.score == 0,
    {
        let difficulty = DifficultyState::new();
        let interval: u64 = difficulty.spawn_interval_ms;
        World {
            next_id: 1,
            player: Some(PlayerState::new()),
            adversaries: Vec::new(),
            projectiles: Vec::new(),
            chain_requests: Vec::new(),
            difficulty,
            spawn_timer: TickTimer::new(interval, true),
            score: 0,
        }
    }

    /// Fire one player projectile into the world; the aim and the weapon
    /// parameters come from the caller.
    pub fn spawn_player_projectile(
        &mut self,
        pos: Vec2i,
        vel: Vec2i,
        damage: i64,
        pierce: u32,
        chains: u32,
        chain_capable: bool,
        chain_range_milli: i64,
        lifetime_ms: u64,
    )
        requires
            old(self).wf(),
            in_world(pos),
            -VEL_LIMIT <= vel.x <= VEL_LIMIT,
            -VEL_LIMIT <= vel.y <= VEL_LIMIT,
            0 <= damage <= DAMAGE_LIMIT,
            0 < chain_range_milli <= 0x1_0000_0000i64,
            1 <= lifetime_ms <= crate::timer::TIMER_DURATION_LIMIT,
        ensures
            final(self).wf(),
            final(self).projectiles@.len() == old(self).projectiles@.len() + 1,
            final(self).projectiles@.last() == (Projectile {
                from_player: true,
                pos,
                vel,
                damage,
                pierce_left: pierce,
                chain_left: chains,
                chain_capable,
                chain_range_milli,
                struck: final(self).projectiles@.last().struck,
                lifetime: final(self).projectiles@.last().lifetime,
            }),
            final(self).projectiles@.last().struck@ == Seq::<u64>::empty(),
            forall|i: int|
                0 <= i < old(self).projectiles@.len() ==> final(self).projectiles@[i] == old(
                    self,
                ).projectiles@[i],
            final(self).adversaries == old(self).adversaries,
            final(self).player == old(self).player,
    {
        let p = Projectile {
            from_player: true,
            pos,
            vel,
            damage,
            pierce_left: pierce,
            chain_left: chains,
            chain_capable,
            chain_range_milli,
            struck: Vec::new(),
            lifetime: TickTimer::new(lifetime_ms, false),
        };
        self.projectiles.push(p);
    }

    /// Advance the player's invincibility window by one tick; it elapses
    /// on its own and is restarted only by the combat passes.
    fn tick_player_window(&mut self, dt_ms: u64)
        requires
            old(self).wf(),
            dt_ms <= crate::timer::TICK_MS_LIMIT,
        ensures
            final(self).wf(),
            final(self).adversaries == old(self).adversaries,
            final(self).projectiles == old(self).projectiles,
            final(self).chain_requests == old(self).chain_requests,
            final(self).difficulty == old(self).difficulty,
            final(self).spawn_timer == old(self).spawn_timer,
            final(self).next_id == old(self).next_id,
            final(self).score == old(self).score,
            old(self).player is None ==> final(self).player == old(self).player,
            match (old(self).player, final(self).player) {
                (Some(p0), Some(p1)) => p1.pos == p0.pos && p1.health == p0.health
                    && p1.max_health == p0.max_health,
                (None, None) => true,
                _ => false,
            },
    {
        match &mut self.player {
            Some(p) => {
                p.invincibility.tick(dt_ms);
            },
            None => {},
        }
    }

    /// Apply or clear a host-side slow effect on one adversary: the
    /// factor, in per-mille, scales every movement but the charge rush.
    /// An id that no longer resolves is skipped silently.
    pub fn set_speed_factor(&mut self, id: u64, factor_pm: u32)
        requires
            old(self).wf(),
            factor_pm <= 1000,
        ensures
            final(self).wf(),
            final(self).adversaries@.len() == old(self).adversaries@.len(),
            forall|i: int|
                0 <= i < old(self).adversaries@.len() ==> #[trigger] final(self).adversaries@[i]
                    == (Adversary {
                    speed_factor_pm: final(self).adversaries@[i].speed_factor_pm,
                    ..old(self).adversaries@[i]
                }),
            forall|i: int|
                0 <= i < old(self).adversaries@.len() ==> (#[trigger] final(self).adversaries@[
                    i
                ]).speed_factor_pm == if old(self).adversaries@[i].id == id {
                    factor_pm
                } else {
                    old(self).adversaries@[i].speed_factor_pm
                },
            final(self).projectiles == old(self).projectiles,
            final(self).chain_requests == old(self).chain_requests,
            final(self).player == old(self).player,
            final(self).difficulty == old(self).difficulty,
            final(self).spawn_timer == old(self).spawn_timer,
            final(self).next_id == old(self).next_id,
            final(self).score == old(self).score,
    {
        let n: usize = self.adversaries.len();
        let mut i: usize = 0;
        while i < n
            invariant
                i <= n,
                n == self.adversaries@.len(),
                n == old(self).adversaries@.len(),
                factor_pm <= 1000,
                forall|j: int|
                    0 <= j < n ==> #[trigger] self.adversaries@[j] == (Adversary {
                        speed_factor_pm: self.adversaries@[j].speed_factor_pm,
                        ..old(self).adversaries@[j]
                    }),
                forall|j: int|
                    0 <= j < i ==> (#[trigger] self.adversaries@[j]).speed_factor_pm == if old(
                        self,
                    ).adversaries@[j].id == id {
                        factor_pm
                    } else {
                        old(self).adversaries@[j].speed_factor_pm
                    },
                forall|j: int|
                    i <= j < n ==> (#[trigger] self.adversaries@[j]).speed_factor_pm == old(
                        self,
                    ).adversaries@[j].speed_factor_pm,
                forall|j: int| 0 <= j < n ==> (#[trigger] self.adversaries@[j]).wf(),
                self.projectiles == old(self).projectiles,
                self.chain_requests == old(self).chain_requests,
                self.player == old(self).player,
                self.difficulty == old(self).difficulty,
                self.spawn_timer == old(self).spawn_timer,
                self.next_id == old(self).next_id,
                self.score == old(self).score,
                old(self).wf(),
            decreases n - i,
        {
            if self.adversaries[i].id == id {
                let a = &mut self.adversaries[i];
                a.speed_factor_pm = factor_pm;
            }
            i = i + 1;
        }
    }

    /// End the play session: every adversary, projectile and pending chain
    /// request is dropped at once, with no further processing owed to any
    /// of them.
    pub fn end_session(&mut self)
        requires
            old(self).wf(),
        ensures
            final(self).wf(),
            final(self).adversaries@.len() == 0,
            final(self).projectiles@.len() == 0,
            final(self).chain_requests@.len() == 0,
            final(self).player == old(self).player,
            final(self).difficulty == old(self).difficulty,
            final(self).score == old(self).score,
    {
        self.adversaries.clear();
        self.projectiles.clear();
        self.chain_requests.clear();
    }

    /// Number of live adversaries.
    pub fn adversary_count(&self) -> (r: usize)
        ensures
            r == self.adversaries@.len(),
    {
        self.adversaries.len()
    }

    /// Find a live adversary by id.
    pub fn find_adversary(&self, id: u64) -> (r: Option<usize>)
        ensures
            match r {
                Some(i) => i < self.adversaries@.len() && self.adversaries@[i as int].id == id,
                None => forall|i: int|
                    0 <= i < self.adversaries@.len() ==> (#[trigger] self.adversaries@[i]).id
                        != id,
            },
    {
        let n: usize = self.adversaries.len();
        let mut i: usize = 0;
        while i < n
            invariant
                i <= n,
                n == self.adversaries@.len(),
                forall|j: int| 0 <= j < i ==> (#[trigger] self.adversaries@[j]).id != id,
            decreases n - i,
        {
            if self.adversaries[i].id == id {
                return Some(i);
            }
            i = i + 1;
        }
        None
    }
}

impl World {
    /// One full simulation tick, in fixed pass order: difficulty scaling
    /// and the spawner, then every behaviour machine, then movement, then
    /// combat — player projectiles, chain resolution, adversary
    /// projectiles, contact damage — then projectile lifetimes, and last
    /// the death and loot resolution, whose payouts come back to the
    /// caller. Each pass reads the previous pass's fully committed state.
    ///
    /// `player_level` comes from the host's progression collaborator and
    /// `kill_trigger_chances_pm` lists the player's on-kill trigger
    /// chances, one per held trigger, in per-mille.
    #[verifier::rlimit(100)]
    #[verifier::spinoff_prover]
    pub fn tick(&mut self, dt_ms: u64, player_level: u32, kill_trigger_chances_pm: &Vec<u32>) -> (rewards: Vec<
        crate::death::DeathReward,
    >)
        requires
            old(self).wf(),
            dt_ms <= crate::timer::TICK_MS_LIMIT,
            1 <= player_level <= crate::difficulty::LEVEL_LIMIT,
        ensures
            final(self).wf(),
            // The difficulty state advances exactly one scaling step.
            final(self).difficulty.cycle == (if old(self).difficulty.cycle_timer.elapsed_ms + dt_ms
                >= old(self).difficulty.cycle_timer.duration_ms && old(self).difficulty.cycle
                < crate::difficulty::CYCLE_LIMIT {
                old(self).difficulty.cycle + 1
            } else {
                old(self).difficulty.cycle as int
            }),
            final(self).difficulty.max_adversaries == crate::difficulty::cap_spec(
                final(self).difficulty.cycle as nat,
                player_level as nat,
            ),
            final(self).difficulty.spawn_interval_ms == crate::difficulty::spawn_interval_spec(
                final(self).difficulty.cycle as nat,
                player_level as nat,
            ),
            // After the death pass, only adversaries with health left live
            // on; every payout belongs to one removed adversary.
            final(self).player is Some ==> forall|i: int|
                0 <= i < final(self).adversaries@.len() ==> (
                #[trigger] final(self).adversaries@[i]).health > 0,
            // The rewards are this tick's death payouts: the score advanced
            // by exactly their gains, each gain is half its experience, and
            // each names a distinct adversary no longer in the live set.
            final(self).player is Some ==> final(self).score == crate::death::score_from_rewards(
                old(self).score as int,
                rewards@,
            ),
            final(self).player is Some ==> forall|k: int|
                0 <= k < rewards@.len() ==> (#[trigger] rewards@[k]).score_gain == rewards@[k].xp
                    / 2,
            final(self).player is Some ==> forall|k: int, i: int|
                0 <= k < rewards@.len() && 0 <= i < final(self).adversaries@.len() ==> (
                #[trigger] rewards@[k]).id != (#[trigger] final(self).adversaries@[i]).id,
            final(self).player is Some ==> forall|k1: int, k2: int|
                0 <= k1 < k2 < rewards@.len() ==> rewards@[k1].id != rewards@[k2].id,
            // The spawner ran: its interval timer now follows the new
            // difficulty interval and advanced by the tick, and the id
            // counter moved with the spawn decision.
            final(self).spawn_timer == (TickTimer {
                elapsed_ms: crate::spawner::spawn_elapsed_after(
                    old(self).spawn_timer,
                    final(self).difficulty.spawn_interval_ms as int,
                    dt_ms as int,
                ) as u64,
                duration_ms: final(self).difficulty.spawn_interval_ms,
                repeating: true,
            }),
            final(self).next_id >= old(self).next_id + (
            if crate::spawner::spawn_lapses(
                old(self).spawn_timer,
                final(self).difficulty.spawn_interval_ms as int,
                dt_ms as int,
            ) && old(self).player is Some && old(self).adversaries@.len() < final(self).difficulty.max_adversaries && old(self).next_id != u64::MAX {
                1int
            } else {
                0int
            }),
            // No projectile outlives its lifetime.
            forall|k: int|
                0 <= k < final(self).projectiles@.len() ==> (#[trigger] final(self).projectiles@[
                    k
                ]).lifetime.elapsed_ms < final(self).projectiles@[k].lifetime.duration_ms,
            // Every entry adversary that survived took its behaviour step
            // and exactly one movement step; combat only lowered its
            // health.
            final(self).player is Some ==> forall|k: int, i: int|
                0 <= k < final(self).adversaries@.len() && 0 <= i < old(self).adversaries@.len()
                    && (#[trigger] final(self).adversaries@[k]).id == (
                #[trigger] old(self).adversaries@[i]).id ==> exists|mid: Adversary|
                    #[trigger] crate::behavior::pass_tick_ok(
                        old(self).adversaries@[i],
                        mid,
                        old(self).player->Some_0.pos,
                        dt_ms as int,
                    ) && final(self).adversaries@[k].pos == crate::movement::moved_spec(
                        mid.pos,
                        mid.vel,
                        dt_ms as int,
                    ) && final(self).adversaries@[k].behavior == mid.behavior && final(self).adversaries@[k].vel == mid.vel && final(self).adversaries@[k].stats == old(self).adversaries@[i].stats && final(self).adversaries@[k].elite == old(self).adversaries@[i].elite && final(self).adversaries@[k].health <= old(self).adversaries@[i].health,
            // No summoner ever ends a tick over its minion cap.
            forall|i: int|
                0 <= i < final(self).adversaries@.len() ==> match (
                #[trigger] final(self).adversaries@[i]).behavior {
                    BehaviorState::Summoner(m) => m.minion_ids@.len() <= m.max_minions,
                    _ => true,
                },
    {
        self.difficulty.tick(dt_ms, player_level);
        crate::spawner::spawner_pass(self, dt_ms);
        let ghost g_spawn = self.adversaries@;
        let ghost g_spawn_next = self.next_id;
        crate::behavior::behavior_pass(self, dt_ms);
        let ghost g_behav = self.adversaries@;
        crate::movement::movement_pass(self, dt_ms);
        let ghost g_move = self.adversaries@;
        crate::combat::player_projectile_pass(self);
        let ghost g_strike = self.adversaries@;
        crate::combat::chain_pass(self);
        let ghost g_chain = self.adversaries@;
        crate::combat::adversary_projectile_pass(self);
        crate::combat::contact_pass(self);
        self.tick_player_window(dt_ms);
        let ghost g_projs_prelife = self.projectiles@;
        crate::combat::lifetime_pass(self, dt_ms);
        let ghost g_predeath = self.adversaries@;
        let rewards = crate::death::death_pass(self, kill_trigger_chances_pm);
        proof {
            assert forall|i: int|
                0 <= i < self.adversaries@.len() implies match (
            #[trigger] self.adversaries@[i]).behavior {
                BehaviorState::Summoner(m) => m.minion_ids@.len() <= m.max_minions,
                _ => true,
            } by {
                assert(self.adversaries@[i].wf());
            }
            // Every kept projectile came through the lifetime filter
            // unexpired.
            assert forall|k: int|
                0 <= k < self.projectiles@.len() implies (#[trigger] self.projectiles@[
                k
            ]).lifetime.elapsed_ms < self.projectiles@[k].lifetime.duration_ms by {
                crate::combat::lemma_index_of_match_holds(
                    g_projs_prelife.len() as int,
                    crate::combat::survives_pred(g_projs_prelife, dt_ms as int),
                    k,
                );
            }
            // Trace each surviving entry adversary back through the
            // passes.
            if self.player is Some {
                assert forall|k: int, i: int|
                    0 <= k < self.adversaries@.len() && 0 <= i < old(self).adversaries@.len() && (
                #[trigger] self.adversaries@[k]).id == (#[trigger] old(self).adversaries@[i]).id
                    implies exists|mid: Adversary|
                    #[trigger] crate::behavior::pass_tick_ok(
                        old(self).adversaries@[i],
                        mid,
                        old(self).player->Some_0.pos,
                        dt_ms as int,
                    ) && self.adversaries@[k].pos == crate::movement::moved_spec(
                        mid.pos,
                        mid.vel,
                        dt_ms as int,
                    ) && self.adversaries@[k].behavior == mid.behavior && self.adversaries@[k].vel
                        == mid.vel && self.adversaries@[k].stats == old(self).adversaries@[i].stats
                        && self.adversaries@[k].elite == old(self).adversaries@[i].elite
                        && self.adversaries@[k].health <= old(self).adversaries@[i].health by {
                    let fk = self.adversaries@[k];
                    assert(g_predeath.contains(fk));
                    let jj = choose|j: int| 0 <= j < g_predeath.len() && g_predeath[j] == fk;
                    assert(g_predeath == g_chain);
                    assert(g_chain[jj] == (Adversary {
                        health: g_chain[jj].health,
                        ..g_strike[jj]
                    }));
                    assert(g_strike[jj] == (Adversary {
                        health: g_strike[jj].health,
                        ..g_move[jj]
                    }));
                    assert(g_move[jj] == (Adversary {
                        pos: crate::movement::moved_spec(
                            g_behav[jj].pos,
                            g_behav[jj].vel,
                            dt_ms as int,
                        ),
                        ..g_behav[jj]
                    }));
                    // The matching entry index: fresh ids are too large.
                    assert(fk.id == g_behav[jj].id);
                    if jj >= g_behav.len() {
                        assert(false);
                    }
                    if jj >= g_spawn.len() {
                        // a minion raised this tick
                        assert(g_behav[jj].id >= g_spawn_next);
                        assert(old(self).adversaries@[i].id < old(self).next_id);
                        assert(false);
                    }
                    if g_spawn.len() > old(self).adversaries@.len() && jj == g_spawn.len() - 1
                        && jj >= old(self).adversaries@.len() {
                        // the fresh spawn of this tick
                        assert(g_spawn[jj].id == old(self).next_id);
                        assert(false);
                    }
                    assert(jj < old(self).adversaries@.len());
                    assert(g_spawn[jj] == old(self).adversaries@[jj]);
                    assert(old(self).adversaries@[jj].id == old(self).adversaries@[i].id);
                    assert(jj == i);
                    let mid = g_behav[jj];
                    assert(crate::behavior::pass_tick_ok(
                        old(self).adversaries@[i],
                        mid,
                        old(self).player->Some_0.pos,
                        dt_ms as int,
                    ));
                }
            }
        }
        rewards
    }
}

/// Health after one hit: plain subtraction, held above the session floor
/// it can never reach in practice.
pub open spec fn damaged_health(health: int, damage: int) -> int {
    if health - damage >= HEALTH_FLOOR {
        health - damage
    } else {
        HEALTH_FLOOR as int
    }
}

/// Subtract a damage value from a health value.
pub fn apply_damage(health: i64, damage: i64) -> (r: i64)
    requires
        HEALTH_FLOOR <= health <= 0x10_0000_0000i64,
        0 <= damage <= DAMAGE_LIMIT,
    ensures
        r == damaged_health(health as int, damage as int),
        HEALTH_FLOOR <= r <= health,
{
    if health >= HEALTH_FLOOR + damage {
        health - damage
    } else {
        HEALTH_FLOOR
    }
}

} // verus!
