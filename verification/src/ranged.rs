//! The ranged attacker behaviour: waits in place until the player enters
//! shooting range, fires on a repeating timer while facing the player, and
//! sidesteps to a lateral reposition target after each shot.

use vstd::prelude::*;

verus! {

use crate::geom::Vec2i;
use crate::geom::dist_sq;
use crate::geom::dist_sq_spec;
use crate::geom::dir_milli;
use crate::geom::in_world;
use crate::geom::vel_from_dir;
use crate::geom::clamp_world;
use crate::geom::scale_milli;
use crate::timer::TICK_MS_LIMIT;
use crate::timer::TickTimer;
use crate::rng::roll_range;

/// Duration of one reposition leg, in milliseconds.
pub const REPOSITION_MS: u64 = 1_500;

/// Speed factor while repositioning, in per-mille of the base speed.
pub const REPOSITION_SPEED_PM: u64 = 700;

/// Distance to the reposition target under which the leg ends, in
/// milliunits.
pub const REPOSITION_ARRIVE_MILLI: i64 = 10_000;

/// Default shooting range, in milliunits.
pub const DEFAULT_SHOOT_RANGE_MILLI: i64 = 300_000;

/// Default interval between shots, in milliseconds.
pub const DEFAULT_FIRE_INTERVAL_MS: u64 = 2_000;

/// Default projectile speed, in milliunits per second.
pub const DEFAULT_PROJECTILE_SPEED_MILLI: i64 = 250_000;

/// Default damage of one projectile hit.
pub const DEFAULT_PROJECTILE_DAMAGE: i64 = 8;

#[derive(Clone, Copy, PartialEq, Eq, Structural, Debug)]
pub enum RangedState {
    Idle,
    Attacking,
    Repositioning,
}

/// An order to spawn one adversary projectile aimed along `dir_milli`.
#[derive(Clone, Copy, PartialEq, Eq, Structural, Debug)]
pub struct ProjectileOrder {
    /// Fixed-point unit direction, scaled by [`crate::MILLI`].
    pub dir_milli: Vec2i,
    /// Projectile speed, in milliunits per second.
    pub speed_milli: i64,
    /// Damage of one hit.
    pub damage: i64,
}

/// What one behaviour tick produced: the movement vector for the movement
/// pass, and at most one projectile to spawn.
pub struct RangedOutput {
    /// Velocity for this tick, in milliunits per second.
    pub velocity: Vec2i,
    pub fired: Option<ProjectileOrder>,
}

#[derive(Clone, Copy, PartialEq, Eq, Structural, Debug)]
pub struct RangedAttacker {
    pub state: RangedState,
    /// Shooting range, in milliunits.
    pub shooting_range_milli: i64,
    /// Repeating timer that paces the shots.
    pub fire_timer: TickTimer,
    pub projectile_speed_milli: i64,
    pub projectile_damage: i64,
    pub reposition_target: Option<Vec2i>,
    /// One-shot timer bounding one reposition leg.
    pub reposition_timer: TickTimer,
}

/// The player is inside the shooting range.
pub open spec fn in_shoot_range(self_pos: Vec2i, player_pos: Vec2i, range_milli: int) -> bool {
    dist_sq_spec(self_pos, player_pos) <= range_milli * range_milli
}

/// The player is beyond 1.1 times the shooting range (computed in
/// milliunits, rounded down): the attacker loses its target.
pub open spec fn beyond_leash(self_pos: Vec2i, player_pos: Vec2i, range_milli: int) -> bool {
    dist_sq_spec(self_pos, player_pos) > ((range_milli * 11) / 10) * ((range_milli * 11) / 10)
}

/// The repeating fire timer accumulates a full period during this tick.
pub open spec fn fire_due(m: RangedAttacker, dt_ms: int) -> bool {
    m.fire_timer.elapsed_ms + dt_ms >= m.fire_timer.duration_ms
}

/// A drawn reposition target: the attacker's position displaced along one
/// of the two perpendiculars of the aim, scaled by a drawn distance,
/// clamped to the world.
pub open spec fn lateral_target(
    self_pos: Vec2i,
    aim: Vec2i,
    t: Vec2i,
    side: bool,
    dist: int,
) -> bool {
    let px: int = if side {
        aim.y as int
    } else {
        -(aim.y as int)
    };
    let py: int = if side {
        -(aim.x as int)
    } else {
        aim.x as int
    };
    &&& 50_000 <= dist < 150_000
    &&& t.x == crate::geom::clamp_world_spec(self_pos.x + crate::geom::scale_spec(px, dist, 1000))
    &&& t.y == crate::geom::clamp_world_spec(self_pos.y + crate::geom::scale_spec(py, dist, 1000))
}

impl RangedAttacker {
    pub open spec fn wf(self) -> bool {
        &&& self.fire_timer.wf()
        &&& self.fire_timer.repeating
        &&& self.reposition_timer.wf()
        &&& !self.reposition_timer.repeating
        &&& 0 < self.shooting_range_milli <= 1_000_000i64
        &&& 0 <= self.projectile_speed_milli <= 0x100_0000_0000i64
        &&& 0 <= self.projectile_damage <= 0x10_0000_0000i64
        &&& match self.reposition_target {
            Some(t) => in_world(t),
            None => true,
        }
    }

    /// The tunable parameters that a tick never changes.
    pub open spec fn params(self) -> (int, int, int) {
        (
            self.shooting_range_milli as int,
            self.projectile_speed_milli as int,
            self.projectile_damage as int,
        )
    }

    pub fn new(
        range_milli: i64,
        fire_interval_ms: u64,
        projectile_speed_milli: i64,
        projectile_damage: i64,
    ) -> (r: RangedAttacker)
        requires
            0 < range_milli <= 1_000_000i64,
            1 <= fire_interval_ms <= 0x1_0000_0000u64,
            0 <= projectile_speed_milli <= 0x100_0000_0000i64,
            0 <= projectile_damage <= 0x10_0000_0000i64,
        ensures
            r.wf(),
            r.state == RangedState::Idle,
            r.shooting_range_milli == range_milli,
            r.projectile_speed_milli == projectile_speed_milli,
            r.projectile_damage == projectile_damage,
            r.fire_timer == (TickTimer { elapsed_ms: 0, duration_ms: fire_interval_ms, repeating: true }),
            r.reposition_timer == (TickTimer { elapsed_ms: 0, duration_ms: REPOSITION_MS, repeating: false }),
            r.reposition_target is None,
    {
        RangedAttacker {
            state: RangedState::Idle,
            shooting_range_milli: range_milli,
            fire_timer: TickTimer::new(fire_interval_ms, true),
            projectile_speed_milli,
            projectile_damage,
            reposition_target: None,
            reposition_timer: TickTimer::new(REPOSITION_MS, false),
        }
    }

    /// The stock ranged attacker: 300-unit range, one shot every two
    /// seconds.
    pub fn default_attacker() -> (r: RangedAttacker)
        ensures
            r.wf(),
            r.state == RangedState::Idle,
            r.shooting_range_milli == DEFAULT_SHOOT_RANGE_MILLI,
            r.projectile_speed_milli == DEFAULT_PROJECTILE_SPEED_MILLI,
            r.projectile_damage == DEFAULT_PROJECTILE_DAMAGE,
            r.reposition_target is None,
    {
        RangedAttacker::new(
            DEFAULT_SHOOT_RANGE_MILLI,
            DEFAULT_FIRE_INTERVAL_MS,
            DEFAULT_PROJECTILE_SPEED_MILLI,
            DEFAULT_PROJECTILE_DAMAGE,
        )
    }

    /// One behaviour tick. The movement vector is computed from the state
    /// the machine entered the tick with; transitions happen afterwards,
    /// only on timer expiry or the distance thresholds.
    ///
    /// A shot is fired only from `Attacking`, never from `Idle` or
    /// `Repositioning`; and leaving 1.1 times the shooting range while
    /// `Attacking` forces the state back to `Idle` without a shot.
    #[verifier::rlimit(60)]
    pub fn tick(
        &mut self,
        dt_ms: u64,
        self_pos: Vec2i,
        player_pos: Vec2i,
        move_speed_milli: i64,
    ) -> (out: RangedOutput)
        requires
            old(self).wf(),
            dt_ms <= TICK_MS_LIMIT,
            in_world(self_pos),
            in_world(player_pos),
            0 <= move_speed_milli <= 0x100_0000_0000i64,
        ensures
            final(self).wf(),
            final(self).params() == old(self).params(),
            // The fire clock runs only while attacking inside the leash,
            // wrapping on a shot; elsewhere it holds.
            final(self).fire_timer == (if old(self).state == RangedState::Attacking
                && !beyond_leash(self_pos, player_pos, old(self).shooting_range_milli as int) {
                crate::timer::repeating_after(old(self).fire_timer, dt_ms as int)
            } else {
                old(self).fire_timer
            }),
            // The sidestep clock runs only during a sidestep; a shot
            // restarts it.
            old(self).state == RangedState::Repositioning ==> final(self).reposition_timer
                == crate::timer::once_after(old(self).reposition_timer, dt_ms as int),
            old(self).state == RangedState::Idle ==> final(self).reposition_timer == old(self).reposition_timer,
            old(self).state == RangedState::Attacking && out.fired is None ==> final(self).reposition_timer == old(self).reposition_timer,
            // A shot comes exactly out of Attacking, inside the leash,
            // when the fire timer accumulates its period — never from
            // Idle or Repositioning.
            out.fired is Some <==> (old(self).state == RangedState::Attacking && !beyond_leash(
                self_pos,
                player_pos,
                old(self).shooting_range_milli as int,
            ) && fire_due(*old(self), dt_ms as int)),
            out.fired is Some ==> final(self).state == RangedState::Repositioning,
            // The shot aims along the exact unit direction to the player,
            // and the sidestep begins: timer restarted, and a lateral
            // target chosen perpendicular to the aim, whatever the draws.
            out.fired matches Some(o) ==> o.dir_milli == crate::geom::dir_spec(
                self_pos,
                player_pos,
            ),
            out.fired is Some ==> final(self).reposition_timer == (TickTimer {
                elapsed_ms: 0,
                duration_ms: old(self).reposition_timer.duration_ms,
                repeating: false,
            }),
            out.fired is Some ==> final(self).reposition_target is Some,
            out.fired is Some ==> (exists|side: bool, dist: int|
                #[trigger] lateral_target(
                    self_pos,
                    crate::geom::dir_spec(self_pos, player_pos),
                    final(self).reposition_target->Some_0,
                    side,
                    dist,
                )),
            // Losing the player while Attacking forces Idle, without a shot.
            old(self).state == RangedState::Attacking && beyond_leash(
                self_pos,
                player_pos,
                old(self).shooting_range_milli as int,
            ) ==> final(self).state == RangedState::Idle && out.fired is None,
            // The player entering range wakes an Idle attacker within the tick.
            old(self).state == RangedState::Idle ==> out.fired is None && final(self).state == (
            if in_shoot_range(self_pos, player_pos, old(self).shooting_range_milli as int) {
                RangedState::Attacking
            } else {
                RangedState::Idle
            }),
            // The sidestep ends exactly on its timer or on arrival within
            // ten units of the target.
            old(self).state == RangedState::Repositioning ==> out.fired is None && (final(self).state
                == RangedState::Idle <==> (old(self).reposition_timer.elapsed_ms + dt_ms
                >= old(self).reposition_timer.duration_ms || (old(self).reposition_target matches Some(
                t,
            ) && dist_sq_spec(self_pos, t) < crate::geom::sq(REPOSITION_ARRIVE_MILLI as int)))),
            old(self).state == RangedState::Repositioning ==> (final(self).state
                == RangedState::Repositioning || final(self).state == RangedState::Idle),
            // While attacking the machine stands still; idle it chases at
            // full speed; repositioning it moves toward its target at the
            // reduced factor.
            old(self).state == RangedState::Attacking ==> out.velocity == (Vec2i { x: 0, y: 0 }),
            old(self).state == RangedState::Idle ==> out.velocity == crate::geom::vel_spec(
                crate::geom::dir_spec(self_pos, player_pos),
                move_speed_milli as int,
            ),
            old(self).state == RangedState::Repositioning ==> out.velocity == (match old(self).reposition_target {
                Some(t) => crate::geom::vel_spec(
                    crate::geom::dir_spec(self_pos, t),
                    crate::geom::scale_spec(
                        move_speed_milli as int,
                        REPOSITION_SPEED_PM as int,
                        1000,
                    ),
                ),
                None => crate::geom::vel_spec(
                    crate::geom::dir_spec(self_pos, player_pos),
                    move_speed_milli as int,
                ),
            }),
            -move_speed_milli <= out.velocity.x <= move_speed_milli,
            -move_speed_milli <= out.velocity.y <= move_speed_milli,
            out.fired matches Some(o) ==> o.speed_milli == old(self).projectile_speed_milli
                && o.damage == old(self).projectile_damage && -crate::MILLI <= o.dir_milli.x
                <= crate::MILLI && -crate::MILLI <= o.dir_milli.y <= crate::MILLI,
    {
        let velocity: Vec2i = match self.state {
            RangedState::Attacking => Vec2i { x: 0, y: 0 },
            RangedState::Repositioning => {
                match self.reposition_target {
                    Some(target) => {
                        let d = dir_milli(self_pos, target);
                        let slow: i64 = scale_milli(
                            move_speed_milli,
                            REPOSITION_SPEED_PM,
                            1000,
                        );
                        vel_from_dir(d, slow)
                    },
                    None => {
                        let d = dir_milli(self_pos, player_pos);
                        vel_from_dir(d, move_speed_milli)
                    },
                }
            },
            RangedState::Idle => {
                let d = dir_milli(self_pos, player_pos);
                vel_from_dir(d, move_speed_milli)
            },
        };
        let d2: u128 = dist_sq(self_pos, player_pos);
        let range: i64 = self.shooting_range_milli;
        let range_sq: u128 = crate::geom::sq_u128(range);
        let leash: i64 = (range * 11) / 10;
        let leash_sq: u128 = crate::geom::sq_u128(leash);
        let mut fired: Option<ProjectileOrder> = None;
        match self.state {
            RangedState::Idle => {
                if d2 <= range_sq {
                    self.state = RangedState::Attacking;
                }
            },
            RangedState::Attacking => {
                if d2 > leash_sq {
                    self.state = RangedState::Idle;
                } else {
                    let aim = dir_milli(self_pos, player_pos);
                    if self.fire_timer.tick(dt_ms) {
                        fired = Some(
                            ProjectileOrder {
                                dir_milli: aim,
                                speed_milli: self.projectile_speed_milli,
                                damage: self.projectile_damage,
                            },
                        );
                        self.state = RangedState::Repositioning;
                        self.reposition_timer.reset();
                        // A lateral target: perpendicular to the aim, on a
                        // random side, at a random distance of 50 to 150
                        // units.
                        let side: u64 = roll_range(0, 2);
                        let dist: u64 = roll_range(50_000, 150_000);
                        let perp: Vec2i = if side == 0 {
                            Vec2i { x: -aim.y, y: aim.x }
                        } else {
                            Vec2i { x: aim.y, y: -aim.x }
                        };
                        proof {
                            assert(-(1000 * 150_000) <= (perp.x as int) * (dist as int) <= 1000
                                * 150_000 && -(1000 * 150_000) <= (perp.y as int) * (dist as int)
                                <= 1000 * 150_000) by (nonlinear_arith)
                                requires
                                    -1000 <= perp.x <= 1000,
                                    -1000 <= perp.y <= 1000,
                                    50_000 <= dist < 150_000,
                            ;
                        }
                        proof {
                            crate::geom::lemma_scale_component_bound(
                                perp.x as int,
                                dist as int,
                            );
                            crate::geom::lemma_scale_component_bound(
                                perp.y as int,
                                dist as int,
                            );
                        }
                        let off_x: i64 = scale_milli(perp.x, dist, 1000);
                        let off_y: i64 = scale_milli(perp.y, dist, 1000);
                        let target = Vec2i {
                            x: clamp_world(self_pos.x + off_x),
                            y: clamp_world(self_pos.y + off_y),
                        };
                        self.reposition_target = Some(target);
                        proof {
                            assert(lateral_target(
                                self_pos,
                                crate::geom::dir_spec(self_pos, player_pos),
                                self.reposition_target->Some_0,
                                side != 0,
                                dist as int,
                            ));
                            assert(exists|sd: bool, ds: int|
                                #[trigger] lateral_target(
                                    self_pos,
                                    crate::geom::dir_spec(self_pos, player_pos),
                                    self.reposition_target->Some_0,
                                    sd,
                                    ds,
                                ));
                        }
                    }
                }
            },
            RangedState::Repositioning => {
                let timer_done: bool = self.reposition_timer.tick(dt_ms);
                let arrived: bool = match self.reposition_target {
                    Some(target) => {
                        let td2: u128 = dist_sq(self_pos, target);
                        td2 < crate::geom::sq_u128(REPOSITION_ARRIVE_MILLI)
                    },
                    None => false,
                };
                if timer_done || self.reposition_timer.finished() || arrived {
                    self.state = RangedState::Idle;
                    self.reposition_target = None;
                }
            },
        }
        RangedOutput { velocity, fired }
    }
}

} // verus!
