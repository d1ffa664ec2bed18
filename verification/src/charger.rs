//! The charger behaviour: roams toward the player until its cooldown is
//! ready and the player sits inside a detection band, then telegraphs
//! without moving, charges at a large speed multiplier along a direction
//! locked at telegraph end, and cools down before roaming again.

use vstd::prelude::*;

verus! {

use crate::MILLI;
use crate::geom::Vec2i;
use crate::geom::dist_sq;
use crate::geom::dist_sq_spec;
use crate::geom::dir_milli;
use crate::geom::in_world;
use crate::geom::vel_from_dir;
use crate::timer::TICK_MS_LIMIT;
use crate::timer::TickTimer;

/// Cooldown between charges, in milliseconds.
pub const CHARGE_COOLDOWN_MS: u64 = 6_000;

/// Telegraph duration before a charge, in milliseconds.
pub const TELEGRAPH_MS: u64 = 1_200;

/// Duration of the charge itself, in milliseconds.
pub const CHARGE_DURATION_MS: u64 = 1_000;

/// Charge speed multiplier, in per-mille: three and a half times the base
/// speed.
pub const CHARGE_SPEED_PM: u64 = 3_500;

/// The player must be nearer than this to trigger a charge, in milliunits.
pub const DETECTION_RANGE_MILLI: i64 = 400_000;

/// The player must be farther than this to trigger a charge, in
/// milliunits.
pub const MIN_CHARGE_RANGE_MILLI: i64 = 100_000;

#[derive(Clone, Copy, PartialEq, Eq, Structural, Debug)]
pub enum ChargerState {
    Roaming,
    Telegraphing,
    Charging,
    Cooldown,
}

#[derive(Clone, Copy, PartialEq, Eq, Structural, Debug)]
pub struct Charger {
    pub state: ChargerState,
    /// One-shot timer gating the next charge.
    pub cooldown_timer: TickTimer,
    /// One-shot timer over the telegraph.
    pub telegraph_timer: TickTimer,
    /// One-shot timer over the charge itself.
    pub charge_timer: TickTimer,
    /// The player position captured when the charge was committed.
    pub charge_target: Option<Vec2i>,
    /// Fixed-point unit direction of the running charge, locked at
    /// telegraph end.
    pub charge_direction: Option<Vec2i>,
}

impl Charger {
    pub open spec fn wf(self) -> bool {
        &&& self.cooldown_timer.wf()
        &&& !self.cooldown_timer.repeating
        &&& self.telegraph_timer.wf()
        &&& !self.telegraph_timer.repeating
        &&& self.charge_timer.wf()
        &&& !self.charge_timer.repeating
        &&& match self.charge_target {
            Some(t) => in_world(t),
            None => true,
        }
        &&& match self.charge_direction {
            Some(d) => -MILLI <= d.x <= MILLI && -MILLI <= d.y <= MILLI,
            None => true,
        }
        &&& self.state == ChargerState::Telegraphing ==> self.charge_target is Some
        &&& self.state == ChargerState::Charging ==> self.charge_direction is Some
    }

    pub fn new() -> (r: Charger)
        ensures
            r.wf(),
            r.state == ChargerState::Roaming,
            r.charge_target is None,
            r.charge_direction is None,
            r.cooldown_timer == (TickTimer {
                elapsed_ms: 0,
                duration_ms: CHARGE_COOLDOWN_MS,
                repeating: false,
            }),
            r.telegraph_timer == (TickTimer { elapsed_ms: 0, duration_ms: TELEGRAPH_MS, repeating: false }),
            r.charge_timer == (TickTimer {
                elapsed_ms: 0,
                duration_ms: CHARGE_DURATION_MS,
                repeating: false,
            }),
    {
        Charger {
            state: ChargerState::Roaming,
            cooldown_timer: TickTimer::new(CHARGE_COOLDOWN_MS, false),
            telegraph_timer: TickTimer::new(TELEGRAPH_MS, false),
            charge_timer: TickTimer::new(CHARGE_DURATION_MS, false),
            charge_target: None,
            charge_direction: None,
        }
    }

    /// One behaviour tick. The movement vector comes from the state the
    /// machine entered the tick with: the full charge-speed velocity is
    /// produced only while `Charging`, along the direction locked when the
    /// telegraph ended; telegraphing and cooling down do not move. The
    /// roam uses the slow-adjusted speed; the charge rush itself runs on
    /// `charge_speed_milli`, which host-side slow effects do not touch.
    pub fn tick(
        &mut self,
        dt_ms: u64,
        self_pos: Vec2i,
        player_pos: Vec2i,
        move_speed_milli: i64,
        charge_speed_milli: i64,
    ) -> (velocity: Vec2i)
        requires
            old(self).wf(),
            dt_ms <= TICK_MS_LIMIT,
            in_world(self_pos),
            in_world(player_pos),
            0 <= move_speed_milli <= 0x40_0000_0000i64,
            0 <= charge_speed_milli <= 0x40_0000_0000i64,
        ensures
            final(self).wf(),
            // The cycle of states is closed.
            match old(self).state {
                ChargerState::Roaming => final(self).state == ChargerState::Roaming || final(self).state == ChargerState::Telegraphing,
                ChargerState::Telegraphing => final(self).state == ChargerState::Telegraphing
                    || final(self).state == ChargerState::Charging,
                ChargerState::Charging => final(self).state == ChargerState::Charging || final(self).state == ChargerState::Cooldown,
                ChargerState::Cooldown => final(self).state == ChargerState::Cooldown || final(self).state == ChargerState::Roaming,
            },
            // A charge commits exactly when the cooldown has accumulated
            // its period and the player sits inside the detection band;
            // the player's position is captured and the telegraph starts
            // from zero.
            old(self).state == ChargerState::Roaming ==> (final(self).state
                == ChargerState::Telegraphing <==> {
                &&& old(self).cooldown_timer.elapsed_ms + dt_ms
                    >= old(self).cooldown_timer.duration_ms
                &&& dist_sq_spec(self_pos, player_pos) < DETECTION_RANGE_MILLI
                    * DETECTION_RANGE_MILLI
                &&& dist_sq_spec(self_pos, player_pos) > MIN_CHARGE_RANGE_MILLI
                    * MIN_CHARGE_RANGE_MILLI
            }),
            old(self).state == ChargerState::Roaming && final(self).state
                == ChargerState::Telegraphing ==> {
                &&& final(self).charge_target == Some(player_pos)
                &&& final(self).telegraph_timer == (TickTimer {
                    elapsed_ms: 0,
                    duration_ms: old(self).telegraph_timer.duration_ms,
                    repeating: false,
                })
            },
            // The telegraph ends exactly when its timer completes; the
            // direction locks toward the captured target and the charge
            // clock starts from zero.
            old(self).state == ChargerState::Telegraphing ==> (final(self).state
                == ChargerState::Charging <==> (old(self).telegraph_timer.elapsed_ms
                < old(self).telegraph_timer.duration_ms
                && old(self).telegraph_timer.elapsed_ms + dt_ms
                >= old(self).telegraph_timer.duration_ms)),
            old(self).state == ChargerState::Telegraphing && final(self).state
                == ChargerState::Charging ==> {
                &&& final(self).charge_direction == Some(
                    crate::geom::dir_spec(self_pos, old(self).charge_target->Some_0),
                )
                &&& final(self).charge_timer == (TickTimer {
                    elapsed_ms: 0,
                    duration_ms: old(self).charge_timer.duration_ms,
                    repeating: false,
                })
            },
            // The charge ends exactly when its timer completes; the
            // direction is cleared and the cooldown starts from zero.
            old(self).state == ChargerState::Charging ==> (final(self).state
                == ChargerState::Cooldown <==> old(self).charge_timer.elapsed_ms + dt_ms
                >= old(self).charge_timer.duration_ms),
            old(self).state == ChargerState::Charging && final(self).state
                == ChargerState::Cooldown ==> final(self).charge_direction is None && final(self).cooldown_timer == (TickTimer {
                elapsed_ms: 0,
                duration_ms: old(self).cooldown_timer.duration_ms,
                repeating: false,
            }),
            // Roaming resumes exactly when the cooldown completes.
            old(self).state == ChargerState::Cooldown ==> (final(self).state
                == ChargerState::Roaming <==> old(self).cooldown_timer.elapsed_ms + dt_ms
                >= old(self).cooldown_timer.duration_ms),
            // The locked direction never changes while the charge runs.
            old(self).state == ChargerState::Charging && final(self).state
                == ChargerState::Charging ==> final(self).charge_direction == old(self).charge_direction,
            // The running phase's clock advances; the others hold, but for
            // the restarts pinned at the transitions above.
            old(self).state == ChargerState::Roaming ==> final(self).cooldown_timer
                == crate::timer::once_after(old(self).cooldown_timer, dt_ms as int) && final(self).charge_timer == old(self).charge_timer,
            old(self).state == ChargerState::Roaming && final(self).state == ChargerState::Roaming
                ==> final(self).telegraph_timer == old(self).telegraph_timer,
            old(self).state == ChargerState::Telegraphing ==> final(self).telegraph_timer
                == crate::timer::once_after(old(self).telegraph_timer, dt_ms as int) && final(self).cooldown_timer == old(self).cooldown_timer,
            old(self).state == ChargerState::Telegraphing && final(self).state
                == ChargerState::Telegraphing ==> final(self).charge_timer == old(self).charge_timer,
            old(self).state == ChargerState::Charging ==> final(self).charge_timer
                == crate::timer::once_after(old(self).charge_timer, dt_ms as int) && final(self).telegraph_timer == old(self).telegraph_timer,
            old(self).state == ChargerState::Charging && final(self).state
                == ChargerState::Charging ==> final(self).cooldown_timer == old(self).cooldown_timer,
            old(self).state == ChargerState::Cooldown ==> final(self).cooldown_timer
                == crate::timer::once_after(old(self).cooldown_timer, dt_ms as int) && final(self).telegraph_timer == old(self).telegraph_timer && final(self).charge_timer == old(self).charge_timer,
            // Telegraphing and cooling down stand still; the charge-speed
            // velocity exists only in Charging.
            old(self).state == ChargerState::Telegraphing || old(self).state
                == ChargerState::Cooldown ==> velocity == (Vec2i { x: 0, y: 0 }),
            old(self).state == ChargerState::Charging ==> velocity == crate::geom::vel_spec(
                old(self).charge_direction->Some_0,
                (charge_speed_milli * 3500) / 1000,
            ),
            // Roaming pursuit at full base speed.
            old(self).state == ChargerState::Roaming ==> velocity == crate::geom::vel_spec(
                crate::geom::dir_spec(self_pos, player_pos),
                move_speed_milli as int,
            ) && -move_speed_milli <= velocity.x <= move_speed_milli && -move_speed_milli
                <= velocity.y <= move_speed_milli,
            -0x100_0000_0000i64 <= velocity.x <= 0x100_0000_0000i64,
            -0x100_0000_0000i64 <= velocity.y <= 0x100_0000_0000i64,
    {
        let velocity: Vec2i = match self.state {
            ChargerState::Roaming => {
                let d = dir_milli(self_pos, player_pos);
                vel_from_dir(d, move_speed_milli)
            },
            ChargerState::Charging => {
                let boosted: i64 = (charge_speed_milli * 3500) / 1000;
                match self.charge_direction {
                    Some(d) => vel_from_dir(d, boosted),
                    None => Vec2i { x: 0, y: 0 },
                }
            },
            _ => Vec2i { x: 0, y: 0 },
        };
        match self.state {
            ChargerState::Roaming => {
                self.cooldown_timer.tick(dt_ms);
                if self.cooldown_timer.finished() {
                    let d2: u128 = dist_sq(self_pos, player_pos);
                    let det_sq: u128 = crate::geom::sq_u128(DETECTION_RANGE_MILLI);
                    let min_sq: u128 = crate::geom::sq_u128(MIN_CHARGE_RANGE_MILLI);
                    if d2 < det_sq && d2 > min_sq {
                        self.state = ChargerState::Telegraphing;
                        self.telegraph_timer.reset();
                        self.charge_target = Some(player_pos);
                    }
                }
            },
            ChargerState::Telegraphing => {
                if self.telegraph_timer.tick(dt_ms) {
                    self.state = ChargerState::Charging;
                    self.charge_timer.reset();
                    let target: Vec2i = match self.charge_target {
                        Some(t) => t,
                        None => player_pos,
                    };
                    self.charge_direction = Some(dir_milli(self_pos, target));
                }
            },
            ChargerState::Charging => {
                self.charge_timer.tick(dt_ms);
                if self.charge_timer.finished() {
                    self.state = ChargerState::Cooldown;
                    self.cooldown_timer.reset();
                    self.charge_direction = None;
                    self.charge_target = None;
                }
            },
            ChargerState::Cooldown => {
                self.cooldown_timer.tick(dt_ms);
                if self.cooldown_timer.finished() {
                    self.state = ChargerState::Roaming;
                }
            },
        }
        velocity
    }
}

} // verus!
