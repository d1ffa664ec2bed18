//! The teleporting skirmisher behaviour: chases the player, periodically
//! fades out, relocates instantly to a point near the player, fades back in
//! and chases again at reduced speed while its teleport cools down. While
//! phased it can be neither hit nor deal contact damage.

use vstd::prelude::*;

verus! {

use crate::geom::Vec2i;
use crate::geom::dir_milli;
use crate::geom::in_world;
use crate::geom::vel_from_dir;
use crate::geom::scale_milli;
use crate::timer::TICK_MS_LIMIT;
use crate::timer::TickTimer;

/// Cooldown between teleports, in milliseconds.
pub const TELEPORT_COOLDOWN_MS: u64 = 5_000;

/// Duration of the fade out and of the fade in, in milliseconds.
pub const PHASE_MS: u64 = 300;

/// Duration of the fully phased-out moment, in milliseconds.
pub const PHASED_OUT_MS: u64 = 50;

/// Bounds of the teleport distance from the player, in milliunits.
pub const TELEPORT_RANGE_MIN_MILLI: u64 = 100_000;

pub const TELEPORT_RANGE_MAX_MILLI: u64 = 250_000;

/// Speed factor while the teleport cools down, in per-mille.
pub const COOLDOWN_SPEED_PM: u64 = 600;

#[derive(Clone, Copy, PartialEq, Eq, Structural, Debug)]
pub enum SkirmisherState {
    Chasing,
    PhasingOut,
    PhasedOut,
    PhasingIn,
    Cooldown,
}

#[derive(Clone, Copy, PartialEq, Eq, Structural, Debug)]
pub struct TeleportSkirmisher {
    pub state: SkirmisherState,
    /// One-shot timer driving whichever phase the machine is in.
    pub action_timer: TickTimer,
    pub teleport_destination: Option<Vec2i>,
}

/// What one skirmisher tick produced: the movement vector, and an instant
/// relocation when the phased-out moment ended this tick.
pub struct SkirmisherOutput {
    pub velocity: Vec2i,
    pub teleport_to: Option<Vec2i>,
}

/// Whether the skirmisher can collide at all in this state: no collision
/// or contact damage occurs while it is phasing out, phased out or phasing
/// back in.
pub open spec fn targetable_spec(state: SkirmisherState) -> bool {
    match state {
        SkirmisherState::Chasing => true,
        SkirmisherState::Cooldown => true,
        _ => false,
    }
}

impl TeleportSkirmisher {
    pub open spec fn wf(self) -> bool {
        &&& self.action_timer.wf()
        &&& !self.action_timer.repeating
        &&& match self.teleport_destination {
            Some(d) => in_world(d),
            None => true,
        }
        &&& self.state == SkirmisherState::PhasedOut ==> self.teleport_destination is Some
    }

    pub fn new() -> (r: TeleportSkirmisher)
        ensures
            r.wf(),
            r.state == SkirmisherState::Chasing,
            r.teleport_destination is None,
            r.action_timer == (TickTimer {
                elapsed_ms: 0,
                duration_ms: TELEPORT_COOLDOWN_MS,
                repeating: false,
            }),
    {
        TeleportSkirmisher {
            state: SkirmisherState::Chasing,
            action_timer: TickTimer::new(TELEPORT_COOLDOWN_MS, false),
            teleport_destination: None,
        }
    }

    /// One behaviour tick. The movement vector comes from the state the
    /// machine entered the tick with; transitions happen only on the
    /// action timer's expiry. A relocation is reported exactly when the
    /// phased-out moment ends, to the destination chosen at fade-out.
    pub fn tick(
        &mut self,
        dt_ms: u64,
        self_pos: Vec2i,
        player_pos: Vec2i,
        move_speed_milli: i64,
    ) -> (out: SkirmisherOutput)
        requires
            old(self).wf(),
            dt_ms <= TICK_MS_LIMIT,
            in_world(self_pos),
            in_world(player_pos),
            0 <= move_speed_milli <= 0x100_0000_0000i64,
        ensures
            final(self).wf(),
            // The cycle of states is closed: each state steps only to
            // itself or its successor.
            match old(self).state {
                SkirmisherState::Chasing => final(self).state == SkirmisherState::Chasing
                    || final(self).state == SkirmisherState::PhasingOut,
                SkirmisherState::PhasingOut => final(self).state == SkirmisherState::PhasingOut
                    || final(self).state == SkirmisherState::PhasedOut,
                SkirmisherState::PhasedOut => final(self).state == SkirmisherState::PhasedOut
                    || final(self).state == SkirmisherState::PhasingIn,
                SkirmisherState::PhasingIn => final(self).state == SkirmisherState::PhasingIn
                    || final(self).state == SkirmisherState::Cooldown,
                SkirmisherState::Cooldown => final(self).state == SkirmisherState::Cooldown
                    || final(self).state == SkirmisherState::Chasing,
            },
            // While phasing, the machine does not move on its own; while
            // targetable it pursues the player, at full speed chasing and
            // at the reduced factor while the teleport cools down.
            !targetable_spec(old(self).state) ==> out.velocity == (Vec2i { x: 0, y: 0 }),
            old(self).state == SkirmisherState::Chasing ==> out.velocity == crate::geom::vel_spec(
                crate::geom::dir_spec(self_pos, player_pos),
                move_speed_milli as int,
            ),
            old(self).state == SkirmisherState::Cooldown ==> out.velocity
                == crate::geom::vel_spec(
                crate::geom::dir_spec(self_pos, player_pos),
                crate::geom::scale_spec(move_speed_milli as int, COOLDOWN_SPEED_PM as int, 1000),
            ),
            -move_speed_milli <= out.velocity.x <= move_speed_milli,
            -move_speed_milli <= out.velocity.y <= move_speed_milli,
            // Each transition happens exactly when the action timer runs
            // out, and restarts the timer at the next phase's duration.
            old(self).state == SkirmisherState::Chasing ==> (final(self).state
                == SkirmisherState::PhasingOut <==> old(self).action_timer.elapsed_ms + dt_ms
                >= old(self).action_timer.duration_ms),
            old(self).state == SkirmisherState::Chasing && final(self).state
                == SkirmisherState::PhasingOut ==> {
                &&& final(self).action_timer == (TickTimer {
                    elapsed_ms: 0,
                    duration_ms: PHASE_MS,
                    repeating: false,
                })
                // The destination is chosen now: a point within the
                // teleport band around the player, clamped to the world,
                // whatever the draws.
                &&& final(self).teleport_destination is Some
                &&& (exists|d: Vec2i, dist: int|
                    #[trigger] crate::spawner::on_ring(
                        player_pos,
                        final(self).teleport_destination->Some_0,
                        d,
                        dist,
                        TELEPORT_RANGE_MIN_MILLI as int,
                        TELEPORT_RANGE_MAX_MILLI as int,
                    ))
                &&& -(TELEPORT_RANGE_MAX_MILLI as int) <= final(self).teleport_destination->Some_0.x
                    - player_pos.x <= TELEPORT_RANGE_MAX_MILLI
                &&& -(TELEPORT_RANGE_MAX_MILLI as int) <= final(self).teleport_destination->Some_0.y
                    - player_pos.y <= TELEPORT_RANGE_MAX_MILLI
            },
            old(self).state == SkirmisherState::PhasingOut ==> (final(self).state
                == SkirmisherState::PhasedOut <==> (old(self).action_timer.elapsed_ms
                < old(self).action_timer.duration_ms && old(self).action_timer.elapsed_ms + dt_ms
                >= old(self).action_timer.duration_ms)),
            old(self).state == SkirmisherState::PhasingOut && final(self).state
                == SkirmisherState::PhasedOut ==> final(self).action_timer == (TickTimer {
                elapsed_ms: 0,
                duration_ms: PHASED_OUT_MS,
                repeating: false,
            }),
            old(self).state == SkirmisherState::PhasedOut ==> (final(self).state
                == SkirmisherState::PhasingIn <==> (old(self).action_timer.elapsed_ms
                < old(self).action_timer.duration_ms && old(self).action_timer.elapsed_ms + dt_ms
                >= old(self).action_timer.duration_ms)),
            old(self).state == SkirmisherState::PhasedOut && final(self).state
                == SkirmisherState::PhasingIn ==> final(self).action_timer == (TickTimer {
                elapsed_ms: 0,
                duration_ms: PHASE_MS,
                repeating: false,
            }),
            old(self).state == SkirmisherState::PhasingIn ==> (final(self).state
                == SkirmisherState::Cooldown <==> (old(self).action_timer.elapsed_ms
                < old(self).action_timer.duration_ms && old(self).action_timer.elapsed_ms + dt_ms
                >= old(self).action_timer.duration_ms)),
            old(self).state == SkirmisherState::PhasingIn && final(self).state
                == SkirmisherState::Cooldown ==> final(self).action_timer == (TickTimer {
                elapsed_ms: 0,
                duration_ms: TELEPORT_COOLDOWN_MS,
                repeating: false,
            }),
            old(self).state == SkirmisherState::Cooldown ==> (final(self).state
                == SkirmisherState::Chasing <==> old(self).action_timer.elapsed_ms + dt_ms
                >= old(self).action_timer.duration_ms),
            // While no phase ends, the action clock just runs.
            final(self).state == old(self).state ==> final(self).action_timer
                == crate::timer::once_after(old(self).action_timer, dt_ms as int),
            // Leaving the cooldown also restarts the full teleport clock.
            old(self).state == SkirmisherState::Cooldown && final(self).state
                == SkirmisherState::Chasing ==> final(self).action_timer == (TickTimer {
                elapsed_ms: 0,
                duration_ms: TELEPORT_COOLDOWN_MS,
                repeating: false,
            }),
            // A relocation happens exactly on leaving PhasedOut, and goes
            // to the destination stored when the fade-out began.
            out.teleport_to is Some <==> (old(self).state == SkirmisherState::PhasedOut
                && final(self).state == SkirmisherState::PhasingIn),
            out.teleport_to is Some ==> out.teleport_to == old(self).teleport_destination,
            out.teleport_to matches Some(d) ==> in_world(d),
    {
        let velocity: Vec2i = match self.state {
            SkirmisherState::Chasing => {
                let d = dir_milli(self_pos, player_pos);
                vel_from_dir(d, move_speed_milli)
            },
            SkirmisherState::Cooldown => {
                let d = dir_milli(self_pos, player_pos);
                let slow: i64 = scale_milli(move_speed_milli, COOLDOWN_SPEED_PM, 1000);
                vel_from_dir(d, slow)
            },
            _ => Vec2i { x: 0, y: 0 },
        };
        let fired: bool = self.action_timer.tick(dt_ms);
        let mut teleport_to: Option<Vec2i> = None;
        match self.state {
            SkirmisherState::Chasing => {
                if self.action_timer.finished() {
                    self.state = SkirmisherState::PhasingOut;
                    self.action_timer.set_duration(PHASE_MS);
                    // Pick a destination near the player: a random
                    // direction, at a random distance inside the teleport
                    // band.
                    let dest: Vec2i = crate::spawner::ring_point_near(
                        player_pos,
                        TELEPORT_RANGE_MIN_MILLI,
                        TELEPORT_RANGE_MAX_MILLI,
                    );
                    self.teleport_destination = Some(dest);
                }
            },
            SkirmisherState::PhasingOut => {
                if fired {
                    self.state = SkirmisherState::PhasedOut;
                    self.action_timer.set_duration(PHASED_OUT_MS);
                    if self.teleport_destination.is_none() {
                        // The destination is always chosen at fade-out; keep
                        // the machine well formed even if it was built by
                        // hand in this state.
                        self.teleport_destination = Some(self_pos);
                    }
                }
            },
            SkirmisherState::PhasedOut => {
                if fired {
                    teleport_to = self.teleport_destination;
                    self.teleport_destination = None;
                    self.state = SkirmisherState::PhasingIn;
                    self.action_timer.set_duration(PHASE_MS);
                }
            },
            SkirmisherState::PhasingIn => {
                if fired {
                    self.state = SkirmisherState::Cooldown;
                    self.action_timer.set_duration(TELEPORT_COOLDOWN_MS);
                }
            },
            SkirmisherState::Cooldown => {
                if self.action_timer.finished() {
                    self.state = SkirmisherState::Chasing;
                    self.action_timer.set_duration(TELEPORT_COOLDOWN_MS);
                }
            },
        }
        SkirmisherOutput { velocity, teleport_to }
    }
}

} // verus!
