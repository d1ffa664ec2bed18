//! The summoner behaviour: holds a comfortable band of distance to the
//! player, and on a repeating timer raises a batch of cheap minions, never
//! tracking more live minions than its cap.

use vstd::prelude::*;

verus! {

use crate::geom::Vec2i;
use crate::geom::dist_sq;
use crate::geom::dist_sq_spec;
use crate::geom::dir_milli;
use crate::geom::in_world;
use crate::geom::vel_from_dir;
use crate::geom::scale_milli;
use crate::timer::TICK_MS_LIMIT;
use crate::timer::TickTimer;

/// Interval between summon attempts, in milliseconds.
pub const SUMMON_COOLDOWN_MS: u64 = 7_000;

/// Most minions a summoner tracks at once.
pub const SUMMONER_MINION_CAP: usize = 3;

/// Minions raised per successful attempt, cap allowing.
pub const MINIONS_PER_SUMMON: usize = 2;

/// The summoner backs away inside this distance to the player, in
/// milliunits.
pub const COMFORT_NEAR_MILLI: i64 = 250_000;

/// The summoner closes in beyond this distance to the player, in
/// milliunits.
pub const COMFORT_FAR_MILLI: i64 = 400_000;

/// Speed factor while adjusting its distance, in per-mille.
pub const SUMMONER_SPEED_PM: u64 = 500;

#[derive(Clone, PartialEq, Eq, Debug)]
pub struct Summoner {
    /// Repeating timer pacing the summon attempts.
    pub summon_timer: TickTimer,
    /// Configured minion cap.
    pub max_minions: usize,
    /// Ids of the minions this summoner raised that were live at the last
    /// pruning.
    pub minion_ids: Vec<u64>,
}

impl Summoner {
    /// Well-formedness; in particular the tracked minions never exceed the
    /// cap.
    pub open spec fn wf(self) -> bool {
        &&& self.summon_timer.wf()
        &&& self.summon_timer.repeating
        &&& self.max_minions <= 64
        &&& self.minion_ids@.len() <= self.max_minions
    }

    pub fn new() -> (r: Summoner)
        ensures
            r.wf(),
            r.max_minions == SUMMONER_MINION_CAP,
            r.minion_ids@.len() == 0,
            r.summon_timer == (TickTimer {
                elapsed_ms: 0,
                duration_ms: SUMMON_COOLDOWN_MS,
                repeating: true,
            }),
    {
        Summoner {
            summon_timer: TickTimer::new(SUMMON_COOLDOWN_MS, true),
            max_minions: SUMMONER_MINION_CAP,
            minion_ids: Vec::new(),
        }
    }

    /// Drop every tracked id that no longer names a live adversary. The
    /// kept ids are exactly the tracked ones that are still alive, and the
    /// list never grows.
    pub fn prune_minions(&mut self, alive_ids: &Vec<u64>)
        requires
            old(self).wf(),
        ensures
            final(self).wf(),
            final(self).summon_timer == old(self).summon_timer,
            final(self).max_minions == old(self).max_minions,
            final(self).minion_ids@.len() <= old(self).minion_ids@.len(),
            forall|id: u64|
                #[trigger] final(self).minion_ids@.contains(id) <==> (old(self).minion_ids@.contains(
                    id,
                ) && alive_ids@.contains(id)),
    {
        let mut kept: Vec<u64> = Vec::new();
        let n: usize = self.minion_ids.len();
        let mut i: usize = 0;
        while i < n
            invariant
                i <= n,
                n == self.minion_ids@.len(),
                kept@.len() <= i,
                forall|id: u64|
                    kept@.contains(id) <==> (#[trigger] self.minion_ids@.subrange(0, i as int)
                        .contains(id) && alive_ids@.contains(id)),
            decreases n - i,
        {
            let id: u64 = self.minion_ids[i];
            let is_alive: bool = contains_id(alive_ids, id);
            let ghost pre_kept = kept@;
            if is_alive {
                kept.push(id);
            }
            proof {
                broadcast use vstd::seq_lib::lemma_seq_contains_after_push;

                let s = self.minion_ids@;
                assert(s.subrange(0, i + 1 as int) == s.subrange(0, i as int).push(s[i as int]));
                assert forall|x: u64|
                    kept@.contains(x) <==> (#[trigger] s.subrange(0, i + 1 as int).contains(x)
                        && alive_ids@.contains(x)) by {
                    assert(s.subrange(0, i + 1 as int).contains(x) <==> s.subrange(
                        0,
                        i as int,
                    ).contains(x) || x == s[i as int]);
                    if is_alive {
                        assert(kept@ == pre_kept.push(id));
                        assert(kept@.contains(x) <==> pre_kept.contains(x) || x == id);
                    }
                }
            }
            i = i + 1;
        }
        proof {
            assert(self.minion_ids@.subrange(0, n as int) == self.minion_ids@);
        }
        self.minion_ids = kept;
    }

    /// One behaviour tick, after pruning: the movement vector keeps the
    /// comfort band, and the return value says how many minions to raise
    /// now. Raising that many keeps the tracked count within the cap.
    pub fn tick(
        &mut self,
        dt_ms: u64,
        self_pos: Vec2i,
        player_pos: Vec2i,
        move_speed_milli: i64,
    ) -> (out: (Vec2i, usize))
        requires
            old(self).wf(),
            dt_ms <= TICK_MS_LIMIT,
            in_world(self_pos),
            in_world(player_pos),
            0 <= move_speed_milli <= 0x100_0000_0000i64,
        ensures
            final(self).wf(),
            final(self).max_minions == old(self).max_minions,
            final(self).minion_ids == old(self).minion_ids,
            // Never an order beyond the cap, and at most one batch.
            final(self).minion_ids@.len() + out.1 <= final(self).max_minions,
            out.1 <= MINIONS_PER_SUMMON,
            // The order is exact: a full batch, cap allowing, exactly when
            // the summon timer accumulates its period.
            out.1 == (if old(self).summon_timer.elapsed_ms + dt_ms
                >= old(self).summon_timer.duration_ms && old(self).minion_ids@.len() < old(
                self,
            ).max_minions {
                if old(self).max_minions - old(self).minion_ids@.len() < MINIONS_PER_SUMMON {
                    old(self).max_minions - old(self).minion_ids@.len()
                } else {
                    MINIONS_PER_SUMMON as int
                }
            } else {
                0int
            }),
            // The summon clock simply keeps running, wrapping each period.
            final(self).summon_timer == crate::timer::repeating_after(
                old(self).summon_timer,
                dt_ms as int,
            ),
            // Inside the comfort band the summoner stands still.
            COMFORT_NEAR_MILLI * COMFORT_NEAR_MILLI <= dist_sq_spec(self_pos, player_pos)
                <= COMFORT_FAR_MILLI * COMFORT_FAR_MILLI ==> out.0 == (Vec2i { x: 0, y: 0 }),
            // Too close it backs away, too far it closes in, at half speed
            // either way.
            dist_sq_spec(self_pos, player_pos) < COMFORT_NEAR_MILLI * COMFORT_NEAR_MILLI ==> out.0
                == crate::geom::vel_spec(
                crate::geom::dir_spec(player_pos, self_pos),
                crate::geom::scale_spec(move_speed_milli as int, SUMMONER_SPEED_PM as int, 1000),
            ),
            dist_sq_spec(self_pos, player_pos) > COMFORT_FAR_MILLI * COMFORT_FAR_MILLI ==> out.0
                == crate::geom::vel_spec(
                crate::geom::dir_spec(self_pos, player_pos),
                crate::geom::scale_spec(move_speed_milli as int, SUMMONER_SPEED_PM as int, 1000),
            ),
            -move_speed_milli <= out.0.x <= move_speed_milli,
            -move_speed_milli <= out.0.y <= move_speed_milli,
    {
        let d2: u128 = dist_sq(self_pos, player_pos);
        let near_sq: u128 = crate::geom::sq_u128(COMFORT_NEAR_MILLI);
        let far_sq: u128 = crate::geom::sq_u128(COMFORT_FAR_MILLI);
        let velocity: Vec2i = if d2 < near_sq {
            let d = dir_milli(player_pos, self_pos);
            let slow: i64 = scale_milli(move_speed_milli, SUMMONER_SPEED_PM, 1000);
            vel_from_dir(d, slow)
        } else if d2 > far_sq {
            let d = dir_milli(self_pos, player_pos);
            let slow: i64 = scale_milli(move_speed_milli, SUMMONER_SPEED_PM, 1000);
            vel_from_dir(d, slow)
        } else {
            Vec2i { x: 0, y: 0 }
        };
        let fired: bool = self.summon_timer.tick(dt_ms);
        let room: usize = self.max_minions - self.minion_ids.len();
        let to_summon: usize = if fired && room > 0 {
            if room < MINIONS_PER_SUMMON {
                room
            } else {
                MINIONS_PER_SUMMON
            }
        } else {
            0
        };
        (velocity, to_summon)
    }

    /// Track one freshly raised minion.
    pub fn record_minion(&mut self, id: u64)
        requires
            old(self).wf(),
            old(self).minion_ids@.len() < old(self).max_minions,
        ensures
            final(self).wf(),
            final(self).summon_timer == old(self).summon_timer,
            final(self).max_minions == old(self).max_minions,
            final(self).minion_ids@ == old(self).minion_ids@.push(id),
    {
        self.minion_ids.push(id);
    }
}

/// Linear membership test over an id list.
pub fn contains_id(ids: &Vec<u64>, id: u64) -> (r: bool)
    ensures
        r == ids@.contains(id),
{
    let mut i: usize = 0;
    let n: usize = ids.len();
    while i < n
        invariant
            i <= n,
            n == ids@.len(),
            forall|j: int| 0 <= j < i ==> ids@[j] != id,
        decreases n - i,
    {
        if ids[i] == id {
            return true;
        }
        i = i + 1;
    }
    false
}

} // verus!
