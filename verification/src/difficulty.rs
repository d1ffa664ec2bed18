//! Session-wide difficulty state: the cycle counter, the adversary cap and
//! the spawn interval, monotonically adjusted as the session runs.

use vstd::prelude::*;

verus! {

use crate::timer::TICK_MS_LIMIT;
use crate::timer::TickTimer;

/// Milliseconds between difficulty cycles.
pub const CYCLE_INTERVAL_MS: u64 = 30_000;

/// Adversary cap at session start.
pub const INITIAL_CAP: u32 = 20;

/// Cap growth per completed cycle.
pub const CAP_PER_CYCLE: u32 = 10;

/// Cap growth per player level above the first.
pub const CAP_PER_LEVEL: u32 = 2;

/// Hard ceiling on the adversary cap.
pub const CAP_LIMIT: u32 = 300;

/// Spawn interval at session start, in milliseconds.
pub const INITIAL_SPAWN_INTERVAL_MS: u64 = 2_000;

/// Floor of the spawn interval, in milliseconds.
pub const MIN_SPAWN_INTERVAL_MS: u64 = 300;

/// Highest cycle number the scaling keeps counting to.
pub const CYCLE_LIMIT: u32 = 1_000_000;

/// Highest player level the scaling reads.
pub const LEVEL_LIMIT: u32 = 1_000_000;

/// `v` with the ratio `num / den` applied `n` times, rounding down each
/// step: the exact decay the spawn interval follows.
pub open spec fn decayed(v: int, n: nat, num: int, den: int) -> int
    decreases n,
{
    if n == 0 {
        v
    } else {
        (decayed(v, (n - 1) as nat, num, den) * num) / den
    }
}

/// The spawn interval after a number of completed cycles and player
/// levels: ten percent off per cycle, two percent off per level, floored
/// at [`MIN_SPAWN_INTERVAL_MS`].
pub open spec fn spawn_interval_spec(cycle: nat, level: nat) -> int {
    let after_cycles = decayed(INITIAL_SPAWN_INTERVAL_MS as int, (cycle - 1) as nat, 9, 10);
    let after_levels = decayed(after_cycles, (level - 1) as nat, 49, 50);
    if after_levels < MIN_SPAWN_INTERVAL_MS {
        MIN_SPAWN_INTERVAL_MS as int
    } else {
        after_levels
    }
}

/// The adversary cap for a cycle and player level.
pub open spec fn cap_spec(cycle: nat, level: nat) -> int {
    let raw = INITIAL_CAP + (cycle - 1) * CAP_PER_CYCLE + (level - 1) * CAP_PER_LEVEL;
    if raw > CAP_LIMIT {
        CAP_LIMIT as int
    } else {
        raw
    }
}

#[derive(Clone, PartialEq, Eq, Debug)]
pub struct DifficultyState {
    /// Current difficulty cycle, starting at 1.
    pub cycle: u32,
    /// Elapsed session time, in milliseconds.
    pub elapsed_ms: u64,
    /// Repeating timer that advances the cycle.
    pub cycle_timer: TickTimer,
    /// Current adversary cap.
    pub max_adversaries: u32,
    /// Current spawn interval, in milliseconds.
    pub spawn_interval_ms: u64,
}

impl DifficultyState {
    pub open spec fn wf(self) -> bool {
        &&& 1 <= self.cycle <= CYCLE_LIMIT
        &&& self.cycle_timer.wf()
        &&& self.cycle_timer.repeating
        &&& self.max_adversaries <= CAP_LIMIT
        &&& MIN_SPAWN_INTERVAL_MS <= self.spawn_interval_ms <= INITIAL_SPAWN_INTERVAL_MS
        &&& self.elapsed_ms <= 0xfff_ffff_ffff_ffffu64
    }

    /// The difficulty multiplier the spawner hands to the stat tables, in
    /// tenths: one plus a tenth per completed cycle.
    pub open spec fn mult_tenths_spec(self) -> int {
        10 + self.cycle - 1
    }

    pub fn mult_tenths(&self) -> (r: u32)
        requires
            self.wf(),
        ensures
            r == self.mult_tenths_spec(),
            10 <= r <= crate::stats::MULT_TENTHS_LIMIT,
    {
        10 + self.cycle - 1
    }

    /// Session-start difficulty.
    pub fn new() -> (r: DifficultyState)
        ensures
            r.wf(),
            r.cycle == 1,
            r.elapsed_ms == 0,
            r.max_adversaries == INITIAL_CAP,
            r.spawn_interval_ms == INITIAL_SPAWN_INTERVAL_MS,
    {
        DifficultyState {
            cycle: 1,
            elapsed_ms: 0,
            cycle_timer: TickTimer::new(CYCLE_INTERVAL_MS, true),
            max_adversaries: INITIAL_CAP,
            spawn_interval_ms: INITIAL_SPAWN_INTERVAL_MS,
        }
    }

    /// One scaling step: advance the session clock, bump the cycle when
    /// its timer lapses, and recompute the cap and the spawn interval from
    /// the cycle and the player's level.
    pub fn tick(&mut self, dt_ms: u64, player_level: u32)
        requires
            old(self).wf(),
            dt_ms <= TICK_MS_LIMIT,
            1 <= player_level <= LEVEL_LIMIT,
        ensures
            final(self).wf(),
            final(self).cycle == if old(self).cycle_timer.elapsed_ms + dt_ms
                >= old(self).cycle_timer.duration_ms && old(self).cycle < CYCLE_LIMIT {
                old(self).cycle + 1
            } else {
                old(self).cycle as int
            },
            final(self).cycle >= old(self).cycle,
            final(self).max_adversaries == cap_spec(final(self).cycle as nat, player_level as nat),
            final(self).spawn_interval_ms == spawn_interval_spec(
                final(self).cycle as nat,
                player_level as nat,
            ),
    {
        if self.elapsed_ms <= 0xfff_ffff_ffff_ffffu64 - dt_ms {
            self.elapsed_ms = self.elapsed_ms + dt_ms;
        }
        let fired: bool = self.cycle_timer.tick(dt_ms);
        if fired && self.cycle < CYCLE_LIMIT {
            self.cycle = self.cycle + 1;
        }
        proof {
            assert(((self.cycle - 1) as int) * (CAP_PER_CYCLE as int) <= 10_000_000
                && ((player_level - 1) as int) * (CAP_PER_LEVEL as int) <= 2_000_000) by (
            nonlinear_arith)
                requires
                    1 <= self.cycle <= CYCLE_LIMIT,
                    1 <= player_level <= LEVEL_LIMIT,
                    CYCLE_LIMIT == 1_000_000u32,
                    LEVEL_LIMIT == 1_000_000u32,
                    CAP_PER_CYCLE == 10u32,
                    CAP_PER_LEVEL == 2u32,
            ;
        }
        let raw_cap: u64 = (INITIAL_CAP as u64) + ((self.cycle - 1) as u64) * (CAP_PER_CYCLE as u64)
            + ((player_level - 1) as u64) * (CAP_PER_LEVEL as u64);
        self.max_adversaries = if raw_cap > CAP_LIMIT as u64 {
            CAP_LIMIT
        } else {
            raw_cap as u32
        };
        self.spawn_interval_ms = spawn_interval_for(self.cycle, player_level);
    }
}

/// Exact executable form of [`spawn_interval_spec`].
pub fn spawn_interval_for(cycle: u32, level: u32) -> (r: u64)
    requires
        1 <= cycle <= CYCLE_LIMIT,
        1 <= level <= LEVEL_LIMIT,
    ensures
        r == spawn_interval_spec(cycle as nat, level as nat),
        MIN_SPAWN_INTERVAL_MS <= r <= INITIAL_SPAWN_INTERVAL_MS,
{
    proof {
        lemma_decay_bounds(INITIAL_SPAWN_INTERVAL_MS as int, (cycle - 1) as nat, 9, 10);
    }
    let mut v: u64 = INITIAL_SPAWN_INTERVAL_MS;
    let mut i: u32 = 1;
    while i < cycle
        invariant
            1 <= i <= cycle,
            cycle <= CYCLE_LIMIT,
            v == decayed(INITIAL_SPAWN_INTERVAL_MS as int, (i - 1) as nat, 9, 10),
            v <= INITIAL_SPAWN_INTERVAL_MS,
        decreases cycle - i,
    {
        proof {
            lemma_decay_bounds(INITIAL_SPAWN_INTERVAL_MS as int, (i - 1) as nat, 9, 10);
        }
        v = (v * 9) / 10;
        i = i + 1;
    }
    proof {
        lemma_decay_bounds(v as int, (level - 1) as nat, 49, 50);
    }
    let mut w: u64 = v;
    let mut j: u32 = 1;
    while j < level
        invariant
            1 <= j <= level,
            level <= LEVEL_LIMIT,
            v <= INITIAL_SPAWN_INTERVAL_MS,
            w == decayed(v as int, (j - 1) as nat, 49, 50),
            w <= v,
        decreases level - j,
    {
        proof {
            lemma_decay_bounds(v as int, (j - 1) as nat, 49, 50);
        }
        w = (w * 49) / 50;
        j = j + 1;
    }
    if w < MIN_SPAWN_INTERVAL_MS {
        MIN_SPAWN_INTERVAL_MS
    } else {
        w
    }
}

/// Decay with a proper ratio keeps a nonnegative value nonnegative and
/// never increases it.
proof fn lemma_decay_bounds(v: int, n: nat, num: int, den: int)
    requires
        0 <= v,
        0 < num < den,
    ensures
        0 <= decayed(v, n, num, den) <= v,
    decreases n,
{
    if n > 0 {
        lemma_decay_bounds(v, (n - 1) as nat, num, den);
        let prev = decayed(v, (n - 1) as nat, num, den);
        assert(0 <= (prev * num) / den <= prev) by (nonlinear_arith)
            requires
                0 <= prev,
                0 < num < den,
        ;
    }
}

} // verus!
