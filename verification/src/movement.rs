//! The movement resolver: applies `position += velocity * delta` once per
//! tick, uniformly, to every adversary and every projectile, after the
//! behaviour pass has set velocities and before collision detection. No
//! entity is moved twice in one tick.

use vstd::prelude::*;

verus! {

use crate::geom::Vec2i;
use crate::geom::clamp_world_spec;
use crate::geom::clamp_world;
use crate::geom::in_world;
use crate::geom::scale_milli;
use crate::geom::scale_spec;
use crate::timer::TICK_MS_LIMIT;
use crate::world::Adversary;
use crate::world::Projectile;
use crate::world::VEL_LIMIT;
use crate::world::World;

/// Where a point moving at `vel` milliunits per second stands after
/// `dt_ms` milliseconds, clamped to the world bounds.
pub open spec fn moved_spec(pos: Vec2i, vel: Vec2i, dt_ms: int) -> Vec2i {
    Vec2i {
        x: clamp_world_spec(pos.x + scale_spec(vel.x as int, dt_ms, 1000)) as i64,
        y: clamp_world_spec(pos.y + scale_spec(vel.y as int, dt_ms, 1000)) as i64,
    }
}

/// One integration step for one point.
pub fn step_position(pos: Vec2i, vel: Vec2i, dt_ms: u64) -> (r: Vec2i)
    requires
        in_world(pos),
        -VEL_LIMIT <= vel.x <= VEL_LIMIT,
        -VEL_LIMIT <= vel.y <= VEL_LIMIT,
        dt_ms <= TICK_MS_LIMIT,
    ensures
        r == moved_spec(pos, vel, dt_ms as int),
        in_world(r),
{
    proof {
        lemma_step_bound(vel.x as int, dt_ms as int);
        lemma_step_bound(vel.y as int, dt_ms as int);
    }
    let sx: i64 = scale_milli(vel.x, dt_ms, 1000);
    let sy: i64 = scale_milli(vel.y, dt_ms, 1000);
    Vec2i { x: clamp_world(pos.x + sx), y: clamp_world(pos.y + sy) }
}

/// A bounded velocity integrated over a bounded step stays far inside the
/// machine range.
proof fn lemma_step_bound(v: int, dt: int)
    requires
        -VEL_LIMIT <= v <= VEL_LIMIT,
        0 <= dt <= TICK_MS_LIMIT,
    ensures
        -(0x7fff_ffff_ffff_ffff * 1000) < v * dt < 0x7fff_ffff_ffff_ffff * 1000,
        -0x1000_0000_0000_0000 <= scale_spec(v, dt, 1000) <= 0x1000_0000_0000_0000,
{
    assert(-(VEL_LIMIT * TICK_MS_LIMIT) <= v * dt <= VEL_LIMIT * TICK_MS_LIMIT) by (
    nonlinear_arith)
        requires
            -VEL_LIMIT <= v <= VEL_LIMIT,
            0 <= dt <= TICK_MS_LIMIT,
    ;
    if v >= 0 {
        assert(0 <= (v * dt) / 1000 <= 0x1000_0000_0000_0000) by (nonlinear_arith)
            requires
                0 <= v * dt <= VEL_LIMIT * TICK_MS_LIMIT,
                VEL_LIMIT == 0x1_0000_0000_0000i64,
                TICK_MS_LIMIT == 60_000u64,
        ;
    } else {
        assert(0 <= ((-v) * dt) / 1000 <= 0x1000_0000_0000_0000) by (nonlinear_arith)
            requires
                -VEL_LIMIT <= v < 0,
                0 <= dt <= TICK_MS_LIMIT,
                VEL_LIMIT == 0x1_0000_0000_0000i64,
                TICK_MS_LIMIT == 60_000u64,
        ;
    }
}

/// The movement pass: every adversary and every projectile takes exactly
/// one integration step; nothing else of the world changes.
pub fn movement_pass(world: &mut World, dt_ms: u64)
    requires
        old(world).wf(),
        dt_ms <= TICK_MS_LIMIT,
    ensures
        final(world).wf(),
        final(world).adversaries@.len() == old(world).adversaries@.len(),
        forall|i: int|
            0 <= i < old(world).adversaries@.len() ==> #[trigger] final(world).adversaries@[i]
                == (Adversary {
                pos: moved_spec(
                    old(world).adversaries@[i].pos,
                    old(world).adversaries@[i].vel,
                    dt_ms as int,
                ),
                ..old(world).adversaries@[i]
            }),
        final(world).projectiles@.len() == old(world).projectiles@.len(),
        forall|i: int|
            0 <= i < old(world).projectiles@.len() ==> #[trigger] final(world).projectiles@[i]
                == (Projectile {
                pos: moved_spec(
                    old(world).projectiles@[i].pos,
                    old(world).projectiles@[i].vel,
                    dt_ms as int,
                ),
                struck: final(world).projectiles@[i].struck,
                ..old(world).projectiles@[i]
            }),
        forall|i: int|
            0 <= i < old(world).projectiles@.len() ==> final(world).projectiles@[i].struck@ == old(
                world,
            ).projectiles@[i].struck@,
        final(world).player == old(world).player,
        final(world).chain_requests == old(world).chain_requests,
        final(world).difficulty == old(world).difficulty,
        final(world).spawn_timer == old(world).spawn_timer,
        final(world).next_id == old(world).next_id,
        final(world).score == old(world).score,
{
    let n: usize = world.adversaries.len();
    let mut i: usize = 0;
    while i < n
        invariant
            i <= n,
            n == world.adversaries@.len(),
            n == old(world).adversaries@.len(),
            forall|j: int|
                0 <= j < i ==> #[trigger] world.adversaries@[j] == (Adversary {
                    pos: moved_spec(
                        old(world).adversaries@[j].pos,
                        old(world).adversaries@[j].vel,
                        dt_ms as int,
                    ),
                    ..old(world).adversaries@[j]
                }),
            forall|j: int|
                i <= j < n ==> #[trigger] world.adversaries@[j] == old(world).adversaries@[j],
            world.projectiles == old(world).projectiles,
            world.player == old(world).player,
            world.chain_requests == old(world).chain_requests,
            world.difficulty == old(world).difficulty,
            world.spawn_timer == old(world).spawn_timer,
            world.next_id == old(world).next_id,
            world.score == old(world).score,
            old(world).wf(),
            dt_ms <= TICK_MS_LIMIT,
        decreases n - i,
    {
        proof {
            assert(old(world).adversaries@[i as int].wf());
        }
        let pos: Vec2i = world.adversaries[i].pos;
        let vel: Vec2i = world.adversaries[i].vel;
        let new_pos: Vec2i = step_position(pos, vel, dt_ms);
        let a = &mut world.adversaries[i];
        a.pos = new_pos;
        i = i + 1;
    }
    let m: usize = world.projectiles.len();
    let mut k: usize = 0;
    while k < m
        invariant
            k <= m,
            m == world.projectiles@.len(),
            m == old(world).projectiles@.len(),
            forall|j: int|
                0 <= j < k ==> #[trigger] world.projectiles@[j] == (Projectile {
                    pos: moved_spec(
                        old(world).projectiles@[j].pos,
                        old(world).projectiles@[j].vel,
                        dt_ms as int,
                    ),
                    struck: world.projectiles@[j].struck,
                    ..old(world).projectiles@[j]
                }),
            forall|j: int|
                0 <= j < k ==> world.projectiles@[j].struck@ == old(world).projectiles@[j].struck@,
            forall|j: int|
                k <= j < m ==> #[trigger] world.projectiles@[j] == old(world).projectiles@[j],
            world.adversaries@.len() == old(world).adversaries@.len(),
            forall|j: int|
                0 <= j < old(world).adversaries@.len() ==> #[trigger] world.adversaries@[j]
                    == (Adversary {
                    pos: moved_spec(
                        old(world).adversaries@[j].pos,
                        old(world).adversaries@[j].vel,
                        dt_ms as int,
                    ),
                    ..old(world).adversaries@[j]
                }),
            world.player == old(world).player,
            world.chain_requests == old(world).chain_requests,
            world.difficulty == old(world).difficulty,
            world.spawn_timer == old(world).spawn_timer,
            world.next_id == old(world).next_id,
            world.score == old(world).score,
            old(world).wf(),
            dt_ms <= TICK_MS_LIMIT,
        decreases m - k,
    {
        proof {
            assert(old(world).projectiles@[k as int].wf());
        }
        let pos: Vec2i = world.projectiles[k].pos;
        let vel: Vec2i = world.projectiles[k].vel;
        let new_pos: Vec2i = step_position(pos, vel, dt_ms);
        let p = &mut world.projectiles[k];
        p.pos = new_pos;
        k = k + 1;
    }
    proof {
        assert forall|j: int|
            0 <= j < world.adversaries@.len() implies (#[trigger] world.adversaries@[j]).wf() by {
            assert(old(world).adversaries@[j].wf());
        }
        assert forall|j: int|
            0 <= j < world.projectiles@.len() implies (#[trigger] world.projectiles@[j]).wf() by {
            assert(old(world).projectiles@[j].wf());
        }
    }
}

} // verus!
