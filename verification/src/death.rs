//! The death and loot resolver: after combat, every adversary whose health
//! is depleted pays out experience and score exactly once, rolls its loot
//! drop and the player's on-kill triggers, and leaves the world. Payouts
//! are returned as plain values for the host's progression, loot and buff
//! collaborators.

use vstd::prelude::*;

verus! {

use crate::geom::Vec2i;
use crate::rng::roll_range;
use crate::world::Adversary;
use crate::world::World;

/// The payout of one adversary death, in the order the deaths were found.
pub struct DeathReward {
    /// Id of the dead adversary; one reward per death, never two.
    pub id: u64,
    /// Where it died; a loot drop appears here.
    pub pos: Vec2i,
    /// Experience for the progression collaborator.
    pub xp: u64,
    /// Score added to the session: half the experience.
    pub score_gain: u64,
    /// Position for the loot collaborator, when the drop roll succeeded.
    pub loot: Option<Vec2i>,
    /// Indexes into the caller's on-kill trigger list that fired,
    /// each rolled independently.
    pub triggered: Vec<usize>,
}

/// An adversary stays in the world while its health is positive.
pub open spec fn alive(a: Adversary) -> bool {
    a.health > 0
}

/// The adversaries that survive a death pass, in order.
pub open spec fn survivors_of(advs: Seq<Adversary>) -> Seq<Adversary> {
    advs.filter(|a: Adversary| alive(a))
}

/// The adversaries a death pass pays out, in order.
pub open spec fn casualties_of(advs: Seq<Adversary>) -> Seq<Adversary> {
    advs.filter(|a: Adversary| !alive(a))
}

/// The session score after paying out a run of rewards, saturating.
pub open spec fn score_from_rewards(score: int, rewards: Seq<DeathReward>) -> int
    decreases rewards.len(),
{
    if rewards.len() == 0 {
        score
    } else {
        let prev = score_from_rewards(score, rewards.drop_last());
        if prev + rewards.last().score_gain <= u64::MAX {
            prev + rewards.last().score_gain
        } else {
            u64::MAX as int
        }
    }
}

/// Saturating score accumulation.
pub fn add_score(score: u64, gain: u64) -> (r: u64)
    ensures
        r == if score + gain <= u64::MAX {
            score + gain
        } else {
            u64::MAX as int
        },
{
    if score <= u64::MAX - gain {
        score + gain
    } else {
        u64::MAX
    }
}

/// The death and loot pass. Without a player the pass is skipped whole, as
/// every player-dependent pass is. With one, each depleted adversary is
/// paid out exactly once — experience, score, a loot roll against its own
/// drop chance, one roll per on-kill trigger — and is removed; the
/// survivors keep their order.
pub fn death_pass(world: &mut World, kill_trigger_chances_pm: &Vec<u32>) -> (rewards: Vec<
    DeathReward,
>)
    requires
        old(world).wf(),
    ensures
        final(world).wf(),
        old(world).player is None ==> *final(world) == *old(world) && rewards@.len() == 0,
        old(world).player is Some ==> {
            // Exactly the adversaries with health left remain, in order.
            &&& final(world).adversaries@ == survivors_of(old(world).adversaries@)
            &&& (forall|i: int|
                0 <= i < final(world).adversaries@.len() ==> (
                #[trigger] final(world).adversaries@[i]).health > 0)
            // Each survivor is one of the entry adversaries, unchanged.
            &&& (forall|i: int|
                0 <= i < final(world).adversaries@.len() ==> old(world).adversaries@.contains(
                    #[trigger] final(world).adversaries@[i],
                ))
            // One reward per casualty, in order: experience exactly once.
            &&& rewards@.len() == casualties_of(old(world).adversaries@).len()
            &&& (forall|k: int|
                0 <= k < rewards@.len() ==> {
                    let dead = casualties_of(old(world).adversaries@)[k];
                    &&& (#[trigger] rewards@[k]).id == dead.id
                    &&& rewards@[k].pos == dead.pos
                    &&& rewards@[k].xp == dead.stats.xp_value
                    &&& rewards@[k].score_gain == dead.stats.xp_value / 2
                    &&& rewards@[k].score_gain == rewards@[k].xp / 2
                    // A loot drop, when its roll succeeded, lies where the
                    // adversary died; the rolls themselves are chance.
                    &&& (rewards@[k].loot matches Some(lp) ==> lp == dead.pos)
                    // Each fired on-kill trigger is a distinct index into
                    // the caller's trigger list, in order.
                    &&& (forall|t: int|
                        0 <= t < rewards@[k].triggered@.len()
                            ==> 0 <= #[trigger] rewards@[k].triggered@[t]
                            < kill_trigger_chances_pm@.len())
                    &&& (forall|t1: int, t2: int|
                        0 <= t1 < t2 < rewards@[k].triggered@.len()
                            ==> rewards@[k].triggered@[t1] < rewards@[k].triggered@[t2])
                })
            // The score advances by exactly the rewards' gains, saturating.
            &&& final(world).score == score_from_rewards(old(world).score as int, rewards@)
            // A paid-out id is gone from the live set, and paid out once.
            &&& (forall|k: int, i: int|
                0 <= k < rewards@.len() && 0 <= i < final(world).adversaries@.len() ==> (
                #[trigger] rewards@[k]).id != (#[trigger] final(world).adversaries@[i]).id)
            &&& (forall|k1: int, k2: int|
                0 <= k1 < k2 < rewards@.len() ==> rewards@[k1].id != rewards@[k2].id)
        },
        final(world).projectiles == old(world).projectiles,
        final(world).chain_requests == old(world).chain_requests,
        final(world).player == old(world).player,
        final(world).difficulty == old(world).difficulty,
        final(world).spawn_timer == old(world).spawn_timer,
        final(world).next_id == old(world).next_id,
{
    let has_player: bool = match &world.player {
        Some(_) => true,
        None => false,
    };
    if !has_player {
        return Vec::new();
    }
    let mut pending: Vec<Adversary> = Vec::new();
    core::mem::swap(&mut pending, &mut world.adversaries);
    let ghost pending0 = pending@;
    let n: usize = pending.len();
    let mut kept: Vec<Adversary> = Vec::new();
    let mut rewards: Vec<DeathReward> = Vec::new();
    let mut i: usize = 0;
    // Ghost record of where each kept adversary and each reward came
    // from, to carry the arena invariants through the filtering.
    let ghost mut src: Seq<int> = Seq::empty();
    let ghost mut src_dead: Seq<int> = Seq::empty();
    while i < n
        invariant
            i <= n,
            n == pending0.len(),
            pending@ == pending0.subrange(i as int, n as int),
            forall|j: int| 0 <= j < n ==> (#[trigger] pending0[j]).wf(),
            forall|j: int, k: int| 0 <= j < k < n ==> pending0[j].id != pending0[k].id,
            forall|j: int| 0 <= j < n ==> (#[trigger] pending0[j]).id < world.next_id,
            kept@ == survivors_of(pending0.subrange(0, i as int)),
            forall|j: int| 0 <= j < kept@.len() ==> (#[trigger] kept@[j]).health > 0,
            src.len() == kept@.len(),
            forall|j: int| 0 <= j < src.len() ==> 0 <= #[trigger] src[j] < i,
            forall|j1: int, j2: int| 0 <= j1 < j2 < src.len() ==> src[j1] < src[j2],
            forall|j: int| 0 <= j < src.len() ==> kept@[j] == pending0[#[trigger] src[j]],
            rewards@.len() == casualties_of(pending0.subrange(0, i as int)).len(),
            world.score == score_from_rewards(old(world).score as int, rewards@),
            src_dead.len() == rewards@.len(),
            forall|k: int| 0 <= k < src_dead.len() ==> 0 <= #[trigger] src_dead[k] < i,
            forall|k1: int, k2: int| 0 <= k1 < k2 < src_dead.len() ==> src_dead[k1] < src_dead[k2],
            forall|k: int|
                0 <= k < src_dead.len() ==> (#[trigger] rewards@[k]).id == pending0[src_dead[k]].id
                    && !alive(pending0[src_dead[k]]),
            forall|k: int|
                0 <= k < rewards@.len() ==> {
                    let dead = casualties_of(pending0.subrange(0, i as int))[k];
                    &&& (#[trigger] rewards@[k]).id == dead.id
                    &&& rewards@[k].pos == dead.pos
                    &&& rewards@[k].xp == dead.stats.xp_value
                    &&& rewards@[k].score_gain == dead.stats.xp_value / 2
                    &&& rewards@[k].score_gain == rewards@[k].xp / 2
                    &&& (rewards@[k].loot matches Some(lp) ==> lp == dead.pos)
                    &&& (forall|t: int|
                        0 <= t < rewards@[k].triggered@.len()
                            ==> 0 <= #[trigger] rewards@[k].triggered@[t]
                            < kill_trigger_chances_pm@.len())
                    &&& (forall|t1: int, t2: int|
                        0 <= t1 < t2 < rewards@[k].triggered@.len()
                            ==> rewards@[k].triggered@[t1] < rewards@[k].triggered@[t2])
                },
            world.adversaries@.len() == 0,
            world.projectiles == old(world).projectiles,
            world.chain_requests == old(world).chain_requests,
            world.player == old(world).player,
            world.difficulty == old(world).difficulty,
            world.spawn_timer == old(world).spawn_timer,
            world.next_id == old(world).next_id,
            old(world).wf(),
        decreases n - i,
    {
        let ghost prefix = pending0.subrange(0, i as int);
        proof {
            reveal(Seq::filter);
            assert(pending0.subrange(0, i + 1 as int) =~= prefix.push(pending0[i as int]));
            assert(pending0.subrange(0, i + 1 as int).drop_last() =~= prefix);
            assert(pending0.subrange(0, i + 1 as int).last() == pending0[i as int]);
            assert(pending@[0] == pending0[i as int]);
        }
        let a: Adversary = pending.remove(0);
        proof {
            assert(pending@ =~= pending0.subrange(i + 1 as int, n as int));
        }
        if a.health > 0 {
            kept.push(a);
            proof {
                src = src.push(i as int);
            }
        } else {
            let xp: u64 = a.stats.xp_value;
            let gain: u64 = xp / 2;
            world.score = add_score(world.score, gain);
            // Loot roll against this adversary's drop chance.
            let loot_roll: u64 = roll_range(0, 1000);
            let loot: Option<Vec2i> = if loot_roll < a.stats.loot_chance_pm as u64 {
                Some(a.pos)
            } else {
                None
            };
            // Each held on-kill trigger rolls independently.
            let mut triggered: Vec<usize> = Vec::new();
            let tn: usize = kill_trigger_chances_pm.len();
            let mut t: usize = 0;
            while t < tn
                invariant
                    t <= tn,
                    tn == kill_trigger_chances_pm@.len(),
                    forall|x: int|
                        0 <= x < triggered@.len() ==> 0 <= #[trigger] triggered@[x] < t,
                    forall|x1: int, x2: int|
                        0 <= x1 < x2 < triggered@.len() ==> triggered@[x1] < triggered@[x2],
                decreases tn - t,
            {
                let roll: u64 = roll_range(0, 1000);
                if roll < kill_trigger_chances_pm[t] as u64 {
                    triggered.push(t);
                }
                t = t + 1;
            }
            let ghost rewards_pre = rewards@;
            rewards.push(
                DeathReward { id: a.id, pos: a.pos, xp, score_gain: gain, loot, triggered },
            );
            proof {
                src_dead = src_dead.push(i as int);
                assert(rewards@.drop_last() =~= rewards_pre);
                assert(rewards@.last().score_gain == gain);
            }
        }
        i = i + 1;
    }
    proof {
        assert(pending0.subrange(0, n as int) =~= pending0);
    }
    world.adversaries = kept;
    proof {
        assert forall|j: int|
            0 <= j < world.adversaries@.len() implies (#[trigger] world.adversaries@[j]).wf() by {
            assert(world.adversaries@[j] == pending0[src[j]]);
        }
        assert forall|j: int|
            0 <= j < world.adversaries@.len() implies pending0.contains(
            #[trigger] world.adversaries@[j]) by {
            assert(world.adversaries@[j] == pending0[src[j]]);
        }
        assert forall|j1: int, j2: int|
            0 <= j1 < j2 < world.adversaries@.len() implies world.adversaries@[j1].id
            != world.adversaries@[j2].id by {
            assert(src[j1] < src[j2]);
            assert(world.adversaries@[j1] == pending0[src[j1]]);
            assert(world.adversaries@[j2] == pending0[src[j2]]);
        }
        assert forall|j: int|
            0 <= j < world.adversaries@.len() implies (#[trigger] world.adversaries@[j]).id
            < world.next_id by {
            assert(world.adversaries@[j] == pending0[src[j]]);
        }
        assert forall|k: int, i2: int|
            0 <= k < rewards@.len() && 0 <= i2 < world.adversaries@.len() implies (
        #[trigger] rewards@[k]).id != (#[trigger] world.adversaries@[i2]).id by {
            assert(world.adversaries@[i2] == pending0[src[i2]]);
            assert(rewards@[k].id == pending0[src_dead[k]].id);
            assert(pending0[src[i2]].health > 0 && !alive(pending0[src_dead[k]]));
            assert(src[i2] != src_dead[k]);
        }
        assert forall|k1: int, k2: int|
            0 <= k1 < k2 < rewards@.len() implies rewards@[k1].id != rewards@[k2].id by {
            assert(src_dead[k1] < src_dead[k2]);
            assert(rewards@[k1].id == pending0[src_dead[k1]].id);
            assert(rewards@[k2].id == pending0[src_dead[k2]].id);
        }
    }
    rewards
}

} // verus!
