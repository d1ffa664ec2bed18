//! The combat resolver: player projectiles against adversaries with pierce
//! consumption and chain-strike requests, chain resolution, adversary
//! projectiles against the player, and adversary contact damage, in that
//! order, after movement.

use vstd::prelude::*;

verus! {

use crate::geom::Vec2i;
use crate::geom::dist_sq;
use crate::geom::dist_sq_spec;
use crate::geom::sq_u128;
use crate::summoner::contains_id;
use crate::timer::TICK_MS_LIMIT;
use crate::timer::TickTimer;
use crate::world::ADVERSARY_PROJECTILE_RADIUS_MILLI;
use crate::world::Adversary;
use crate::world::CHAIN_RANGE_MILLI;
use crate::world::ChainStrikeRequest;
use crate::world::DAMAGE_LIMIT;
use crate::world::PLAYER_PROJECTILE_RADIUS_MILLI;
use crate::world::PLAYER_RADIUS_MILLI;
use crate::world::Projectile;
use crate::world::World;
use crate::world::apply_damage;
use crate::world::damaged_health;
use crate::world::targetable;

/// Damage of the next chain link: three quarters of the damage just dealt,
/// rounded half away from zero.
pub open spec fn chained_damage(d: int) -> int {
    (d * 3 + 2) / 4
}

/// Chain damage strictly decreases at each hop once the damage is above
/// two, and never goes negative.
pub proof fn lemma_chain_damage_decreases(d: int)
    requires
        d >= 3,
    ensures
        0 <= chained_damage(d) < d,
{
}

/// Whether a projectile at `ppos` overlaps an adversary: centre distance
/// under the sum of the two collision radii.
pub open spec fn projectile_overlaps(ppos: Vec2i, proj_radius: int, a: Adversary) -> bool {
    dist_sq_spec(ppos, a.pos) < (proj_radius + a.radius_spec()) * (proj_radius + a.radius_spec())
}

/// A projectile may damage this adversary now: it collides, the adversary
/// is targetable (a phased skirmisher is not), and it was not struck by
/// this projectile before.
pub open spec fn may_strike(p: Projectile, a: Adversary) -> bool {
    &&& targetable(a.behavior)
    &&& !p.struck@.contains(a.id)
    &&& projectile_overlaps(p.pos, PLAYER_PROJECTILE_RADIUS_MILLI as int, a)
}

/// Consume one hit on a projectile: a pierce charge if one is left, the
/// projectile otherwise. Returns whether the projectile despawns.
pub fn register_hit(p: &mut Projectile) -> (despawn: bool)
    ensures
        despawn <==> old(p).pierce_left == 0,
        !despawn ==> *final(p) == (Projectile {
            pierce_left: (old(p).pierce_left - 1) as u32,
            ..*old(p)
        }),
        despawn ==> *final(p) == *old(p),
{
    if p.pierce_left > 0 {
        p.pierce_left = p.pierce_left - 1;
        false
    } else {
        true
    }
}

/// Pierce charges left after a number of hits, starting from `n`: each hit
/// consumes one charge while any is left.
pub open spec fn pierce_left_after(n: nat, hits: nat) -> nat
    decreases hits,
{
    if hits == 0 {
        n
    } else if pierce_left_after(n, (hits - 1) as nat) > 0 {
        (pierce_left_after(n, (hits - 1) as nat) - 1) as nat
    } else {
        0
    }
}

/// Whether a projectile that started with `n` pierce charges is gone after
/// a number of hits: the hit that finds no charge left despawns it.
pub open spec fn despawned_after(n: nat, hits: nat) -> bool
    decreases hits,
{
    if hits == 0 {
        false
    } else {
        despawned_after(n, (hits - 1) as nat) || pierce_left_after(n, (hits - 1) as nat) == 0
    }
}

/// A projectile with no pierce despawns on its first hit; one with `n`
/// pierce charges survives exactly `n` hits, with none left, and despawns
/// on hit `n + 1`. One registered hit of a live projectile follows
/// [`register_hit`], whose contract is one step of this model.
pub proof fn lemma_pierce_survival(n: nat, hits: nat)
    requires
        hits <= n,
    ensures
        !despawned_after(n, hits),
        pierce_left_after(n, hits) == n - hits,
        despawned_after(n, n + 1),
    decreases hits,
{
    if hits > 0 {
        lemma_pierce_survival(n, (hits - 1) as nat);
    } else {
        lemma_pierce_count_down(n, n);
    }
}

/// After as many hits as there were charges, none is left, so the next
/// hit despawns.
proof fn lemma_pierce_count_down(n: nat, hits: nat)
    requires
        hits <= n,
    ensures
        pierce_left_after(n, hits) == n - hits,
        despawned_after(n, n + 1),
    decreases hits,
{
    if hits > 0 {
        lemma_pierce_count_down(n, (hits - 1) as nat);
    } else {
        lemma_pierce_zero_chain(n, n);
    }
}

proof fn lemma_pierce_zero_chain(n: nat, hits: nat)
    requires
        hits <= n,
    ensures
        pierce_left_after(n, hits) == n - hits,
    decreases hits,
{
    if hits > 0 {
        lemma_pierce_zero_chain(n, (hits - 1) as nat);
    }
}

/// The rolling state of one player projectile's sweep over the adversary
/// list: the list with the damage so far, the projectile's remaining
/// pierce and chain budget and grown struck set, the index of the
/// adversary that seeded its chain request if one fired, and whether the
/// projectile is spent.
pub struct SweepState {
    pub advs: Seq<Adversary>,
    pub pierce_left: int,
    pub chain_left: int,
    pub struck: Seq<u64>,
    pub chain_seed: Option<int>,
    pub despawn: bool,
}

/// The sweep state after one player projectile has walked the first `i`
/// adversaries, exactly as the combat loop walks them: each strikeable
/// adversary takes the projectile's damage and is marked struck, the
/// first such hit with chain budget seeds the chain request, and the hit
/// that finds no pierce left spends the projectile and ends the sweep.
pub open spec fn sweep_upto(advs0: Seq<Adversary>, p: Projectile, i: int) -> SweepState
    decreases i,
{
    if i <= 0 {
        SweepState {
            advs: advs0,
            pierce_left: p.pierce_left as int,
            chain_left: p.chain_left as int,
            struck: p.struck@,
            chain_seed: None,
            despawn: false,
        }
    } else {
        let s = sweep_upto(advs0, p, i - 1);
        if s.despawn {
            s
        } else {
            let a = s.advs[i - 1];
            if targetable(a.behavior) && !s.struck.contains(a.id) && projectile_overlaps(
                p.pos,
                PLAYER_PROJECTILE_RADIUS_MILLI as int,
                a,
            ) {
                let chains = p.chain_capable && s.chain_left > 0;
                SweepState {
                    advs: s.advs.update(
                        i - 1,
                        Adversary {
                            health: damaged_health(a.health as int, p.damage as int) as i64,
                            ..a
                        },
                    ),
                    pierce_left: if s.pierce_left > 0 {
                        s.pierce_left - 1
                    } else {
                        0
                    },
                    chain_left: if chains {
                        0
                    } else {
                        s.chain_left
                    },
                    struck: s.struck.push(a.id),
                    chain_seed: if chains {
                        Some(i - 1)
                    } else {
                        s.chain_seed
                    },
                    despawn: s.pierce_left <= 0,
                }
            } else {
                s
            }
        }
    }
}

/// Once a sweep spends its projectile, walking further changes nothing.
pub proof fn lemma_sweep_absorbs(advs0: Seq<Adversary>, p: Projectile, i: int, j: int)
    requires
        0 <= i <= j,
        sweep_upto(advs0, p, i).despawn,
    ensures
        sweep_upto(advs0, p, j) == sweep_upto(advs0, p, i),
    decreases j,
{
    if j > i {
        lemma_sweep_absorbs(advs0, p, i, j - 1);
    }
}

/// Run one player projectile over the adversary list, in order: damage
/// every adversary it may strike, mark it struck, emit at most one chain
/// request, and consume pierce until the projectile despawns. The whole
/// sweep is pinned to [`sweep_upto`].
///
/// An adversary that is not targetable, or that this projectile already
/// struck, keeps its health untouched.
pub fn strike_adversaries(
    advs: &mut Vec<Adversary>,
    p: &mut Projectile,
    chain_out: &mut Vec<ChainStrikeRequest>,
) -> (despawn: bool)
    requires
        forall|i: int| 0 <= i < old(advs)@.len() ==> (#[trigger] old(advs)@[i]).wf(),
        old(p).wf(),
        old(p).from_player,
        forall|i: int| 0 <= i < old(chain_out)@.len() ==> (#[trigger] old(chain_out)@[i]).wf(),
    ensures
        final(advs)@.len() == old(advs)@.len(),
        forall|i: int| 0 <= i < final(advs)@.len() ==> (#[trigger] final(advs)@[i]).wf(),
        // Only healths drop; everything else of every adversary stays.
        forall|i: int|
            0 <= i < old(advs)@.len() ==> #[trigger] final(advs)@[i] == (Adversary {
                health: final(advs)@[i].health,
                ..old(advs)@[i]
            }) && final(advs)@[i].health <= old(advs)@[i].health,
        // A phased skirmisher is never touched.
        forall|i: int|
            0 <= i < old(advs)@.len() && !targetable(old(advs)@[i].behavior) ==> final(advs)@[
                i
            ].health == old(advs)@[i].health,
        // Neither is an adversary this projectile had already struck.
        forall|i: int|
            0 <= i < old(advs)@.len() && old(p).struck@.contains(old(advs)@[i].id) ==> final(advs)@[i].health == old(advs)@[i].health,
        // Damage lands only where a strike was possible at all: in range,
        // targetable, and not struck before.
        forall|i: int|
            0 <= i < old(advs)@.len() && !may_strike(*old(p), old(advs)@[i]) ==> final(advs)@[
                i
            ].health == old(advs)@[i].health,
        final(p).wf(),
        final(p).from_player,
        final(p).pos == old(p).pos,
        final(p).vel == old(p).vel,
        final(p).damage == old(p).damage,
        final(p).lifetime == old(p).lifetime,
        final(p).chain_capable == old(p).chain_capable,
        final(p).chain_range_milli == old(p).chain_range_milli,
        final(p).pierce_left <= old(p).pierce_left,
        // Existing chain requests stay; at most one is appended — a
        // projectile chains at most once per hit, even with pierce left —
        // and it carries three quarters of this projectile's damage.
        old(chain_out)@.len() <= final(chain_out)@.len(),
        final(chain_out)@.len() == old(chain_out)@.len() + (
        if old(p).chain_capable && old(p).chain_left > 0 && final(p).chain_left == 0 {
            1int
        } else {
            0int
        }),
        forall|i: int|
            0 <= i < old(chain_out)@.len() ==> #[trigger] final(chain_out)@[i] == old(chain_out)@[
                i
            ],
        forall|i: int|
            old(chain_out)@.len() <= i < final(chain_out)@.len() ==> (#[trigger] final(chain_out)@[
                i
            ]).wf() && final(chain_out)@[i].damage == chained_damage(old(p).damage as int) && final(chain_out)@[i].chains_left == old(p).chain_left,
        // The exact sweep: the final adversaries, the projectile's spent
        // budget and grown struck set, its fate, and the one chain request
        // seeded by the first chaining hit.
        ({
            let s = sweep_upto(old(advs)@, *old(p), old(advs)@.len() as int);
            &&& final(advs)@ == s.advs
            &&& final(p).pierce_left == s.pierce_left
            &&& final(p).chain_left == s.chain_left
            &&& final(p).struck@ == s.struck
            &&& despawn == s.despawn
            &&& (match s.chain_seed {
                Some(t) => final(chain_out)@.len() == old(chain_out)@.len() + 1 && final(chain_out)@.last().source_pos == old(advs)@[t].pos && final(chain_out)@.last().struck@
                    == seq![old(advs)@[t].id] && final(chain_out)@.last().damage == chained_damage(
                    old(p).damage as int,
                ) && final(chain_out)@.last().chains_left == old(p).chain_left && final(chain_out)@.last().range_milli == old(p).chain_range_milli,
                None => final(chain_out)@ == old(chain_out)@,
            })
        }),
{
    let n: usize = advs.len();
    let mut i: usize = 0;
    let mut despawn: bool = false;
    while i < n && !despawn
        invariant
            i <= n,
            n == advs@.len(),
            n == old(advs)@.len(),
            forall|j: int| 0 <= j < n ==> (#[trigger] advs@[j]).wf(),
            forall|j: int|
                0 <= j < n ==> #[trigger] advs@[j] == (Adversary {
                    health: advs@[j].health,
                    ..old(advs)@[j]
                }) && advs@[j].health <= old(advs)@[j].health,
            forall|j: int|
                0 <= j < n && !targetable(old(advs)@[j].behavior) ==> advs@[j].health == old(advs)@[j].health,
            forall|j: int|
                0 <= j < n && old(p).struck@.contains(old(advs)@[j].id) ==> advs@[j].health == old(advs)@[j].health,
            forall|j: int|
                0 <= j < n && !may_strike(*old(p), old(advs)@[j]) ==> advs@[j].health == old(advs)@[j].health,
            p.wf(),
            p.from_player,
            p.pos == old(p).pos,
            p.vel == old(p).vel,
            p.damage == old(p).damage,
            p.lifetime == old(p).lifetime,
            p.pierce_left <= old(p).pierce_left,
            p.chain_left == old(p).chain_left || p.chain_left == 0,
            p.chain_capable == old(p).chain_capable,
            p.chain_range_milli == old(p).chain_range_milli,
            ({
                let s = sweep_upto(old(advs)@, *old(p), i as int);
                &&& advs@ == s.advs
                &&& p.pierce_left == s.pierce_left
                &&& p.chain_left == s.chain_left
                &&& p.struck@ == s.struck
                &&& despawn == s.despawn
                &&& (match s.chain_seed {
                    Some(t) => chain_out@.len() == old(chain_out)@.len() + 1 && chain_out@.last().source_pos
                        == old(advs)@[t].pos && chain_out@.last().struck@ == seq![old(advs)@[t].id]
                        && chain_out@.last().damage == chained_damage(old(p).damage as int)
                        && chain_out@.last().chains_left == old(p).chain_left
                        && chain_out@.last().range_milli == old(p).chain_range_milli,
                    None => chain_out@ == old(chain_out)@,
                })
            }),
            chain_out@.len() == old(chain_out)@.len() + (
            if old(p).chain_capable && old(p).chain_left > 0 && p.chain_left == 0 {
                1int
            } else {
                0int
            }),
            forall|id: u64| old(p).struck@.contains(id) ==> p.struck@.contains(id),
            old(chain_out)@.len() <= chain_out@.len(),
            forall|j: int|
                0 <= j < old(chain_out)@.len() ==> #[trigger] chain_out@[j] == old(chain_out)@[j],
            forall|j: int|
                old(chain_out)@.len() <= j < chain_out@.len() ==> (#[trigger] chain_out@[j]).wf()
                    && chain_out@[j].damage == chained_damage(old(p).damage as int) && chain_out@[
                    j
                ].chains_left == old(p).chain_left,
        decreases n - i,
    {
        let ghost advs_pre = advs@;
        let ghost struck_pre = p.struck@;
        proof {
            broadcast use vstd::seq_lib::lemma_seq_contains_after_push;

        }
        let targetable_now: bool = advs[i].is_targetable();
        proof {
            assert(advs@[i as int].behavior == old(advs)@[i as int].behavior);
        }
        if targetable_now {
            let id: u64 = advs[i].id;
            if !contains_id(&p.struck, id) {
                let radius: i64 = advs[i].radius_milli();
                let reach: i64 = PLAYER_PROJECTILE_RADIUS_MILLI + radius;
                let reach_sq: u128 = sq_u128(reach);
                let d2: u128 = dist_sq(p.pos, advs[i].pos);
                if d2 < reach_sq {
                    let new_health: i64 = apply_damage(advs[i].health, p.damage);
                    let a = &mut advs[i];
                    a.health = new_health;
                    p.struck.push(id);
                    if p.chain_capable && p.chain_left > 0 {
                        proof {
                            assert(0 <= ((p.damage * 3 + 2) as int) / 4 <= DAMAGE_LIMIT);
                        }
                        let mut seeded: Vec<u64> = Vec::new();
                        seeded.push(id);
                        let src: Vec2i = advs[i].pos;
                        chain_out.push(
                            ChainStrikeRequest {
                                source_pos: src,
                                struck: seeded,
                                damage: (p.damage * 3 + 2) / 4,
                                chains_left: p.chain_left,
                                range_milli: p.chain_range_milli,
                            },
                        );
                        p.chain_left = 0;
                    }
                    despawn = register_hit(p);
                }
            }
        }
        proof {
            let s_pre = sweep_upto(old(advs)@, *old(p), i as int);
            let a = s_pre.advs[i as int];
            if targetable(a.behavior) && !s_pre.struck.contains(a.id) && projectile_overlaps(
                old(p).pos,
                PLAYER_PROJECTILE_RADIUS_MILLI as int,
                a,
            ) {
                assert(advs@ =~= s_pre.advs.update(
                    i as int,
                    Adversary {
                        health: damaged_health(a.health as int, old(p).damage as int) as i64,
                        ..a
                    },
                ));
            }
        }
        i = i + 1;
    }
    proof {
        if despawn {
            lemma_sweep_absorbs(old(advs)@, *old(p), i as int, n as int);
        }
    }
    despawn
}

/// The rolling state of the player-projectile pass: the adversary list
/// with all damage so far, the indices of the projectiles that survive,
/// and the indices of those that emitted a chain request, in order.
pub struct VolleyState {
    pub advs: Seq<Adversary>,
    pub kept: Seq<int>,
    pub emitted: Seq<int>,
}

/// The pass state after the first `j` projectiles have swept: an
/// adversary-side projectile passes through untouched; a player
/// projectile runs its whole sweep over the current list.
pub open spec fn volley_upto(advs0: Seq<Adversary>, ps: Seq<Projectile>, j: int) -> VolleyState
    decreases j,
{
    if j <= 0 {
        VolleyState { advs: advs0, kept: Seq::empty(), emitted: Seq::empty() }
    } else {
        let s = volley_upto(advs0, ps, j - 1);
        let p = ps[j - 1];
        if !p.from_player {
            VolleyState { advs: s.advs, kept: s.kept.push(j - 1), emitted: s.emitted }
        } else {
            let sw = sweep_upto(s.advs, p, s.advs.len() as int);
            VolleyState {
                advs: sw.advs,
                kept: if sw.despawn {
                    s.kept
                } else {
                    s.kept.push(j - 1)
                },
                emitted: if sw.chain_seed is Some {
                    s.emitted.push(j - 1)
                } else {
                    s.emitted
                },
            }
        }
    }
}

/// A sweep reads only a projectile's position, damage, budget and struck
/// set: two projectiles agreeing there sweep identically.
pub proof fn lemma_sweep_fields(advs0: Seq<Adversary>, p: Projectile, q: Projectile, i: int)
    requires
        p.pos == q.pos,
        p.damage == q.damage,
        p.pierce_left == q.pierce_left,
        p.chain_left == q.chain_left,
        p.chain_capable == q.chain_capable,
        p.struck@ == q.struck@,
    ensures
        sweep_upto(advs0, p, i) == sweep_upto(advs0, q, i),
    decreases i,
{
    if i > 0 {
        lemma_sweep_fields(advs0, p, q, i - 1);
    }
}

/// A volley keeps and emits at most one entry per projectile.
pub proof fn lemma_volley_counts(advs0: Seq<Adversary>, ps: Seq<Projectile>, j: int)
    ensures
        volley_upto(advs0, ps, j).kept.len() <= (if j >= 0 { j } else { 0 }),
        volley_upto(advs0, ps, j).emitted.len() <= (if j >= 0 { j } else { 0 }),
        volley_upto(advs0, ps, j).advs.len() == advs0.len(),
    decreases j,
{
    if j > 0 {
        lemma_volley_counts(advs0, ps, j - 1);
        let s = volley_upto(advs0, ps, j - 1);
        if ps[j - 1].from_player {
            lemma_sweep_len(s.advs, ps[j - 1], s.advs.len() as int);
        }
    }
}

/// A sweep never changes the list's length.
pub proof fn lemma_sweep_len(advs0: Seq<Adversary>, p: Projectile, i: int)
    requires
        i <= advs0.len(),
    ensures
        sweep_upto(advs0, p, i).advs.len() == advs0.len(),
    decreases i,
{
    if i > 0 {
        lemma_sweep_len(advs0, p, i - 1);
        let s = sweep_upto(advs0, p, i - 1);
        if !s.despawn {
            let a = s.advs[i - 1];
            if targetable(a.behavior) && !s.struck.contains(a.id) && projectile_overlaps(
                p.pos,
                PLAYER_PROJECTILE_RADIUS_MILLI as int,
                a,
            ) {
                assert(sweep_upto(advs0, p, i).advs == s.advs.update(
                    i - 1,
                    Adversary {
                        health: damaged_health(a.health as int, p.damage as int) as i64,
                        ..a
                    },
                ));
            } else {
                assert(sweep_upto(advs0, p, i) == s);
            }
        } else {
            assert(sweep_upto(advs0, p, i) == s);
        }
    }
}

/// What the pass leaves of a swept projectile, and of one that only
/// passed through.
pub open spec fn volley_kept_ok(
    advs0: Seq<Adversary>,
    ps: Seq<Projectile>,
    j: int,
    q1: Projectile,
) -> bool {
    let q0 = ps[j];
    if !q0.from_player {
        q1 == (Projectile { struck: q1.struck, ..q0 }) && q1.struck@ == q0.struck@
    } else {
        let pre = volley_upto(advs0, ps, j).advs;
        let sw = sweep_upto(pre, q0, pre.len() as int);
        &&& q1 == (Projectile {
            pierce_left: sw.pierce_left as u32,
            chain_left: sw.chain_left as u32,
            struck: q1.struck,
            ..q0
        })
        &&& q1.struck@ == sw.struck
    }
}

/// The chain request a swept projectile left behind.
pub open spec fn volley_emitted_ok(
    advs0: Seq<Adversary>,
    ps: Seq<Projectile>,
    j: int,
    e: ChainStrikeRequest,
) -> bool {
    let q0 = ps[j];
    let pre = volley_upto(advs0, ps, j).advs;
    let sw = sweep_upto(pre, q0, pre.len() as int);
    &&& sw.chain_seed is Some
    &&& e.source_pos == pre[sw.chain_seed->Some_0].pos
    &&& e.struck@ == seq![pre[sw.chain_seed->Some_0].id]
    &&& e.damage == chained_damage(q0.damage as int)
    &&& e.chains_left == q0.chain_left
    &&& e.range_milli == q0.chain_range_milli
}

/// The player-projectile half of the combat pass: every player projectile
/// sweeps the adversary list once, in order; despawned projectiles leave
/// the world and each chaining hit leaves its request. Without a player
/// the whole pass is skipped. The result is pinned to [`volley_upto`].
pub fn player_projectile_pass(world: &mut World)
    requires
        old(world).wf(),
    ensures
        final(world).wf(),
        old(world).player is None ==> *final(world) == *old(world),
        old(world).player is Some ==> ({
            let v = volley_upto(
                old(world).adversaries@,
                old(world).projectiles@,
                old(world).projectiles@.len() as int,
            );
            &&& final(world).adversaries@ == v.advs
            &&& final(world).projectiles@.len() == v.kept.len()
            &&& (forall|k: int|
                0 <= k < v.kept.len() ==> volley_kept_ok(
                    old(world).adversaries@,
                    old(world).projectiles@,
                    v.kept[k],
                    #[trigger] final(world).projectiles@[k],
                ))
            &&& final(world).chain_requests@.len() == old(world).chain_requests@.len()
                + v.emitted.len()
            &&& (forall|k: int|
                0 <= k < v.emitted.len() ==> volley_emitted_ok(
                    old(world).adversaries@,
                    old(world).projectiles@,
                    v.emitted[k],
                    #[trigger] final(world).chain_requests@[old(world).chain_requests@.len() + k],
                ))
        }),
        final(world).adversaries@.len() == old(world).adversaries@.len(),
        forall|i: int|
            0 <= i < old(world).adversaries@.len() ==> #[trigger] final(world).adversaries@[i]
                == (Adversary {
                health: final(world).adversaries@[i].health,
                ..old(world).adversaries@[i]
            }) && final(world).adversaries@[i].health <= old(world).adversaries@[i].health,
        // A phased skirmisher is never damaged by this pass.
        forall|i: int|
            0 <= i < old(world).adversaries@.len() && !targetable(
                old(world).adversaries@[i].behavior,
            ) ==> final(world).adversaries@[i].health == old(world).adversaries@[i].health,
        final(world).projectiles@.len() <= old(world).projectiles@.len(),
        // Chain requests only accumulate.
        old(world).chain_requests@.len() <= final(world).chain_requests@.len(),
        forall|i: int|
            0 <= i < old(world).chain_requests@.len() ==> #[trigger] final(world).chain_requests@[
                i
            ] == old(world).chain_requests@[i],
        final(world).player == old(world).player,
        final(world).difficulty == old(world).difficulty,
        final(world).spawn_timer == old(world).spawn_timer,
        final(world).next_id == old(world).next_id,
        final(world).score == old(world).score,
{
    let has_player: bool = match &world.player {
        Some(_) => true,
        None => false,
    };
    if !has_player {
        return ;
    }
    let mut pending: Vec<Projectile> = Vec::new();
    core::mem::swap(&mut pending, &mut world.projectiles);
    let ghost advs0 = world.adversaries@;
    let ghost pending0 = pending@;
    let ghost reqs_len0 = world.chain_requests@.len() as int;
    let n: usize = pending.len();
    let mut i: usize = 0;
    let mut kept: Vec<Projectile> = Vec::new();
    while i < n
        invariant
            i <= n,
            n == pending@.len(),
            pending@ == pending0,
            advs0 == old(world).adversaries@,
            reqs_len0 == old(world).chain_requests@.len(),
            forall|j: int| 0 <= j < n ==> (#[trigger] pending@[j]).wf(),
            forall|j: int| 0 <= j < kept@.len() ==> (#[trigger] kept@[j]).wf(),
            ({
                let v = volley_upto(advs0, pending0, i as int);
                &&& world.adversaries@ == v.advs
                &&& kept@.len() == v.kept.len()
                &&& (forall|k: int|
                    0 <= k < v.kept.len() ==> volley_kept_ok(
                        advs0,
                        pending0,
                        v.kept[k],
                        #[trigger] kept@[k],
                    ))
                &&& world.chain_requests@.len() == reqs_len0 + v.emitted.len()
                &&& (forall|k: int|
                    0 <= k < v.emitted.len() ==> volley_emitted_ok(
                        advs0,
                        pending0,
                        v.emitted[k],
                        #[trigger] world.chain_requests@[reqs_len0 + k],
                    ))
            }),
            world.adversaries@.len() == advs0.len(),
            forall|j: int| 0 <= j < world.adversaries@.len() ==> (#[trigger] world.adversaries@[j]).wf(),
            forall|j: int|
                0 <= j < advs0.len() ==> #[trigger] world.adversaries@[j] == (Adversary {
                    health: world.adversaries@[j].health,
                    ..advs0[j]
                }) && world.adversaries@[j].health <= advs0[j].health,
            forall|j: int|
                0 <= j < advs0.len() && !targetable(advs0[j].behavior)
                    ==> world.adversaries@[j].health == advs0[j].health,
            forall|j: int|
                0 <= j < reqs_len0 ==> #[trigger] world.chain_requests@[j] == old(
                    world,
                ).chain_requests@[j],
            forall|j: int|
                0 <= j < world.chain_requests@.len() ==> (#[trigger] world.chain_requests@[j]).wf(),
            world.player == old(world).player,
            world.player is Some,
            world.difficulty == old(world).difficulty,
            world.spawn_timer == old(world).spawn_timer,
            world.next_id == old(world).next_id,
            world.score == old(world).score,
            old(world).wf(),
        decreases n - i,
    {
        let ghost v_pre = volley_upto(advs0, pending0, i as int);
        let mut p: Projectile = clone_projectile(&pending[i]);
        let ghost p_clone = p;
        if p.from_player {
            let despawn: bool = strike_adversaries(&mut world.adversaries, &mut p, &mut world.chain_requests);
            proof {
                lemma_sweep_fields(
                    v_pre.advs,
                    p_clone,
                    pending0[i as int],
                    v_pre.advs.len() as int,
                );
                let sw = sweep_upto(v_pre.advs, pending0[i as int], v_pre.advs.len() as int);
                assert(volley_upto(advs0, pending0, i + 1 as int) == (VolleyState {
                    advs: sw.advs,
                    kept: if sw.despawn {
                        v_pre.kept
                    } else {
                        v_pre.kept.push(i as int)
                    },
                    emitted: if sw.chain_seed is Some {
                        v_pre.emitted.push(i as int)
                    } else {
                        v_pre.emitted
                    },
                }));
                if !sw.despawn {
                    assert(volley_kept_ok(advs0, pending0, i as int, p));
                }
                match sw.chain_seed {
                    Some(t) => {
                        assert(volley_emitted_ok(
                            advs0,
                            pending0,
                            i as int,
                            world.chain_requests@.last(),
                        ));
                    },
                    None => {},
                }
            }
            if !despawn {
                kept.push(p);
            }
        } else {
            kept.push(p);
            proof {
                assert(volley_upto(advs0, pending0, i + 1 as int) == (VolleyState {
                    advs: v_pre.advs,
                    kept: v_pre.kept.push(i as int),
                    emitted: v_pre.emitted,
                }));
                assert(volley_kept_ok(advs0, pending0, i as int, p_clone));
            }
        }
        i = i + 1;
    }
    proof {
        lemma_volley_counts(advs0, pending0, n as int);
    }
    world.projectiles = kept;
}

/// The chain target of a request: the nearest eligible adversary by
/// squared distance, the earliest on ties, if any is in range. Eligibility
/// and distance read only positions, behaviour states and the request's
/// struck set, never health.
pub open spec fn chain_target(advs: Seq<Adversary>, req: ChainStrikeRequest) -> Option<int>
    decreases advs.len(),
{
    if advs.len() == 0 {
        None
    } else {
        let rest = chain_target(advs.drop_last(), req);
        let last = advs.len() - 1;
        if chain_eligible(advs.last(), req) {
            match rest {
                Some(j) => if dist_sq_spec(req.source_pos, advs.last().pos) < dist_sq_spec(
                    req.source_pos,
                    advs[j].pos,
                ) {
                    Some(last as int)
                } else {
                    Some(j)
                },
                None => Some(last as int),
            }
        } else {
            rest
        }
    }
}

/// A chain target is always an index of the list.
pub proof fn lemma_chain_target_in_range(a: Seq<Adversary>, req: ChainStrikeRequest)
    ensures
        match chain_target(a, req) {
            Some(j) => 0 <= j < a.len(),
            None => true,
        },
    decreases a.len(),
{
    if a.len() > 0 {
        lemma_chain_target_in_range(a.drop_last(), req);
    }
}

/// The chain target ignores health: two lists agreeing on ids, positions
/// and behaviours pick the same target.
pub proof fn lemma_chain_target_ignores_health(
    a: Seq<Adversary>,
    b: Seq<Adversary>,
    req: ChainStrikeRequest,
)
    requires
        a.len() == b.len(),
        forall|i: int|
            0 <= i < a.len() ==> (#[trigger] a[i]).id == b[i].id && a[i].pos == b[i].pos && a[i].behavior
                == b[i].behavior,
    ensures
        chain_target(a, req) == chain_target(b, req),
    decreases a.len(),
{
    if a.len() > 0 {
        assert(a.drop_last().len() == b.drop_last().len());
        assert(forall|i: int|
            0 <= i < a.drop_last().len() ==> (#[trigger] a.drop_last()[i]).id == b.drop_last()[i].id
                && a.drop_last()[i].pos == b.drop_last()[i].pos && a.drop_last()[i].behavior
                == b.drop_last()[i].behavior);
        lemma_chain_target_ignores_health(a.drop_last(), b.drop_last(), req);
        lemma_chain_target_in_range(a.drop_last(), req);
        lemma_chain_target_in_range(b.drop_last(), req);
        assert(a.last().id == b.last().id && a.last().pos == b.last().pos && a.last().behavior
            == b.last().behavior);
    }
}

/// An adversary a chain strike may jump to: targetable, not yet struck
/// along this chain, and inside the search radius around the source.
pub open spec fn chain_eligible(a: Adversary, req: ChainStrikeRequest) -> bool {
    &&& targetable(a.behavior)
    &&& !req.struck@.contains(a.id)
    &&& dist_sq_spec(req.source_pos, a.pos) < req.range_milli * req.range_milli
}

/// The eligible adversary nearest to the request's source, by squared
/// distance, ties broken by list order.
fn nearest_eligible(advs: &Vec<Adversary>, req: &ChainStrikeRequest) -> (r: Option<usize>)
    requires
        forall|i: int| 0 <= i < advs@.len() ==> (#[trigger] advs@[i]).wf(),
        req.wf(),
    ensures
        match r {
            Some(j) => Some(j as int) == chain_target(advs@, *req) && j < advs@.len()
                && chain_eligible(advs@[j as int], *req) && forall|i: int|
                0 <= i < advs@.len() && chain_eligible(#[trigger] advs@[i], *req) ==> dist_sq_spec(
                    req.source_pos,
                    advs@[j as int].pos,
                ) <= dist_sq_spec(req.source_pos, advs@[i].pos),
            None => chain_target(advs@, *req) is None && forall|i: int|
                0 <= i < advs@.len() ==> !chain_eligible(#[trigger] advs@[i], *req),
        },
{
    let n: usize = advs.len();
    let mut best: Option<usize> = None;
    let mut best_d2: u128 = 0;
    let range_sq: u128 = sq_u128(req.range_milli);
    let mut i: usize = 0;
    while i < n
        invariant
            i <= n,
            n == advs@.len(),
            forall|k: int| 0 <= k < n ==> (#[trigger] advs@[k]).wf(),
            req.wf(),
            range_sq == req.range_milli * req.range_milli,
            match best {
                Some(j) => j < i && chain_eligible(advs@[j as int], *req) && best_d2
                    == dist_sq_spec(req.source_pos, advs@[j as int].pos) && chain_target(
                    advs@.subrange(0, i as int),
                    *req,
                ) == Some(j as int) && forall|k: int|
                    0 <= k < i && chain_eligible(#[trigger] advs@[k], *req) ==> best_d2
                        <= dist_sq_spec(req.source_pos, advs@[k].pos),
                None => chain_target(advs@.subrange(0, i as int), *req) is None && forall|k: int|
                    0 <= k < i ==> !chain_eligible(#[trigger] advs@[k], *req),
            },
        decreases n - i,
    {
        proof {
            assert(advs@.subrange(0, i + 1 as int) =~= advs@.subrange(0, i as int).push(
                advs@[i as int],
            ));
            assert(advs@.subrange(0, i + 1 as int).drop_last() =~= advs@.subrange(0, i as int));
            assert(advs@.subrange(0, i + 1 as int).last() == advs@[i as int]);
        }
        let eligible: bool = advs[i].is_targetable() && !contains_id(&req.struck, advs[i].id);
        if eligible {
            let d2: u128 = dist_sq(req.source_pos, advs[i].pos);
            if d2 < range_sq {
                let better: bool = match best {
                    Some(_) => d2 < best_d2,
                    None => true,
                };
                if better {
                    best = Some(i);
                    best_d2 = d2;
                }
            }
        }
        i = i + 1;
    }
    proof {
        assert(advs@.subrange(0, n as int) =~= advs@);
    }
    best
}

/// Resolve one pending chain-strike request: damage the nearest eligible
/// adversary, and hand back the follow-up request when links remain. A
/// request with no eligible target is simply dropped. The chain never
/// revisits an id already in the request's struck set, and the follow-up
/// request carries three quarters of this link's damage and every id
/// struck so far.
pub fn resolve_chain_request(advs: &mut Vec<Adversary>, req: &ChainStrikeRequest) -> (out: (
    Option<usize>,
    Option<ChainStrikeRequest>,
))
    requires
        forall|i: int| 0 <= i < old(advs)@.len() ==> (#[trigger] old(advs)@[i]).wf(),
        req.wf(),
    ensures
        final(advs)@.len() == old(advs)@.len(),
        forall|i: int| 0 <= i < final(advs)@.len() ==> (#[trigger] final(advs)@[i]).wf(),
        // The struck index is exactly the spec-level target selection.
        (match out.0 {
            Some(j) => chain_target(old(advs)@, *req) == Some(j as int),
            None => chain_target(old(advs)@, *req) is None,
        }),
        match out.0 {
            Some(j) => {
                &&& j < old(advs)@.len()
                // The struck target was eligible: in range, targetable, and
                // never one already in the struck set.
                &&& chain_eligible(old(advs)@[j as int], *req)
                // It is the nearest eligible target.
                &&& (forall|i: int|
                    0 <= i < old(advs)@.len() && chain_eligible(#[trigger] old(advs)@[i], *req)
                        ==> dist_sq_spec(req.source_pos, old(advs)@[j as int].pos) <= dist_sq_spec(
                        req.source_pos,
                        old(advs)@[i].pos,
                    ))
                // It took exactly this link's damage; nobody else changed.
                &&& final(advs)@[j as int] == (Adversary {
                    health: damaged_health(
                        old(advs)@[j as int].health as int,
                        req.damage as int,
                    ) as i64,
                    ..old(advs)@[j as int]
                })
                &&& (forall|i: int|
                    0 <= i < old(advs)@.len() && i != j ==> #[trigger] final(advs)@[i] == old(advs)@[i])
            },
            // No eligible target: the request is dropped without effect.
            None => final(advs)@ == old(advs)@ && (forall|i: int|
                0 <= i < old(advs)@.len() ==> !chain_eligible(#[trigger] old(advs)@[i], *req))
                && out.1 is None,
        },
        match out.1 {
            Some(e) => {
                &&& out.0 is Some
                &&& req.chains_left > 1
                &&& e.wf()
                &&& e.damage == chained_damage(req.damage as int)
                &&& e.chains_left == req.chains_left - 1
                &&& e.range_milli == req.range_milli
                &&& e.source_pos == old(advs)@[out.0->Some_0 as int].pos
                // The follow-up chain remembers everyone struck so far:
                // this is one link of a chain run.
                &&& e.struck@ == req.struck@.push(old(advs)@[out.0->Some_0 as int].id)
                &&& chain_link(*req, old(advs)@[out.0->Some_0 as int].id, e)
            },
            None => out.0 is None || req.chains_left <= 1,
        },
{
    let found: Option<usize> = nearest_eligible(advs, req);
    match found {
        None => (None, None),
        Some(j) => {
            let new_health: i64 = apply_damage(advs[j].health, req.damage);
            let a = &mut advs[j];
            a.health = new_health;
            if req.chains_left > 1 {
                let mut struck: Vec<u64> = clone_ids(&req.struck);
                struck.push(advs[j].id);
                proof {
                    assert(0 <= ((req.damage * 3 + 2) as int) / 4 <= DAMAGE_LIMIT);
                }
                let emitted = ChainStrikeRequest {
                    source_pos: advs[j].pos,
                    struck,
                    damage: (req.damage * 3 + 2) / 4,
                    chains_left: req.chains_left - 1,
                    range_milli: req.range_milli,
                };
                (Some(j), Some(emitted))
            } else {
                (Some(j), None)
            }
        },
    }
}

/// The adversary list after the first `n` pending requests strike, in
/// order. Target selection reads only positions, behaviours and struck
/// sets, which the pass never changes, so every target is fixed by the
/// entry state.
pub open spec fn chain_fold(
    advs0: Seq<Adversary>,
    reqs: Seq<ChainStrikeRequest>,
    n: int,
) -> Seq<Adversary>
    decreases n,
{
    if n <= 0 {
        advs0
    } else {
        let prev = chain_fold(advs0, reqs, n - 1);
        match chain_target(advs0, reqs[n - 1]) {
            Some(k) => prev.update(
                k,
                Adversary {
                    health: damaged_health(prev[k].health as int, reqs[n - 1].damage as int) as i64,
                    ..prev[k]
                },
            ),
            None => prev,
        }
    }
}

/// The fold touches only healths: every other field of every adversary
/// survives it.
pub proof fn lemma_chain_fold_frame(
    advs0: Seq<Adversary>,
    reqs: Seq<ChainStrikeRequest>,
    n: int,
)
    ensures
        chain_fold(advs0, reqs, n).len() == advs0.len(),
        forall|i: int|
            0 <= i < advs0.len() ==> #[trigger] chain_fold(advs0, reqs, n)[i] == (Adversary {
                health: chain_fold(advs0, reqs, n)[i].health,
                ..advs0[i]
            }),
    decreases n,
{
    if n > 0 {
        lemma_chain_fold_frame(advs0, reqs, n - 1);
        match chain_target(advs0, reqs[n - 1]) {
            Some(k) => {
                lemma_chain_target_in_range(advs0, reqs[n - 1]);
            },
            None => {},
        }
    }
}

/// Which pending requests emit a follow-up: those that strike a target
/// with links still left.
pub open spec fn emits_pred(advs0: Seq<Adversary>, reqs: Seq<ChainStrikeRequest>) -> spec_fn(
    int,
) -> bool {
    |j: int| chain_target(advs0, reqs[j]) is Some && reqs[j].chains_left > 1
}

/// The chain-resolution pass: every request pending at entry is consumed,
/// in order; each damages the nearest eligible adversary by exactly its
/// link damage, and exactly the requests that struck with links left
/// leave their follow-up for the next pass, in order.
pub fn chain_pass(world: &mut World)
    requires
        old(world).wf(),
    ensures
        final(world).wf(),
        // The adversary list is exactly the entry list with each request's
        // link damage applied to its spec-selected target, in order.
        final(world).adversaries@ == chain_fold(
            old(world).adversaries@,
            old(world).chain_requests@,
            old(world).chain_requests@.len() as int,
        ),
        final(world).adversaries@.len() == old(world).adversaries@.len(),
        forall|i: int|
            0 <= i < old(world).adversaries@.len() ==> #[trigger] final(world).adversaries@[i]
                == (Adversary {
                health: final(world).adversaries@[i].health,
                ..old(world).adversaries@[i]
            }) && final(world).adversaries@[i].health <= old(world).adversaries@[i].health,
        // A phased skirmisher is never damaged by a chain strike.
        forall|i: int|
            0 <= i < old(world).adversaries@.len() && !targetable(
                old(world).adversaries@[i].behavior,
            ) ==> final(world).adversaries@[i].health == old(world).adversaries@[i].health,
        // Every entry request is consumed; exactly the striking requests
        // with links left leave their follow-up, in order.
        final(world).chain_requests@.len() == count_upto(
            old(world).chain_requests@.len() as int,
            emits_pred(old(world).adversaries@, old(world).chain_requests@),
        ),
        forall|k: int|
            0 <= k < final(world).chain_requests@.len() ==> {
                let j = index_of_match(
                    old(world).chain_requests@.len() as int,
                    emits_pred(old(world).adversaries@, old(world).chain_requests@),
                    k,
                );
                let r0 = old(world).chain_requests@[j];
                let t = chain_target(old(world).adversaries@, r0)->Some_0;
                let e = #[trigger] final(world).chain_requests@[k];
                &&& e.damage == chained_damage(r0.damage as int)
                &&& e.chains_left == r0.chains_left - 1
                &&& e.range_milli == r0.range_milli
                &&& e.source_pos == old(world).adversaries@[t].pos
                &&& e.struck@ == r0.struck@.push(old(world).adversaries@[t].id)
            },
        final(world).chain_requests@.len() <= old(world).chain_requests@.len(),
        final(world).projectiles == old(world).projectiles,
        final(world).player == old(world).player,
        final(world).difficulty == old(world).difficulty,
        final(world).spawn_timer == old(world).spawn_timer,
        final(world).next_id == old(world).next_id,
        final(world).score == old(world).score,
{
    let mut reqs: Vec<ChainStrikeRequest> = Vec::new();
    core::mem::swap(&mut reqs, &mut world.chain_requests);
    let ghost advs0 = world.adversaries@;
    let ghost reqs0 = reqs@;
    let ghost pred = emits_pred(advs0, reqs0);
    let n: usize = reqs.len();
    let mut i: usize = 0;
    while i < n
        invariant
            i <= n,
            n == reqs@.len(),
            reqs@ == reqs0,
            advs0 == old(world).adversaries@,
            pred == emits_pred(advs0, reqs0),
            forall|j: int| 0 <= j < n ==> (#[trigger] reqs@[j]).wf(),
            world.adversaries@ == chain_fold(advs0, reqs0, i as int),
            world.adversaries@.len() == advs0.len(),
            forall|j: int|
                0 <= j < world.adversaries@.len() ==> (#[trigger] world.adversaries@[j]).wf(),
            forall|j: int|
                0 <= j < advs0.len() ==> #[trigger] world.adversaries@[j] == (Adversary {
                    health: world.adversaries@[j].health,
                    ..advs0[j]
                }) && world.adversaries@[j].health <= advs0[j].health,
            forall|j: int|
                0 <= j < advs0.len() && !targetable(advs0[j].behavior)
                    ==> world.adversaries@[j].health == advs0[j].health,
            world.chain_requests@.len() == count_upto(i as int, pred),
            world.chain_requests@.len() <= i,
            forall|j: int|
                0 <= j < world.chain_requests@.len() ==> (#[trigger] world.chain_requests@[j]).wf(),
            forall|k: int|
                0 <= k < world.chain_requests@.len() ==> {
                    let j = index_of_match(i as int, pred, k);
                    let r0 = reqs0[j];
                    let t = chain_target(advs0, r0)->Some_0;
                    let e = #[trigger] world.chain_requests@[k];
                    &&& e.damage == chained_damage(r0.damage as int)
                    &&& e.chains_left == r0.chains_left - 1
                    &&& e.range_milli == r0.range_milli
                    &&& e.source_pos == advs0[t].pos
                    &&& e.struck@ == r0.struck@.push(advs0[t].id)
                },
            world.projectiles == old(world).projectiles,
            world.player == old(world).player,
            world.difficulty == old(world).difficulty,
            world.spawn_timer == old(world).spawn_timer,
            world.next_id == old(world).next_id,
            world.score == old(world).score,
            old(world).wf(),
        decreases n - i,
    {
        let ghost pre = world.adversaries@;
        proof {
            lemma_chain_fold_frame(advs0, reqs0, i as int);
            lemma_chain_target_ignores_health(pre, advs0, reqs0[i as int]);
            lemma_chain_target_in_range(advs0, reqs0[i as int]);
            assert(count_upto(i + 1 as int, pred) == count_upto(i as int, pred) + if pred(
                i as int,
            ) {
                1int
            } else {
                0int
            });
            assert(forall|k: int|
                0 <= k < count_upto(i as int, pred) ==> #[trigger] index_of_match(
                    i + 1 as int,
                    pred,
                    k,
                ) == index_of_match(i as int, pred, k));
            if pred(i as int) {
                assert(index_of_match(i + 1 as int, pred, count_upto(i as int, pred)) == i);
            }
        }
        let req: &ChainStrikeRequest = &reqs[i];
        let (hit, emitted) = resolve_chain_request(&mut world.adversaries, req);
        proof {
            match chain_target(advs0, reqs0[i as int]) {
                Some(k) => {
                    assert(world.adversaries@ =~= pre.update(
                        k,
                        Adversary {
                            health: damaged_health(
                                pre[k].health as int,
                                reqs0[i as int].damage as int,
                            ) as i64,
                            ..pre[k]
                        },
                    ));
                },
                None => {
                    assert(world.adversaries@ =~= pre);
                },
            }
            assert(world.adversaries@ == chain_fold(advs0, reqs0, i + 1 as int));
        }
        match emitted {
            Some(e) => {
                world.chain_requests.push(e);
            },
            None => {},
        }
        i = i + 1;
    }
    proof {
        lemma_count_upto_le(n as int, pred);
    }
}

/// Field-for-field copy of an id list.
fn clone_ids(v: &Vec<u64>) -> (r: Vec<u64>)
    ensures
        r@ == v@,
{
    let mut out: Vec<u64> = Vec::new();
    let n: usize = v.len();
    let mut i: usize = 0;
    while i < n
        invariant
            i <= n,
            n == v@.len(),
            out@ == v@.subrange(0, i as int),
        decreases n - i,
    {
        out.push(v[i]);
        proof {
            assert(out@ == v@.subrange(0, i + 1 as int));
        }
        i = i + 1;
    }
    proof {
        assert(v@.subrange(0, n as int) == v@);
    }
    out
}

/// One resolved chain link, as [`resolve_chain_request`] produces it: the
/// struck target was not yet in the request's struck set, and the
/// follow-up request remembers it together with everything before.
pub open spec fn chain_link(
    prev: ChainStrikeRequest,
    target: u64,
    next: ChainStrikeRequest,
) -> bool {
    &&& !prev.struck@.contains(target)
    &&& next.struck@ == prev.struck@.push(target)
}

/// A run of chain links: each request strikes its target and hands the
/// grown struck set to the next request.
pub open spec fn chain_run(reqs: Seq<ChainStrikeRequest>, targets: Seq<u64>) -> bool {
    &&& reqs.len() == targets.len()
    &&& (forall|k: int|
        0 <= k < reqs.len() - 1 ==> chain_link(#[trigger] reqs[k], targets[k], reqs[k + 1]))
    &&& (forall|k: int| 0 <= k < reqs.len() ==> !(#[trigger] reqs[k]).struck@.contains(targets[k]))
}

/// Every id struck earlier in a run sits in each later request's struck
/// set.
proof fn lemma_chain_struck_grows(
    reqs: Seq<ChainStrikeRequest>,
    targets: Seq<u64>,
    k1: int,
    k2: int,
)
    requires
        chain_run(reqs, targets),
        0 <= k1 < k2 < reqs.len(),
    ensures
        reqs[k2].struck@.contains(targets[k1]),
    decreases k2 - k1,
{
    broadcast use vstd::seq_lib::lemma_seq_contains_after_push;

    if k2 == k1 + 1 {
        assert(chain_link(reqs[k1], targets[k1], reqs[k2]));
    } else {
        lemma_chain_struck_grows(reqs, targets, k1, k2 - 1);
        assert(chain_link(reqs[k2 - 1], targets[k2 - 1], reqs[k2]));
    }
}

/// Chain resolution never revisits an id: along any run of chain links,
/// the struck targets are pairwise distinct.
pub proof fn lemma_chain_never_revisits(reqs: Seq<ChainStrikeRequest>, targets: Seq<u64>)
    requires
        chain_run(reqs, targets),
    ensures
        forall|k1: int, k2: int|
            0 <= k1 < k2 < targets.len() ==> targets[k1] != targets[k2],
{
    assert forall|k1: int, k2: int|
        0 <= k1 < k2 < targets.len() implies targets[k1] != targets[k2] by {
        lemma_chain_struck_grows(reqs, targets, k1, k2);
    }
}

/// Whether an adversary-side projectile overlaps the player.
pub open spec fn bolt_hits(p: Projectile, player_pos: Vec2i) -> bool {
    &&& !p.from_player
    &&& dist_sq_spec(p.pos, player_pos) < (ADVERSARY_PROJECTILE_RADIUS_MILLI
        + PLAYER_RADIUS_MILLI) * (ADVERSARY_PROJECTILE_RADIUS_MILLI + PLAYER_RADIUS_MILLI)
}

/// The player's health, and whether the invincibility window is still
/// open, after the colliding adversary projectiles land in list order:
/// a collision while the window is open deals its damage and closes the
/// window, so at most one projectile lands per pass.
pub open spec fn health_after_bolts(
    h: int,
    window_open: bool,
    projs: Seq<Projectile>,
    player_pos: Vec2i,
) -> (int, bool)
    decreases projs.len(),
{
    if projs.len() == 0 {
        (h, window_open)
    } else {
        let r = health_after_bolts(h, window_open, projs.drop_last(), player_pos);
        if bolt_hits(projs.last(), player_pos) && r.1 {
            (damaged_health(r.0, projs.last().damage as int), false)
        } else {
            r
        }
    }
}

/// Which projectiles outlive the adversary-projectile pass: player-side
/// ones, and adversary bolts that miss the player.
pub open spec fn bolt_kept_pred(ps: Seq<Projectile>, player_pos: Vec2i) -> spec_fn(int) -> bool {
    |j: int| ps[j].from_player || !bolt_hits(ps[j], player_pos)
}

/// Adversary projectiles against the player: a colliding projectile always
/// despawns — landed or absorbed by the window alike — while player-side
/// and missing projectiles remain, unchanged and in order. A hit damages
/// the player and restarts the invincibility window only if the window had
/// elapsed. Without a player nothing happens.
pub fn adversary_projectile_pass(world: &mut World)
    requires
        old(world).wf(),
    ensures
        final(world).wf(),
        final(world).projectiles@.len() <= old(world).projectiles@.len(),
        final(world).adversaries == old(world).adversaries,
        final(world).chain_requests == old(world).chain_requests,
        old(world).player is None ==> final(world).player == old(world).player && final(world).projectiles@ == old(world).projectiles@,
        // The colliding adversary projectiles land in list order; the
        // first one through an open window deals its damage and closes it.
        match (old(world).player, final(world).player) {
            (Some(p0), Some(p1)) => {
                let folded = health_after_bolts(
                    p0.health as int,
                    p0.invincibility.finished_spec(),
                    old(world).projectiles@,
                    p0.pos,
                );
                &&& p1.health <= p0.health
                &&& p1.pos == p0.pos
                &&& p1.max_health == p0.max_health
                &&& (!p0.invincibility.finished_spec() ==> p1.health == p0.health)
                &&& p1.health == folded.0
                // The window is open afterwards exactly when the fold left
                // it open; a landed hit restarted it.
                &&& p1.invincibility.finished_spec() == folded.1
                &&& (folded.1 ==> p1.invincibility == p0.invincibility)
                // Exactly the non-colliding and player-side projectiles
                // remain, unchanged and in order.
                &&& final(world).projectiles@.len() == count_upto(
                    old(world).projectiles@.len() as int,
                    bolt_kept_pred(old(world).projectiles@, p0.pos),
                )
                &&& (forall|k: int|
                    0 <= k < final(world).projectiles@.len() ==> {
                        let j = index_of_match(
                            old(world).projectiles@.len() as int,
                            bolt_kept_pred(old(world).projectiles@, p0.pos),
                            k,
                        );
                        let q0 = old(world).projectiles@[j];
                        let q1 = #[trigger] final(world).projectiles@[k];
                        q1 == (Projectile { struck: q1.struck, ..q0 }) && q1.struck@ == q0.struck@
                    })
            },
            (None, None) => true,
            _ => false,
        },
        final(world).difficulty == old(world).difficulty,
        final(world).spawn_timer == old(world).spawn_timer,
        final(world).next_id == old(world).next_id,
        final(world).score == old(world).score,
{
    let has_player: bool = match &world.player {
        Some(_) => true,
        None => false,
    };
    if !has_player {
        return ;
    }
    let mut pending: Vec<Projectile> = Vec::new();
    core::mem::swap(&mut pending, &mut world.projectiles);
    let ghost pending0 = pending@;
    let n: usize = pending.len();
    let mut kept: Vec<Projectile> = Vec::new();
    let mut i: usize = 0;
    let reach_sq: u128 = sq_u128(ADVERSARY_PROJECTILE_RADIUS_MILLI + PLAYER_RADIUS_MILLI);
    while i < n
        invariant
            i <= n,
            n == pending@.len(),
            pending@ == pending0,
            forall|j: int| 0 <= j < n ==> (#[trigger] pending@[j]).wf(),
            forall|j: int| 0 <= j < kept@.len() ==> (#[trigger] kept@[j]).wf(),
            kept@.len() <= i,
            reach_sq == (ADVERSARY_PROJECTILE_RADIUS_MILLI + PLAYER_RADIUS_MILLI) * (
            ADVERSARY_PROJECTILE_RADIUS_MILLI + PLAYER_RADIUS_MILLI),
            world.adversaries == old(world).adversaries,
            world.chain_requests == old(world).chain_requests,
            world.player is Some,
            old(world).player is Some,
            match (old(world).player, world.player) {
                (Some(p0), Some(p1)) => {
                    let folded = health_after_bolts(
                        p0.health as int,
                        p0.invincibility.finished_spec(),
                        pending0.subrange(0, i as int),
                        p0.pos,
                    );
                    &&& p1.wf()
                    &&& p1.health <= p0.health
                    &&& p1.pos == p0.pos
                    &&& p1.max_health == p0.max_health
                    &&& p1.health == folded.0
                    &&& p1.invincibility.finished_spec() == folded.1
                    &&& (folded.1 ==> p1.invincibility == p0.invincibility)
                    &&& kept@.len() == count_upto(i as int, bolt_kept_pred(pending0, p0.pos))
                    &&& (forall|k: int|
                        0 <= k < kept@.len() ==> {
                            let j = index_of_match(
                                i as int,
                                bolt_kept_pred(pending0, p0.pos),
                                k,
                            );
                            let q0 = pending0[j];
                            let q1 = #[trigger] kept@[k];
                            q1 == (Projectile { struck: q1.struck, ..q0 }) && q1.struck@
                                == q0.struck@
                        })
                },
                _ => false,
            },
            world.difficulty == old(world).difficulty,
            world.spawn_timer == old(world).spawn_timer,
            world.next_id == old(world).next_id,
            world.score == old(world).score,
            old(world).wf(),
        decreases n - i,
    {
        let ghost prefix = pending0.subrange(0, i as int);
        proof {
            assert(pending0.subrange(0, i + 1 as int) =~= prefix.push(pending0[i as int]));
            assert(pending0.subrange(0, i + 1 as int).drop_last() =~= prefix);
            assert(pending0.subrange(0, i + 1 as int).last() == pending0[i as int]);
            match old(world).player {
                Some(p0) => {
                    let kp = bolt_kept_pred(pending0, p0.pos);
                    assert(count_upto(i + 1 as int, kp) == count_upto(i as int, kp) + if kp(
                        i as int,
                    ) {
                        1int
                    } else {
                        0int
                    });
                    assert(forall|k: int|
                        0 <= k < count_upto(i as int, kp) ==> #[trigger] index_of_match(
                            i + 1 as int,
                            kp,
                            k,
                        ) == index_of_match(i as int, kp, k));
                    if kp(i as int) {
                        assert(index_of_match(i + 1 as int, kp, count_upto(i as int, kp)) == i);
                    }
                },
                None => {},
            }
        }
        let p: Projectile = clone_projectile(&pending[i]);
        if p.from_player {
            kept.push(p);
        } else {
            let player_pos: Vec2i = match &world.player {
                Some(pl) => pl.pos,
                None => Vec2i { x: 0, y: 0 },
            };
            let d2: u128 = dist_sq(p.pos, player_pos);
            if d2 < reach_sq {
                // The projectile is spent on the player either way.
                match &mut world.player {
                    Some(pl) => {
                        if pl.invincibility.finished() {
                            pl.health = apply_damage(pl.health, p.damage);
                            pl.invincibility.reset();
                        }
                    },
                    None => {},
                }
            } else {
                kept.push(p);
            }
        }
        i = i + 1;
    }
    proof {
        assert(pending0.subrange(0, n as int) =~= pending0);
        match old(world).player {
            Some(p0) => {
                if !p0.invincibility.finished_spec() {
                    lemma_bolts_closed_window(p0.health as int, pending0, p0.pos);
                }
            },
            None => {},
        }
    }
    world.projectiles = kept;
}

/// With the window closed from the start, no projectile lands: the fold
/// leaves the health untouched.
proof fn lemma_bolts_closed_window(h: int, projs: Seq<Projectile>, player_pos: Vec2i)
    ensures
        health_after_bolts(h, false, projs, player_pos) == (h, false),
    decreases projs.len(),
{
    if projs.len() > 0 {
        lemma_bolts_closed_window(h, projs.drop_last(), player_pos);
    }
}

/// Whether an adversary touches the player for contact damage: it must be
/// targetable (a phased skirmisher deals none) and overlap the player's
/// circle.
pub open spec fn contact_hits(a: Adversary, player_pos: Vec2i) -> bool {
    &&& targetable(a.behavior)
    &&& dist_sq_spec(a.pos, player_pos) < (a.radius_spec() + PLAYER_RADIUS_MILLI) * (
    a.radius_spec() + PLAYER_RADIUS_MILLI)
}

/// Whether any adversary in the list touches the player.
pub open spec fn any_contact(advs: Seq<Adversary>, player_pos: Vec2i) -> bool {
    exists|i: int| 0 <= i < advs.len() && contact_hits(#[trigger] advs[i], player_pos)
}

/// The player's health after walking the adversary list once, taking each
/// touching adversary's contact damage in list order.
pub open spec fn health_after_contacts(h: int, advs: Seq<Adversary>, player_pos: Vec2i) -> int
    decreases advs.len(),
{
    if advs.len() == 0 {
        h
    } else {
        let prev = health_after_contacts(h, advs.drop_last(), player_pos);
        if contact_hits(advs.last(), player_pos) {
            damaged_health(prev, advs.last().stats.contact_damage as int)
        } else {
            prev
        }
    }
}

/// Adversary contact damage against the player. If the invincibility
/// window had elapsed when the pass starts, every touching targetable
/// adversary lands its hit this tick — the window restarts only once the
/// whole list has been walked, so several adversaries piling on the player
/// hit together. If the window had not elapsed, nothing happens.
pub fn contact_pass(world: &mut World)
    requires
        old(world).wf(),
    ensures
        final(world).wf(),
        final(world).adversaries == old(world).adversaries,
        final(world).projectiles == old(world).projectiles,
        final(world).chain_requests == old(world).chain_requests,
        old(world).player is None ==> final(world).player == old(world).player,
        match (old(world).player, final(world).player) {
            (Some(p0), Some(p1)) => {
                &&& p1.pos == p0.pos
                &&& p1.max_health == p0.max_health
                &&& (!p0.invincibility.finished_spec() ==> p1 == p0)
                // The window had elapsed: every touching adversary hits.
                &&& (p0.invincibility.finished_spec() ==> p1.health == health_after_contacts(
                    p0.health as int,
                    old(world).adversaries@,
                    p0.pos,
                ))
                // The window restarts exactly when a hit landed.
                &&& (p0.invincibility.finished_spec() ==> p1.invincibility.finished_spec()
                    == !any_contact(old(world).adversaries@, p0.pos))
                &&& (p0.invincibility.finished_spec() && !any_contact(
                    old(world).adversaries@,
                    p0.pos,
                ) ==> p1.invincibility == p0.invincibility)
            },
            (None, None) => true,
            _ => false,
        },
        final(world).difficulty == old(world).difficulty,
        final(world).spawn_timer == old(world).spawn_timer,
        final(world).next_id == old(world).next_id,
        final(world).score == old(world).score,
{
    let vulnerable: bool = match &world.player {
        Some(pl) => pl.invincibility.finished(),
        None => false,
    };
    if !vulnerable {
        return ;
    }
    let player_pos: Vec2i = match &world.player {
        Some(pl) => pl.pos,
        None => Vec2i { x: 0, y: 0 },
    };
    let n: usize = world.adversaries.len();
    let mut i: usize = 0;
    let mut hit_any: bool = false;
    while i < n
        invariant
            i <= n,
            n == world.adversaries@.len(),
            world.adversaries == old(world).adversaries,
            world.projectiles == old(world).projectiles,
            world.chain_requests == old(world).chain_requests,
            old(world).player is Some,
            old(world).player->Some_0.invincibility.finished_spec(),
            player_pos == old(world).player->Some_0.pos,
            match (old(world).player, world.player) {
                (Some(p0), Some(p1)) => p1.wf() && p1.pos == p0.pos && p1.max_health
                    == p0.max_health && p1.invincibility == p0.invincibility && p1.health
                    == health_after_contacts(
                    p0.health as int,
                    old(world).adversaries@.subrange(0, i as int),
                    p0.pos,
                ),
                _ => false,
            },
            hit_any == any_contact(old(world).adversaries@.subrange(0, i as int), player_pos),
            world.difficulty == old(world).difficulty,
            world.spawn_timer == old(world).spawn_timer,
            world.next_id == old(world).next_id,
            world.score == old(world).score,
            old(world).wf(),
        decreases n - i,
    {
        proof {
            assert(old(world).adversaries@[i as int].wf());
        }
        let touching: bool = world.adversaries[i].is_targetable() && {
            let radius: i64 = world.adversaries[i].radius_milli();
            let reach_sq: u128 = sq_u128(radius + PLAYER_RADIUS_MILLI);
            let d2: u128 = dist_sq(world.adversaries[i].pos, player_pos);
            d2 < reach_sq
        };
        if touching {
            let dmg: i64 = world.adversaries[i].stats.contact_damage;
            match &mut world.player {
                Some(pl) => {
                    pl.health = apply_damage(pl.health, dmg);
                },
                None => {},
            }
            hit_any = true;
        }
        proof {
            let s1 = old(world).adversaries@.subrange(0, i + 1 as int);
            let prefix = old(world).adversaries@.subrange(0, i as int);
            assert(s1 == prefix.push(old(world).adversaries@[i as int]));
            assert(s1.drop_last() == prefix);
            if touching {
                assert(contact_hits(s1[i as int], player_pos));
            } else {
                assert forall|j: int|
                    0 <= j < s1.len() implies !contact_hits(#[trigger] s1[j], player_pos)
                    || any_contact(prefix, player_pos) by {
                    if j < i as int {
                        assert(s1[j] == prefix[j]);
                    }
                }
            }
        }
        i = i + 1;
    }
    if hit_any {
        match &mut world.player {
            Some(pl) => {
                pl.invincibility.reset();
            },
            None => {},
        }
    }
    proof {
        assert(old(world).adversaries@.subrange(0, n as int) == old(world).adversaries@);
    }
}

/// How many of the first `n` indices satisfy the predicate.
pub open spec fn count_upto(n: int, pred: spec_fn(int) -> bool) -> int
    decreases n,
{
    if n <= 0 {
        0
    } else {
        count_upto(n - 1, pred) + if pred(n - 1) {
            1int
        } else {
            0int
        }
    }
}

/// The count of matches among the first `n` indices is between zero and
/// `n`.
pub proof fn lemma_count_upto_le(n: int, pred: spec_fn(int) -> bool)
    ensures
        0 <= count_upto(n, pred) <= (if n >= 0 { n } else { 0 }),
    decreases n,
{
    if n > 0 {
        lemma_count_upto_le(n - 1, pred);
    }
}

/// The index of the `k`-th match among the first `n` indices.
pub open spec fn index_of_match(n: int, pred: spec_fn(int) -> bool, k: int) -> int
    decreases n,
{
    if n <= 0 {
        0
    } else {
        if k < count_upto(n - 1, pred) {
            index_of_match(n - 1, pred, k)
        } else {
            n - 1
        }
    }
}

/// A selected index lies in range and satisfies the predicate.
pub proof fn lemma_index_of_match_holds(n: int, pred: spec_fn(int) -> bool, k: int)
    requires
        0 <= k < count_upto(n, pred),
    ensures
        0 <= index_of_match(n, pred, k) < n,
        pred(index_of_match(n, pred, k)),
    decreases n,
{
    lemma_count_upto_le(n, pred);
    if n > 0 {
        if k < count_upto(n - 1, pred) {
            lemma_index_of_match_holds(n - 1, pred, k);
        }
    }
}

/// Which projectiles outlive a tick of `dt` milliseconds.
pub open spec fn survives_pred(ps: Seq<Projectile>, dt: int) -> spec_fn(int) -> bool {
    |j: int| ps[j].lifetime.elapsed_ms + dt < ps[j].lifetime.duration_ms
}

/// The projectile lifetime pass: advance every projectile's lifetime by
/// the tick and despawn the expired ones. Exactly the unexpired
/// projectiles remain, in order, each with its lifetime advanced.
pub fn lifetime_pass(world: &mut World, dt_ms: u64)
    requires
        old(world).wf(),
        dt_ms <= TICK_MS_LIMIT,
    ensures
        final(world).wf(),
        final(world).projectiles@.len() == count_upto(
            old(world).projectiles@.len() as int,
            survives_pred(old(world).projectiles@, dt_ms as int),
        ),
        forall|k: int|
            0 <= k < final(world).projectiles@.len() ==> {
                let j = index_of_match(
                    old(world).projectiles@.len() as int,
                    survives_pred(old(world).projectiles@, dt_ms as int),
                    k,
                );
                let p0 = old(world).projectiles@[j];
                let p1 = #[trigger] final(world).projectiles@[k];
                &&& p1 == (Projectile {
                    lifetime: TickTimer {
                        elapsed_ms: (p0.lifetime.elapsed_ms + dt_ms) as u64,
                        duration_ms: p0.lifetime.duration_ms,
                        repeating: false,
                    },
                    struck: p1.struck,
                    ..p0
                })
                &&& p1.struck@ == p0.struck@
            },
        final(world).projectiles@.len() <= old(world).projectiles@.len(),
        final(world).adversaries == old(world).adversaries,
        final(world).chain_requests == old(world).chain_requests,
        final(world).player == old(world).player,
        final(world).difficulty == old(world).difficulty,
        final(world).spawn_timer == old(world).spawn_timer,
        final(world).next_id == old(world).next_id,
        final(world).score == old(world).score,
{
    let mut pending: Vec<Projectile> = Vec::new();
    core::mem::swap(&mut pending, &mut world.projectiles);
    let ghost pending0 = pending@;
    let ghost pred = survives_pred(pending0, dt_ms as int);
    let n: usize = pending.len();
    let mut kept: Vec<Projectile> = Vec::new();
    let mut i: usize = 0;
    while i < n
        invariant
            i <= n,
            n == pending@.len(),
            pending@ == pending0,
            pred == survives_pred(pending0, dt_ms as int),
            forall|j: int| 0 <= j < n ==> (#[trigger] pending@[j]).wf(),
            forall|j: int| 0 <= j < kept@.len() ==> (#[trigger] kept@[j]).wf(),
            kept@.len() == count_upto(i as int, pred),
            forall|k: int|
                0 <= k < kept@.len() ==> {
                    let j = index_of_match(i as int, pred, k);
                    let p0 = pending0[j];
                    let p1 = #[trigger] kept@[k];
                    &&& p1 == (Projectile {
                        lifetime: TickTimer {
                            elapsed_ms: (p0.lifetime.elapsed_ms + dt_ms) as u64,
                            duration_ms: p0.lifetime.duration_ms,
                            repeating: false,
                        },
                        struck: p1.struck,
                        ..p0
                    })
                    &&& p1.struck@ == p0.struck@
                },
            world.adversaries == old(world).adversaries,
            world.chain_requests == old(world).chain_requests,
            world.player == old(world).player,
            world.difficulty == old(world).difficulty,
            world.spawn_timer == old(world).spawn_timer,
            world.next_id == old(world).next_id,
            world.score == old(world).score,
            old(world).wf(),
            dt_ms <= TICK_MS_LIMIT,
        decreases n - i,
    {
        let mut p: Projectile = clone_projectile(&pending[i]);
        p.lifetime.tick(dt_ms);
        proof {
            assert(count_upto(i + 1 as int, pred) == count_upto(i as int, pred) + if pred(
                i as int,
            ) {
                1int
            } else {
                0int
            });
            assert(forall|k: int|
                0 <= k < count_upto(i as int, pred) ==> #[trigger] index_of_match(
                    i + 1 as int,
                    pred,
                    k,
                ) == index_of_match(i as int, pred, k));
            if pred(i as int) {
                assert(index_of_match(i + 1 as int, pred, count_upto(i as int, pred)) == i);
            }
        }
        if !p.lifetime.finished() {
            kept.push(p);
        }
        i = i + 1;
    }
    proof {
        assert(kept@.len() == count_upto(n as int, pred));
        lemma_count_upto_le(n as int, pred);
    }
    world.projectiles = kept;
}

/// Field-for-field copy of a projectile.
fn clone_projectile(p: &Projectile) -> (r: Projectile)
    ensures
        r.from_player == p.from_player,
        r.pos == p.pos,
        r.vel == p.vel,
        r.damage == p.damage,
        r.pierce_left == p.pierce_left,
        r.chain_left == p.chain_left,
        r.chain_capable == p.chain_capable,
        r.chain_range_milli == p.chain_range_milli,
        r.struck@ == p.struck@,
        r.lifetime == p.lifetime,
        p.wf() ==> r.wf(),
{
    let mut struck: Vec<u64> = Vec::new();
    let n: usize = p.struck.len();
    let mut i: usize = 0;
    while i < n
        invariant
            i <= n,
            n == p.struck@.len(),
            struck@ == p.struck@.subrange(0, i as int),
        decreases n - i,
    {
        struck.push(p.struck[i]);
        proof {
            assert(struck@ == p.struck@.subrange(0, i + 1 as int));
        }
        i = i + 1;
    }
    proof {
        assert(p.struck@.subrange(0, n as int) == p.struck@);
        assert(struck@ == p.struck@);
    }
    Projectile {
        from_player: p.from_player,
        pos: p.pos,
        vel: p.vel,
        damage: p.damage,
        pierce_left: p.pierce_left,
        chain_left: p.chain_left,
        chain_capable: p.chain_capable,
        chain_range_milli: p.chain_range_milli,
        struck,
        lifetime: p.lifetime,
    }
}

} // verus!
