use horror_core::difficulty::spawn_interval_for;
use horror_core::geom::Vec2i;
use horror_core::ranged::RangedState;
use horror_core::spawner::make_adversary;
use horror_core::stats::Archetype;
use horror_core::world::{BehaviorState, World};

fn p(x: i64, y: i64) -> Vec2i {
    Vec2i { x, y }
}

fn dist_units(a: Vec2i, b: Vec2i) -> f64 {
    let dx = (a.x - b.x) as f64 / 1000.0;
    let dy = (a.y - b.y) as f64 / 1000.0;
    (dx * dx + dy * dy).sqrt()
}

fn push_adversary(w: &mut World, archetype: Archetype, pos: Vec2i) -> u64 {
    let id = w.next_id;
    let a = make_adversary(id, archetype, 10, false, pos);
    w.adversaries.push(a);
    w.next_id += 1;
    id
}

/// A bruiser at multiplier three: enough health to survive a 100-damage
/// chain for inspection.
fn push_tough(w: &mut World, pos: Vec2i) -> u64 {
    let id = w.next_id;
    let a = make_adversary(id, Archetype::AmorphousFleshbeast, 30, false, pos);
    w.adversaries.push(a);
    w.next_id += 1;
    id
}

#[test]
fn ranged_attacker_attacks_once_player_in_range() {
    // A ranged attacker 50 units beyond its 300-unit shooting range walks
    // in on a stationary player and turns to Attacking within one tick of
    // crossing the range.
    let mut w = World::new();
    push_adversary(&mut w, Archetype::FloatingEyeball, p(350_000, 0));
    // Its shooting range from the stat table is 350 units; give it the
    // stock 300-unit machine instead to match the scenario.
    w.adversaries[0].behavior =
        BehaviorState::Ranged(horror_core::ranged::RangedAttacker::default_attacker());
    let triggers: Vec<u32> = Vec::new();
    let mut was_outside = true;
    for _ in 0..200 {
        let player_pos = w.player.as_ref().expect("player present").pos;
        let d_before = dist_units(w.adversaries[0].pos, player_pos);
        w.tick(100, 1, &triggers);
        assert_eq!(w.adversaries.len(), 1);
        let state = match &w.adversaries[0].behavior {
            BehaviorState::Ranged(m) => m.state,
            _ => unreachable!("the behaviour stays ranged"),
        };
        if d_before >= 300.0 {
            assert_eq!(state, RangedState::Idle, "no attack from beyond the range");
        } else {
            assert_eq!(state, RangedState::Attacking, "attacking within one tick");
            was_outside = false;
            break;
        }
    }
    assert!(!was_outside, "the attacker closed the 50 units");
}

#[test]
fn chain_scenario_three_adversaries_from_one_hit() {
    // One chain-weapon projectile with chain=2: target A takes 100, the
    // request cascades to the nearest target B for 75, then to C for 56 —
    // three adversaries damaged from one projectile hit.
    let mut w = World::new();
    // Park the player far away so nothing else interferes, and use tough
    // adversaries so all three survive for inspection.
    if let Some(pl) = w.player.as_mut() {
        pl.pos = p(-2_000_000, 0);
    }
    let ha = push_tough(&mut w, p(200_000, 0));
    let hb = push_tough(&mut w, p(350_000, 0));
    let hc = push_tough(&mut w, p(500_000, 0));
    let base = w.adversaries[0].health;
    w.spawn_player_projectile(p(200_000, 0), p(0, 0), 100, 0, 2, true, 300_000, 60_000);
    let triggers: Vec<u32> = Vec::new();
    // First tick: the hit on A and the first chain link to B.
    w.tick(10, 1, &triggers);
    // Second tick: the remaining link reaches C.
    w.tick(10, 1, &triggers);
    let health_of = |w: &World, id: u64| -> i64 {
        let i = w.find_adversary(id).expect("still alive");
        w.adversaries[i].health
    };
    assert_eq!(health_of(&w, ha), base - 100);
    assert_eq!(health_of(&w, hb), base - 75);
    assert_eq!(health_of(&w, hc), base - 56);
}

#[test]
fn death_grants_experience_once_and_removes() {
    // An adversary at zero health when death resolution runs grants its
    // experience exactly once and is gone from the live set afterwards.
    let mut w = World::new();
    if let Some(pl) = w.player.as_mut() {
        pl.pos = p(-2_000_000, 0);
    }
    let id = push_adversary(&mut w, Archetype::SkitteringShadowling, p(500_000, 0));
    w.adversaries[0].health = 0;
    let triggers: Vec<u32> = vec![1000];
    let rewards = w.tick(10, 1, &triggers);
    assert_eq!(rewards.len(), 1);
    assert_eq!(rewards[0].id, id);
    assert_eq!(rewards[0].xp, 25);
    assert_eq!(rewards[0].score_gain, 12);
    // A certain on-kill trigger fires.
    assert_eq!(rewards[0].triggered, vec![0]);
    assert_eq!(w.score, 12);
    assert!(w.find_adversary(id).is_none());
    // The next tick finds nothing left to pay out.
    let rewards = w.tick(10, 1, &triggers);
    assert!(rewards.iter().all(|r| r.id != id));
}

#[test]
fn spawner_fills_up_to_the_cap() {
    let mut w = World::new();
    let triggers: Vec<u32> = Vec::new();
    // Session start: one spawn every two seconds, cap twenty. Run well
    // past forty seconds of spawn opportunities.
    for _ in 0..40 {
        w.tick(2_000, 1, &triggers);
        assert!(w.adversaries.len() <= w.difficulty.max_adversaries as usize);
    }
    assert!(w.adversaries.len() > 0, "spawns happened");
    // Ids are unique.
    for i in 0..w.adversaries.len() {
        for j in (i + 1)..w.adversaries.len() {
            assert_ne!(w.adversaries[i].id, w.adversaries[j].id);
        }
    }
}

#[test]
fn early_cycles_spawn_only_the_weakest_archetype() {
    let mut w = World::new();
    let triggers: Vec<u32> = Vec::new();
    for _ in 0..10 {
        w.tick(2_000, 1, &triggers);
    }
    assert!(w.difficulty.cycle <= 2);
    for a in &w.adversaries {
        assert_eq!(a.stats.archetype, Archetype::SkitteringShadowling);
    }
}

#[test]
fn difficulty_scaling_follows_the_cycle() {
    let mut w = World::new();
    let triggers: Vec<u32> = Vec::new();
    assert_eq!(w.difficulty.cycle, 1);
    assert_eq!(w.difficulty.max_adversaries, 20);
    assert_eq!(w.difficulty.spawn_interval_ms, 2_000);
    // Thirty seconds later the second cycle begins.
    for _ in 0..30 {
        w.tick(1_000, 1, &triggers);
    }
    assert_eq!(w.difficulty.cycle, 2);
    assert_eq!(w.difficulty.max_adversaries, 30);
    assert_eq!(w.difficulty.spawn_interval_ms, 1_800);
}

#[test]
fn spawn_interval_decays_and_floors() {
    assert_eq!(spawn_interval_for(1, 1), 2_000);
    assert_eq!(spawn_interval_for(2, 1), 1_800);
    assert_eq!(spawn_interval_for(3, 1), 1_620);
    assert_eq!(spawn_interval_for(1, 2), 1_960);
    // Deep decay hits the floor of 300 ms.
    assert_eq!(spawn_interval_for(100, 50), 300);
}

#[test]
fn summoner_raises_minions_up_to_cap_in_world() {
    let mut w = World::new();
    // Keep the player in the summoner's comfort band so it stands still.
    if let Some(pl) = w.player.as_mut() {
        pl.pos = p(-300_000, 0);
    }
    let sid = push_adversary(&mut w, Archetype::FleshWeaver, p(0, 0));
    let triggers: Vec<u32> = Vec::new();
    for _ in 0..10 {
        w.tick(7_000, 1, &triggers);
        let i = match w.find_adversary(sid) {
            Some(i) => i,
            None => break,
        };
        match &w.adversaries[i].behavior {
            BehaviorState::Summoner(m) => {
                assert!(m.minion_ids.len() <= m.max_minions);
            }
            _ => unreachable!("the behaviour stays a summoner"),
        }
    }
    // Minions joined the world.
    let minions = w
        .adversaries
        .iter()
        .filter(|a| a.stats.archetype == Archetype::CrawlingTorment)
        .count();
    assert!(minions >= 1);
}

#[test]
fn invincibility_window_reopens_between_hits() {
    let mut w = World::new();
    // Outlive the spawn shield first.
    if let Some(pl) = w.player.as_mut() {
        pl.invincibility.tick(1_000);
    }
    // An adversary standing exactly on the player neither moves nor
    // leaves contact.
    push_adversary(&mut w, Archetype::SkitteringShadowling, p(0, 0));
    let triggers: Vec<u32> = Vec::new();
    let health = |w: &World| w.player.as_ref().expect("player present").health;
    // First tick: the window had elapsed, the hit lands and restarts it.
    w.tick(500, 1, &triggers);
    assert_eq!(health(&w), 90);
    // Half a second later the window is still running: no second hit.
    w.tick(500, 1, &triggers);
    assert_eq!(health(&w), 90);
    // A full second after the hit the window has elapsed again.
    w.tick(500, 1, &triggers);
    assert_eq!(health(&w), 80);
}

#[test]
fn frozen_adversary_stands_still() {
    let mut w = World::new();
    let id = push_adversary(&mut w, Archetype::SkitteringShadowling, p(500_000, 0));
    let triggers: Vec<u32> = Vec::new();
    // A full freeze from the host-side effect system: no movement at all.
    w.set_speed_factor(id, 0);
    let before = w.adversaries[0].pos;
    w.tick(1_000, 1, &triggers);
    assert_eq!(w.adversaries[0].pos, before);
    // Half speed covers half the ground of a normal tick.
    w.set_speed_factor(id, 500);
    w.tick(1_000, 1, &triggers);
    let after_half = w.adversaries[0].pos;
    assert_eq!(before.x - after_half.x, 50_000);
    // Thawed, it chases at the full 100 units a second again.
    w.set_speed_factor(id, 1000);
    w.tick(1_000, 1, &triggers);
    assert_eq!(after_half.x - w.adversaries[0].pos.x, 100_000);
}

#[test]
fn chain_range_follows_the_weapon() {
    // A chain weapon with a shortened search radius cannot reach a second
    // target the stock radius would.
    let mut w = World::new();
    if let Some(pl) = w.player.as_mut() {
        pl.pos = p(-2_000_000, 0);
    }
    push_tough(&mut w, p(200_000, 0));
    push_tough(&mut w, p(350_000, 0));
    // A 100-unit radius: the 150-unit hop to the next target fails.
    w.spawn_player_projectile(p(200_000, 0), p(0, 0), 100, 0, 2, true, 100_000, 60_000);
    let triggers: Vec<u32> = Vec::new();
    w.tick(10, 1, &triggers);
    let base = horror_core::spawner::make_adversary(
        99,
        Archetype::AmorphousFleshbeast,
        30,
        false,
        p(0, 0),
    )
    .health;
    assert_eq!(w.adversaries[0].health, base - 100);
    assert_eq!(w.adversaries[1].health, base);
    assert!(w.chain_requests.is_empty());
}

#[test]
fn frozen_charger_does_not_rush() {
    // A fully frozen charger halts even mid-charge; thawed, the rush runs
    // at three and a half times the base speed regardless of partial
    // slows.
    let mut w = World::new();
    if let Some(pl) = w.player.as_mut() {
        pl.pos = p(-2_000_000, 0);
    }
    let id = push_adversary(&mut w, Archetype::FrenziedBehemoth, p(0, 0));
    let mut machine = horror_core::charger::Charger::new();
    machine.state = horror_core::charger::ChargerState::Charging;
    machine.charge_direction = Some(p(1000, 0));
    w.adversaries[0].behavior = BehaviorState::Charger(machine);
    let base_speed = w.adversaries[0].stats.speed_milli;
    assert_eq!(base_speed, 80_000);

    w.set_speed_factor(id, 0);
    let before = w.adversaries[0].pos;
    let triggers: Vec<u32> = Vec::new();
    w.tick(100, 1, &triggers);
    assert_eq!(w.adversaries[0].pos, before, "a frozen charge moves nowhere");

    // Thawed: 80 u/s x 3.5 over 100 ms is 28 units.
    w.set_speed_factor(id, 1000);
    let before = w.adversaries[0].pos;
    w.tick(100, 1, &triggers);
    assert_eq!(w.adversaries[0].pos.x - before.x, 28_000);
}

#[test]
fn spawn_timer_ticks_without_a_player() {
    // With no player the spawner skips silently but its interval timer
    // still runs; nothing ever spawns.
    let mut w = World::new();
    w.player = None;
    let triggers: Vec<u32> = Vec::new();
    w.tick(500, 1, &triggers);
    assert_eq!(w.spawn_timer.elapsed_ms, 500);
    w.tick(500, 1, &triggers);
    assert_eq!(w.spawn_timer.elapsed_ms, 1_000);
    // The next second completes the two-second interval: the timer wraps,
    // yet no adversary appears.
    w.tick(1_000, 1, &triggers);
    assert_eq!(w.spawn_timer.elapsed_ms, 0);
    assert_eq!(w.adversary_count(), 0);
}
