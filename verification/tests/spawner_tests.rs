use horror_core::geom::Vec2i;
use horror_core::spawner::{choose_archetype, make_adversary};
use horror_core::stats::{apply_elite, elite_capable, stats_for, Archetype};
use horror_core::world::{BehaviorState, World};

#[test]
fn weighted_table_early_cycles() {
    for r in [0u64, 500, 999] {
        assert_eq!(choose_archetype(1, r, r), Archetype::SkitteringShadowling);
        assert_eq!(choose_archetype(2, r, r), Archetype::SkitteringShadowling);
    }
}

#[test]
fn weighted_table_middle_cycles() {
    // Cycles three and four: two nested thirty-percent rolls.
    assert_eq!(choose_archetype(3, 299, 0), Archetype::SkitteringShadowling);
    assert_eq!(choose_archetype(3, 300, 299), Archetype::FloatingEyeball);
    assert_eq!(choose_archetype(3, 300, 300), Archetype::VoidBlinker);
    // Cycles five and six: a four-way roll.
    assert_eq!(choose_archetype(5, 199, 0), Archetype::SkitteringShadowling);
    assert_eq!(choose_archetype(5, 399, 0), Archetype::FloatingEyeball);
    assert_eq!(choose_archetype(5, 599, 0), Archetype::VoidBlinker);
    assert_eq!(choose_archetype(6, 600, 0), Archetype::FleshWeaver);
}

#[test]
fn weighted_table_late_cycles() {
    // Cycle seven and beyond: the full six-way roll.
    assert_eq!(choose_archetype(7, 149, 0), Archetype::SkitteringShadowling);
    assert_eq!(choose_archetype(7, 299, 0), Archetype::FloatingEyeball);
    assert_eq!(choose_archetype(7, 449, 0), Archetype::VoidBlinker);
    assert_eq!(choose_archetype(7, 599, 0), Archetype::FleshWeaver);
    assert_eq!(choose_archetype(7, 799, 0), Archetype::FrenziedBehemoth);
    assert_eq!(choose_archetype(9, 800, 0), Archetype::AmorphousFleshbeast);
}

#[test]
fn elites_exclude_minions_summoners_and_chargers() {
    assert!(elite_capable(Archetype::SkitteringShadowling));
    assert!(elite_capable(Archetype::FloatingEyeball));
    assert!(elite_capable(Archetype::AmorphousFleshbeast));
    assert!(elite_capable(Archetype::VoidBlinker));
    assert!(!elite_capable(Archetype::CrawlingTorment));
    assert!(!elite_capable(Archetype::FleshWeaver));
    assert!(!elite_capable(Archetype::FrenziedBehemoth));
}

#[test]
fn elite_spawn_applies_the_transform_exactly_once() {
    let pos = Vec2i { x: 100_000, y: 50_000 };
    let plain = make_adversary(1, Archetype::VoidBlinker, 12, false, pos);
    assert_eq!(plain.stats, stats_for(Archetype::VoidBlinker, 12));
    assert_eq!(plain.health, plain.stats.health);

    let elite = make_adversary(2, Archetype::VoidBlinker, 12, true, pos);
    assert_eq!(elite.stats, apply_elite(stats_for(Archetype::VoidBlinker, 12)));
    assert_eq!(elite.health, elite.stats.health);
    assert!(elite.elite);
}

#[test]
fn archetypes_get_their_behaviour_machines() {
    let pos = Vec2i { x: 0, y: 0 };
    let check = |a: Archetype, want: fn(&BehaviorState) -> bool| {
        let adv = make_adversary(1, a, 10, false, pos);
        assert!(want(&adv.behavior));
    };
    check(Archetype::SkitteringShadowling, |b| matches!(b, BehaviorState::Chaser));
    check(Archetype::AmorphousFleshbeast, |b| matches!(b, BehaviorState::Chaser));
    check(Archetype::CrawlingTorment, |b| matches!(b, BehaviorState::Chaser));
    check(Archetype::FloatingEyeball, |b| matches!(b, BehaviorState::Ranged(_)));
    check(Archetype::VoidBlinker, |b| matches!(b, BehaviorState::Skirmisher(_)));
    check(Archetype::FleshWeaver, |b| matches!(b, BehaviorState::Summoner(_)));
    check(Archetype::FrenziedBehemoth, |b| matches!(b, BehaviorState::Charger(_)));
}

#[test]
fn ranged_spawn_uses_the_tables_attack_parameters() {
    let adv = make_adversary(1, Archetype::FloatingEyeball, 10, false, Vec2i { x: 0, y: 0 });
    match &adv.behavior {
        BehaviorState::Ranged(m) => {
            assert_eq!(m.shooting_range_milli, 350_000);
            assert_eq!(m.fire_timer.duration_ms, 2_800);
            assert_eq!(m.projectile_speed_milli, 280_000);
            assert_eq!(m.projectile_damage, 10);
        }
        _ => unreachable!("a ranged machine comes with this archetype"),
    }
}

#[test]
fn ending_the_session_clears_every_entity() {
    let mut w = World::new();
    let triggers: Vec<u32> = Vec::new();
    for _ in 0..10 {
        w.tick(2_000, 1, &triggers);
    }
    assert!(w.adversary_count() > 0);
    w.end_session();
    assert_eq!(w.adversary_count(), 0);
    assert_eq!(w.projectiles.len(), 0);
    assert_eq!(w.chain_requests.len(), 0);
    assert!(w.player.is_some());
}
