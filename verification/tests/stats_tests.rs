use horror_core::stats::{apply_elite, stats_for, Archetype};

#[test]
fn stat_table_at_session_start() {
    let s = stats_for(Archetype::SkitteringShadowling, 10);
    assert_eq!(s.health, 20);
    assert_eq!(s.contact_damage, 10);
    assert_eq!(s.speed_milli, 100_000);
    assert_eq!(s.size.x, 35_000);
    assert_eq!(s.xp_value, 25);
    assert_eq!(s.loot_chance_pm, 50);

    let e = stats_for(Archetype::FloatingEyeball, 10);
    assert_eq!(e.health, 15);
    assert_eq!(e.contact_damage, 5);
    assert_eq!(e.speed_milli, 70_000);
    assert_eq!(e.xp_value, 30);

    let b = stats_for(Archetype::AmorphousFleshbeast, 10);
    assert_eq!(b.health, 90);
    assert_eq!(b.contact_damage, 20);

    let m = stats_for(Archetype::CrawlingTorment, 10);
    assert_eq!(m.health, 5);
    assert_eq!(m.xp_value, 5);
    assert_eq!(m.loot_chance_pm, 10);
}

#[test]
fn stat_table_scales_with_difficulty() {
    // Multiplier 1.1: health is floored multiplicative, speed linear.
    let s = stats_for(Archetype::SkitteringShadowling, 11);
    assert_eq!(s.health, 22);
    assert_eq!(s.speed_milli, 102_000);

    let e = stats_for(Archetype::FloatingEyeball, 11);
    assert_eq!(e.health, 16); // floor of 16.5
    assert_eq!(e.speed_milli, 71_500);

    // Health never drops under one even for the weakest entry.
    let m = stats_for(Archetype::CrawlingTorment, 10);
    assert!(m.health >= 1);
}

#[test]
fn stat_table_never_negative() {
    let kinds = [
        Archetype::SkitteringShadowling,
        Archetype::FloatingEyeball,
        Archetype::AmorphousFleshbeast,
        Archetype::VoidBlinker,
        Archetype::FleshWeaver,
        Archetype::CrawlingTorment,
        Archetype::FrenziedBehemoth,
    ];
    for mult in [10u32, 11, 15, 20, 100, 1000] {
        for k in kinds {
            let s = stats_for(k, mult);
            assert!(s.health >= 1);
            assert!(s.contact_damage >= 0);
            assert!(s.speed_milli >= 0);
        }
    }
}

#[test]
fn elite_transform_exact_and_monotone() {
    let s = stats_for(Archetype::SkitteringShadowling, 10);
    let e = apply_elite(s);
    assert_eq!(e.health, 50); // 20 * 2.5
    assert_eq!(e.contact_damage, 18); // ceil(10 * 1.8)
    assert_eq!(e.speed_milli, 115_000); // 100000 * 1.15
    assert_eq!(e.size.x, 43_750); // 35000 * 1.25
    assert_eq!(e.xp_value, 50);
    assert_eq!(e.loot_chance_pm, 150); // 50 + 100

    // Rounding up on an odd health.
    let v = stats_for(Archetype::FloatingEyeball, 10);
    let ev = apply_elite(v);
    assert_eq!(ev.health, 38); // ceil(15 * 2.5)
    assert_eq!(ev.contact_damage, 9); // 5 * 1.8

    // The loot chance caps at one.
    let mut near_cap = s;
    near_cap.loot_chance_pm = 950;
    let capped = apply_elite(near_cap);
    assert_eq!(capped.loot_chance_pm, 1000);

    // Never a reduced stat.
    for k in [
        Archetype::SkitteringShadowling,
        Archetype::FloatingEyeball,
        Archetype::AmorphousFleshbeast,
        Archetype::VoidBlinker,
    ] {
        let base = stats_for(k, 13);
        let up = apply_elite(base);
        assert!(up.health >= base.health);
        assert!(up.contact_damage >= base.contact_damage);
        assert!(up.speed_milli >= base.speed_milli);
        assert!(up.size.x >= base.size.x);
        assert!(up.xp_value >= base.xp_value);
        assert!(up.loot_chance_pm >= base.loot_chance_pm);
    }
}
