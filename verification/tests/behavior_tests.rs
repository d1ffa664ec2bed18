use horror_core::charger::{Charger, ChargerState};
use horror_core::geom::Vec2i;
use horror_core::ranged::{RangedAttacker, RangedState};
use horror_core::skirmisher::{SkirmisherState, TeleportSkirmisher};
use horror_core::summoner::Summoner;

fn p(x: i64, y: i64) -> Vec2i {
    Vec2i { x, y }
}

#[test]
fn ranged_attacker_wakes_inside_range() {
    // 50 units beyond the 300-unit shooting range: stays idle.
    let mut m = RangedAttacker::default_attacker();
    let out = m.tick(100, p(350_000, 0), p(0, 0), 70_000);
    assert_eq!(m.state, RangedState::Idle);
    assert!(out.fired.is_none());
    // One step inside the range: attacking within one tick.
    let out = m.tick(100, p(299_000, 0), p(0, 0), 70_000);
    assert_eq!(m.state, RangedState::Attacking);
    assert!(out.fired.is_none());
}

#[test]
fn ranged_attacker_never_fires_outside_attacking() {
    let mut m = RangedAttacker::default_attacker();
    // Idle, far away, for a long stretch: no shot ever.
    for _ in 0..10 {
        let out = m.tick(1_000, p(400_000, 0), p(0, 0), 70_000);
        assert!(out.fired.is_none());
        assert_eq!(m.state, RangedState::Idle);
    }
}

#[test]
fn ranged_attacker_fires_then_repositions() {
    let mut m = RangedAttacker::default_attacker();
    m.tick(100, p(200_000, 0), p(0, 0), 70_000);
    assert_eq!(m.state, RangedState::Attacking);
    // The default fire interval is two seconds.
    let out = m.tick(2_000, p(200_000, 0), p(0, 0), 70_000);
    let order = out.fired.expect("a shot after the fire interval");
    assert_eq!(order.damage, 8);
    assert_eq!(order.speed_milli, 250_000);
    // The shot aims at the player, to the left.
    assert!(order.dir_milli.x < 0);
    assert_eq!(m.state, RangedState::Repositioning);
    // While attacking the machine stood still.
    let standing = out.velocity;
    assert_eq!(standing, p(0, 0));
}

#[test]
fn ranged_attacker_leashes_back_to_idle() {
    let mut m = RangedAttacker::default_attacker();
    m.tick(100, p(200_000, 0), p(0, 0), 70_000);
    assert_eq!(m.state, RangedState::Attacking);
    // The player walks beyond 1.1 x 300 = 330 units: forced idle, no shot.
    let out = m.tick(2_500, p(200_000, 0), p(540_000, 0), 70_000);
    assert!(out.fired.is_none());
    assert_eq!(m.state, RangedState::Idle);
}

#[test]
fn skirmisher_phases_and_relocates() {
    let mut m = TeleportSkirmisher::new();
    assert_eq!(m.state, SkirmisherState::Chasing);
    // The five-second action timer lapses: fade out begins.
    let out = m.tick(5_000, p(100_000, 0), p(0, 0), 110_000);
    assert_eq!(m.state, SkirmisherState::PhasingOut);
    assert!(out.teleport_to.is_none());
    assert!(m.teleport_destination.is_some());
    // Fade-out (300 ms), then the phased-out moment (50 ms).
    let out = m.tick(300, p(100_000, 0), p(0, 0), 110_000);
    assert_eq!(m.state, SkirmisherState::PhasedOut);
    assert_eq!(out.velocity, p(0, 0));
    let dest = m.teleport_destination.expect("destination chosen at fade-out");
    let out = m.tick(50, p(100_000, 0), p(0, 0), 110_000);
    assert_eq!(m.state, SkirmisherState::PhasingIn);
    assert_eq!(out.teleport_to, Some(dest));
    // While phased the machine did not move on its own.
    assert_eq!(out.velocity, p(0, 0));
    // Fade back in, then the slow cooldown chase.
    let out = m.tick(300, p(dest.x, dest.y), p(0, 0), 110_000);
    assert_eq!(m.state, SkirmisherState::Cooldown);
    assert_eq!(out.velocity, p(0, 0));
}

#[test]
fn skirmisher_destination_lies_in_teleport_band() {
    // The destination is a random point 100 to 250 units from the player;
    // componentwise it can be at most 250 units away on each axis.
    for _ in 0..20 {
        let mut m = TeleportSkirmisher::new();
        m.tick(5_000, p(900_000, 0), p(0, 0), 110_000);
        let d = m.teleport_destination.expect("destination chosen");
        assert!(d.x.abs() <= 250_000);
        assert!(d.y.abs() <= 250_000);
        assert!(d.x != 0 || d.y != 0);
    }
}

#[test]
fn summoner_honours_its_minion_cap() {
    let mut m = Summoner::new();
    let alive: Vec<u64> = vec![7, 8, 9];
    let mut raised: Vec<u64> = Vec::new();
    let mut next = 100u64;
    for _ in 0..12 {
        m.prune_minions(&raised);
        let (_vel, want) = m.tick(7_000, p(300_000, 0), p(0, 0), 60_000);
        for _ in 0..want {
            m.record_minion(next);
            raised.push(next);
            next += 1;
        }
        assert!(m.minion_ids.len() <= m.max_minions);
    }
    let _ = alive;
    // The cap of three was reached and never exceeded.
    assert_eq!(m.minion_ids.len(), 3);
}

#[test]
fn summoner_prunes_dead_minions() {
    let mut m = Summoner::new();
    m.record_minion(1);
    m.record_minion(2);
    m.record_minion(3);
    let alive: Vec<u64> = vec![2];
    m.prune_minions(&alive);
    assert_eq!(m.minion_ids, vec![2]);
}

#[test]
fn summoner_keeps_comfort_band() {
    let mut m = Summoner::new();
    // Too close: backs away (positive x, away from the player at origin).
    let (vel, _) = m.tick(100, p(100_000, 0), p(0, 0), 60_000);
    assert!(vel.x > 0);
    // Comfortable: stands still.
    let (vel, _) = m.tick(100, p(300_000, 0), p(0, 0), 60_000);
    assert_eq!(vel, p(0, 0));
    // Too far: closes in.
    let (vel, _) = m.tick(100, p(500_000, 0), p(0, 0), 60_000);
    assert!(vel.x < 0);
}

#[test]
fn charger_locks_direction_at_telegraph_end() {
    let mut m = Charger::new();
    // Cooldown ready, player in the detection band: commit to the charge.
    let _ = m.tick(6_000, p(0, 0), p(200_000, 0), 80_000, 80_000);
    assert_eq!(m.state, ChargerState::Telegraphing);
    assert_eq!(m.charge_target, Some(p(200_000, 0)));
    // Telegraph runs its 1.2 seconds without movement, then locks aim.
    let vel = m.tick(1_200, p(0, 0), p(200_000, 0), 80_000, 80_000);
    assert_eq!(vel, p(0, 0));
    assert_eq!(m.state, ChargerState::Charging);
    let locked = m.charge_direction.expect("direction locked at telegraph end");
    assert_eq!(locked, p(1000, 0));
    // The player moves; the charge direction does not follow.
    let vel = m.tick(100, p(50_000, 0), p(0, 500_000), 80_000, 80_000);
    assert_eq!(m.charge_direction, Some(locked));
    // Charge-speed velocity: 3.5 times the 80-unit base speed.
    assert_eq!(vel, p(280_000, 0));
}

#[test]
fn charger_only_charges_inside_band() {
    // Too near: no charge commits.
    let mut m = Charger::new();
    m.tick(6_000, p(0, 0), p(50_000, 0), 80_000, 80_000);
    assert_eq!(m.state, ChargerState::Roaming);
    // Too far: no charge either.
    let mut m2 = Charger::new();
    m2.tick(6_000, p(0, 0), p(450_000, 0), 80_000, 80_000);
    assert_eq!(m2.state, ChargerState::Roaming);
}

#[test]
fn charger_cools_down_and_roams_again() {
    let mut m = Charger::new();
    m.tick(6_000, p(0, 0), p(200_000, 0), 80_000, 80_000);
    m.tick(1_200, p(0, 0), p(200_000, 0), 80_000, 80_000);
    assert_eq!(m.state, ChargerState::Charging);
    // The charge lasts one second, then the cooldown.
    m.tick(1_000, p(100_000, 0), p(200_000, 0), 80_000, 80_000);
    assert_eq!(m.state, ChargerState::Cooldown);
    assert!(m.charge_direction.is_none());
    // Six more seconds and it roams again.
    m.tick(6_000, p(100_000, 0), p(200_000, 0), 80_000, 80_000);
    assert_eq!(m.state, ChargerState::Roaming);
}
