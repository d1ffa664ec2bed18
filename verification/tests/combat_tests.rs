use horror_core::combat::{
    adversary_projectile_pass, chain_pass, contact_pass, lifetime_pass, player_projectile_pass,
    resolve_chain_request,
};
use horror_core::geom::Vec2i;
use horror_core::skirmisher::{SkirmisherState, TeleportSkirmisher};
use horror_core::spawner::make_adversary;
use horror_core::stats::Archetype;
use horror_core::timer::TickTimer;
use horror_core::world::{
    Adversary, BehaviorState, ChainStrikeRequest, PlayerState, Projectile, World,
};

fn p(x: i64, y: i64) -> Vec2i {
    Vec2i { x, y }
}

fn world_with_player() -> World {
    let mut w = World::new();
    expose_player(&mut w);
    w
}

fn adversary_at(world: &mut World, archetype: Archetype, pos: Vec2i) -> u64 {
    let id = world.next_id;
    let a = make_adversary(id, archetype, 10, false, pos);
    world.adversaries.push(a);
    world.next_id += 1;
    id
}

fn bolt(pos: Vec2i, damage: i64, pierce: u32, chains: u32, chain_capable: bool) -> Projectile {
    Projectile {
        from_player: true,
        pos,
        vel: p(0, 0),
        damage,
        pierce_left: pierce,
        chain_left: chains,
        chain_capable,
        chain_range_milli: 300_000,
        struck: Vec::new(),
        lifetime: TickTimer::new(1_000, false),
    }
}

/// A world whose player has already outlived its spawn shield.
fn expose_player(w: &mut World) {
    if let Some(pl) = w.player.as_mut() {
        pl.invincibility.tick(1_000);
    }
}

#[test]
fn projectile_without_pierce_despawns_on_first_hit() {
    let mut w = world_with_player();
    adversary_at(&mut w, Archetype::SkitteringShadowling, p(200_000, 0));
    adversary_at(&mut w, Archetype::SkitteringShadowling, p(205_000, 0));
    w.projectiles.push(bolt(p(200_000, 0), 10, 0, 0, false));
    player_projectile_pass(&mut w);
    // One hit, then gone: the second overlapping adversary is untouched.
    assert_eq!(w.projectiles.len(), 0);
    assert_eq!(w.adversaries[0].health, 10);
    assert_eq!(w.adversaries[1].health, 20);
}

#[test]
fn projectile_with_pierce_survives_exactly_that_many_hits() {
    let mut w = world_with_player();
    for k in 0..4 {
        adversary_at(&mut w, Archetype::SkitteringShadowling, p(200_000 + k * 5_000, 0));
    }
    // Pierce 2: three adversaries damaged, the fourth spared.
    w.projectiles.push(bolt(p(205_000, 0), 7, 2, 0, false));
    player_projectile_pass(&mut w);
    assert_eq!(w.projectiles.len(), 0);
    assert_eq!(w.adversaries[0].health, 13);
    assert_eq!(w.adversaries[1].health, 13);
    assert_eq!(w.adversaries[2].health, 13);
    assert_eq!(w.adversaries[3].health, 20);
}

#[test]
fn projectile_never_hits_the_same_adversary_twice() {
    let mut w = world_with_player();
    let id = adversary_at(&mut w, Archetype::SkitteringShadowling, p(200_000, 0));
    let mut b = bolt(p(200_000, 0), 3, 5, 0, false);
    b.struck.push(id);
    w.projectiles.push(b);
    player_projectile_pass(&mut w);
    // Already in the struck set: no damage, no pierce spent.
    assert_eq!(w.adversaries[0].health, 20);
    assert_eq!(w.projectiles.len(), 1);
    assert_eq!(w.projectiles[0].pierce_left, 5);
}

#[test]
fn chain_weapon_emits_one_request_per_hit() {
    let mut w = world_with_player();
    let id = adversary_at(&mut w, Archetype::SkitteringShadowling, p(200_000, 0));
    w.projectiles.push(bolt(p(200_000, 0), 100, 3, 2, true));
    player_projectile_pass(&mut w);
    assert_eq!(w.chain_requests.len(), 1);
    let req = &w.chain_requests[0];
    assert_eq!(req.damage, 75);
    assert_eq!(req.chains_left, 2);
    assert_eq!(req.struck, vec![id]);
    // The projectile chains at most once even with pierce left.
    assert_eq!(w.projectiles[0].chain_left, 0);
    assert_eq!(w.projectiles[0].pierce_left, 2);
}

#[test]
fn chain_resolution_three_links() {
    // A chain-weapon hit on A for 100 cascades to B for 75 and C for 56.
    let mut w = world_with_player();
    let _a = adversary_at(&mut w, Archetype::SkitteringShadowling, p(200_000, 0));
    let _b = adversary_at(&mut w, Archetype::SkitteringShadowling, p(350_000, 0));
    let _c = adversary_at(&mut w, Archetype::SkitteringShadowling, p(500_000, 0));
    w.projectiles.push(bolt(p(200_000, 0), 100, 0, 2, true));
    player_projectile_pass(&mut w);
    assert_eq!(w.adversaries[0].health, 20 - 100);
    chain_pass(&mut w);
    assert_eq!(w.adversaries[1].health, 20 - 75);
    assert_eq!(w.chain_requests.len(), 1);
    assert_eq!(w.chain_requests[0].damage, 56);
    chain_pass(&mut w);
    assert_eq!(w.adversaries[2].health, 20 - 56);
    // The chain is spent: no request left behind.
    assert_eq!(w.chain_requests.len(), 0);
}

#[test]
fn chain_never_revisits_a_struck_id() {
    let mut w = world_with_player();
    let a = adversary_at(&mut w, Archetype::SkitteringShadowling, p(200_000, 0));
    let b = adversary_at(&mut w, Archetype::SkitteringShadowling, p(210_000, 0));
    // Both ids already struck: the request finds nobody and is dropped.
    let req = ChainStrikeRequest {
        source_pos: p(200_000, 0),
        struck: vec![a, b],
        damage: 50,
        chains_left: 3,
        range_milli: 300_000,
    };
    let (hit, emitted) = resolve_chain_request(&mut w.adversaries, &req);
    assert!(hit.is_none());
    assert!(emitted.is_none());
    assert_eq!(w.adversaries[0].health, 20);
    assert_eq!(w.adversaries[1].health, 20);
}

#[test]
fn chain_picks_the_nearest_target() {
    let mut w = world_with_player();
    let a = adversary_at(&mut w, Archetype::SkitteringShadowling, p(0, 0));
    let far = adversary_at(&mut w, Archetype::SkitteringShadowling, p(250_000, 0));
    let near = adversary_at(&mut w, Archetype::SkitteringShadowling, p(100_000, 0));
    let req = ChainStrikeRequest {
        source_pos: p(0, 0),
        struck: vec![a],
        damage: 40,
        chains_left: 2,
        range_milli: 300_000,
    };
    let (hit, emitted) = resolve_chain_request(&mut w.adversaries, &req);
    assert_eq!(hit, Some(2));
    let e = emitted.expect("links remain, so a follow-up request");
    assert_eq!(e.damage, 30);
    assert_eq!(e.chains_left, 1);
    assert_eq!(e.struck, vec![a, near]);
    assert_eq!(w.adversaries[2].health, 20 - 40);
    let _ = far;
}

#[test]
fn phased_skirmisher_is_not_targetable() {
    let mut w = world_with_player();
    let id = adversary_at(&mut w, Archetype::VoidBlinker, p(200_000, 0));
    // Put the skirmisher into its phased-out moment by hand.
    let mut machine = TeleportSkirmisher::new();
    machine.state = SkirmisherState::PhasedOut;
    machine.teleport_destination = Some(p(0, 0));
    w.adversaries[0].behavior = BehaviorState::Skirmisher(machine);
    let base_health = w.adversaries[0].health;

    // A projectile dead on it passes through.
    w.projectiles.push(bolt(p(200_000, 0), 50, 3, 2, true));
    player_projectile_pass(&mut w);
    assert_eq!(w.adversaries[0].health, base_health);
    assert_eq!(w.chain_requests.len(), 0);
    assert_eq!(w.projectiles[0].pierce_left, 3);

    // A chain request cannot jump to it either.
    let req = ChainStrikeRequest {
        source_pos: p(200_000, 0),
        struck: Vec::new(),
        damage: 50,
        chains_left: 2,
        range_milli: 300_000,
    };
    let (hit, _) = resolve_chain_request(&mut w.adversaries, &req);
    assert!(hit.is_none());

    // And it deals no contact damage while phased, even on top of the
    // player.
    w.adversaries[0].pos = p(0, 0);
    let before = match &w.player {
        Some(pl) => pl.health,
        None => unreachable!(),
    };
    contact_pass(&mut w);
    let after = match &w.player {
        Some(pl) => pl.health,
        None => unreachable!(),
    };
    assert_eq!(before, after);
    let _ = id;
}

#[test]
fn contact_damage_piles_on_in_one_tick() {
    // Two adversaries touching the player while the window has elapsed
    // both land their hit before the window restarts.
    let mut w = world_with_player();
    adversary_at(&mut w, Archetype::SkitteringShadowling, p(10_000, 0));
    adversary_at(&mut w, Archetype::AmorphousFleshbeast, p(0, 10_000));
    contact_pass(&mut w);
    let pl = w.player.as_ref().expect("player present");
    assert_eq!(pl.health, 100 - 10 - 20);
    // The window restarted: a further pass adds nothing.
    contact_pass(&mut w);
    let pl = w.player.as_ref().expect("player present");
    assert_eq!(pl.health, 70);
}

#[test]
fn adversary_projectiles_respect_invincibility() {
    let mut w = world_with_player();
    let hit = Projectile {
        from_player: false,
        pos: p(10_000, 0),
        vel: p(0, 0),
        damage: 9,
        pierce_left: 0,
        chain_left: 0,
        chain_capable: false,
        chain_range_milli: 300_000,
        struck: Vec::new(),
        lifetime: TickTimer::new(3_500, false),
    };
    let second = Projectile { pos: p(0, 10_000), ..clone_proj(&hit) };
    w.projectiles.push(hit);
    w.projectiles.push(second);
    adversary_projectile_pass(&mut w);
    // Both projectiles are spent on the player, but only the first lands
    // before the window restarts.
    assert_eq!(w.projectiles.len(), 0);
    let pl = w.player.as_ref().expect("player present");
    assert_eq!(pl.health, 91);
}

fn clone_proj(q: &Projectile) -> Projectile {
    Projectile {
        from_player: q.from_player,
        pos: q.pos,
        vel: q.vel,
        damage: q.damage,
        pierce_left: q.pierce_left,
        chain_left: q.chain_left,
        chain_capable: q.chain_capable,
        chain_range_milli: q.chain_range_milli,
        struck: q.struck.clone(),
        lifetime: q.lifetime,
    }
}

#[test]
fn projectile_lifetime_expires() {
    let mut w = world_with_player();
    w.projectiles.push(bolt(p(0, 0), 5, 0, 0, false));
    lifetime_pass(&mut w, 500);
    assert_eq!(w.projectiles.len(), 1);
    lifetime_pass(&mut w, 500);
    assert_eq!(w.projectiles.len(), 0);
}

#[test]
fn no_player_skips_player_passes() {
    let mut w = World::new();
    w.player = None;
    adversary_at(&mut w, Archetype::SkitteringShadowling, p(10_000, 0));
    contact_pass(&mut w);
    adversary_projectile_pass(&mut w);
    let rewards = horror_core::death::death_pass(&mut w, &Vec::new());
    assert!(rewards.is_empty());
    assert_eq!(w.adversaries.len(), 1);
}

#[test]
fn fresh_player_is_shielded_for_a_second() {
    let mut pl = PlayerState::new();
    assert_eq!(pl.health, 100);
    // The spawn shield runs for one second, then contact can land.
    assert!(pl.invincibility.elapsed_ms < pl.invincibility.duration_ms);
    pl.invincibility.tick(1_000);
    assert!(pl.invincibility.elapsed_ms >= pl.invincibility.duration_ms);
    let _a: Option<Adversary> = None;
}
