use arena_core::ai::fire_quota;
use arena_core::bullets::{spawn_bullet, SpawnError};
use arena_core::events::Notification;
use arena_core::game::{Game, PlayerInput};
use arena_core::geometry::{Pos, Vec2i};
use arena_core::pickups::{Pickup, PickupKind};
use arena_core::schedule::{update_spawn_interval, GameDef, Timer};
use arena_core::stats::{Cooldown, Health, TeamIdx, Tier, Weapon};
use arena_core::world::{Combatant, EventTryApplyDamages, World};

fn combatant(id: u64, tier: Tier, current: u32, max: u32, position: Pos) -> Combatant {
    Combatant {
        id,
        position,
        health: Health { current, max },
        weapon: Weapon { bullets: 1, max: 36, spread: 15 },
        cooldown: Cooldown { start_time: 0, duration: 500 },
        team: TeamIdx(if tier == Tier::Player { 0 } else { 1 }),
        tier,
        speed: 75,
        target: None,
    }
}

fn world_with(cs: Vec<Combatant>) -> World {
    let mut w = World::new();
    w.next_id = 100;
    w.combatants = cs;
    w
}

fn kills(w: &World) -> usize {
    w.events.iter().filter(|e| matches!(e, Notification::AiDeath(_))).count()
}

#[test]
fn cooldown_gate_is_strict() {
    let c = Cooldown { start_time: 1000, duration: 500 };
    assert!(!c.is_ready(1000));
    assert!(!c.is_ready(1500));
    assert!(c.is_ready(1501));
}

#[test]
fn spawn_refused_until_cooldown_elapses() {
    let c = Cooldown { start_time: 1000, duration: 500 };
    let aim = Vec2i { x: 1, y: 0 };
    for now in [0u64, 999, 1000, 1499, 1500] {
        let r = spawn_bullet(1, Pos::new(0, 0), aim, TeamIdx(0), &c, now, 3, 15);
        assert_eq!(r, Err(SpawnError::NotReady));
    }
    assert_eq!(c, Cooldown { start_time: 1000, duration: 500 });
    assert!(spawn_bullet(1, Pos::new(0, 0), aim, TeamIdx(0), &c, 1501, 3, 15).is_ok());
}

#[test]
fn spawn_fans_n_projectiles_evenly() {
    let c = Cooldown { start_time: 0, duration: 0 };
    let aim = Vec2i { x: 3, y: -4 };
    let v = spawn_bullet(7, Pos::new(5, 6), aim, TeamIdx(1), &c, 10, 4, 160).unwrap();
    assert_eq!(v.len(), 4);
    for (k, b) in v.iter().enumerate() {
        assert_eq!(b.heading.aim, aim);
        assert_eq!(b.heading.turn as usize, k);
        assert_eq!(b.heading.of, 4);
        assert_eq!(b.owner.entity, 7);
        assert_eq!(b.position, Pos::new(5, 6));
        assert_eq!(b.team, TeamIdx(1));
    }
}

#[test]
fn spawn_zero_aim_is_degenerate_whatever_the_cooldown() {
    let zero = Vec2i { x: 0, y: 0 };
    let ready = Cooldown { start_time: 0, duration: 0 };
    let waiting = Cooldown { start_time: 100, duration: 1000 };
    assert_eq!(
        spawn_bullet(1, Pos::new(0, 0), zero, TeamIdx(0), &ready, 50, 3, 15),
        Err(SpawnError::DegenerateDirection)
    );
    assert_eq!(
        spawn_bullet(1, Pos::new(0, 0), zero, TeamIdx(0), &waiting, 50, 3, 15),
        Err(SpawnError::DegenerateDirection)
    );
}

#[test]
fn fire_restarts_cooldown_only_on_success() {
    let mut w = world_with(vec![combatant(1, Tier::Player, 1500, 1500, Pos::new(0, 0))]);
    assert_eq!(w.fire(0, Vec2i { x: 1, y: 1 }, 400), Err(SpawnError::NotReady));
    assert_eq!(w.combatants[0].cooldown.start_time, 0);
    assert!(w.bullets.is_empty());
    assert_eq!(w.fire(0, Vec2i { x: 0, y: 0 }, 900), Err(SpawnError::DegenerateDirection));
    assert_eq!(w.combatants[0].cooldown.start_time, 0);
    assert_eq!(w.fire(0, Vec2i { x: 1, y: 1 }, 900), Ok(()));
    assert_eq!(w.combatants[0].cooldown.start_time, 900);
    assert_eq!(w.bullets.len(), 1);
    assert_eq!(w.events.len(), 1);
}

#[test]
fn damage_kills_normal_enemy_once_and_drops_one() {
    let mut w = world_with(vec![combatant(5, Tier::Normal, 250, 1500, Pos::new(10, 20))]);
    w.try_apply_damages(&vec![EventTryApplyDamages(5, 250)]);
    assert!(w.combatants.is_empty());
    assert_eq!(kills(&w), 1);
    assert_eq!(w.pickups.len(), 1);
    assert_eq!(w.pickups[0].position, Pos::new(10, 20));
}

#[test]
fn damage_kills_elite_and_drops_three() {
    let mut w = world_with(vec![combatant(5, Tier::Elite, 250, 1500, Pos::new(10, 20))]);
    w.try_apply_damages(&vec![EventTryApplyDamages(5, 250)]);
    assert!(w.combatants.is_empty());
    assert_eq!(kills(&w), 1);
    assert_eq!(w.pickups.len(), 3);
    assert_eq!(w.pickups[1].position, Pos::new(12, 22));
    assert_eq!(w.pickups[2].position, Pos::new(14, 24));
    let kind = w.pickups[0].kind;
    assert!(w.pickups.iter().all(|p| p.kind == kind));
}

#[test]
fn damage_drop_kind_follows_roll() {
    let mut w = world_with(vec![combatant(5, Tier::Normal, 250, 1000, Pos::new(0, 0))]);
    w.resolve_damages(&vec![EventTryApplyDamages(5, 250)], &vec![61]);
    assert_eq!(w.pickups[0].kind, PickupKind::Health(250));
    let mut w = world_with(vec![combatant(5, Tier::Normal, 250, 1000, Pos::new(0, 0))]);
    w.resolve_damages(&vec![EventTryApplyDamages(5, 250)], &vec![60]);
    assert_eq!(w.pickups[0].kind, PickupKind::Weapon(1));
}

#[test]
fn damage_kills_at_most_once_per_pass() {
    let mut w = world_with(vec![
        combatant(5, Tier::Elite, 250, 3000, Pos::new(0, 0)),
        combatant(6, Tier::Normal, 1000, 1000, Pos::new(50, 0)),
    ]);
    let intents = vec![
        EventTryApplyDamages(5, 250),
        EventTryApplyDamages(5, 250),
        EventTryApplyDamages(5, 250),
    ];
    w.resolve_damages(&intents, &vec![10, 10, 10]);
    assert_eq!(kills(&w), 1);
    assert_eq!(w.pickups.len(), 3);
    assert_eq!(w.combatants.len(), 1);
    assert_eq!(w.combatants[0].id, 6);
}

#[test]
fn damage_uses_fixed_amount_and_each_hit_counts() {
    let mut w = world_with(vec![combatant(6, Tier::Normal, 1000, 1000, Pos::new(0, 0))]);
    w.resolve_damages(
        &vec![EventTryApplyDamages(6, 900), EventTryApplyDamages(6, 1)],
        &vec![50, 50],
    );
    assert_eq!(w.combatants[0].health.current, 500);
    assert_eq!(kills(&w), 0);
}

#[test]
fn damage_to_player_notifies_and_no_kill_event() {
    let mut w = world_with(vec![combatant(1, Tier::Player, 250, 1500, Pos::new(0, 0))]);
    w.try_apply_damages(&vec![EventTryApplyDamages(1, 250), EventTryApplyDamages(9, 250)]);
    assert!(w.combatants.is_empty());
    assert_eq!(kills(&w), 0);
    assert_eq!(w.events, vec![Notification::PlayerDamaged(arena_core::events::PlayerDamagedEvent)]);
    assert_eq!(w.pickups.len(), 1);
}

#[test]
fn scenario_quarter_health_hit_dies() {
    for tier in [Tier::Normal, Tier::Elite] {
        let mut w = world_with(vec![combatant(3, tier, 250, 1500, Pos::new(0, 0))]);
        w.try_apply_damages(&vec![EventTryApplyDamages(3, 250)]);
        assert!(w.combatants.is_empty());
        assert_eq!(kills(&w), 1);
        assert_eq!(w.pickups.len(), if tier == Tier::Elite { 3 } else { 1 });
    }
}

#[test]
fn pickups_heal_and_upgrade_are_clamped() {
    let mut h = Health { current: 1400, max: 1500 };
    let mut wpn = Weapon { bullets: 35, max: 36, spread: 15 };
    PickupKind::Health(250).apply_to(&mut h, &mut wpn);
    assert_eq!(h, Health { current: 1500, max: 1500 });
    PickupKind::Weapon(5).apply_to(&mut h, &mut wpn);
    assert_eq!(wpn.bullets, 36);
    let mut h2 = Health { current: 100, max: 1500 };
    PickupKind::Health(250).apply_to(&mut h2, &mut wpn);
    assert_eq!(h2.current, 350);
}

#[test]
fn pickup_collection_applies_and_removes() {
    let mut w = world_with(vec![
        combatant(1, Tier::Player, 1000, 1500, Pos::new(0, 0)),
        combatant(2, Tier::Normal, 500, 1000, Pos::new(300, 0)),
    ]);
    w.pickups = vec![
        Pickup { kind: PickupKind::Health(250), position: Pos::new(10, 10) },
        Pickup { kind: PickupKind::Weapon(1), position: Pos::new(0, 19) },
        Pickup { kind: PickupKind::Health(250), position: Pos::new(0, 20) },
        Pickup { kind: PickupKind::Health(250), position: Pos::new(305, 0) },
    ];
    w.collisions_player_pickups();
    assert_eq!(w.combatants[0].health.current, 1250);
    assert_eq!(w.combatants[0].weapon.bullets, 2);
    assert_eq!(w.combatants[1].health.current, 750);
    assert_eq!(w.pickups.len(), 1);
    assert_eq!(w.pickups[0].position, Pos::new(0, 20));
    assert_eq!(w.events.len(), 2);
}

#[test]
fn bullet_collisions_skip_owner_and_emit_intents() {
    let mut w = world_with(vec![
        combatant(1, Tier::Player, 1500, 1500, Pos::new(0, 0)),
        combatant(2, Tier::Normal, 1000, 1000, Pos::new(5, 0)),
        combatant(3, Tier::Normal, 1000, 1000, Pos::new(8, 0)),
    ]);
    let c = Cooldown { start_time: 0, duration: 0 };
    let mine = spawn_bullet(1, Pos::new(0, 0), Vec2i { x: 1, y: 0 }, TeamIdx(0), &c, 1, 1, 0).unwrap();
    let far = spawn_bullet(2, Pos::new(500, 500), Vec2i { x: 1, y: 0 }, TeamIdx(1), &c, 1, 1, 0).unwrap();
    w.bullets = vec![mine[0], far[0]];
    let intents = w.collisions_bullet_health();
    assert_eq!(intents, vec![EventTryApplyDamages(2, 250), EventTryApplyDamages(3, 250)]);
    assert_eq!(w.bullets.len(), 1);
    assert_eq!(w.bullets[0].position, Pos::new(500, 500));
}

#[test]
fn respawn_sweeps_and_spawns_one_player() {
    let mut w = world_with(vec![combatant(4, Tier::Normal, 1000, 1000, Pos::new(3, 3))]);
    w.pickups = vec![Pickup { kind: PickupKind::Weapon(1), position: Pos::new(0, 0) }];
    let c = Cooldown { start_time: 0, duration: 0 };
    w.bullets = spawn_bullet(4, Pos::new(0, 0), Vec2i { x: 1, y: 0 }, TeamIdx(1), &c, 1, 3, 0).unwrap();
    assert!(w.player_respawn());
    assert_eq!(w.combatants.len(), 1);
    assert_eq!(w.combatants[0].tier, Tier::Player);
    assert_eq!(w.combatants[0].health, Health { current: 1500, max: 1500 });
    assert_eq!(w.combatants[0].position, Pos::new(0, 0));
    assert!(w.bullets.is_empty());
    assert!(w.pickups.is_empty());
    assert!(!w.player_respawn());
    assert_eq!(w.combatants.len(), 1);
}

#[test]
fn scenario_spawn_roll_tiers() {
    let mut w = World::new();
    w.spawn_enemy(45, Pos::new(1, 2));
    w.spawn_enemy(10, Pos::new(3, 4));
    w.spawn_enemy(30, Pos::new(3, 4));
    let normal = &w.combatants[0];
    assert_eq!(normal.tier, Tier::Normal);
    assert_eq!(normal.health, Health { current: 1000, max: 1000 });
    assert_eq!(normal.weapon.bullets, 1);
    let elite = &w.combatants[1];
    assert_eq!(elite.tier, Tier::Elite);
    assert_eq!(elite.health, Health { current: 3000, max: 3000 });
    assert_eq!(elite.weapon.bullets, 3);
    assert_eq!(w.combatants[2].tier, Tier::Elite);
    assert_ne!(w.combatants[0].id, w.combatants[1].id);
}

#[test]
fn scenario_difficulty_decay_three_times() {
    let mut g = GameDef::default();
    let mut t = Timer::new(4000);
    for _ in 0..3 {
        assert!(update_spawn_interval(&mut g, &mut t, 4000));
    }
    assert_eq!(g.spawn_interval, 3645);
    assert!(!update_spawn_interval(&mut g, &mut t, 3999));
    assert_eq!(g.spawn_interval, 3645);
}

#[test]
fn decay_is_strictly_decreasing_down_to_one_millisecond() {
    let mut g = GameDef { spawn_interval: 12, initial_spawn_interval: 12, spawn_interval_multiplier_per_second: 900 };
    g.decay();
    assert_eq!(g.spawn_interval, 10);
    let mut g = GameDef { spawn_interval: 2, initial_spawn_interval: 2, spawn_interval_multiplier_per_second: 900 };
    g.decay();
    assert_eq!(g.spawn_interval, 1);
    g.decay();
    assert_eq!(g.spawn_interval, 1);
    let mut g = GameDef::default();
    let mut last = g.spawn_interval;
    for _ in 0..200 {
        g.decay();
        assert!(g.spawn_interval >= 1);
        assert!(g.spawn_interval < last || last == 1);
        last = g.spawn_interval;
    }
    assert_eq!(g.spawn_interval, 1);
}

#[test]
fn scenario_fire_quota() {
    assert_eq!(fire_quota(70_000), 2);
    assert_eq!(fire_quota(1_000_000), 25);
    assert_eq!(fire_quota(0), 1);
    assert_eq!(fire_quota(69_999), 1);
}

#[test]
fn timer_fires_once_per_crossing() {
    let mut t = Timer::new(1000);
    assert!(!t.tick(600));
    assert!(t.tick(600));
    assert_eq!(t.elapsed, 200);
    assert!(t.tick(2900));
    assert_eq!(t.elapsed, 100);
    let mut z = Timer::new(0);
    assert!(z.tick(0));
}

#[test]
fn ai_move_targets_points_on_radius_200() {
    let mut w = world_with(vec![
        combatant(1, Tier::Player, 1500, 1500, Pos::new(10, -20)),
        combatant(2, Tier::Normal, 1000, 1000, Pos::new(300, 0)),
        combatant(3, Tier::Elite, 3000, 3000, Pos::new(-300, 0)),
    ]);
    assert!(w.ai_move());
    assert_eq!(w.combatants[0].target, None);
    for c in &w.combatants[1..] {
        let t = c.target.unwrap();
        let (dx, dy) = ((t.x - 10) as i64, (t.y + 20) as i64);
        assert_eq!(dx * dx + dy * dy, 200 * 200);
    }
    let mut empty = world_with(vec![combatant(2, Tier::Normal, 1000, 1000, Pos::new(0, 0))]);
    assert!(!empty.ai_move());
    assert_eq!(empty.combatants[0].target, None);
}

#[test]
fn ai_fire_respects_quota_and_cooldowns() {
    let mut cs = vec![combatant(1, Tier::Player, 1500, 1500, Pos::new(0, 0))];
    for k in 0..5u64 {
        cs.push(combatant(10 + k, Tier::Normal, 1000, 1000, Pos::new(300, 40 * k as i32)));
    }
    cs[3].cooldown = Cooldown { start_time: 900, duration: 2000 };
    let mut w = world_with(cs);
    let ready = w.ready_attackers(1000);
    assert_eq!(ready, vec![1, 2, 4, 5]);
    assert!(w.ai_fire(1000));
    assert_eq!(w.bullets.len(), 1);
    let fired: Vec<_> = w.combatants.iter().filter(|c| c.cooldown.start_time == 1000).collect();
    assert_eq!(fired.len(), 1);
    assert_ne!(fired[0].id, 12);
    assert!(w.bullets.iter().all(|b| b.owner.entity == fired[0].id));
}

#[test]
fn ai_fire_without_player_does_nothing() {
    let mut w = world_with(vec![combatant(2, Tier::Normal, 1000, 1000, Pos::new(0, 0))]);
    assert!(!w.ai_fire(100_000));
    assert!(w.bullets.is_empty());
}

#[test]
fn fire_volley_aims_near_player() {
    let mut w = world_with(vec![
        combatant(1, Tier::Player, 1500, 1500, Pos::new(0, 0)),
        combatant(2, Tier::Elite, 3000, 3000, Pos::new(100, 0)),
    ]);
    w.combatants[1].weapon.bullets = 3;
    w.fire_volley(&vec![1], &vec![0], Pos::new(0, 0), 1000);
    assert_eq!(w.bullets.len(), 3);
    assert_eq!(w.bullets[0].heading.aim, Vec2i { x: -50, y: 0 });
    assert_eq!(w.bullets[2].heading.turn, 2);
}

#[test]
fn random_rolls_stay_in_range_and_vary() {
    let mut w = World::new();
    let mut g = GameDef::default();
    g.spawn_interval = 1;
    let mut t = Timer::new(0);
    for _ in 0..200 {
        assert!(w.spawn_ais(&g, &mut t, 5));
    }
    assert!(w.combatants.iter().all(|c| c.position.x >= -460 && c.position.x < 460));
    assert!(w.combatants.iter().all(|c| c.position.y >= -260 && c.position.y < 260));
    assert!(w.combatants.iter().any(|c| c.tier == Tier::Elite));
    assert!(w.combatants.iter().any(|c| c.tier == Tier::Normal));
    assert!(w.combatants.iter().any(|c| c.position != w.combatants[0].position));
    for _ in 0..100 {
        let r = arena_core::chance::roll_percent();
        assert!((1..=100).contains(&r));
    }
}

#[test]
fn game_tick_respawns_then_spawns_enemy() {
    let mut g = Game::new();
    let report = g.begin_tick(16, PlayerInput { fire: false, aim: Pos::new(0, 0) });
    assert!(report.back_to_menu);
    assert_eq!(g.world.combatants.len(), 1);
    g.end_tick(16);
    assert_eq!(g.world.combatants.len(), 2);
    assert_eq!(g.spawn_timer.duration, 5000);
    let report = g.begin_tick(600, PlayerInput { fire: true, aim: Pos::new(50, 0) });
    assert!(!report.back_to_menu);
    assert!(report.player_fired);
    assert_eq!(g.world.bullets.len(), 1);
}

#[test]
fn ratios_for_presentation() {
    assert_eq!(Health { current: 750, max: 1500 }.ratio_permille(), 500);
    let c = Cooldown { start_time: 1000, duration: 2000 };
    assert_eq!(c.ratio_permille(2000), 500);
    assert_eq!(c.ratio_permille(5000), 1000);
    assert_eq!(c.ratio_permille(500), 0);
}

#[test]
fn bullets_expire_after_their_lifetime() {
    let mut w = World::new();
    let c = Cooldown { start_time: 0, duration: 0 };
    w.bullets = spawn_bullet(1, Pos::new(0, 0), Vec2i { x: 1, y: 0 }, TeamIdx(0), &c, 1, 2, 0).unwrap();
    w.expire_bullets(1500);
    assert_eq!(w.bullets.len(), 2);
    assert_eq!(w.bullets[0].ttl_ms, 500);
    w.expire_bullets(500);
    assert!(w.bullets.is_empty());
}

#[test]
fn fire_selection_is_shuffled() {
    let mut shooters = std::collections::HashSet::new();
    for _ in 0..40 {
        let mut cs = vec![combatant(1, Tier::Player, 1500, 1500, Pos::new(0, 0))];
        for k in 0..10u64 {
            cs.push(combatant(10 + k, Tier::Normal, 1000, 1000, Pos::new(300, 30 * k as i32)));
        }
        let mut w = world_with(cs);
        assert!(w.ai_fire(1000));
        let fired: Vec<u64> = w
            .combatants
            .iter()
            .filter(|c| c.cooldown.start_time == 1000)
            .map(|c| c.id)
            .collect();
        assert_eq!(fired.len(), 1);
        shooters.insert(fired[0]);
    }
    assert!(shooters.len() > 1);
}

#[test]
fn mouse_move_sets_and_clears_player_target() {
    let mut w = world_with(vec![
        combatant(1, Tier::Player, 1500, 1500, Pos::new(0, 0)),
        combatant(2, Tier::Normal, 1000, 1000, Pos::new(300, 0)),
    ]);
    w.handle_mouse_to_move(Some(Pos::new(40, -7)));
    assert_eq!(w.combatants[0].target, Some(Pos::new(40, -7)));
    assert_eq!(w.combatants[1].target, None);
    w.handle_mouse_to_move(None);
    assert_eq!(w.combatants[0].target, None);
}

#[test]
fn retargeting_happens_before_movement() {
    let mut g = Game::new();
    g.begin_tick(16, PlayerInput { fire: false, aim: Pos::new(0, 0) });
    g.end_tick(16);
    assert_eq!(g.world.combatants.len(), 2);
    assert_eq!(g.world.combatants[1].target, Some(Pos::new(200, 200)));
    g.begin_tick(2400, PlayerInput { fire: false, aim: Pos::new(0, 0) });
    let player = g.world.combatants[0].position;
    let t = g.world.combatants[1].target.unwrap();
    let (dx, dy) = (t.x as i64 - player.x as i64, t.y as i64 - player.y as i64);
    assert_eq!(dx * dx + dy * dy, 200 * 200);
    g.end_tick(2400);
    assert_eq!(g.retarget_timer.elapsed, (16 + 2400) % 2360);
}
