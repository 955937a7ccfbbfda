//! The input model, the movement integrator, the collision solver and
//! the energy, shield and projectile systems, on concrete scenarios.

use fishies::collision::{handle_collision, pair_correction, wall_clamp, Body};
use fishies::components::{Energy, HitPoints, Lives, Transform2, Velocity};
use fishies::configuration::LOGICAL_WIDTH;
use fishies::energy_orbs::{change_player_size, player_pickup, respawn_orbs, spawn_starting_orbs,
    EnergyOrb};
use fishies::input::{gather_player_input, initial_actions, map_keys, ActionState, KeyMap,
    KeyState, PlayerKeys};
use fishies::movement::{handle_movement, move_players};
use fishies::player::{create_player, PlayerConfigurationBundle, PlayerState};
use fishies::projectiles::{apply_hit, attach_local_transform, find_hit, handle_shooting,
    move_projectile, nearest_part, HitOutcome, Target};
use fishies::shield::{handle_shielding, ShieldEvent};
use fishies::vec2::Vec2;

fn key(pressed: bool, just_pressed: bool, just_released: bool) -> KeyState {
    KeyState { pressed, just_pressed, just_released }
}

fn keys_up() -> PlayerKeys {
    let up = key(false, false, false);
    PlayerKeys { forward: up, left: up, right: up, shoot: up }
}

fn test_player() -> PlayerState {
    create_player(&PlayerConfigurationBundle { hp: HitPoints(5), lives: Lives(3) }, 0)
}

#[test]
fn both_turn_keys_canonicalize_to_shield() {
    let prev = initial_actions();
    let mut k = keys_up();
    k.left = key(true, true, false);
    k.right = key(true, true, false);
    let a = gather_player_input(&prev, &k);
    assert!(a.shield.pressed);
    assert!(a.shield.just_pressed);
    assert!(!a.turn_left.pressed);
    assert!(!a.turn_right.pressed);
}

#[test]
fn releasing_one_turn_key_restores_turning() {
    let prev = initial_actions();
    let mut k = keys_up();
    k.left = key(true, true, false);
    k.right = key(true, true, false);
    let shielded = gather_player_input(&prev, &k);
    k.right = key(false, false, true);
    let after = gather_player_input(&shielded, &k);
    assert!(!after.shield.pressed);
    assert!(after.shield.just_released);
    assert!(after.turn_left.pressed);
    assert!(after.turn_left.just_pressed);
    assert!(!after.turn_right.pressed);
}

#[test]
fn forward_and_shoot_follow_their_keys() {
    let prev = initial_actions();
    let mut k = keys_up();
    k.forward = key(true, true, false);
    k.shoot = key(true, true, false);
    let a = gather_player_input(&prev, &k);
    assert!(a.move_forward.pressed && a.move_forward.just_pressed);
    assert!(a.shoot.pressed && a.shoot.just_pressed);
    let b = gather_player_input(&a, &k);
    assert!(b.shoot.pressed && !b.shoot.just_pressed);
}

#[test]
fn key_bindings_pick_their_codes_from_the_frame() {
    let map = KeyMap { forward: 17, left: 30, right: 32, shoot: 31 };
    let frame = vec![
        (30u32, key(true, true, false)),
        (99u32, key(true, false, false)),
        (31u32, key(false, false, true)),
    ];
    let keys = map_keys(&map, &frame);
    assert!(keys.left.pressed && keys.left.just_pressed);
    assert!(!keys.forward.pressed);
    assert!(keys.shoot.just_released);
    assert!(!keys.right.pressed);
}

fn actions_with_forward() -> ActionState {
    let prev = initial_actions();
    let mut k = keys_up();
    k.forward = key(true, true, false);
    gather_player_input(&prev, &k)
}

#[test]
fn thrust_follows_the_heading() {
    let mut p = test_player();
    p.transform.angle = 0;
    let a = actions_with_forward();
    handle_movement(&mut p, &a);
    assert_eq!(p.vel.0, Vec2 { x: 0, y: 300 });
}

#[test]
fn shield_suppresses_forward_thrust() {
    // While Shielded is present, no forward thrust is added, whatever
    // the input.
    let mut p = test_player();
    p.shielded = true;
    let a = actions_with_forward();
    handle_movement(&mut p, &a);
    assert_eq!(p.vel.0, Vec2 { x: 0, y: 0 });
}

#[test]
fn integration_applies_drag_after_moving() {
    let mut p = test_player();
    p.transform.pos = Vec2 { x: 500_000, y: 500_000 };
    p.transform.angle = 0;
    p.vel = Velocity(Vec2 { x: 1_000, y: 0 });
    move_players(&mut p);
    assert_eq!(p.transform.pos.x, 501_000);
    assert_eq!(p.vel.0.x, 980);
}

#[test]
fn speed_is_clamped_to_the_limit() {
    let mut p = test_player();
    p.transform.pos = Vec2 { x: 500_000, y: 500_000 };
    p.vel = Velocity(Vec2 { x: 8_300, y: 0 });
    move_players(&mut p);
    // renormalized to 8_000, then dragged by 2%
    assert_eq!(p.transform.pos.x, 508_000);
    assert_eq!(p.vel.0.x, 7_840);
}

#[test]
fn wall_clamp_slides_along_the_boundary() {
    // A body over the east boundary lands one margin inside it and
    // loses the perpendicular velocity component.
    let b = Body {
        pos: Vec2 { x: 1_915_000, y: 100_000 },
        vel: Vec2 { x: 5_000, y: 2_000 },
        radius: 10_000,
    };
    let (c, hit) = wall_clamp(b);
    assert!(hit);
    assert_eq!(c.pos.x, LOGICAL_WIDTH - 10_000 - 100);
    assert_eq!(c.vel, Vec2 { x: 0, y: 2_000 });
}

#[test]
fn wall_collision_scenario() {
    // A player driving at the east wall: after resolution its center
    // sits at the boundary minus radius minus margin and the
    // perpendicular velocity component is zero.
    let mut bodies = vec![Body {
        pos: Vec2 { x: 1_915_000, y: 100_000 },
        vel: Vec2 { x: 5_000, y: 0 },
        radius: 10_000,
    }];
    let (converged, iterations) = handle_collision(&mut bodies);
    assert!(converged);
    assert!(iterations <= 10);
    assert_eq!(bodies[0].pos.x, 1_909_900);
    assert_eq!(bodies[0].pos.y, 100_000);
    assert_eq!(bodies[0].vel, Vec2 { x: 0, y: 0 });
}

#[test]
fn overlapping_pair_scenario() {
    // Two overlapping circles of radius 50 units, centered 40 units
    // apart, get pushed apart symmetrically until the center distance
    // clears the radius sum plus the margins.
    let a = Body { pos: Vec2 { x: 500_000, y: 500_000 }, vel: Vec2 { x: 0, y: 0 }, radius: 50_000 };
    let b = Body { pos: Vec2 { x: 540_000, y: 500_000 }, vel: Vec2 { x: 0, y: 0 }, radius: 50_000 };
    let mut bodies = vec![a, b];
    let (converged, iterations) = handle_collision(&mut bodies);
    assert!(converged);
    assert_eq!(iterations, 2);
    assert_eq!(bodies[0].pos, Vec2 { x: 469_900, y: 500_000 });
    assert_eq!(bodies[1].pos, Vec2 { x: 570_100, y: 500_000 });
    // symmetric displacement
    assert_eq!(500_000 - bodies[0].pos.x, bodies[1].pos.x - 540_000);
    // separated beyond the radius sum
    assert!(bodies[1].pos.x - bodies[0].pos.x >= 100_000);
}

#[test]
fn pair_overlap_never_deepens() {
    let a = Body { pos: Vec2 { x: 500_000, y: 500_000 }, vel: Vec2 { x: 0, y: 0 }, radius: 50_000 };
    let b = Body { pos: Vec2 { x: 524_000, y: 532_000 }, vel: Vec2 { x: 0, y: 0 }, radius: 50_000 };
    let (na, nb, hit) = pair_correction(a, b);
    assert!(hit);
    let before = (a.pos.x - b.pos.x).pow(2) + (a.pos.y - b.pos.y).pow(2);
    let after = (na.pos.x - nb.pos.x).pow(2) + (na.pos.y - nb.pos.y).pow(2);
    assert!(after >= before);
}

#[test]
fn coincident_centers_are_a_safe_degenerate_case() {
    let a = Body { pos: Vec2 { x: 500_000, y: 500_000 }, vel: Vec2 { x: 0, y: 0 }, radius: 50_000 };
    let (na, nb, hit) = pair_correction(a, a);
    assert!(hit);
    assert_eq!(na.pos, a.pos);
    assert_eq!(nb.pos, a.pos);
}

#[test]
fn orb_pickup_boosts_up_to_the_cap() {
    let orbs = spawn_starting_orbs();
    let mut orb = orbs[0];
    let mut p = test_player();
    p.transform.pos = orb.pos;
    p.energy = Energy(19_000);
    let mut players = vec![p];
    let got = player_pickup(&mut players, &mut orb);
    assert_eq!(got, Some(0));
    assert_eq!(players[0].energy.0, 20_000);
    assert_eq!(orb.respawn, Some(15_000));
}

#[test]
fn full_player_cannot_collect() {
    let orbs = spawn_starting_orbs();
    let mut orb = orbs[0];
    let mut p = test_player();
    p.transform.pos = orb.pos;
    p.energy = Energy(20_000);
    let mut players = vec![p];
    let got = player_pickup(&mut players, &mut orb);
    assert_eq!(got, None);
    assert_eq!(players[0].energy.0, 20_000);
    assert_eq!(orb.respawn, None);
}

#[test]
fn collected_orb_returns_when_clear() {
    let mut orb = EnergyOrb { pos: Vec2 { x: 192_000, y: 972_000 }, radius: 19_200, respawn: Some(1_000) };
    let players: Vec<PlayerState> = vec![];
    respawn_orbs(&mut orb, &players, 400);
    assert_eq!(orb.respawn, Some(600));
    respawn_orbs(&mut orb, &players, 600);
    assert_eq!(orb.respawn, None);
}

#[test]
fn blocked_orb_waits_for_the_squatter_to_leave() {
    let mut orb = EnergyOrb { pos: Vec2 { x: 192_000, y: 972_000 }, radius: 19_200, respawn: Some(100) };
    let mut p = test_player();
    p.transform.pos = orb.pos;
    let players = vec![p];
    respawn_orbs(&mut orb, &players, 500);
    assert_eq!(orb.respawn, Some(0));
}

#[test]
fn energy_growth_moves_scale_toward_its_target() {
    let mut p = test_player();
    assert_eq!(p.transform.scale, 400);
    change_player_size(&mut p);
    assert_eq!(p.transform.scale, 401);
    assert_eq!(p.circle.radius, 128 * 401);
}

#[test]
fn shield_raises_only_with_energy() {
    let prev = initial_actions();
    let mut k = keys_up();
    k.left = key(true, true, false);
    k.right = key(true, true, false);
    let a = gather_player_input(&prev, &k);

    let mut broke = test_player();
    broke.energy = Energy(0);
    assert_eq!(handle_shielding(&mut broke, &a, 16), ShieldEvent::Held);
    assert!(!broke.shielded);

    let mut charged = test_player();
    charged.energy = Energy(5_000);
    assert_eq!(handle_shielding(&mut charged, &a, 16), ShieldEvent::Raised);
    assert!(charged.shielded);
    assert_eq!(charged.energy.0, 5_000);
}

#[test]
fn holding_the_shield_drains_energy() {
    let mut p = test_player();
    p.energy = Energy(5_000);
    p.shielded = true;
    let mut a = initial_actions();
    a.shield.pressed = true;
    assert_eq!(handle_shielding(&mut p, &a, 1_000), ShieldEvent::Held);
    assert_eq!(p.energy.0, 3_000);
    assert!(p.shielded);
}

#[test]
fn exhausted_energy_drops_the_shield_at_zero() {
    let mut p = test_player();
    p.energy = Energy(1_000);
    p.shielded = true;
    let mut a = initial_actions();
    a.shield.pressed = true;
    assert_eq!(handle_shielding(&mut p, &a, 1_000), ShieldEvent::Dropped);
    assert_eq!(p.energy.0, 0);
    assert!(!p.shielded);
}

#[test]
fn releasing_the_gesture_drops_the_shield() {
    let mut p = test_player();
    p.energy = Energy(5_000);
    p.shielded = true;
    let mut a = initial_actions();
    a.shield.just_released = true;
    assert_eq!(handle_shielding(&mut p, &a, 16), ShieldEvent::Dropped);
    assert!(!p.shielded);
    assert_eq!(p.energy.0, 5_000);
}

fn actions_with_shoot() -> ActionState {
    let prev = initial_actions();
    let mut k = keys_up();
    k.shoot = key(true, true, false);
    gather_player_input(&prev, &k)
}

#[test]
fn shooting_costs_energy_and_launches_forward() {
    let mut p = test_player();
    p.transform.angle = 0;
    p.energy = Energy(1_000);
    p.vel = Velocity(Vec2 { x: 8_000, y: 0 });
    let a = actions_with_shoot();
    let pr = handle_shooting(&mut p, &a, 7).expect("shot expected");
    assert_eq!(p.energy.0, 0);
    assert_eq!(pr.originator.0, 7);
    assert_eq!(pr.transform.pos, p.transform.pos);
    assert_eq!(pr.circle.radius, 12_800);
    // forward at 12 units blended with half the velocity, renormalized
    assert_eq!(pr.vel, Vec2 { x: 3_794, y: 11_384 });
}

#[test]
fn shooting_is_gated_by_energy_and_shield() {
    let a = actions_with_shoot();
    let mut poor = test_player();
    poor.energy = Energy(999);
    assert!(handle_shooting(&mut poor, &a, 0).is_none());
    assert_eq!(poor.energy.0, 999);

    let mut shielded = test_player();
    shielded.energy = Energy(5_000);
    shielded.shielded = true;
    assert!(handle_shooting(&mut shielded, &a, 0).is_none());

    let mut held = test_player();
    held.energy = Energy(5_000);
    let idle = initial_actions();
    assert!(handle_shooting(&mut held, &idle, 0).is_none());
}

#[test]
fn projectiles_fly_straight_without_drag() {
    let mut p = test_player();
    p.energy = Energy(1_000);
    p.transform.angle = 0;
    let a = actions_with_shoot();
    let mut pr = handle_shooting(&mut p, &a, 0).expect("shot expected");
    let v = pr.vel;
    let start = pr.transform.pos;
    move_projectile(&mut pr);
    move_projectile(&mut pr);
    assert_eq!(pr.vel, v);
    assert_eq!(pr.transform.pos.x, start.x + 2 * v.x);
    assert_eq!(pr.transform.pos.y, start.y + 2 * v.y);
}

#[test]
fn projectile_never_hits_its_originator() {
    // Even sitting exactly on top of its shooter, a projectile
    // registers no hit against it.
    let mut p = test_player();
    p.energy = Energy(1_000);
    let a = actions_with_shoot();
    let pr = handle_shooting(&mut p, &a, 42).expect("shot expected");
    let targets = vec![Target { id: 42, pos: pr.transform.pos, radius: 1_000_000 }];
    assert_eq!(find_hit(&pr, &targets), None);
}

#[test]
fn hit_test_picks_the_deepest_interpenetration() {
    let mut p = test_player();
    p.energy = Energy(1_000);
    let a = actions_with_shoot();
    let pr = handle_shooting(&mut p, &a, 42).expect("shot expected");
    let at = pr.transform.pos;
    let targets = vec![
        Target { id: 1, pos: Vec2 { x: at.x + 40_000, y: at.y }, radius: 50_000 },
        Target { id: 2, pos: Vec2 { x: at.x + 10_000, y: at.y }, radius: 50_000 },
        Target { id: 3, pos: Vec2 { x: at.x + 900_000, y: at.y }, radius: 50_000 },
    ];
    assert_eq!(find_hit(&pr, &targets), Some(1));
}

#[test]
fn far_projectile_hits_nothing() {
    let mut p = test_player();
    p.energy = Energy(1_000);
    let a = actions_with_shoot();
    let pr = handle_shooting(&mut p, &a, 42).expect("shot expected");
    let at = pr.transform.pos;
    let targets = vec![Target { id: 1, pos: Vec2 { x: at.x + 900_000, y: at.y }, radius: 50_000 }];
    assert_eq!(find_hit(&pr, &targets), None);
}

#[test]
fn shield_blocks_all_damage() {
    // While Shielded is present, no damage is applied.
    let mut p = test_player();
    p.shielded = true;
    let before = p;
    assert_eq!(apply_hit(&mut p), HitOutcome::Blocked);
    assert_eq!(p, before);
}

#[test]
fn five_hits_kill_exactly_on_the_fifth() {
    // A five-hit-point player takes five unshielded hits: Dead is
    // asserted exactly after the fifth, never before, and hit points
    // fall by exactly one per hit, never below zero.
    let mut p = test_player();
    assert_eq!(p.hp.0, 5);
    for i in 1..=5u32 {
        let outcome = apply_hit(&mut p);
        assert_eq!(p.hp.0, 5 - i);
        if i < 5 {
            assert_eq!(outcome, HitOutcome::Damaged);
            assert!(!p.dead);
        } else {
            assert_eq!(outcome, HitOutcome::Killed);
            assert!(p.dead);
        }
    }
    // A further hit cannot push hit points below zero or re-kill.
    let outcome = apply_hit(&mut p);
    assert_eq!(outcome, HitOutcome::Damaged);
    assert_eq!(p.hp.0, 0);
    assert!(p.dead);
}

#[test]
fn nearest_rig_part_wins_the_attachment() {
    let parts = vec![
        Vec2 { x: 0, y: 20_000 },
        Vec2 { x: 0, y: -60_000 },
        Vec2 { x: 0, y: -105_000 },
    ];
    let impact = Vec2 { x: 5_000, y: -50_000 };
    assert_eq!(nearest_part(&parts, impact), Some(1));
    assert_eq!(nearest_part(&vec![], impact), None);
}

#[test]
fn attachment_recomputes_the_local_frame() {
    let parent = Transform2 {
        pos: Vec2 { x: 100_000, y: 100_000 },
        depth: 1_000,
        angle: 0,
        scale: 1_000,
    };
    let proj = Transform2 {
        pos: Vec2 { x: 110_000, y: 100_000 },
        depth: 1_200,
        angle: 0,
        scale: 200,
    };
    let local = attach_local_transform(&proj, &parent);
    // unrotated, unscaled parent: the offset shrinks by the 0.8 wound
    // pull, the depth lands one layer above, the scale is relative
    assert_eq!(local.pos, Vec2 { x: 8_000, y: 0 });
    assert_eq!(local.depth, 160 + 3_000);
    assert_eq!(local.angle, 0);
    assert_eq!(local.scale, 200);
}
