//! The big-fish controllers, the player animation controllers and the
//! full tick composition, on concrete scenarios.

use fishies::animation::timer_new;
use fishies::big_fish::{add_dead_things_to_menu, create_depth, eat_dead_things,
    follow_attention_target, get_body_part, reset_animation, update_attention_target,
    AnimationState, AttentionTarget, BigFishRig, BodyPart, EatOutcome, HpEntity, START_DEPTH};
use fishies::components::{compose_transform, CollisionCircle, Energy, HitPoints, Lives,
    Originator, Transform2};
use fishies::input::{KeyState, PlayerKeys};
use fishies::player::{PlayerConfiguration, PlayerConfigurationBundle};
use fishies::player_animation::{animate_eyes, animate_swimming, apply_gait_pose,
    build_player_rig, gaze_target};
use fishies::projectiles::{HitOutcome, Projectile};
use fishies::sim::{new_game, tick};
use fishies::vec2::Vec2;

fn fresh_rig() -> BigFishRig {
    let t = Transform2 { pos: Vec2 { x: 0, y: 0 }, depth: 0, angle: 0, scale: 1_000 };
    let mut rig = BigFishRig {
        head: t,
        top_jaw: t,
        bottom_jaw: t,
        lure: t,
        right_fin: t,
        left_fin: t,
        right_fin_stretch: 1_000,
        left_fin_stretch: 1_000,
    };
    reset_animation(&mut rig);
    rig
}

fn keys_up() -> PlayerKeys {
    let up = KeyState { pressed: false, just_pressed: false, just_released: false };
    PlayerKeys { forward: up, left: up, right: up, shoot: up }
}

fn two_player_config() -> PlayerConfiguration {
    PlayerConfiguration(vec![
        Some(PlayerConfigurationBundle { hp: HitPoints(5), lives: Lives(3) }),
        Some(PlayerConfigurationBundle { hp: HitPoints(5), lives: Lives(3) }),
    ])
}

#[test]
fn queued_meal_owns_the_attention() {
    let target = update_attention_target(
        Some(Vec2 { x: 700_000, y: 300_000 }),
        &vec![HpEntity { hp: 5, pos: Vec2 { x: 1, y: 1 } }],
        5,
    );
    assert_eq!(target.pos, Vec2 { x: 700_000, y: 300_000 });
    assert_eq!(target.depth, -100);
}

#[test]
fn attention_follows_the_weakest_centroid() {
    let entities = vec![
        HpEntity { hp: 2, pos: Vec2 { x: 100_000, y: 200_000 } },
        HpEntity { hp: 5, pos: Vec2 { x: 900_000, y: 900_000 } },
        HpEntity { hp: 2, pos: Vec2 { x: 300_000, y: 400_000 } },
    ];
    let target = update_attention_target(None, &entities, 5);
    assert_eq!(target.pos, Vec2 { x: 200_000, y: 300_000 });
    assert_eq!(target.depth, START_DEPTH * 2 / 5);
}

#[test]
fn empty_roster_parks_the_attention_in_the_corner() {
    let target = update_attention_target(None, &vec![], 5);
    assert_eq!(target.pos, Vec2 { x: 1_920_000, y: 1_080_000 });
    assert_eq!(target.depth, START_DEPTH);
}

#[test]
fn pursuit_moves_a_fixed_share_and_sets_swim_speed() {
    let mut pos = Vec2 { x: 960_000, y: 540_000 };
    let mut depth = START_DEPTH;
    let mut anim = AnimationState::default();
    let target = AttentionTarget { pos: Vec2 { x: 960_000, y: 540_000 }, depth: 0 };
    follow_attention_target(&mut pos, &mut depth, &mut anim, &target, false);
    assert_eq!(pos, Vec2 { x: 960_000, y: 541_500 });
    assert_eq!(depth, START_DEPTH + 150);
    assert_eq!(anim.swim_speed, 16_240);
}

#[test]
fn feeding_waits_without_a_queued_meal() {
    let mut anim = AnimationState::default();
    let mut rig = fresh_rig();
    let mut queue: Vec<u64> = vec![];
    let target = AttentionTarget { pos: Vec2 { x: 500_000, y: 500_000 }, depth: -100 };
    let outcome = eat_dead_things(
        &mut anim,
        &mut rig,
        &mut queue,
        Vec2 { x: 500_000, y: 700_000 },
        -100,
        &target,
        100,
    );
    assert_eq!(outcome, EatOutcome::Idle);
}

#[test]
fn feeding_bites_and_consumes_the_queued_meal() {
    let mut anim = AnimationState::default();
    let mut rig = fresh_rig();
    let mut queue: Vec<u64> = vec![3, 9];
    // the fish hovers exactly over the attention point
    let fish_pos = Vec2 { x: 500_000, y: 700_000 };
    let target = AttentionTarget { pos: Vec2 { x: 500_000, y: 500_000 }, depth: -100 };
    let outcome = eat_dead_things(&mut anim, &mut rig, &mut queue, fish_pos, -100, &target, 100);
    assert_eq!(outcome, EatOutcome::Chomping);
    // fifth of the bite: quadratic ease-out at 200 thousandths is 360
    assert_eq!(get_body_part(&rig, BodyPart::BottomJaw).pos.y, 30_000 - 21_600);
    assert_eq!(get_body_part(&rig, BodyPart::TopJaw).pos.y, -30_000 + 32_400);
    assert_eq!(queue, vec![3, 9]);
    // finish the bite: the first queued meal is consumed
    let mut rig2 = fresh_rig();
    let outcome2 = eat_dead_things(&mut anim, &mut rig2, &mut queue, fish_pos, -100, &target, 400);
    assert_eq!(outcome2, EatOutcome::Ate(3));
    assert_eq!(queue, vec![9]);
    assert_eq!(anim.chomping.elapsed_ms, 0);
}

#[test]
fn dead_entities_queue_in_order_of_death() {
    let mut queue: Vec<u64> = vec![1];
    add_dead_things_to_menu(&mut queue, &vec![4, 2]);
    assert_eq!(queue, vec![1, 4, 2]);
}

#[test]
fn depth_drives_fade_and_size() {
    let (alpha, scale) = create_depth(START_DEPTH);
    assert_eq!(alpha, 0);
    assert_eq!(scale, 600);
    let (alpha, scale) = create_depth(0);
    assert_eq!(alpha, 600);
    assert_eq!(scale, 1_000);
}

#[test]
fn gait_strength_scales_the_cycle() {
    let mut timer = timer_new(333, true);
    let pose = animate_swimming(&mut timer, Vec2 { x: 0, y: 0 }, 0, 100);
    // at rest the strength floor is 0.3: the cycle still advances
    assert_eq!(timer.elapsed_ms, 30);
    // phase 90 of the cycle: the head sways right, the tail opposes
    assert!(pose.head_x != 0 || pose.tail_x != 0 || pose.body_x != 0);
}

#[test]
fn gait_pose_lands_on_the_rig() {
    let mut rig = build_player_rig();
    let mut timer = timer_new(333, true);
    let pose = animate_swimming(&mut timer, Vec2 { x: 5_000, y: 0 }, 0, 50);
    apply_gait_pose(&mut rig, &pose);
    assert_eq!(rig.head.pos.x, pose.head_x);
    assert_eq!(rig.body.pos.x, pose.body_x);
    assert_eq!(rig.tail.pos.x, pose.tail_x);
    // the vertical placement of the parts never moves with the gait
    assert_eq!(rig.head.pos.y, 20_000);
    assert_eq!(rig.tail.pos.y, -105_000);
}

#[test]
fn gaze_picks_the_nearest_point_in_the_cone() {
    let pos = Vec2 { x: 500_000, y: 500_000 };
    // heading straight up: one candidate ahead, one behind, one ahead
    // but farther
    let candidates = vec![
        Vec2 { x: 500_000, y: 800_000 },
        Vec2 { x: 500_000, y: 200_000 },
        Vec2 { x: 510_000, y: 600_000 },
    ];
    let target = gaze_target(pos, 0, &candidates);
    assert_eq!(target, Some(Vec2 { x: 510_000, y: 600_000 }));
}

#[test]
fn nothing_in_the_cone_means_no_target() {
    let pos = Vec2 { x: 500_000, y: 500_000 };
    let candidates = vec![Vec2 { x: 500_000, y: 200_000 }];
    assert_eq!(gaze_target(pos, 0, &candidates), None);
}

#[test]
fn eyes_relax_toward_neutral() {
    let mut rig = build_player_rig();
    rig.right_eye.angle = 1_000;
    rig.left_eye.angle = 1_000;
    let root = Transform2 {
        pos: Vec2 { x: 500_000, y: 500_000 },
        depth: 1_000,
        angle: 0,
        scale: 400,
    };
    animate_eyes(&mut rig, &root, None);
    // a fifth of the way back toward zero
    assert_eq!(rig.right_eye.angle, 800);
    assert_eq!(rig.left_eye.angle, 800);
}

#[test]
fn a_round_starts_well_formed_and_stays_so() {
    let config = two_player_config();
    let mut g = new_game(&config);
    assert_eq!(g.players.len(), 2);
    assert_eq!(g.orbs.len(), 8);
    assert_eq!(g.players[0].hp.0, 5);
    let keys = vec![keys_up(), keys_up()];
    let p0 = g.players[0].transform.pos;
    for _ in 0..5 {
        let report = tick(&mut g, &keys, 16);
        assert_eq!(report.shield_events.len(), 2);
        assert_eq!(report.hits.len(), 0);
    }
    // no input, no motion: the players hold their seats
    assert_eq!(g.players[0].transform.pos, p0);
    assert_eq!(g.players[0].hp.0, 5);
    assert!(!g.players[0].dead);
}

#[test]
fn composed_frames_stack_depth_and_keep_unit_scale() {
    let root = Transform2 {
        pos: Vec2 { x: 500_000, y: 500_000 },
        depth: 1_000,
        angle: 0,
        scale: 400,
    };
    let part = Transform2 { pos: Vec2 { x: 0, y: 20_000 }, depth: 1_000, angle: 0, scale: 1_000 };
    let g = compose_transform(&root, &part);
    // unrotated root: the local offset is scaled by the root and added
    assert_eq!(g.pos, Vec2 { x: 500_000, y: 508_000 });
    assert_eq!(g.depth, 2_000);
    assert_eq!(g.angle, 0);
    assert_eq!(g.scale, 400);
}

#[test]
fn a_hit_reports_impact_and_attachment() {
    let config = two_player_config();
    let mut g = new_game(&config);
    // a spent shot of player 0 parked right on top of player 1
    let at = g.players[1].transform.pos;
    g.projectiles.push(Projectile {
        transform: Transform2 { pos: at, depth: 1_200, angle: 0, scale: 200 },
        vel: Vec2 { x: 0, y: 0 },
        circle: CollisionCircle { radius: 12_800 },
        originator: Originator(0),
    });
    let keys = vec![keys_up(), keys_up()];
    let report = tick(&mut g, &keys, 16);
    assert_eq!(report.hits.len(), 1);
    assert_eq!(report.hits[0].victim, 1);
    assert_eq!(report.hits[0].outcome, HitOutcome::Damaged);
    assert_eq!(report.hits[0].impact, at);
    assert!(report.hits[0].attachment.is_some());
    assert_eq!(g.players[1].hp.0, 4);
    assert_eq!(g.projectiles.len(), 0);
}

#[test]
fn a_shielded_hit_blocks_and_attaches_nothing() {
    let config = two_player_config();
    let mut g = new_game(&config);
    g.players[1].shielded = true;
    g.players[1].energy = Energy(10_000);
    let at = g.players[1].transform.pos;
    g.projectiles.push(Projectile {
        transform: Transform2 { pos: at, depth: 1_200, angle: 0, scale: 200 },
        vel: Vec2 { x: 0, y: 0 },
        circle: CollisionCircle { radius: 12_800 },
        originator: Originator(0),
    });
    let keys = vec![keys_up(), keys_up()];
    let report = tick(&mut g, &keys, 16);
    assert_eq!(report.hits.len(), 1);
    assert_eq!(report.hits[0].outcome, HitOutcome::Blocked);
    assert!(report.hits[0].attachment.is_none());
    assert_eq!(g.players[1].hp.0, 5);
}

#[test]
fn a_tick_turns_the_held_direction() {
    let config = two_player_config();
    let mut g = new_game(&config);
    let start_angle = g.players[0].transform.angle;
    let mut turn_keys = keys_up();
    turn_keys.right = KeyState { pressed: true, just_pressed: true, just_released: false };
    let keys = vec![turn_keys, keys_up()];
    tick(&mut g, &keys, 16);
    // one tick of right turn: angular acceleration -15, integrated into
    // the heading, then decayed by 20%
    assert_eq!(g.players[0].transform.angle, start_angle - 15);
    assert_eq!(g.players[0].ang_vel.0, -12);
    // the other player holds its heading
    assert_eq!(g.players[1].ang_vel.0, 0);
}

#[test]
fn a_tick_spends_energy_on_a_shot() {
    let config = two_player_config();
    let mut g = new_game(&config);
    g.players[0].energy = Energy(5_000);
    let mut shoot_keys = keys_up();
    shoot_keys.shoot = KeyState { pressed: true, just_pressed: true, just_released: false };
    let keys = vec![shoot_keys, keys_up()];
    let report = tick(&mut g, &keys, 16);
    assert_eq!(report.shield_events.len(), 2);
    assert_eq!(g.players[0].energy.0, 4_000);
    assert_eq!(g.projectiles.len(), 1);
    assert_eq!(g.projectiles[0].originator.0, 0);
}
