//! Fixed-point arithmetic, vectors, timers and the piecewise animation
//! evaluator, on concrete values.

use fishies::animation::{ease, timer_new, Animation, AnimationStage, Easing, PhaseTimer};
use fishies::fp::{atan2_fp, cos_fp, div_fp, isqrt_i64, sin_fp, wrap_angle, HALF_PI_FP, PI_FP,
    SCALE, TAU_FP};
use fishies::vec2::{vadd, vdist, vdist2, vlen, vscale, vsub, Vec2};

#[test]
fn integer_square_roots_are_exact_floors() {
    assert_eq!(isqrt_i64(0), 0);
    assert_eq!(isqrt_i64(1), 1);
    assert_eq!(isqrt_i64(2), 1);
    assert_eq!(isqrt_i64(3), 1);
    assert_eq!(isqrt_i64(4), 2);
    assert_eq!(isqrt_i64(144), 12);
    assert_eq!(isqrt_i64(160_000_000), 12_649);
    assert_eq!(isqrt_i64(i64::MAX), 3_037_000_499);
}

#[test]
fn truncating_division_rounds_toward_zero() {
    assert_eq!(div_fp(7, 2), 3);
    assert_eq!(div_fp(-7, 2), -3);
    assert_eq!(div_fp(0, 5), 0);
    assert_eq!(div_fp(-1, 1000), 0);
}

#[test]
fn sine_hits_the_cardinal_points() {
    assert_eq!(sin_fp(0), 0);
    assert_eq!(sin_fp(HALF_PI_FP), SCALE);
    assert_eq!(sin_fp(PI_FP), 0);
    assert_eq!(sin_fp(PI_FP + HALF_PI_FP), -SCALE);
    assert_eq!(cos_fp(0), SCALE);
    assert_eq!(cos_fp(HALF_PI_FP), 0);
    assert_eq!(sin_fp(785), 705);
}

#[test]
fn angles_wrap_into_one_turn() {
    assert_eq!(wrap_angle(-1), TAU_FP - 1);
    assert_eq!(wrap_angle(TAU_FP), 0);
    assert_eq!(wrap_angle(TAU_FP + 5), 5);
    assert_eq!(wrap_angle(100), 100);
}

#[test]
fn arctangent_octants() {
    assert_eq!(atan2_fp(0, 1_000), 0);
    assert_eq!(atan2_fp(1_000, 0), HALF_PI_FP);
    assert_eq!(atan2_fp(0, -1_000), PI_FP);
    assert_eq!(atan2_fp(-1_000, 0), -HALF_PI_FP);
    assert_eq!(atan2_fp(1_000, 1_000), 785);
    assert_eq!(atan2_fp(0, 0), 0);
}

#[test]
fn vector_lengths_and_distances() {
    let a = Vec2 { x: 3_000, y: 4_000 };
    assert_eq!(vlen(a), 5_000);
    let b = Vec2 { x: 0, y: 0 };
    assert_eq!(vdist(a, b), 5_000);
    assert_eq!(vdist2(a, b), 25_000_000);
    let s = vsub(a, b);
    assert_eq!(s.x, 3_000);
    let t = vadd(a, b);
    assert_eq!(t.y, 4_000);
    let h = vscale(a, 1, 2);
    assert_eq!(h.x, 1_500);
    assert_eq!(h.y, 2_000);
}

#[test]
fn easing_curves_hit_known_values() {
    assert_eq!(ease(Easing::Linear, 250), 250);
    assert_eq!(ease(Easing::EaseOutQuad, 500), 750);
    assert_eq!(ease(Easing::EaseOutQuad, 1_000), 1_000);
    assert_eq!(ease(Easing::EaseOutExpo, 900), 500);
    assert_eq!(ease(Easing::EaseOutExpo, 950), 250);
    assert_eq!(ease(Easing::EaseOutExpo, 1_000), 0);
}

#[test]
fn two_stage_animation_selects_by_first_match() {
    // A two-stage animation with windows [0.0, 0.9) and [0.9, 1.0]:
    // mid-progress runs the first stage only, late progress the second
    // only, and full progress runs nothing (upper bound exclusive).
    let anim = Animation::new(vec![
        AnimationStage::new(0, 900, Easing::Linear),
        AnimationStage::new(900, 1_000, Easing::Linear),
    ]);
    assert_eq!(anim.run(500), Some((0, 500)));
    assert_eq!(anim.run(950), Some((1, 950)));
    assert_eq!(anim.run(1_000), None);
}

#[test]
fn overlapping_stages_resolve_to_the_first() {
    let anim = Animation::new(vec![
        AnimationStage::new(0, 1_000, Easing::Linear),
        AnimationStage::new(0, 1_000, Easing::EaseOutQuad),
    ]);
    assert_eq!(anim.run(500), Some((0, 500)));
}

#[test]
fn gapped_stages_leave_the_gap_idle() {
    let anim = Animation::new(vec![
        AnimationStage::new(0, 300, Easing::Linear),
        AnimationStage::new(700, 1_000, Easing::Linear),
    ]);
    assert_eq!(anim.run(500), None);
}

#[test]
fn repeating_timer_wraps_and_reports_progress() {
    let mut t: PhaseTimer = timer_new(1_000, true);
    t.tick(500);
    assert_eq!(t.percent(), 500);
    t.tick(700);
    assert_eq!(t.elapsed_ms, 200);
    assert_eq!(t.percent(), 200);
}

#[test]
fn one_shot_timer_saturates_at_its_end() {
    let mut t: PhaseTimer = timer_new(500, false);
    t.tick(400);
    assert_eq!(t.percent(), 800);
    t.tick(400);
    assert_eq!(t.elapsed_ms, 500);
    assert_eq!(t.percent(), 1_000);
}
