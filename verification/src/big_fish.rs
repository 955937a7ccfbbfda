//! The big background fish: cyclic breathing, bobbing and swimming
//! motions on its rig, an attention target that tracks the weakest
//! combatants or the next queued meal, proportional pursuit of that
//! target, and the two-stage jaw-snap feeding sequence that consumes
//! queued dead entities.

use vstd::prelude::*;

use crate::animation::{timer_ticked, timer_wf, Animation, AnimationStage, Easing, PhaseTimer};
use crate::components::Transform2;
use crate::configuration::{LOGICAL_HEIGHT, LOGICAL_WIDTH};
use crate::fp::{div_fp, isqrt_i64, sin_fp, sin_fp_spec, sq, sqrt_floor, tdiv, wrap_angle,
    wrap_angle_spec, SCALE, TAU_FP};
use crate::vec2::{absi, in_box, lemma_tdiv_le, lemma_tdiv_sign, Vec2};

verus! {

/// Depth the fish rests at, in thousandths of a world unit.
pub const START_DEPTH: i64 = -20_000;

/// How far above the attention point the fish aims, in thousandths of a
/// world unit.
pub const ATTENTION_OFFSET: i64 = 200_000;

/// Divisor carrying world lengths into fish space: the smaller logical
/// dimension.
pub const FISH_SPACE_DIV: i64 = 1_080_000;

/// Divisor carrying depth differences into fish space: the magnitude of
/// the resting depth.
pub const FISH_DEPTH_DIV: i64 = 20_000;

/// The rigged sub-parts of the big fish; exactly one of each exists.
#[derive(Clone, Copy, Debug, PartialEq, Eq, Structural)]
pub enum BodyPart {
    Head,
    TopJaw,
    BottomJaw,
    Lure,
    RightFin,
    LeftFin,
}

/// The big fish's rig: one local transform per part, plus the fins'
/// horizontal stretch (their swim flutter squashes them sideways).
#[derive(Clone, Copy, Debug, PartialEq, Eq, Structural)]
pub struct BigFishRig {
    pub head: Transform2,
    pub top_jaw: Transform2,
    pub bottom_jaw: Transform2,
    pub lure: Transform2,
    pub right_fin: Transform2,
    pub left_fin: Transform2,
    pub right_fin_stretch: i64,
    pub left_fin_stretch: i64,
}

/// Read one part's local transform by tag.
pub fn get_body_part(rig: &BigFishRig, part: BodyPart) -> (r: Transform2)
    ensures
        r == match part {
            BodyPart::Head => rig.head,
            BodyPart::TopJaw => rig.top_jaw,
            BodyPart::BottomJaw => rig.bottom_jaw,
            BodyPart::Lure => rig.lure,
            BodyPart::RightFin => rig.right_fin,
            BodyPart::LeftFin => rig.left_fin,
        },
{
    match part {
        BodyPart::Head => rig.head,
        BodyPart::TopJaw => rig.top_jaw,
        BodyPart::BottomJaw => rig.bottom_jaw,
        BodyPart::Lure => rig.lure,
        BodyPart::RightFin => rig.right_fin,
        BodyPart::LeftFin => rig.left_fin,
    }
}

/// The rig pose every tick starts from: the animated fields are written
/// back to their base values before the controllers add this tick's
/// offsets.
pub fn reset_animation(rig: &mut BigFishRig)
    ensures
        final(rig).head.pos == (Vec2 { x: 0, y: -100_000i64 }),
        final(rig).top_jaw.pos == (Vec2 { x: 0, y: -30_000i64 }),
        final(rig).top_jaw.depth == 2_000,
        final(rig).bottom_jaw.pos == (Vec2 { x: 0, y: 30_000i64 }),
        final(rig).bottom_jaw.depth == 1_500,
        final(rig).lure.angle == 0,
        final(rig).right_fin_stretch == 1_000,
        final(rig).left_fin_stretch == 1_000,
        final(rig).head.angle == old(rig).head.angle,
        final(rig).head.scale == old(rig).head.scale,
        final(rig).head.depth == old(rig).head.depth,
        final(rig).top_jaw.angle == old(rig).top_jaw.angle,
        final(rig).top_jaw.scale == old(rig).top_jaw.scale,
        final(rig).bottom_jaw.angle == old(rig).bottom_jaw.angle,
        final(rig).bottom_jaw.scale == old(rig).bottom_jaw.scale,
        final(rig).lure.pos == old(rig).lure.pos,
        final(rig).lure.depth == old(rig).lure.depth,
        final(rig).lure.scale == old(rig).lure.scale,
        final(rig).right_fin == old(rig).right_fin,
        final(rig).left_fin == old(rig).left_fin,
{
    rig.head.pos = Vec2 { x: 0, y: -100_000 };
    rig.top_jaw.pos = Vec2 { x: 0, y: -30_000 };
    rig.top_jaw.depth = 2_000;
    rig.bottom_jaw.pos = Vec2 { x: 0, y: 30_000 };
    rig.bottom_jaw.depth = 1_500;
    rig.lure.angle = 0;
    rig.right_fin_stretch = 1_000;
    rig.left_fin_stretch = 1_000;
}

/// The rig pose the big fish is built with: jaws around the head, the
/// lure and fins at rest.
pub open spec fn base_fish_rig() -> BigFishRig {
    BigFishRig {
        head: Transform2 { pos: Vec2 { x: 0, y: -100_000i64 }, depth: 0, angle: 0, scale: 1_000 },
        top_jaw: Transform2 {
            pos: Vec2 { x: 0, y: -30_000i64 },
            depth: 2_000,
            angle: 0,
            scale: 1_000,
        },
        bottom_jaw: Transform2 {
            pos: Vec2 { x: 0, y: 30_000 },
            depth: 1_500,
            angle: 0,
            scale: 1_000,
        },
        lure: Transform2 { pos: Vec2 { x: 0, y: 0 }, depth: 0, angle: 0, scale: 1_000 },
        right_fin: Transform2 { pos: Vec2 { x: 0, y: 0 }, depth: 0, angle: 0, scale: 1_000 },
        left_fin: Transform2 { pos: Vec2 { x: 0, y: 0 }, depth: 0, angle: 0, scale: 1_000 },
        right_fin_stretch: 1_000,
        left_fin_stretch: 1_000,
    }
}

/// Build the big fish's rig for a round.
pub fn build_fish_rig() -> (r: BigFishRig)
    ensures
        r == base_fish_rig(),
{
    BigFishRig {
        head: Transform2 { pos: Vec2 { x: 0, y: -100_000 }, depth: 0, angle: 0, scale: 1_000 },
        top_jaw: Transform2 {
            pos: Vec2 { x: 0, y: -30_000 },
            depth: 2_000,
            angle: 0,
            scale: 1_000,
        },
        bottom_jaw: Transform2 {
            pos: Vec2 { x: 0, y: 30_000 },
            depth: 1_500,
            angle: 0,
            scale: 1_000,
        },
        lure: Transform2 { pos: Vec2 { x: 0, y: 0 }, depth: 0, angle: 0, scale: 1_000 },
        right_fin: Transform2 { pos: Vec2 { x: 0, y: 0 }, depth: 0, angle: 0, scale: 1_000 },
        left_fin: Transform2 { pos: Vec2 { x: 0, y: 0 }, depth: 0, angle: 0, scale: 1_000 },
        right_fin_stretch: 1_000,
        left_fin_stretch: 1_000,
    }
}

/// The named phase timers of the big fish plus the derived swim speed
/// multiplier.
pub struct AnimationState {
    pub bobbing: PhaseTimer,
    pub breathing: PhaseTimer,
    pub swimming: PhaseTimer,
    pub swim_speed: i64,
    pub chomping: PhaseTimer,
}

pub open spec fn animation_state_wf(s: AnimationState) -> bool {
    &&& timer_wf(s.bobbing) && s.bobbing.repeating
    &&& timer_wf(s.breathing) && s.breathing.repeating
    &&& timer_wf(s.swimming) && s.swimming.repeating
    &&& timer_wf(s.chomping) && !s.chomping.repeating
    &&& SCALE <= s.swim_speed <= 2_000_000
}

/// The state a round starts with: four-second bobbing, three-second
/// breathing and five-second swimming cycles, a half-second one-shot
/// bite, and unit swim speed.
pub open spec fn initial_animation_state() -> AnimationState {
    AnimationState {
        bobbing: PhaseTimer { elapsed_ms: 0, duration_ms: 4_000, repeating: true },
        breathing: PhaseTimer { elapsed_ms: 0, duration_ms: 3_000, repeating: true },
        swimming: PhaseTimer { elapsed_ms: 0, duration_ms: 5_000, repeating: true },
        swim_speed: SCALE,
        chomping: PhaseTimer { elapsed_ms: 0, duration_ms: 500, repeating: false },
    }
}

impl Default for AnimationState {
    fn default() -> (r: AnimationState)
        ensures
            r == initial_animation_state(),
            animation_state_wf(r),
    {
        AnimationState {
            bobbing: PhaseTimer { elapsed_ms: 0, duration_ms: 4_000, repeating: true },
            breathing: PhaseTimer { elapsed_ms: 0, duration_ms: 3_000, repeating: true },
            swimming: PhaseTimer { elapsed_ms: 0, duration_ms: 5_000, repeating: true },
            swim_speed: SCALE,
            chomping: PhaseTimer { elapsed_ms: 0, duration_ms: 500, repeating: false },
        }
    }
}

/// A full turn's worth of phase for a cycle progress value, plus an
/// offset, wrapped into one turn.
pub open spec fn cycle_arg(t: int, phase_off: int) -> int {
    wrap_angle_spec(tdiv(TAU_FP as int * t, SCALE as int) + phase_off)
}

fn cycle_phase(t: i64, phase_off: i64) -> (r: i64)
    requires
        0 <= t < SCALE,
        -TAU_FP < phase_off < TAU_FP,
    ensures
        r == cycle_arg(t as int, phase_off as int),
        0 <= r < TAU_FP,
{
    proof {
        lemma_tdiv_le(TAU_FP as int * t as int, SCALE as int, TAU_FP as int);
        lemma_tdiv_sign(TAU_FP as int * t as int, SCALE as int);
    }
    wrap_angle(div_fp(TAU_FP * t, SCALE) + phase_off)
}

/// A breathing jaw offset: the amplitude plus an amplitude-scaled sine,
/// so the jaw rests at twice the amplitude at the cycle peak and at
/// zero at the trough.
pub open spec fn breathe_offset(t: int, amp: int) -> int {
    amp + tdiv(sin_fp_spec(cycle_arg(t, 0)) * amp, SCALE as int)
}

fn breathe_offset_exec(t: i64, amp: i64) -> (r: i64)
    requires
        0 <= t < SCALE,
        -10_000 <= amp <= 10_000,
    ensures
        r == breathe_offset(t as int, amp as int),
        -20_000 <= r <= 20_000,
{
    let arg = cycle_phase(t, 0);
    let sn = sin_fp(arg);
    proof {
        assert(-10_000_000 <= sn as int * amp as int <= 10_000_000) by (nonlinear_arith)
            requires
                -1_000 <= sn <= 1_000,
                -10_000 <= amp <= 10_000,
        ;
        lemma_tdiv_le(sn as int * amp as int, SCALE as int, 10_000);
    }
    amp + div_fp(sn * amp, SCALE)
}

/// Advance the breathing cycle and nudge both jaws: the bottom jaw
/// swings five units down, the top jaw two and a half up, each through
/// a single full-window linear stage.
pub fn breathe(state: &mut AnimationState, rig: &mut BigFishRig, dt_ms: i64)
    requires
        animation_state_wf(*old(state)),
        0 <= dt_ms <= 100_000,
        -1_000_000 <= old(rig).bottom_jaw.pos.y <= 1_000_000,
        -1_000_000 <= old(rig).top_jaw.pos.y <= 1_000_000,
    ensures
        final(state).breathing == timer_ticked(old(state).breathing, dt_ms as int),
        final(state).bobbing == old(state).bobbing,
        final(state).swimming == old(state).swimming,
        final(state).chomping == old(state).chomping,
        final(state).swim_speed == old(state).swim_speed,
        animation_state_wf(*final(state)),
        ({
            let t = final(state).breathing.percent_spec();
            &&& final(rig).bottom_jaw.pos.y == old(rig).bottom_jaw.pos.y + breathe_offset(
                t,
                -5_000,
            )
            &&& final(rig).top_jaw.pos.y == old(rig).top_jaw.pos.y + breathe_offset(t, 2_500)
        }),
        old(rig).bottom_jaw.pos.y - 20_000 <= final(rig).bottom_jaw.pos.y <= old(
            rig,
        ).bottom_jaw.pos.y + 20_000,
        old(rig).top_jaw.pos.y - 20_000 <= final(rig).top_jaw.pos.y <= old(rig).top_jaw.pos.y
            + 20_000,
        final(rig).bottom_jaw.pos.x == old(rig).bottom_jaw.pos.x,
        final(rig).top_jaw.pos.x == old(rig).top_jaw.pos.x,
        final(rig).head == old(rig).head,
        final(rig).lure == old(rig).lure,
        final(rig).right_fin == old(rig).right_fin,
        final(rig).left_fin == old(rig).left_fin,
        final(rig).right_fin_stretch == old(rig).right_fin_stretch,
        final(rig).left_fin_stretch == old(rig).left_fin_stretch,
{
    state.breathing.tick(dt_ms);
    let t = state.breathing.percent();
    let stages = Animation::new(vec![AnimationStage::new(0, SCALE, Easing::Linear)]);
    let eased = match stages.run(t) {
        Some((_, e)) => e,
        None => {
            proof {
                assert(false);
            }
            0
        },
    };
    let bottom = breathe_offset_exec(eased, -5_000);
    let top = breathe_offset_exec(eased, 2_500);
    rig.bottom_jaw.pos.y = rig.bottom_jaw.pos.y + bottom;
    rig.top_jaw.pos.y = rig.top_jaw.pos.y + top;
}

/// Advance the bobbing cycle and nudge the head by a five-unit sine.
pub fn bob(state: &mut AnimationState, rig: &mut BigFishRig, dt_ms: i64)
    requires
        animation_state_wf(*old(state)),
        0 <= dt_ms <= 100_000,
        -1_000_000 <= old(rig).head.pos.y <= 1_000_000,
    ensures
        final(state).bobbing == timer_ticked(old(state).bobbing, dt_ms as int),
        final(state).breathing == old(state).breathing,
        final(state).swimming == old(state).swimming,
        final(state).chomping == old(state).chomping,
        final(state).swim_speed == old(state).swim_speed,
        animation_state_wf(*final(state)),
        ({
            let t = final(state).bobbing.percent_spec();
            final(rig).head.pos.y == old(rig).head.pos.y + tdiv(
                sin_fp_spec(cycle_arg(t, 0)) * 5_000,
                SCALE as int,
            )
        }),
        old(rig).head.pos.y - 5_000 <= final(rig).head.pos.y <= old(rig).head.pos.y + 5_000,
        final(rig).head.pos.x == old(rig).head.pos.x,
        final(rig).top_jaw == old(rig).top_jaw,
        final(rig).bottom_jaw == old(rig).bottom_jaw,
        final(rig).lure == old(rig).lure,
        final(rig).right_fin == old(rig).right_fin,
        final(rig).left_fin == old(rig).left_fin,
        final(rig).right_fin_stretch == old(rig).right_fin_stretch,
        final(rig).left_fin_stretch == old(rig).left_fin_stretch,
{
    state.bobbing.tick(dt_ms);
    let t = state.bobbing.percent();
    let stages = Animation::new(vec![AnimationStage::new(0, SCALE, Easing::Linear)]);
    let eased = match stages.run(t) {
        Some((_, e)) => e,
        None => {
            proof {
                assert(false);
            }
            0
        },
    };
    let arg = cycle_phase(eased, 0);
    let sn = sin_fp(arg);
    proof {
        lemma_tdiv_le(sn as int * 5_000, SCALE as int, 5_000);
    }
    rig.head.pos.y = rig.head.pos.y + div_fp(sn * 5_000, SCALE);
}

/// A swim-cycle lateral offset: a ten-unit sine at the given phase.
pub open spec fn swim_offset(t: int, phase_off: int) -> int {
    tdiv(sin_fp_spec(cycle_arg(t, phase_off)) * 10_000, SCALE as int)
}

/// A fin's stretch delta: a quarter-amplitude sine pulled down so the
/// fin only ever squashes, never stretches.
pub open spec fn fin_squash(t: int, phase_off: int) -> int {
    tdiv(sin_fp_spec(cycle_arg(t, phase_off)) * 250, SCALE as int) - 250
}

fn swim_offset_exec(t: i64, phase_off: i64) -> (r: i64)
    requires
        0 <= t < SCALE,
        -TAU_FP < phase_off < TAU_FP,
    ensures
        r == swim_offset(t as int, phase_off as int),
        -10_000 <= r <= 10_000,
{
    let sn = sin_fp(cycle_phase(t, phase_off));
    proof {
        lemma_tdiv_le(sn as int * 10_000, SCALE as int, 10_000);
    }
    div_fp(sn * 10_000, SCALE)
}

/// Advance the swim cycle at the current swim speed and sway the head
/// and both jaws sideways, squashing the fins in counter-phase.
pub fn swim(state: &mut AnimationState, rig: &mut BigFishRig, dt_ms: i64)
    requires
        animation_state_wf(*old(state)),
        0 <= dt_ms <= 50_000,
        -1_000_000 <= old(rig).head.pos.x <= 1_000_000,
        -1_000_000 <= old(rig).top_jaw.pos.x <= 1_000_000,
        -1_000_000 <= old(rig).bottom_jaw.pos.x <= 1_000_000,
        -1_000_000 <= old(rig).right_fin_stretch <= 1_000_000,
        -1_000_000 <= old(rig).left_fin_stretch <= 1_000_000,
    ensures
        final(state).swimming == timer_ticked(
            old(state).swimming,
            tdiv(dt_ms as int * old(state).swim_speed as int, SCALE as int),
        ),
        final(state).breathing == old(state).breathing,
        final(state).bobbing == old(state).bobbing,
        final(state).chomping == old(state).chomping,
        final(state).swim_speed == old(state).swim_speed,
        animation_state_wf(*final(state)),
        ({
            let t = final(state).swimming.percent_spec();
            &&& final(rig).head.pos.x == old(rig).head.pos.x + swim_offset(t, 0)
            &&& final(rig).top_jaw.pos.x == old(rig).top_jaw.pos.x + swim_offset(t, 1_571)
            &&& final(rig).bottom_jaw.pos.x == old(rig).bottom_jaw.pos.x + swim_offset(t, 1_571)
            &&& final(rig).right_fin_stretch == old(rig).right_fin_stretch + fin_squash(t, 2_985)
            &&& final(rig).left_fin_stretch == old(rig).left_fin_stretch + fin_squash(t, -157)
        }),
        old(rig).head.pos.x - 10_000 <= final(rig).head.pos.x <= old(rig).head.pos.x + 10_000,
        old(rig).top_jaw.pos.x - 10_000 <= final(rig).top_jaw.pos.x <= old(rig).top_jaw.pos.x
            + 10_000,
        old(rig).bottom_jaw.pos.x - 10_000 <= final(rig).bottom_jaw.pos.x <= old(
            rig,
        ).bottom_jaw.pos.x + 10_000,
        old(rig).right_fin_stretch - 500 <= final(rig).right_fin_stretch <= old(
            rig,
        ).right_fin_stretch,
        old(rig).left_fin_stretch - 500 <= final(rig).left_fin_stretch <= old(
            rig,
        ).left_fin_stretch,
        final(rig).head.pos.y == old(rig).head.pos.y,
        final(rig).top_jaw.pos.y == old(rig).top_jaw.pos.y,
        final(rig).bottom_jaw.pos.y == old(rig).bottom_jaw.pos.y,
        final(rig).lure == old(rig).lure,
        final(rig).right_fin == old(rig).right_fin,
        final(rig).left_fin == old(rig).left_fin,
{
    proof {
        assert(0 <= dt_ms as int * state.swim_speed as int <= 100_000_000_000)
            by (nonlinear_arith)
            requires
                0 <= dt_ms <= 50_000,
                0 <= state.swim_speed <= 2_000_000,
        ;
        lemma_tdiv_le(dt_ms as int * state.swim_speed as int, SCALE as int, 100_000_000);
        lemma_tdiv_sign(dt_ms as int * state.swim_speed as int, SCALE as int);
    }
    let delta = div_fp(dt_ms * state.swim_speed, SCALE);
    state.swimming.tick(delta);
    let t = state.swimming.percent();
    let stages = Animation::new(vec![AnimationStage::new(0, SCALE, Easing::Linear)]);
    let eased = match stages.run(t) {
        Some((_, e)) => e,
        None => {
            proof {
                assert(false);
            }
            0
        },
    };
    let head = swim_offset_exec(eased, 0);
    let jaw = swim_offset_exec(eased, 1_571);
    rig.head.pos.x = rig.head.pos.x + head;
    rig.top_jaw.pos.x = rig.top_jaw.pos.x + jaw;
    rig.bottom_jaw.pos.x = rig.bottom_jaw.pos.x + jaw;
    let right = fin_squash_exec(eased, 2_985);
    let left = fin_squash_exec(eased, -157);
    rig.right_fin_stretch = rig.right_fin_stretch + right;
    rig.left_fin_stretch = rig.left_fin_stretch + left;
}

fn fin_squash_exec(t: i64, phase_off: i64) -> (r: i64)
    requires
        0 <= t < SCALE,
        -TAU_FP < phase_off < TAU_FP,
    ensures
        r == fin_squash(t as int, phase_off as int),
        -500 <= r <= 0,
{
    let sn = sin_fp(cycle_phase(t, phase_off));
    proof {
        lemma_tdiv_le(sn as int * 250, SCALE as int, 250);
    }
    div_fp(sn * 250, SCALE) - 250
}

/// One damageable combatant as the attention controller sees it.
#[derive(Clone, Copy, Debug, PartialEq, Eq, Structural)]
pub struct HpEntity {
    pub hp: u32,
    pub pos: Vec2,
}

/// The world position and depth the big fish steers toward.
#[derive(Clone, Copy, Debug, PartialEq, Eq, Structural)]
pub struct AttentionTarget {
    pub pos: Vec2,
    pub depth: i64,
}

/// Smallest hit-point value among the first `i` entities.
pub open spec fn min_hp_upto(s: Seq<HpEntity>, i: int) -> int
    decreases i,
{
    if i <= 1 {
        s[0].hp as int
    } else {
        let m = min_hp_upto(s, i - 1);
        if (s[i - 1].hp as int) < m {
            s[i - 1].hp as int
        } else {
            m
        }
    }
}

/// How many of the first `i` entities sit at the given hit-point value.
pub open spec fn count_hp_upto(s: Seq<HpEntity>, m: int, i: int) -> int
    decreases i,
{
    if i <= 0 {
        0
    } else {
        count_hp_upto(s, m, i - 1) + if s[i - 1].hp as int == m {
            1int
        } else {
            0int
        }
    }
}

/// Sum of the horizontal positions of the first `i` entities at the
/// given hit-point value.
pub open spec fn sum_x_upto(s: Seq<HpEntity>, m: int, i: int) -> int
    decreases i,
{
    if i <= 0 {
        0
    } else {
        sum_x_upto(s, m, i - 1) + if s[i - 1].hp as int == m {
            s[i - 1].pos.x as int
        } else {
            0int
        }
    }
}

/// Sum of the vertical positions of the first `i` entities at the given
/// hit-point value.
pub open spec fn sum_y_upto(s: Seq<HpEntity>, m: int, i: int) -> int
    decreases i,
{
    if i <= 0 {
        0
    } else {
        sum_y_upto(s, m, i - 1) + if s[i - 1].hp as int == m {
            s[i - 1].pos.y as int
        } else {
            0int
        }
    }
}

proof fn lemma_count_hp_nonneg(s: Seq<HpEntity>, m: int, i: int)
    ensures
        count_hp_upto(s, m, i) >= 0,
    decreases i,
{
    if i > 0 {
        lemma_count_hp_nonneg(s, m, i - 1);
    }
}

proof fn lemma_count_hp_pos(s: Seq<HpEntity>, m: int, i: int, k: int)
    requires
        0 <= k < i <= s.len(),
        s[k].hp as int == m,
    ensures
        count_hp_upto(s, m, i) >= 1,
    decreases i,
{
    if k < i - 1 {
        lemma_count_hp_pos(s, m, i - 1, k);
    } else {
        lemma_count_hp_nonneg(s, m, i - 1);
    }
}

/// Choose where the big fish looks: the first queued dead entity if
/// there is one, just below the surface plane; otherwise the centroid
/// of all combatants sharing the minimum hit-point value, at a depth
/// scaled by that minimum against the starting maximum; otherwise the
/// far playfield corner at resting depth.
pub fn update_attention_target(
    eat_target_pos: Option<Vec2>,
    entities: &Vec<HpEntity>,
    starting_max_hp: u32,
) -> (r: AttentionTarget)
    requires
        starting_max_hp >= 1,
        entities@.len() <= 64,
        forall|k: int| 0 <= k < entities@.len() ==> in_box((#[trigger] entities@[k]).pos, 2_000_000),
        forall|k: int| 0 <= k < entities@.len() ==> (#[trigger] entities@[k]).hp <= starting_max_hp,
        match eat_target_pos {
            Some(p) => in_box(p, 2_000_000),
            None => true,
        },
    ensures
        match eat_target_pos {
            Some(p) => r == (AttentionTarget { pos: p, depth: -100i64 }),
            None => {
                if entities@.len() > 0 {
                    let m = min_hp_upto(entities@, entities@.len() as int);
                    let cnt = count_hp_upto(entities@, m, entities@.len() as int);
                    &&& r.pos.x == tdiv(sum_x_upto(entities@, m, entities@.len() as int), cnt)
                    &&& r.pos.y == tdiv(sum_y_upto(entities@, m, entities@.len() as int), cnt)
                    &&& r.depth == tdiv(START_DEPTH as int * m, starting_max_hp as int)
                } else {
                    r == (AttentionTarget {
                        pos: Vec2 { x: LOGICAL_WIDTH, y: LOGICAL_HEIGHT },
                        depth: START_DEPTH,
                    })
                }
            },
        },
        in_box(r.pos, 2_200_000),
        -100_000 <= r.depth <= 100_000,
{
    match eat_target_pos {
        Some(p) => AttentionTarget { pos: p, depth: -100 },
        None => {
            let n = entities.len();
            if n == 0 {
                return AttentionTarget {
                    pos: Vec2 { x: LOGICAL_WIDTH, y: LOGICAL_HEIGHT },
                    depth: START_DEPTH,
                };
            }
            let mut m = entities[0].hp;
            let mut witness: usize = 0;
            let mut i: usize = 1;
            while i < n
                invariant
                    1 <= i <= n == entities@.len(),
                    m as int == min_hp_upto(entities@, i as int),
                    witness < i,
                    entities@[witness as int].hp == m,
                decreases n - i,
            {
                if entities[i].hp < m {
                    m = entities[i].hp;
                    witness = i;
                }
                i = i + 1;
            }
            proof {
                lemma_count_hp_pos(entities@, m as int, n as int, witness as int);
            }
            let mut cnt: i64 = 0;
            let mut sx: i64 = 0;
            let mut sy: i64 = 0;
            let mut j: usize = 0;
            while j < n
                invariant
                    j <= n == entities@.len() <= 64,
                    forall|k: int|
                        0 <= k < n ==> in_box((#[trigger] entities@[k]).pos, 2_000_000),
                    cnt == count_hp_upto(entities@, m as int, j as int),
                    sx == sum_x_upto(entities@, m as int, j as int),
                    sy == sum_y_upto(entities@, m as int, j as int),
                    0 <= cnt <= j,
                    -(j as int) * 2_000_000 <= sx <= (j as int) * 2_000_000,
                    -(j as int) * 2_000_000 <= sy <= (j as int) * 2_000_000,
                decreases n - j,
            {
                let e = &entities[j];
                if e.hp == m {
                    cnt = cnt + 1;
                    sx = sx + e.pos.x;
                    sy = sy + e.pos.y;
                }
                j = j + 1;
            }
            proof {
                assert(cnt >= 1);
                lemma_centroid_in_box(entities@, m as int, n as int);
                lemma_tdiv_le(sx as int, cnt as int, 2_000_000);
                lemma_tdiv_le(sy as int, cnt as int, 2_000_000);
            }
            let cx = div_fp(sx, cnt);
            let cy = div_fp(sy, cnt);
            let depth = depth_for_min(m, starting_max_hp);
            AttentionTarget { pos: Vec2 { x: cx, y: cy }, depth }
        },
    }
}

/// The centroid of the minimum-hit-point entities stays inside any box
/// that contains them all.
proof fn lemma_centroid_in_box(s: Seq<HpEntity>, m: int, n: int)
    requires
        0 < n <= s.len(),
        forall|k: int| 0 <= k < n ==> in_box((#[trigger] s[k]).pos, 2_000_000),
    ensures
        absi(sum_x_upto(s, m, n)) <= count_hp_upto(s, m, n) * 2_000_000,
        absi(sum_y_upto(s, m, n)) <= count_hp_upto(s, m, n) * 2_000_000,
        count_hp_upto(s, m, n) >= 0,
    decreases n,
{
    if n > 1 {
        lemma_centroid_in_box(s, m, n - 1);
    } else {
        assert(count_hp_upto(s, m, 0) == 0);
        assert(sum_x_upto(s, m, 0) == 0);
        assert(sum_y_upto(s, m, 0) == 0);
    }
    assert((count_hp_upto(s, m, n - 1) + 1) * 2_000_000 == count_hp_upto(s, m, n - 1) * 2_000_000
        + 2_000_000) by (nonlinear_arith);
    assert(count_hp_upto(s, m, n - 1) >= 0 ==> count_hp_upto(s, m, n - 1) * 2_000_000 >= 0)
        by (nonlinear_arith);
}

/// The fish-space distance between the fish and the attention target
/// raised by the attention offset: world lengths divided by the smaller
/// logical dimension, depth differences by the resting depth, in
/// fixed-point fish units.
pub open spec fn fish_distance_spec(fish_pos: Vec2, fish_depth: int, target: AttentionTarget)
    -> int {
    let dxf = tdiv((target.pos.x - fish_pos.x) * SCALE as int, FISH_SPACE_DIV as int);
    let dyf = tdiv(
        (target.pos.y + ATTENTION_OFFSET - fish_pos.y) * SCALE as int,
        FISH_SPACE_DIV as int,
    );
    let dzf = tdiv((target.depth - fish_depth) * SCALE as int, FISH_DEPTH_DIV as int);
    sqrt_floor(sq(dxf) + sq(dyf) + sq(dzf))
}

/// What the pursuit needs of the fish's placement.
pub open spec fn fish_pose_wf(pos: Vec2, depth: int) -> bool {
    &&& in_box(pos, 4_000_000)
    &&& -100_000 <= depth <= 100_000
}

/// What the pursuit needs of the attention target.
pub open spec fn target_wf(t: AttentionTarget) -> bool {
    &&& in_box(t.pos, 2_200_000)
    &&& -100_000 <= t.depth <= 100_000
}

fn fish_distance(fish_pos: Vec2, fish_depth: i64, target: &AttentionTarget) -> (r: i64)
    requires
        fish_pose_wf(fish_pos, fish_depth as int),
        target_wf(*target),
    ensures
        r == fish_distance_spec(fish_pos, fish_depth as int, *target),
        0 <= r <= 13_000,
{
    proof {
        lemma_tdiv_le((target.pos.x - fish_pos.x) * SCALE as int, FISH_SPACE_DIV as int, 5_741);
        lemma_tdiv_le(
            (target.pos.y + ATTENTION_OFFSET - fish_pos.y) * SCALE as int,
            FISH_SPACE_DIV as int,
            5_927,
        );
        lemma_tdiv_le((target.depth - fish_depth) * SCALE as int, FISH_DEPTH_DIV as int, 10_000);
    }
    let dxf = div_fp((target.pos.x - fish_pos.x) * SCALE, FISH_SPACE_DIV);
    let dyf = div_fp((target.pos.y + ATTENTION_OFFSET - fish_pos.y) * SCALE, FISH_SPACE_DIV);
    let dzf = div_fp((target.depth - fish_depth) * SCALE, FISH_DEPTH_DIV);
    proof {
        assert(0 <= sq(dxf as int) <= 33_000_000 && 0 <= sq(dyf as int) <= 36_000_000 && 0 <= sq(
            dzf as int,
        ) <= 100_000_000) by (nonlinear_arith)
            requires
                -5_741 <= dxf <= 5_741,
                -5_927 <= dyf <= 5_927,
                -10_000 <= dzf <= 10_000,
        ;
    }
    let n3 = dxf * dxf + dyf * dyf + dzf * dzf;
    let d = isqrt_i64(n3);
    proof {
        crate::fp::lemma_sqrt_floor_props(n3 as int);
        assert(d <= 13_000) by (nonlinear_arith)
            requires
                d >= 0,
                sq(d as int) <= 169_000_000,
        ;
    }
    d
}

/// One coordinate moved a fixed share of the way toward its target:
/// the proportional control step.
pub open spec fn pursuit_step(current: int, target: int, num: int) -> int {
    current + tdiv((target - current) * num, 10_000)
}

fn pursuit_step_exec(current: i64, target: i64, num: i64, bound: i64) -> (r: i64)
    requires
        0 <= num <= 500,
        0 < bound <= 4_000_000,
        -bound <= current <= bound,
        -bound <= target <= bound,
    ensures
        r == pursuit_step(current as int, target as int, num as int),
        -bound <= r <= bound,
{
    let diff = target - current;
    proof {
        assert(-8_000_000 * 500 <= diff as int * num as int <= 8_000_000 * 500)
            by (nonlinear_arith)
            requires
                -8_000_000 <= diff <= 8_000_000,
                0 <= num <= 500,
        ;
        lemma_tdiv_le(diff as int * num as int, 10_000, 400_000);
        if diff >= 0 {
            assert(0 <= diff as int * num as int <= diff as int * 10_000) by (nonlinear_arith)
                requires
                    diff >= 0,
                    0 <= num <= 500,
            ;
            lemma_tdiv_le(diff as int * num as int, 10_000, diff as int);
            lemma_tdiv_sign(diff as int * num as int, 10_000);
        } else {
            assert(diff as int * 10_000 <= diff as int * num as int <= 0) by (nonlinear_arith)
                requires
                    diff < 0,
                    0 <= num <= 500,
            ;
            lemma_tdiv_le(diff as int * num as int, 10_000, -(diff as int));
            lemma_tdiv_sign(diff as int * num as int, 10_000);
        }
    }
    current + div_fp(diff * num, 10_000)
}

/// Move the fish a fixed share of the remaining offset toward the
/// attention target (a larger share while a meal is queued), and set
/// the swim-speed multiplier from the remaining fish-space distance:
/// the farther away or the keener the pursuit, the faster the gait.
pub fn follow_attention_target(
    fish_pos: &mut Vec2,
    fish_depth: &mut i64,
    state: &mut AnimationState,
    target: &AttentionTarget,
    eating: bool,
)
    requires
        fish_pose_wf(*old(fish_pos), *old(fish_depth) as int),
        target_wf(*target),
        animation_state_wf(*old(state)),
    ensures
        ({
            let num = if eating {
                500int
            } else {
                75int
            };
            let d = fish_distance_spec(*old(fish_pos), *old(fish_depth) as int, *target);
            &&& final(fish_pos).x == pursuit_step(old(fish_pos).x as int, target.pos.x as int, num)
            &&& final(fish_pos).y == pursuit_step(
                old(fish_pos).y as int,
                target.pos.y + ATTENTION_OFFSET,
                num,
            )
            &&& *final(fish_depth) == pursuit_step(
                *old(fish_depth) as int,
                target.depth as int,
                num,
            )
            &&& final(state).swim_speed == SCALE + tdiv(d * 2_000 * num, 10_000)
        }),
        final(state).bobbing == old(state).bobbing,
        final(state).breathing == old(state).breathing,
        final(state).swimming == old(state).swimming,
        final(state).chomping == old(state).chomping,
        fish_pose_wf(*final(fish_pos), *final(fish_depth) as int),
        animation_state_wf(*final(state)),
{
    let num: i64 = if eating {
        500
    } else {
        75
    };
    let d = fish_distance(*fish_pos, *fish_depth, target);
    proof {
        assert(0 <= d as int * 2_000 * num as int <= 13_000_000_000) by (nonlinear_arith)
            requires
                0 <= d <= 13_000,
                0 <= num <= 500,
        ;
        lemma_tdiv_le(d as int * 2_000 * num as int, 10_000, 1_300_000);
        lemma_tdiv_sign(d as int * 2_000 * num as int, 10_000);
    }
    state.swim_speed = SCALE + div_fp(d * 2_000 * num, 10_000);
    let x = pursuit_step_exec(fish_pos.x, target.pos.x, num, 4_000_000);
    let y = pursuit_step_exec(fish_pos.y, target.pos.y + ATTENTION_OFFSET, num, 4_000_000);
    let z = pursuit_step_exec(*fish_depth, target.depth, num, 100_000);
    *fish_pos = Vec2 { x, y };
    *fish_depth = z;
}

/// Queue the entities that died this tick for the big fish to eat, in
/// order of death.
pub fn add_dead_things_to_menu(eat_queue: &mut Vec<u64>, newly_dead: &Vec<u64>)
    ensures
        final(eat_queue)@ == old(eat_queue)@ + newly_dead@,
{
    let n = newly_dead.len();
    let mut i: usize = 0;
    while i < n
        invariant
            i <= n == newly_dead@.len(),
            eat_queue@ == old(eat_queue)@ + newly_dead@.subrange(0, i as int),
        decreases n - i,
    {
        eat_queue.push(newly_dead[i]);
        proof {
            assert(eat_queue@ =~= old(eat_queue)@ + newly_dead@.subrange(0, i as int + 1));
        }
        i = i + 1;
    }
    proof {
        assert(newly_dead@.subrange(0, n as int) =~= newly_dead@);
    }
}

/// What the feeding controller did this tick.
#[derive(Clone, Copy, Debug, PartialEq, Eq, Structural)]
pub enum EatOutcome {
    /// No queued meal, or the fish is still too far away.
    Idle,
    /// The jaw-snap animation is playing.
    Chomping,
    /// The bite finished: hide and despawn this entity and burst
    /// particles at the attention point.
    Ate(u64),
}

/// The bottom jaw's downward travel at a bite progress value: a
/// quadratic ease out over most of the window, then an exponential
/// snap over the last tenth; outside the window the jaw holds still.
pub open spec fn bottom_jaw_drop(t: int) -> int {
    if 0 <= t < 900 {
        60 * ease_spec_at(Easing::EaseOutQuad, t)
    } else if 900 <= t < 1000 {
        65 * ease_spec_at(Easing::EaseOutExpo, t) - 5_000
    } else {
        0
    }
}

/// The top jaw's upward travel at a bite progress value.
pub open spec fn top_jaw_rise(t: int) -> int {
    if 0 <= t < 900 {
        90 * ease_spec_at(Easing::EaseOutQuad, t)
    } else if 900 <= t < 1000 {
        95 * ease_spec_at(Easing::EaseOutExpo, t) - 5_000
    } else {
        0
    }
}

/// Shorthand for the easing curves the bite uses.
pub open spec fn ease_spec_at(e: Easing, t: int) -> int {
    crate::animation::ease_spec(e, t)
}

/// Run the feeding sequence for one tick: while a queued meal exists
/// and the fish is within the proximity threshold in fish space, the
/// bite timer advances and both jaws travel along the two-stage
/// animation; when the bite completes, the meal leaves the queue and
/// the bite timer resets.
pub fn eat_dead_things(
    state: &mut AnimationState,
    rig: &mut BigFishRig,
    eat_queue: &mut Vec<u64>,
    fish_pos: Vec2,
    fish_depth: i64,
    target: &AttentionTarget,
    dt_ms: i64,
) -> (r: EatOutcome)
    requires
        animation_state_wf(*old(state)),
        fish_pose_wf(fish_pos, fish_depth as int),
        target_wf(*target),
        0 <= dt_ms <= 100_000,
        -1_000_000 <= old(rig).bottom_jaw.pos.y <= 1_000_000,
        -1_000_000 <= old(rig).top_jaw.pos.y <= 1_000_000,
    ensures
        animation_state_wf(*final(state)),
        old(rig).bottom_jaw.pos.y - 100_000 <= final(rig).bottom_jaw.pos.y <= old(
            rig,
        ).bottom_jaw.pos.y + 100_000,
        old(rig).top_jaw.pos.y - 100_000 <= final(rig).top_jaw.pos.y <= old(
            rig,
        ).top_jaw.pos.y + 100_000,
        final(rig).head == old(rig).head,
        final(rig).lure == old(rig).lure,
        final(rig).right_fin == old(rig).right_fin,
        final(rig).left_fin == old(rig).left_fin,
        final(rig).right_fin_stretch == old(rig).right_fin_stretch,
        final(rig).left_fin_stretch == old(rig).left_fin_stretch,
        final(rig).bottom_jaw.pos.x == old(rig).bottom_jaw.pos.x,
        final(rig).top_jaw.pos.x == old(rig).top_jaw.pos.x,
        ({
            let near = fish_distance_spec(fish_pos, fish_depth as int, *target) < 500;
            if old(eat_queue)@.len() == 0 || !near {
                &&& r == EatOutcome::Idle
                &&& *final(state) == *old(state)
                &&& *final(rig) == *old(rig)
                &&& final(eat_queue)@ == old(eat_queue)@
            } else {
                let ticked = timer_ticked(old(state).chomping, dt_ms as int);
                let t = ticked.percent_spec();
                let finished = ticked.elapsed_ms == ticked.duration_ms;
                &&& final(rig).bottom_jaw.pos.y == old(rig).bottom_jaw.pos.y - bottom_jaw_drop(t)
                &&& final(rig).top_jaw.pos.y == old(rig).top_jaw.pos.y + top_jaw_rise(t)
                &&& final(state).bobbing == old(state).bobbing
                &&& final(state).breathing == old(state).breathing
                &&& final(state).swimming == old(state).swimming
                &&& final(state).swim_speed == old(state).swim_speed
                &&& if finished {
                    &&& r == EatOutcome::Ate(old(eat_queue)@[0])
                    &&& final(eat_queue)@ == old(eat_queue)@.subrange(
                        1,
                        old(eat_queue)@.len() as int,
                    )
                    &&& final(state).chomping == (PhaseTimer {
                        elapsed_ms: 0,
                        ..old(state).chomping
                    })
                } else {
                    &&& r == EatOutcome::Chomping
                    &&& final(eat_queue)@ == old(eat_queue)@
                    &&& final(state).chomping == ticked
                }
            }
        }),
{
    if eat_queue.len() == 0 {
        return EatOutcome::Idle;
    }
    let d = fish_distance(fish_pos, fish_depth, target);
    if d >= 500 {
        return EatOutcome::Idle;
    }
    state.chomping.tick(dt_ms);
    let t = state.chomping.percent();
    let bite = Animation::new(
        vec![
            AnimationStage::new(0, 900, Easing::EaseOutQuad),
            AnimationStage::new(900, SCALE, Easing::EaseOutExpo),
        ],
    );
    let (bottom, top) = match bite.run(t) {
        Some((stage, e)) => {
            if stage == 0 {
                (60 * e, 90 * e)
            } else {
                (65 * e - 5_000, 95 * e - 5_000)
            }
        },
        None => (0, 0),
    };
    proof {
        let stages = bite.stages@;
        reveal_with_fuel(crate::animation::first_match_from, 4);
        if 0 <= t < 900 {
            assert(crate::animation::first_match(stages, t as int) == Some(0int));
        } else if 900 <= t < 1000 {
            assert(!stages[0].contains_spec(t as int));
            assert(crate::animation::first_match(stages, t as int) == Some(1int));
        } else {
            assert(!stages[0].contains_spec(t as int));
            assert(!stages[1].contains_spec(t as int));
            assert(crate::animation::first_match(stages, t as int) is None);
        }
    }
    rig.bottom_jaw.pos.y = rig.bottom_jaw.pos.y - bottom;
    rig.top_jaw.pos.y = rig.top_jaw.pos.y + top;
    let finished = state.chomping.elapsed_ms == state.chomping.duration_ms;
    if finished {
        state.chomping.reset();
        let id = eat_queue.remove(0);
        EatOutcome::Ate(id)
    } else {
        EatOutcome::Chomping
    }
}

/// How strongly the fish shows through and how large it draws, from its
/// depth: fully faded and smallest at the resting depth, solid and full
/// size at the surface. Returns the alpha and the uniform scale, both
/// in thousandths.
pub fn create_depth(depth: i64) -> (r: (i64, i64))
    requires
        -100_000 <= depth <= 100_000,
    ensures
        ({
            let closeness = SCALE as int + tdiv(depth as int * SCALE as int, 20_000);
            &&& r.0 == tdiv(closeness * 600, SCALE as int)
            &&& r.1 == tdiv(closeness * 400, SCALE as int) + 600
        }),
{
    proof {
        lemma_tdiv_le(depth as int * SCALE as int, 20_000, 5_000);
    }
    let closeness = SCALE + div_fp(depth * SCALE, 20_000);
    proof {
        lemma_tdiv_le(closeness as int * 600, SCALE as int, 3_600);
        lemma_tdiv_le(closeness as int * 400, SCALE as int, 2_400);
    }
    (div_fp(closeness * 600, SCALE), div_fp(closeness * 400, SCALE) + 600)
}

/// Depth the fish sinks to for a given minimum hit-point value: the
/// resting depth scaled by the minimum against the starting maximum.
fn depth_for_min(m: u32, starting_max_hp: u32) -> (r: i64)
    requires
        1 <= starting_max_hp,
        m <= starting_max_hp,
    ensures
        r == tdiv(START_DEPTH as int * m as int, starting_max_hp as int),
        -20_000 <= r <= 0,
{
    proof {
        assert(-(20_000 * (starting_max_hp as int)) <= START_DEPTH as int * (m as int) <= 20_000
            * (starting_max_hp as int)) by (nonlinear_arith)
            requires
                0 <= m <= starting_max_hp,
        ;
        lemma_tdiv_le(START_DEPTH as int * m as int, starting_max_hp as int, 20_000);
    }
    div_fp(START_DEPTH * (m as i64), starting_max_hp as i64)
}

} // verus!
