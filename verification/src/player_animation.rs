//! Player animation controllers. The swimming gait drives sinusoidal
//! lateral offsets and rotations of the rig parts from a cyclic timer
//! whose rate scales with how hard the player is moving and turning;
//! the gaze controller picks the nearest interesting point within a
//! fixed field-of-view cone and turns the eyes smoothly toward its
//! bearing.

use vstd::prelude::*;

use crate::animation::{timer_ticked, timer_wf, Animation, AnimationStage, Easing, PhaseTimer};
use crate::components::{transform_point, transform_point_spec, Transform2};
use crate::fp::{atan2_fp, atan2_spec, cos_fp, cos_fp_spec, div_fp, sin_fp, sin_fp_spec,
    sqrt_floor, sq, tdiv, wrap_angle, wrap_angle_spec, HALF_PI_FP, PI_FP, SCALE, TAU_FP};
use crate::movement::{PLAYER_MAX_ANGULAR_VELOCITY, PLAYER_MAX_SPEED};
use crate::vec2::{absi, dist2, in_box, lemma_tdiv_le, norm2, vdist2, vlen, Vec2};

verus! {

/// Base period of the swimming gait cycle, in milliseconds.
pub const SWIM_PERIOD_MS: i64 = 333;

/// Interpolation factor the eyes turn by each tick, in thousandths.
pub const LOOK_SPEED: i64 = 200;

/// The rigged sub-parts of a player; the rig holds exactly one of
/// each. The head, body and tail hang off the root and are the
/// candidates a spent projectile can stick to; fins and eyes hang off
/// the head.
#[derive(Clone, Copy, Debug, PartialEq, Eq, Structural)]
pub enum BodyPart {
    Head,
    Body,
    Tail,
    RightFin,
    LeftFin,
    RightEye,
    LeftEye,
}

/// The local transforms of one player's rig, exactly one part per tag.
#[derive(Clone, Copy, Debug, PartialEq, Eq, Structural)]
pub struct PlayerRig {
    pub head: Transform2,
    pub body: Transform2,
    pub tail: Transform2,
    pub right_fin: Transform2,
    pub left_fin: Transform2,
    pub right_eye: Transform2,
    pub left_eye: Transform2,
}

/// The rig a player model is built with: head above the root carrying
/// fins and eyes, body and tail below.
pub open spec fn base_player_rig() -> PlayerRig {
    PlayerRig {
        head: Transform2 { pos: Vec2 { x: 0, y: 20_000 }, depth: 1_000, angle: 0, scale: 1_000 },
        body: Transform2 { pos: Vec2 { x: 0, y: -60_000i64 }, depth: 2_000, angle: 0, scale: 1_000 },
        tail: Transform2 {
            pos: Vec2 { x: 0, y: -105_000i64 },
            depth: 3_000,
            angle: 0,
            scale: 1_000,
        },
        right_fin: Transform2 {
            pos: Vec2 { x: 115_000, y: 0 },
            depth: 1_000,
            angle: 375,
            scale: 1_000,
        },
        left_fin: Transform2 {
            pos: Vec2 { x: -115_000i64, y: 0 },
            depth: 1_000,
            angle: (crate::fp::TAU_FP - 375) as i64,
            scale: 1_000,
        },
        right_eye: Transform2 {
            pos: Vec2 { x: 85_000, y: 62_000 },
            depth: 1_000,
            angle: 0,
            scale: 1_000,
        },
        left_eye: Transform2 {
            pos: Vec2 { x: -85_000i64, y: 62_000 },
            depth: 1_000,
            angle: 0,
            scale: 1_000,
        },
    }
}

pub fn build_player_rig() -> (r: PlayerRig)
    ensures
        r == base_player_rig(),
{
    PlayerRig {
        head: Transform2 { pos: Vec2 { x: 0, y: 20_000 }, depth: 1_000, angle: 0, scale: 1_000 },
        body: Transform2 { pos: Vec2 { x: 0, y: -60_000i64 }, depth: 2_000, angle: 0, scale: 1_000 },
        tail: Transform2 {
            pos: Vec2 { x: 0, y: -105_000i64 },
            depth: 3_000,
            angle: 0,
            scale: 1_000,
        },
        right_fin: Transform2 {
            pos: Vec2 { x: 115_000, y: 0 },
            depth: 1_000,
            angle: 375,
            scale: 1_000,
        },
        left_fin: Transform2 {
            pos: Vec2 { x: -115_000i64, y: 0 },
            depth: 1_000,
            angle: TAU_FP - 375,
            scale: 1_000,
        },
        right_eye: Transform2 {
            pos: Vec2 { x: 85_000, y: 62_000 },
            depth: 1_000,
            angle: 0,
            scale: 1_000,
        },
        left_eye: Transform2 {
            pos: Vec2 { x: -85_000i64, y: 62_000 },
            depth: 1_000,
            angle: 0,
            scale: 1_000,
        },
    }
}

/// How hard the player is moving: speed share plus the cubed turn
/// share (the cube emphasizes sharp turns), clamped into
/// `[0.3, 1.0]`, in thousandths.
pub open spec fn gait_strength(speed_len: int, av: int) -> int {
    let sv = tdiv(speed_len * SCALE as int, PLAYER_MAX_SPEED as int);
    let ra = tdiv(absi(av) * SCALE as int, PLAYER_MAX_ANGULAR_VELOCITY as int);
    let cube = tdiv(tdiv(ra * ra, SCALE as int) * ra, SCALE as int);
    let s = sv + cube;
    if s < 300 {
        300
    } else if s > 1000 {
        1000
    } else {
        s
    }
}

/// Milliseconds the gait cycle advances for `dt_ms` wall milliseconds
/// at the given strength: faster the harder the player moves.
pub open spec fn gait_advance_ms(s: int, dt_ms: int) -> int {
    tdiv(2_060 * (s - 150) * dt_ms, 1_000_000)
}

/// The phase angle of a gait curve: a full turn over the cycle, less
/// the part's phase offset.
pub open spec fn gait_arg(t: int, phase_off: int) -> int {
    wrap_angle_spec(tdiv(TAU_FP as int * t, SCALE as int) - phase_off)
}

/// Lateral offset of a body part: its amplitude (per unit of strength)
/// times the sine of the phase, in thousandths of a world unit.
pub open spec fn gait_offset_x(amp: int, s: int, t: int, phase_off: int) -> int {
    tdiv(amp * s * sin_fp_spec(gait_arg(t, phase_off)), SCALE as int)
}

/// Rotation of a body part: minus its rotation amplitude times the
/// cosine of the phase, in milliradians.
pub open spec fn gait_rot(sr: int, t: int, phase_off: int) -> int {
    -tdiv(sr * cos_fp_spec(gait_arg(t, phase_off)), SCALE as int)
}

/// A fin's rotation: a spherical blend between two extremes, both
/// biased by the angular velocity, driven by a phase-shifted sine.
pub open spec fn fin_rot(strength: int, side: int, av: int, t: int) -> int {
    let a1 = side * 150 - 3 * av;
    let a2 = side * 600 - 12 * av;
    let arg = wrap_angle_spec(tdiv(TAU_FP as int * t, SCALE as int) + 2_356);
    let blend = tdiv(tdiv(sin_fp_spec(arg) * strength, SCALE as int) + SCALE as int, 2);
    a1 + tdiv((a2 - a1) * blend, SCALE as int)
}

/// What the gait writes into the rig this tick.
#[derive(Clone, Copy, Debug, PartialEq, Eq, Structural)]
pub struct GaitPose {
    pub head_x: i64,
    pub head_rot: i64,
    pub body_x: i64,
    pub tail_x: i64,
    pub tail_rot: i64,
    pub right_fin_rot: i64,
    pub left_fin_rot: i64,
}

fn gait_phase(t: i64, phase_off: i64) -> (r: i64)
    requires
        0 <= t < SCALE,
        0 <= phase_off <= HALF_PI_FP,
    ensures
        r == gait_arg(t as int, phase_off as int),
        0 <= r < TAU_FP,
{
    proof {
        lemma_tdiv_le(TAU_FP as int * t as int, SCALE as int, TAU_FP as int);
        crate::vec2::lemma_tdiv_sign(TAU_FP as int * t as int, SCALE as int);
    }
    let base = div_fp(TAU_FP * t, SCALE);
    wrap_angle(base - phase_off)
}

/// Advance the gait timer by strength-scaled time and compute this
/// tick's pose: sinusoidal lateral offsets and rotations for head,
/// body and tail, and the blended flutter of both fins. Each curve is
/// one full-window linear animation stage.
pub fn animate_swimming(timer: &mut PhaseTimer, vel: Vec2, av: i64, dt_ms: i64) -> (pose: GaitPose)
    requires
        timer_wf(*old(timer)),
        old(timer).repeating,
        in_box(vel, 8_300),
        -90 <= av <= 90,
        0 <= dt_ms <= 100_000,
    ensures
        *final(timer) == timer_ticked(
            *old(timer),
            gait_advance_ms(
                gait_strength(sqrt_floor(norm2(vel)), av as int),
                dt_ms as int,
            ),
        ),
        timer_wf(*final(timer)),
        ({
            let s = gait_strength(sqrt_floor(norm2(vel)), av as int);
            let t = final(timer).percent_spec();
            &&& pose.head_x == gait_offset_x(12, s, t, 0)
            &&& pose.head_rot == gait_rot(tdiv(s * PI_FP as int, 16_000), t, 0)
            &&& pose.body_x == gait_offset_x(15, s, t, 785)
            &&& pose.tail_x == gait_offset_x(18, s, t, 1_571)
            &&& pose.tail_rot == gait_rot(tdiv(s * PI_FP as int, 4_000), t, 1_571)
            &&& pose.right_fin_rot == fin_rot(s, 1, av as int, t)
            &&& pose.left_fin_rot == fin_rot(-s, -1, av as int, t)
        }),
        -20_000 <= pose.head_x <= 20_000,
        -20_000 <= pose.body_x <= 20_000,
        -20_000 <= pose.tail_x <= 20_000,
        -3_000 <= pose.head_rot <= 3_000,
        -3_000 <= pose.tail_rot <= 3_000,
        -3_000 <= pose.right_fin_rot <= 3_000,
        -3_000 <= pose.left_fin_rot <= 3_000,
{
    let speed = vlen(vel);
    proof {
        assert(norm2(vel) <= 137_780_000) by (nonlinear_arith)
            requires
                absi(vel.x as int) <= 8_300,
                absi(vel.y as int) <= 8_300,
        ;
        assert(speed <= 11_739) by (nonlinear_arith)
            requires
                speed >= 0,
                sq(speed as int) <= 137_780_000,
        ;
        lemma_tdiv_le(speed as int * SCALE as int, PLAYER_MAX_SPEED as int, 1_500);
        lemma_tdiv_le(absi(av as int) * SCALE as int, PLAYER_MAX_ANGULAR_VELOCITY as int, 1_200);
    }
    let sv = ((speed * SCALE) as u64 / (PLAYER_MAX_SPEED as u64)) as i64;
    let aav = if av < 0 {
        -av
    } else {
        av
    };
    let ra = ((aav * SCALE) as u64 / (PLAYER_MAX_ANGULAR_VELOCITY as u64)) as i64;
    proof {
        assert(0 <= ra as int * ra as int <= 1_440_000) by (nonlinear_arith)
            requires
                0 <= ra <= 1_200,
        ;
        lemma_tdiv_le(ra as int * ra as int, SCALE as int, 1_440);
    }
    let ra2 = ((ra * ra) as u64 / (SCALE as u64)) as i64;
    proof {
        assert(0 <= ra2 as int * ra as int <= 1_728_000) by (nonlinear_arith)
            requires
                0 <= ra2 <= 1_440,
                0 <= ra <= 1_200,
        ;
        lemma_tdiv_le(ra2 as int * ra as int, SCALE as int, 1_728);
    }
    let cube = ((ra2 * ra) as u64 / (SCALE as u64)) as i64;
    let sum = sv + cube;
    let s = if sum < 300 {
        300
    } else if sum > 1000 {
        1000
    } else {
        sum
    };
    proof {
        assert(0 <= 2_060 * (s as int - 150) * dt_ms as int <= 175_100_000_000)
            by (nonlinear_arith)
            requires
                300 <= s <= 1000,
                0 <= dt_ms <= 100_000,
        ;
        lemma_tdiv_le(2_060 * (s as int - 150) * dt_ms as int, 1_000_000, 175_100);
    }
    let advance = ((2_060 * (s - 150) * dt_ms) as u64 / 1_000_000u64) as i64;
    timer.tick(advance);
    let t = timer.percent();
    let stages = Animation::new(vec![AnimationStage::new(0, SCALE, Easing::Linear)]);
    let eased = match stages.run(t) {
        Some((_, e)) => e,
        None => {
            proof {
                assert(false);
            }
            0
        },
    };
    let head_arg = gait_phase(eased, 0);
    let body_arg = gait_phase(eased, 785);
    let tail_arg = gait_phase(eased, 1_571);
    proof {
        lemma_tdiv_le(s as int * PI_FP as int, 16_000, 197);
        lemma_tdiv_le(s as int * PI_FP as int, 4_000, 786);
    }
    let head_sr = ((s * PI_FP) as u64 / 16_000u64) as i64;
    let tail_sr = ((s * PI_FP) as u64 / 4_000u64) as i64;
    let head_x = part_offset_x(12, s, head_arg);
    let body_x = part_offset_x(15, s, body_arg);
    let tail_x = part_offset_x(18, s, tail_arg);
    let head_rot = part_rot(head_sr, head_arg);
    let tail_rot = part_rot(tail_sr, tail_arg);
    let right_fin_rot = fin_blend(s, 1, av, eased);
    let left_fin_rot = fin_blend(-s, -1, av, eased);
    GaitPose { head_x, head_rot, body_x, tail_x, tail_rot, right_fin_rot, left_fin_rot }
}

fn part_offset_x(amp: i64, s: i64, arg: i64) -> (r: i64)
    requires
        0 < amp <= 20,
        300 <= s <= 1000,
        0 <= arg < TAU_FP,
    ensures
        ({
            let w = tdiv(amp as int * s as int * sin_fp_spec(arg as int), SCALE as int);
            r == w
        }),
        -20_000 <= r <= 20_000,
{
    let sn = sin_fp(arg);
    proof {
        assert(0 < amp as int * s as int <= 20_000 && -20_000_000 <= amp as int * s as int
            * sn as int <= 20_000_000) by (nonlinear_arith)
            requires
                0 < amp <= 20,
                300 <= s <= 1000,
                -1_000 <= sn <= 1_000,
        ;
        lemma_tdiv_le(amp as int * s as int * sn as int, SCALE as int, 20_000);
    }
    div_fp(amp * s * sn, SCALE)
}

fn part_rot(sr: i64, arg: i64) -> (r: i64)
    requires
        0 <= sr <= 1_000,
        0 <= arg < TAU_FP,
    ensures
        r == -tdiv(sr as int * cos_fp_spec(arg as int), SCALE as int),
        -1_000 <= r <= 1_000,
{
    let c = cos_fp(arg);
    proof {
        assert(-1_000_000 <= sr as int * c as int <= 1_000_000) by (nonlinear_arith)
            requires
                0 <= sr <= 1_000,
                -1_000 <= c <= 1_000,
        ;
        lemma_tdiv_le(sr as int * c as int, SCALE as int, 1_000);
    }
    -div_fp(sr * c, SCALE)
}

fn fin_blend(strength: i64, side: i64, av: i64, t: i64) -> (r: i64)
    requires
        -1_000 <= strength <= 1_000,
        side == 1 || side == -1,
        -90 <= av <= 90,
        0 <= t < SCALE,
    ensures
        r == fin_rot(strength as int, side as int, av as int, t as int),
        -3_000 <= r <= 3_000,
{
    let a1 = side * 150 - 3 * av;
    let a2 = side * 600 - 12 * av;
    proof {
        lemma_tdiv_le(TAU_FP as int * t as int, SCALE as int, TAU_FP as int);
        crate::vec2::lemma_tdiv_sign(TAU_FP as int * t as int, SCALE as int);
    }
    let arg = wrap_angle(div_fp(TAU_FP * t, SCALE) + 2_356);
    let sn = sin_fp(arg);
    proof {
        assert(-1_000_000 <= sn as int * strength as int <= 1_000_000) by (nonlinear_arith)
            requires
                -1_000 <= sn <= 1_000,
                -1_000 <= strength <= 1_000,
        ;
        lemma_tdiv_le(sn as int * strength as int, SCALE as int, 1_000);
    }
    let inner = div_fp(sn * strength, SCALE);
    let blend = div_fp(inner + SCALE, 2);
    proof {
        assert(-2_100_000 <= (a2 as int - a1 as int) * blend as int <= 2_100_000)
            by (nonlinear_arith)
            requires
                -2_100 <= a2 as int - a1 as int <= 2_100,
                0 <= blend <= 1_000,
        ;
        lemma_tdiv_le((a2 as int - a1 as int) * blend as int, SCALE as int, 2_100);
    }
    a1 + div_fp((a2 - a1) * blend, SCALE)
}

/// Write a gait pose into the rig: lateral offsets replace the parts'
/// local horizontal positions, rotations replace their local angles
/// (wrapped into one turn). Eyes and everything else stay untouched.
pub fn apply_gait_pose(rig: &mut PlayerRig, pose: &GaitPose)
    requires
        -20_000 <= pose.head_x <= 20_000,
        -20_000 <= pose.body_x <= 20_000,
        -20_000 <= pose.tail_x <= 20_000,
        -3_000 <= pose.head_rot <= 3_000,
        -3_000 <= pose.tail_rot <= 3_000,
        -3_000 <= pose.right_fin_rot <= 3_000,
        -3_000 <= pose.left_fin_rot <= 3_000,
    ensures
        final(rig).head.pos.x == pose.head_x,
        final(rig).head.angle == wrap_angle_spec(pose.head_rot as int),
        final(rig).body.pos.x == pose.body_x,
        final(rig).tail.pos.x == pose.tail_x,
        final(rig).tail.angle == wrap_angle_spec(pose.tail_rot as int),
        final(rig).right_fin.angle == wrap_angle_spec(pose.right_fin_rot as int),
        final(rig).left_fin.angle == wrap_angle_spec(pose.left_fin_rot as int),
        final(rig).head.pos.y == old(rig).head.pos.y,
        final(rig).body.pos.y == old(rig).body.pos.y,
        final(rig).tail.pos.y == old(rig).tail.pos.y,
        final(rig).head.depth == old(rig).head.depth,
        final(rig).head.scale == old(rig).head.scale,
        final(rig).body.depth == old(rig).body.depth,
        final(rig).body.scale == old(rig).body.scale,
        final(rig).body.angle == old(rig).body.angle,
        final(rig).tail.depth == old(rig).tail.depth,
        final(rig).tail.scale == old(rig).tail.scale,
        final(rig).right_eye == old(rig).right_eye,
        final(rig).left_eye == old(rig).left_eye,
        final(rig).right_fin.pos == old(rig).right_fin.pos,
        final(rig).left_fin.pos == old(rig).left_fin.pos,
{
    rig.head.pos.x = pose.head_x;
    rig.head.angle = wrap_angle(pose.head_rot);
    rig.body.pos.x = pose.body_x;
    rig.tail.pos.x = pose.tail_x;
    rig.tail.angle = wrap_angle(pose.tail_rot);
    rig.right_fin.angle = wrap_angle(pose.right_fin_rot);
    rig.left_fin.angle = wrap_angle(pose.left_fin_rot);
}

/// The fixed-point forward vector of a heading: the unit up vector
/// rotated by the angle.
pub open spec fn look_vec(angle: int) -> Vec2 {
    Vec2 { x: (-sin_fp_spec(angle)) as i64, y: cos_fp_spec(angle) as i64 }
}

/// Whether a view vector lies within the quarter-pi field-of-view cone
/// around the forward vector: the cosine test, exact in integers since
/// `cos^2(pi/4)` is one half.
pub open spec fn in_cone(angle: int, v: Vec2) -> bool {
    let l = look_vec(angle);
    let dot = l.x * v.x + l.y * v.y;
    &&& dot >= 0
    &&& 2 * dot * dot >= norm2(l) * norm2(v)
}

/// Among the candidate points (other players and visible pickups), pick
/// the nearest one within the field-of-view cone of the given pose;
/// ties in distance are arbitrary. Nothing comes back exactly when no
/// candidate is in the cone.
pub fn gaze_target(pos: Vec2, angle: i64, candidates: &Vec<Vec2>) -> (r: Option<Vec2>)
    requires
        in_box(pos, 5_000_000),
        0 <= angle < TAU_FP,
        forall|k: int| 0 <= k < candidates@.len() ==> in_box(#[trigger] candidates@[k], 5_000_000),
    ensures
        match r {
            Some(p) => {
                &&& exists|i: int| 0 <= i < candidates@.len() && candidates@[i] == p
                &&& in_cone(angle as int, Vec2 { x: (p.x - pos.x) as i64, y: (p.y - pos.y) as i64 })
                &&& forall|j: int|
                    0 <= j < candidates@.len() && in_cone(
                        angle as int,
                        Vec2 {
                            x: (candidates@[j].x - pos.x) as i64,
                            y: (candidates@[j].y - pos.y) as i64,
                        },
                    ) ==> dist2(#[trigger] candidates@[j], pos) >= dist2(p, pos)
            },
            None => forall|j: int|
                0 <= j < candidates@.len() ==> !in_cone(
                    angle as int,
                    Vec2 {
                        x: ((#[trigger] candidates@[j]).x - pos.x) as i64,
                        y: (candidates@[j].y - pos.y) as i64,
                    },
                ),
        },
{
    let lx = -sin_fp(angle);
    let ly = cos_fp(angle);
    proof {
        assert(0 <= lx as int * lx as int <= 1_000_000 && 0 <= ly as int * ly as int
            <= 1_000_000) by (nonlinear_arith)
            requires
                -1_000 <= lx <= 1_000,
                -1_000 <= ly <= 1_000,
        ;
    }
    let ln = lx * lx + ly * ly;
    let n = candidates.len();
    let mut best: Option<(Vec2, i64)> = None;
    let mut i: usize = 0;
    while i < n
        invariant
            i <= n == candidates@.len(),
            in_box(pos, 5_000_000),
            0 <= angle < TAU_FP,
            forall|k: int| 0 <= k < n ==> in_box(#[trigger] candidates@[k], 5_000_000),
            lx == -sin_fp_spec(angle as int) && ly == cos_fp_spec(angle as int),
            -1_000 <= lx <= 1_000 && -1_000 <= ly <= 1_000,
            ln == norm2(look_vec(angle as int)),
            match best {
                Some((bp, bd)) => {
                    &&& exists|k: int| 0 <= k < i && candidates@[k] == bp
                    &&& in_cone(
                        angle as int,
                        Vec2 { x: (bp.x - pos.x) as i64, y: (bp.y - pos.y) as i64 },
                    )
                    &&& bd == dist2(bp, pos)
                    &&& forall|j: int|
                        0 <= j < i && in_cone(
                            angle as int,
                            Vec2 {
                                x: (candidates@[j].x - pos.x) as i64,
                                y: (candidates@[j].y - pos.y) as i64,
                            },
                        ) ==> dist2(#[trigger] candidates@[j], pos) >= bd
                },
                None => forall|j: int|
                    0 <= j < i ==> !in_cone(
                        angle as int,
                        Vec2 {
                            x: ((#[trigger] candidates@[j]).x - pos.x) as i64,
                            y: (candidates@[j].y - pos.y) as i64,
                        },
                    ),
            },
        decreases n - i,
    {
        let c = candidates[i];
        let v = Vec2 { x: c.x - pos.x, y: c.y - pos.y };
        proof {
            assert(-10_000_000_000 <= lx as int * v.x as int <= 10_000_000_000
                && -10_000_000_000 <= ly as int * v.y as int <= 10_000_000_000)
                by (nonlinear_arith)
                requires
                    -1_000 <= lx <= 1_000,
                    -1_000 <= ly <= 1_000,
                    -10_000_000 <= v.x <= 10_000_000,
                    -10_000_000 <= v.y <= 10_000_000,
            ;
            crate::vec2::lemma_norm2_bound(v);
        }
        let dot = lx * v.x + ly * v.y;
        let vn = v.x * v.x + v.y * v.y;
        proof {
            assert(0 <= ln <= 2_000_000) by (nonlinear_arith)
                requires
                    -1_000 <= lx <= 1_000,
                    -1_000 <= ly <= 1_000,
                    ln == lx as int * lx as int + ly as int * ly as int,
            ;
            assert(0 <= (dot as int) * (dot as int) <= 0x1_0000_0000_0000_0000_0000)
                by (nonlinear_arith)
                requires
                    -20_000_000_000 <= dot <= 20_000_000_000,
            ;
            assert(-0x8_0000_0000_0000_0000_0000 <= 2 * (dot as int) * (dot as int)
                <= 0x8_0000_0000_0000_0000_0000) by (nonlinear_arith)
                requires
                    -20_000_000_000 <= dot <= 20_000_000_000,
            ;
            assert(0 <= (ln as int) * (vn as int) <= 0x1000_0000_0000_0000_0000_0000)
                by (nonlinear_arith)
                requires
                    0 <= ln <= 2_000_000,
                    0 <= vn <= 0x7A83_06AE_4756_4000,
            ;
        }
        let inside = dot >= 0 && 2 * (dot as i128) * (dot as i128) >= (ln as i128) * (vn as i128);
        if inside {
            let d = vdist2(c, pos);
            best = match best {
                Some((bp, bd)) => if d < bd {
                    Some((c, d))
                } else {
                    Some((bp, bd))
                },
                None => Some((c, d)),
            };
        }
        i = i + 1;
    }
    match best {
        Some((bp, _)) => Some(bp),
        None => None,
    }
}

/// One smoothing step of an eye's local angle toward a target bearing:
/// a fixed share of the shortest signed difference per tick.
pub open spec fn eye_step(current: int, target: int) -> int {
    let d0 = target - current;
    let d = if d0 > PI_FP as int {
        d0 - TAU_FP as int
    } else if d0 < -PI_FP as int {
        d0 + TAU_FP as int
    } else {
        d0
    };
    wrap_angle_spec(current + tdiv(d * LOOK_SPEED as int, SCALE as int))
}

fn eye_step_exec(current: i64, target: i64) -> (r: i64)
    requires
        0 <= current < TAU_FP,
        0 <= target < TAU_FP,
    ensures
        r == eye_step(current as int, target as int),
        0 <= r < TAU_FP,
{
    let d0 = target - current;
    let d = if d0 > PI_FP {
        d0 - TAU_FP
    } else if d0 < -PI_FP {
        d0 + TAU_FP
    } else {
        d0
    };
    proof {
        lemma_tdiv_le(d as int * LOOK_SPEED as int, SCALE as int, TAU_FP as int);
    }
    wrap_angle(current + div_fp(d * LOOK_SPEED, SCALE))
}

/// The bearing of a point as seen from an eye: the signed angle between
/// the player's forward vector and the vector to the point, wrapped
/// into one turn.
pub open spec fn eye_bearing(angle: int, eye_global: Vec2, point: Vec2) -> int {
    let l = look_vec(angle);
    let vx = point.x - eye_global.x;
    let vy = point.y - eye_global.y;
    let cross = l.x * vy - l.y * vx;
    let dot = l.x * vx + l.y * vy;
    wrap_angle_spec(atan2_spec(cross, dot))
}

/// Where an eye sits in the playfield: its local offset carried through
/// the head's frame and then the player root's frame.
pub open spec fn eye_global_spec(root: Transform2, head: Transform2, eye_pos: Vec2) -> Vec2 {
    transform_point_spec(root, transform_point_spec(head, eye_pos))
}

/// Turn both eyes a fixed step toward the gaze target's bearing, or
/// back toward neutral when nothing is in view. The eyes' positions and
/// every other rig part stay untouched.
pub fn animate_eyes(rig: &mut PlayerRig, root: &Transform2, target: Option<Vec2>)
    requires
        in_box(root.pos, 5_000_000),
        0 <= root.angle < TAU_FP,
        0 < root.scale <= 7_000,
        in_box(old(rig).head.pos, 200_000),
        0 <= old(rig).head.angle < TAU_FP,
        0 < old(rig).head.scale <= 1_000,
        in_box(old(rig).right_eye.pos, 200_000),
        in_box(old(rig).left_eye.pos, 200_000),
        0 <= old(rig).right_eye.angle < TAU_FP,
        0 <= old(rig).left_eye.angle < TAU_FP,
        match target {
            Some(p) => in_box(p, 5_000_000),
            None => true,
        },
    ensures
        ({
            let right_target = match target {
                Some(p) => eye_bearing(
                    root.angle as int,
                    eye_global_spec(*root, old(rig).head, old(rig).right_eye.pos),
                    p,
                ),
                None => 0int,
            };
            let left_target = match target {
                Some(p) => eye_bearing(
                    root.angle as int,
                    eye_global_spec(*root, old(rig).head, old(rig).left_eye.pos),
                    p,
                ),
                None => 0int,
            };
            &&& final(rig).right_eye.angle == eye_step(
                old(rig).right_eye.angle as int,
                right_target,
            )
            &&& final(rig).left_eye.angle == eye_step(old(rig).left_eye.angle as int, left_target)
        }),
        0 <= final(rig).right_eye.angle < TAU_FP,
        0 <= final(rig).left_eye.angle < TAU_FP,
        final(rig).right_eye.pos == old(rig).right_eye.pos,
        final(rig).left_eye.pos == old(rig).left_eye.pos,
        final(rig).head == old(rig).head,
        final(rig).body == old(rig).body,
        final(rig).tail == old(rig).tail,
        final(rig).right_fin == old(rig).right_fin,
        final(rig).left_fin == old(rig).left_fin,
{
    let lx = -sin_fp(root.angle);
    let ly = cos_fp(root.angle);
    let right_local = transform_point(&rig.head, rig.right_eye.pos);
    let left_local = transform_point(&rig.head, rig.left_eye.pos);
    let right_global = transform_point(root, right_local);
    let left_global = transform_point(root, left_local);
    let right_target = match target {
        Some(p) => bearing_to(lx, ly, right_global, p),
        None => 0,
    };
    let left_target = match target {
        Some(p) => bearing_to(lx, ly, left_global, p),
        None => 0,
    };
    rig.right_eye.angle = eye_step_exec(rig.right_eye.angle, right_target);
    rig.left_eye.angle = eye_step_exec(rig.left_eye.angle, left_target);
}

fn bearing_to(lx: i64, ly: i64, eye_global: Vec2, point: Vec2) -> (r: i64)
    requires
        -1_000 <= lx <= 1_000,
        -1_000 <= ly <= 1_000,
        in_box(eye_global, 110_000_000),
        in_box(point, 5_000_000),
    ensures
        ({
            let vx = point.x as int - eye_global.x as int;
            let vy = point.y as int - eye_global.y as int;
            r == wrap_angle_spec(atan2_spec(lx * vy - ly * vx, lx * vx + ly * vy))
        }),
        0 <= r < TAU_FP,
{
    let vx = point.x - eye_global.x;
    let vy = point.y - eye_global.y;
    proof {
        assert(-115_000_000_000 <= lx as int * vy as int <= 115_000_000_000
            && -115_000_000_000 <= ly as int * vx as int <= 115_000_000_000
            && -115_000_000_000 <= lx as int * vx as int <= 115_000_000_000
            && -115_000_000_000 <= ly as int * vy as int <= 115_000_000_000)
            by (nonlinear_arith)
            requires
                -1_000 <= lx <= 1_000,
                -1_000 <= ly <= 1_000,
                -115_000_000 <= vx <= 115_000_000,
                -115_000_000 <= vy <= 115_000_000,
        ;
    }
    let cross = lx * vy - ly * vx;
    let dot = lx * vx + ly * vy;
    let a = atan2_fp(cross, dot);
    wrap_angle(a)
}

} // verus!
