//! Movement and physics integration, per player per tick, in this load-
//! bearing order: accelerate from the held gestures, clamp speeds,
//! integrate the transform, then decay velocities. Decaying after
//! integration keeps the top speed reachable and stable.

use vstd::prelude::*;

use crate::components::{AngularVelocity, Velocity};
use crate::fp::{cos_fp, cos_fp_spec, div_fp, sin_fp, sin_fp_spec, sqrt_floor, tdiv, wrap_angle,
    wrap_angle_spec, clamp_fp, SCALE};
use crate::input::ActionState;
use crate::player::{player_wf, PlayerState, ANG_VEL_LIMIT, VEL_LIMIT};
use crate::vec2::{absi, in_box, lemma_tdiv_le, norm2, vadd, vlen, vscale, Vec2};

verus! {

/// Forward acceleration per tick while thrusting, in thousandths of a
/// world unit per tick.
pub const PLAYER_ACCELERATION: i64 = 300;

/// Angular acceleration per tick while turning, in milliradians per
/// tick.
pub const PLAYER_ANGULAR_ACCELERATION: i64 = 15;

/// Speed limit, in thousandths of a world unit per tick.
pub const PLAYER_MAX_SPEED: i64 = 8_000;

/// Angular speed limit, in milliradians per tick.
pub const PLAYER_MAX_ANGULAR_VELOCITY: i64 = 75;

/// Share of linear velocity kept each tick (2% drag), in percent.
pub const PLAYER_DRAG_KEEP: i64 = 98;

/// Extra share kept while shielded (10% brake), in percent.
pub const SHIELD_BRAKE_KEEP: i64 = 90;

/// Share of angular velocity kept each tick (20% drag), in percent.
pub const ANGULAR_DRAG_KEEP: i64 = 80;

/// Horizontal component of one tick of forward thrust at the given
/// heading (the heading rotates the unit up vector).
pub open spec fn thrust_dx(angle: int) -> int {
    tdiv(-sin_fp_spec(angle) * PLAYER_ACCELERATION, SCALE as int)
}

/// Vertical component of one tick of forward thrust at the given
/// heading.
pub open spec fn thrust_dy(angle: int) -> int {
    tdiv(cos_fp_spec(angle) * PLAYER_ACCELERATION, SCALE as int)
}

/// The signed angular acceleration the turn gestures contribute this
/// tick.
pub open spec fn turn_delta(a: ActionState) -> int {
    (if a.turn_left.pressed {
        PLAYER_ANGULAR_ACCELERATION as int
    } else {
        0
    }) - (if a.turn_right.pressed {
        PLAYER_ANGULAR_ACCELERATION as int
    } else {
        0
    })
}

/// Angular velocity clamped onto its limit.
pub open spec fn clamped_ang_vel(av: int) -> int {
    if av > PLAYER_MAX_ANGULAR_VELOCITY {
        PLAYER_MAX_ANGULAR_VELOCITY as int
    } else if av < -PLAYER_MAX_ANGULAR_VELOCITY {
        -PLAYER_MAX_ANGULAR_VELOCITY as int
    } else {
        av
    }
}

/// The heading after one integrator tick: turned by the clamped angular
/// velocity, wrapped into one turn.
pub open spec fn integrated_angle(angle: int, av: int) -> int {
    wrap_angle_spec(angle + clamped_ang_vel(av))
}

/// The angular velocity after one integrator tick: clamped onto its
/// limit, then decayed.
pub open spec fn integrated_ang_vel(av: int) -> int {
    tdiv(clamped_ang_vel(av) * ANGULAR_DRAG_KEEP, 100)
}

/// Velocity renormalized onto the speed limit when its length exceeds
/// it.
pub open spec fn clamp_speed_spec(v: Vec2) -> Vec2 {
    let l = sqrt_floor(norm2(v));
    if l > PLAYER_MAX_SPEED {
        Vec2 {
            x: tdiv(v.x * PLAYER_MAX_SPEED, l) as i64,
            y: tdiv(v.y * PLAYER_MAX_SPEED, l) as i64,
        }
    } else {
        v
    }
}

/// One tick of exponential drag, stronger while shielded.
pub open spec fn drag_spec(v: Vec2, shielded: bool) -> Vec2 {
    let d = Vec2 {
        x: tdiv(v.x * PLAYER_DRAG_KEEP, 100) as i64,
        y: tdiv(v.y * PLAYER_DRAG_KEEP, 100) as i64,
    };
    if shielded {
        Vec2 {
            x: tdiv(d.x * SHIELD_BRAKE_KEEP, 100) as i64,
            y: tdiv(d.y * SHIELD_BRAKE_KEEP, 100) as i64,
        }
    } else {
        d
    }
}

/// Apply the held gestures to the velocities: forward thrust along the
/// current heading unless shielded, and signed angular acceleration from
/// the turn gestures. Everything else is untouched; while the shield is
/// up, no forward thrust is ever added.
pub fn handle_movement(p: &mut PlayerState, actions: &ActionState)
    requires
        player_wf(*old(p)),
        in_box(old(p).vel.0, PLAYER_MAX_SPEED as int),
        -PLAYER_MAX_ANGULAR_VELOCITY <= old(p).ang_vel.0 <= PLAYER_MAX_ANGULAR_VELOCITY,
    ensures
        final(p).vel.0.x == old(p).vel.0.x + if actions.move_forward.pressed
            && !old(p).shielded { thrust_dx(old(p).transform.angle as int) } else { 0 },
        final(p).vel.0.y == old(p).vel.0.y + if actions.move_forward.pressed
            && !old(p).shielded { thrust_dy(old(p).transform.angle as int) } else { 0 },
        old(p).shielded ==> final(p).vel == old(p).vel,
        final(p).ang_vel.0 == old(p).ang_vel.0 + turn_delta(*actions),
        final(p).transform == old(p).transform,
        final(p).energy == old(p).energy,
        final(p).hp == old(p).hp,
        final(p).lives == old(p).lives,
        final(p).circle == old(p).circle,
        final(p).shielded == old(p).shielded,
        final(p).dead == old(p).dead,
        player_wf(*final(p)),
{
    if actions.move_forward.pressed && !p.shielded {
        let s = sin_fp(p.transform.angle);
        let c = cos_fp(p.transform.angle);
        proof {
            lemma_tdiv_le(-s as int * PLAYER_ACCELERATION as int, SCALE as int,
                PLAYER_ACCELERATION as int);
            lemma_tdiv_le(c as int * PLAYER_ACCELERATION as int, SCALE as int,
                PLAYER_ACCELERATION as int);
        }
        let dx = div_fp(-s * PLAYER_ACCELERATION, SCALE);
        let dy = div_fp(c * PLAYER_ACCELERATION, SCALE);
        let v = p.vel.0;
        p.vel = Velocity(Vec2 { x: v.x + dx, y: v.y + dy });
    }
    if actions.turn_left.pressed {
        p.ang_vel = AngularVelocity(p.ang_vel.0 + PLAYER_ANGULAR_ACCELERATION);
    }
    if actions.turn_right.pressed {
        p.ang_vel = AngularVelocity(p.ang_vel.0 - PLAYER_ANGULAR_ACCELERATION);
    }
}

/// Clamp speeds to their limits, integrate position and heading, then
/// decay linear and angular velocity, with the stronger brake while
/// shielded.
pub fn move_players(p: &mut PlayerState)
    requires
        player_wf(*old(p)),
        in_box(old(p).transform.pos, 4_000_000),
    ensures
        ({
            let v1 = clamp_speed_spec(old(p).vel.0);
            let av1 = if old(p).ang_vel.0 > PLAYER_MAX_ANGULAR_VELOCITY {
                PLAYER_MAX_ANGULAR_VELOCITY as int
            } else if old(p).ang_vel.0 < -PLAYER_MAX_ANGULAR_VELOCITY {
                -PLAYER_MAX_ANGULAR_VELOCITY as int
            } else {
                old(p).ang_vel.0 as int
            };
            &&& final(p).transform.pos.x == old(p).transform.pos.x + v1.x
            &&& final(p).transform.pos.y == old(p).transform.pos.y + v1.y
            &&& final(p).transform.angle == wrap_angle_spec(old(p).transform.angle + av1)
            &&& final(p).vel.0 == drag_spec(v1, old(p).shielded)
            &&& final(p).ang_vel.0 == tdiv(av1 * ANGULAR_DRAG_KEEP, 100)
        }),
        final(p).transform.angle == integrated_angle(
            old(p).transform.angle as int,
            old(p).ang_vel.0 as int,
        ),
        final(p).ang_vel.0 == integrated_ang_vel(old(p).ang_vel.0 as int),
        final(p).transform.depth == old(p).transform.depth,
        final(p).transform.scale == old(p).transform.scale,
        final(p).energy == old(p).energy,
        final(p).hp == old(p).hp,
        final(p).lives == old(p).lives,
        final(p).circle == old(p).circle,
        final(p).shielded == old(p).shielded,
        final(p).dead == old(p).dead,
        player_wf(*final(p)),
        in_box(final(p).vel.0, PLAYER_MAX_SPEED as int),
        -PLAYER_MAX_ANGULAR_VELOCITY <= final(p).ang_vel.0 <= PLAYER_MAX_ANGULAR_VELOCITY,
        in_box(final(p).transform.pos, 4_008_300),
{
    let v = p.vel.0;
    let l = vlen(v);
    let v1 = if l > PLAYER_MAX_SPEED {
        proof {
            assert(absi(v.x as int) * PLAYER_MAX_SPEED <= l as int * PLAYER_MAX_SPEED
                && absi(v.y as int) * PLAYER_MAX_SPEED <= l as int * PLAYER_MAX_SPEED)
                by (nonlinear_arith)
                requires
                    absi(v.x as int) <= l,
                    absi(v.y as int) <= l,
                    PLAYER_MAX_SPEED >= 0,
            ;
            lemma_tdiv_le(v.x as int * PLAYER_MAX_SPEED as int, l as int,
                PLAYER_MAX_SPEED as int);
            lemma_tdiv_le(v.y as int * PLAYER_MAX_SPEED as int, l as int,
                PLAYER_MAX_SPEED as int);
        }
        vscale(v, PLAYER_MAX_SPEED, l)
    } else {
        v
    };
    let av1 = clamp_fp(p.ang_vel.0, -PLAYER_MAX_ANGULAR_VELOCITY, PLAYER_MAX_ANGULAR_VELOCITY);
    let pos = vadd(p.transform.pos, v1);
    let angle = wrap_angle(p.transform.angle + av1);
    proof {
        lemma_tdiv_le(v1.x as int * PLAYER_DRAG_KEEP as int, 100, VEL_LIMIT as int);
        lemma_tdiv_le(v1.y as int * PLAYER_DRAG_KEEP as int, 100, VEL_LIMIT as int);
    }
    let dx = div_fp(v1.x * PLAYER_DRAG_KEEP, 100);
    let dy = div_fp(v1.y * PLAYER_DRAG_KEEP, 100);
    let v2 = if p.shielded {
        proof {
            lemma_tdiv_le(dx as int * SHIELD_BRAKE_KEEP as int, 100, VEL_LIMIT as int);
            lemma_tdiv_le(dy as int * SHIELD_BRAKE_KEEP as int, 100, VEL_LIMIT as int);
        }
        Vec2 { x: div_fp(dx * SHIELD_BRAKE_KEEP, 100), y: div_fp(dy * SHIELD_BRAKE_KEEP, 100) }
    } else {
        Vec2 { x: dx, y: dy }
    };
    proof {
        lemma_tdiv_le(av1 as int * ANGULAR_DRAG_KEEP as int, 100, ANG_VEL_LIMIT as int);
    }
    let av2 = div_fp(av1 * ANGULAR_DRAG_KEEP, 100);
    let mut q = *p;
    q.transform.pos = pos;
    q.transform.angle = angle;
    q.vel = Velocity(v2);
    q.ang_vel = AngularVelocity(av2);
    *p = q;
}

} // verus!
