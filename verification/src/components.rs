//! Per-entity component values shared by the subsystems. All scalar
//! quantities are fixed-point thousandths (see [`crate::fp::SCALE`]).

use vstd::prelude::*;

use crate::fp::{cos_fp, cos_fp_spec, div_fp, sin_fp, sin_fp_spec, tdiv, SCALE};
use crate::vec2::{absi, in_box, lemma_tdiv_le, Vec2};

verus! {

/// Linear velocity, in thousandths of a world unit per tick.
#[derive(Clone, Copy, Debug, PartialEq, Eq, Structural)]
pub struct Velocity(pub Vec2);

/// Planar angular velocity, in milliradians per tick.
#[derive(Clone, Copy, Debug, PartialEq, Eq, Structural)]
pub struct AngularVelocity(pub i64);

/// Radius of the collision circle, in thousandths of a world unit.
#[derive(Clone, Copy, Debug, PartialEq, Eq, Structural)]
pub struct CollisionCircle {
    pub radius: i64,
}

/// Bounded energy resource, in thousandths of an energy unit.
#[derive(Clone, Copy, Debug, PartialEq, Eq, Structural)]
pub struct Energy(pub i64);

/// Remaining hit points.
#[derive(Clone, Copy, Debug, PartialEq, Eq, Structural)]
pub struct HitPoints(pub u32);

/// Remaining lives.
#[derive(Clone, Copy, Debug, PartialEq, Eq, Structural)]
pub struct Lives(pub u32);

/// Back-reference from a projectile to the entity that fired it, used
/// only to exclude self-hits.
#[derive(Clone, Copy, Debug, PartialEq, Eq, Structural)]
pub struct Originator(pub u64);

/// Planar placement of an entity or rig part: position, depth layer,
/// rotation angle in `[0, TAU_FP)` milliradians, and uniform scale in
/// thousandths.
#[derive(Clone, Copy, Debug, PartialEq, Eq, Structural)]
pub struct Transform2 {
    pub pos: Vec2,
    pub depth: i64,
    pub angle: i64,
    pub scale: i64,
}

pub fn transform_at(pos: Vec2, depth: i64, angle: i64, scale: i64) -> (r: Transform2)
    ensures
        r == (Transform2 { pos, depth, angle, scale }),
{
    Transform2 { pos, depth, angle, scale }
}

/// Where a local point lands in the parent frame: scaled, rotated by the
/// parent's angle, then translated.
pub open spec fn transform_point_spec(t: Transform2, p: Vec2) -> Vec2 {
    let sx = tdiv(p.x * t.scale, SCALE as int);
    let sy = tdiv(p.y * t.scale, SCALE as int);
    let c = cos_fp_spec(t.angle as int);
    let s = sin_fp_spec(t.angle as int);
    Vec2 {
        x: (t.pos.x + tdiv(sx * c - sy * s, SCALE as int)) as i64,
        y: (t.pos.y + tdiv(sx * s + sy * c, SCALE as int)) as i64,
    }
}

/// Carry a local point into the parent frame. For an unscaled parent
/// and a nearby point, the result stays near the parent's own position.
pub fn transform_point(t: &Transform2, p: Vec2) -> (r: Vec2)
    requires
        in_box(t.pos, 40_000_000),
        in_box(p, 5_000_000),
        0 <= t.angle < crate::fp::TAU_FP,
        0 < t.scale <= 7_000,
    ensures
        r == transform_point_spec(*t, p),
        in_box(r, 110_000_000),
        t.scale <= 1_000 && in_box(p, 2_200_000) ==> absi(r.x as int - t.pos.x as int)
            <= 4_400_000 && absi(r.y as int - t.pos.y as int) <= 4_400_000,
        in_box(p, 200_000) ==> absi(r.x as int - t.pos.x as int) <= 2_800_000 && absi(
            r.y as int - t.pos.y as int,
        ) <= 2_800_000,
{
    proof {
        assert(absi(p.x as int * t.scale as int) <= 35_000_000_000 && absi(
            p.y as int * t.scale as int,
        ) <= 35_000_000_000) by (nonlinear_arith)
            requires
                absi(p.x as int) <= 5_000_000,
                absi(p.y as int) <= 5_000_000,
                0 < t.scale <= 7_000,
        ;
        lemma_tdiv_le(p.x as int * t.scale as int, SCALE as int, 35_000_000);
        lemma_tdiv_le(p.y as int * t.scale as int, SCALE as int, 35_000_000);
        if t.scale <= 1_000 && in_box(p, 2_200_000) {
            assert(absi(p.x as int * t.scale as int) <= 2_200_000_000 && absi(
                p.y as int * t.scale as int,
            ) <= 2_200_000_000) by (nonlinear_arith)
                requires
                    absi(p.x as int) <= 2_200_000,
                    absi(p.y as int) <= 2_200_000,
                    0 < t.scale <= 1_000,
            ;
            lemma_tdiv_le(p.x as int * t.scale as int, SCALE as int, 2_200_000);
            lemma_tdiv_le(p.y as int * t.scale as int, SCALE as int, 2_200_000);
        }
        if in_box(p, 200_000) {
            assert(absi(p.x as int * t.scale as int) <= 1_400_000_000 && absi(
                p.y as int * t.scale as int,
            ) <= 1_400_000_000) by (nonlinear_arith)
                requires
                    absi(p.x as int) <= 200_000,
                    absi(p.y as int) <= 200_000,
                    0 < t.scale <= 7_000,
            ;
            lemma_tdiv_le(p.x as int * t.scale as int, SCALE as int, 1_400_000);
            lemma_tdiv_le(p.y as int * t.scale as int, SCALE as int, 1_400_000);
        }
    }
    let sx = div_fp(p.x * t.scale, SCALE);
    let sy = div_fp(p.y * t.scale, SCALE);
    let c = cos_fp(t.angle);
    let s = sin_fp(t.angle);
    proof {
        assert(absi(sx as int * c as int) <= 35_000_000_000 && absi(sy as int * s as int)
            <= 35_000_000_000 && absi(sx as int * s as int) <= 35_000_000_000 && absi(
            sy as int * c as int,
        ) <= 35_000_000_000) by (nonlinear_arith)
            requires
                absi(sx as int) <= 35_000_000,
                absi(sy as int) <= 35_000_000,
                -SCALE <= c <= SCALE,
                -SCALE <= s <= SCALE,
        ;
        lemma_tdiv_le(sx as int * c as int - sy as int * s as int, SCALE as int, 70_000_000);
        lemma_tdiv_le(sx as int * s as int + sy as int * c as int, SCALE as int, 70_000_000);
        if absi(sx as int) <= 1_400_000 && absi(sy as int) <= 1_400_000 {
            assert(absi(sx as int * c as int) <= 1_400_000_000 && absi(sy as int * s as int)
                <= 1_400_000_000 && absi(sx as int * s as int) <= 1_400_000_000 && absi(
                sy as int * c as int,
            ) <= 1_400_000_000) by (nonlinear_arith)
                requires
                    absi(sx as int) <= 1_400_000,
                    absi(sy as int) <= 1_400_000,
                    -SCALE <= c <= SCALE,
                    -SCALE <= s <= SCALE,
            ;
            lemma_tdiv_le(sx as int * c as int - sy as int * s as int, SCALE as int, 2_800_000);
            lemma_tdiv_le(sx as int * s as int + sy as int * c as int, SCALE as int, 2_800_000);
        }
        if absi(sx as int) <= 2_200_000 && absi(sy as int) <= 2_200_000 {
            assert(absi(sx as int * c as int) <= 2_200_000_000 && absi(sy as int * s as int)
                <= 2_200_000_000 && absi(sx as int * s as int) <= 2_200_000_000 && absi(
                sy as int * c as int,
            ) <= 2_200_000_000) by (nonlinear_arith)
                requires
                    absi(sx as int) <= 2_200_000,
                    absi(sy as int) <= 2_200_000,
                    -SCALE <= c <= SCALE,
                    -SCALE <= s <= SCALE,
            ;
            lemma_tdiv_le(sx as int * c as int - sy as int * s as int, SCALE as int, 4_400_000);
            lemma_tdiv_le(sx as int * s as int + sy as int * c as int, SCALE as int, 4_400_000);
        }
    }
    Vec2 {
        x: t.pos.x + div_fp(sx * c - sy * s, SCALE),
        y: t.pos.y + div_fp(sx * s + sy * c, SCALE),
    }
}

/// The placement a local frame occupies in the playfield: the local
/// position carried through the parent, the angles added, the depths
/// stacked and the scales multiplied.
pub open spec fn compose_spec(parent: Transform2, local: Transform2) -> Transform2 {
    Transform2 {
        pos: transform_point_spec(parent, local.pos),
        depth: (parent.depth + local.depth) as i64,
        angle: crate::fp::wrap_angle_spec(parent.angle + local.angle) as i64,
        scale: tdiv(parent.scale * local.scale, SCALE as int) as i64,
    }
}

/// Compose a parent frame with a rig part's local frame. An unscaled
/// part keeps the parent's scale, and a nearby part stays near the
/// parent's own position.
pub fn compose_transform(parent: &Transform2, local: &Transform2) -> (r: Transform2)
    requires
        in_box(parent.pos, 40_000_000),
        in_box(local.pos, 5_000_000),
        0 <= parent.angle < crate::fp::TAU_FP,
        0 <= local.angle < crate::fp::TAU_FP,
        0 < parent.scale <= 7_000,
        0 < local.scale <= 7_000,
        -200_000 <= parent.depth <= 200_000,
        -200_000 <= local.depth <= 200_000,
    ensures
        r == compose_spec(*parent, *local),
        0 <= r.angle < crate::fp::TAU_FP,
        local.scale == 1_000 ==> r.scale == parent.scale,
        in_box(local.pos, 200_000) ==> absi(r.pos.x as int - parent.pos.x as int) <= 2_800_000
            && absi(r.pos.y as int - parent.pos.y as int) <= 2_800_000,
{
    let pos = transform_point(parent, local.pos);
    proof {
        assert(0 < parent.scale as int * local.scale as int <= 49_000_000) by (nonlinear_arith)
            requires
                0 < parent.scale <= 7_000,
                0 < local.scale <= 7_000,
        ;
        lemma_tdiv_le(parent.scale as int * local.scale as int, SCALE as int, 49_000);
        if local.scale == 1_000 {
            assert((parent.scale as int * 1_000) / 1_000 == parent.scale as int)
                by (nonlinear_arith);
        }
    }
    let scale = div_fp(parent.scale * local.scale, SCALE);
    Transform2 {
        pos,
        depth: parent.depth + local.depth,
        angle: crate::fp::wrap_angle(parent.angle + local.angle),
        scale,
    }
}

} // verus!
