//! Projectile system: a fresh shoot gesture with enough energy and no
//! shield spawns a projectile along the shooter's heading, blended with
//! half the shooter's velocity and renormalized onto the fixed
//! projectile speed. Projectiles fly without drag, test every damageable
//! body except their own originator for the deepest interpenetration,
//! and on a hit either die against a shield or damage the target and
//! stick to the geometrically nearest part of its rig.

use vstd::prelude::*;

use crate::components::{CollisionCircle, Energy, HitPoints, Originator, Transform2};
use crate::fp::{cos_fp, cos_fp_spec, div_fp, sin_fp, sin_fp_spec, sqrt_floor, tdiv, SCALE,
    TAU_FP};
use crate::input::ActionState;
use crate::player::{player_wf, PlayerState, MAX_ENERGY, MAX_SCALE};
use crate::vec2::{absi, dist2, in_box, lemma_tdiv_le, norm2, vdist, vlen, Vec2};

verus! {

/// Energy one shot costs, in thousandths of an energy unit.
pub const PROJECTILE_ENERGY_COST: i64 = 1_000;

/// Cruise speed of a projectile, in thousandths of a world unit per
/// tick.
pub const PROJECTILE_SPEED: i64 = 12_000;

/// Uniform scale of the projectile sprite, in thousandths.
pub const PROJECTILE_SCALE: i64 = 200;

/// Radius of a projectile's collision circle, in thousandths of a world
/// unit.
pub const PROJECTILE_RADIUS: i64 = 12_800;

/// A projectile in flight.
#[derive(Clone, Copy, Debug, PartialEq, Eq, Structural)]
pub struct Projectile {
    pub transform: Transform2,
    pub vel: Vec2,
    pub circle: CollisionCircle,
    pub originator: Originator,
}

pub open spec fn projectile_wf(pr: Projectile) -> bool {
    &&& in_box(pr.transform.pos, 5_100_000)
    &&& in_box(pr.vel, 13_000)
    &&& 0 <= pr.circle.radius <= 1_000_000
    &&& 0 < pr.transform.scale <= MAX_SCALE
    &&& 0 <= pr.transform.angle < TAU_FP
    &&& -200_000 <= pr.transform.depth <= 200_000
}

/// Launch velocity: the heading's forward vector at projectile speed,
/// blended with half the shooter's velocity, renormalized onto the
/// projectile speed. A zero blend (impossible under the speed limit) is
/// the degenerate case and falls back to the pure forward vector.
pub open spec fn projectile_velocity_spec(angle: int, v: Vec2) -> Vec2 {
    let fx = tdiv(-sin_fp_spec(angle) * PROJECTILE_SPEED, SCALE as int);
    let fy = tdiv(cos_fp_spec(angle) * PROJECTILE_SPEED, SCALE as int);
    let h = Vec2 { x: (fx + tdiv(v.x as int, 2)) as i64, y: (fy + tdiv(v.y as int, 2)) as i64 };
    let l = sqrt_floor(norm2(h));
    if l == 0 {
        Vec2 { x: fx as i64, y: fy as i64 }
    } else {
        Vec2 {
            x: tdiv(h.x * PROJECTILE_SPEED, l) as i64,
            y: tdiv(h.y * PROJECTILE_SPEED, l) as i64,
        }
    }
}

/// Spawn the projectile a shooter's pose and velocity call for: at the
/// shooter's position one layer above it, tagged with the shooter as
/// originator so it can never hit its own shooter.
pub open spec fn spawned_projectile(p: PlayerState, shooter: u64) -> Projectile {
    Projectile {
        transform: Transform2 {
            pos: p.transform.pos,
            depth: (p.transform.depth + PROJECTILE_SCALE) as i64,
            angle: p.transform.angle,
            scale: PROJECTILE_SCALE,
        },
        vel: projectile_velocity_spec(p.transform.angle as int, p.vel.0),
        circle: CollisionCircle { radius: PROJECTILE_RADIUS },
        originator: Originator(shooter),
    }
}

/// Shoot on a fresh shoot gesture when energy covers the cost and no
/// shield is up: deduct the cost and hand back the spawned projectile.
/// On any other input the player is untouched and nothing spawns; a
/// shot is spawned if and only if all three conditions hold.
pub fn handle_shooting(p: &mut PlayerState, actions: &ActionState, shooter: u64) -> (r: Option<
    Projectile,
>)
    requires
        player_wf(*old(p)),
    ensures
        (r is Some) <==> (actions.shoot.just_pressed && old(p).energy.0
            >= PROJECTILE_ENERGY_COST && !old(p).shielded),
        r is None ==> *final(p) == *old(p),
        r matches Some(pr) ==> {
            &&& *final(p) == (PlayerState {
                energy: Energy((old(p).energy.0 - PROJECTILE_ENERGY_COST) as i64),
                ..*old(p)
            })
            &&& 0 <= final(p).energy.0 <= MAX_ENERGY
            &&& pr == spawned_projectile(*old(p), shooter)
            &&& projectile_wf(pr)
        },
        player_wf(*final(p)),
{
    if actions.shoot.just_pressed && p.energy.0 >= PROJECTILE_ENERGY_COST && !p.shielded {
        let s = sin_fp(p.transform.angle);
        let c = cos_fp(p.transform.angle);
        proof {
            lemma_tdiv_le(-s as int * PROJECTILE_SPEED as int, SCALE as int,
                PROJECTILE_SPEED as int);
            lemma_tdiv_le(c as int * PROJECTILE_SPEED as int, SCALE as int,
                PROJECTILE_SPEED as int);
            lemma_tdiv_le(p.vel.0.x as int, 2, 8_300);
            lemma_tdiv_le(p.vel.0.y as int, 2, 8_300);
        }
        let fx = div_fp(-s * PROJECTILE_SPEED, SCALE);
        let fy = div_fp(c * PROJECTILE_SPEED, SCALE);
        let h = Vec2 { x: fx + div_fp(p.vel.0.x, 2), y: fy + div_fp(p.vel.0.y, 2) };
        let l = vlen(h);
        let vel = if l == 0 {
            Vec2 { x: fx, y: fy }
        } else {
            proof {
                assert(absi(h.x as int) * PROJECTILE_SPEED <= l as int * PROJECTILE_SPEED
                    && absi(h.y as int) * PROJECTILE_SPEED <= l as int
                    * PROJECTILE_SPEED) by (nonlinear_arith)
                    requires
                        absi(h.x as int) <= l,
                        absi(h.y as int) <= l,
                        PROJECTILE_SPEED >= 0,
                ;
                lemma_tdiv_le(h.x as int * PROJECTILE_SPEED as int, l as int,
                    PROJECTILE_SPEED as int);
                lemma_tdiv_le(h.y as int * PROJECTILE_SPEED as int, l as int,
                    PROJECTILE_SPEED as int);
            }
            Vec2 { x: div_fp(h.x * PROJECTILE_SPEED, l), y: div_fp(h.y * PROJECTILE_SPEED, l) }
        };
        let pr = Projectile {
            transform: Transform2 {
                pos: p.transform.pos,
                depth: p.transform.depth + PROJECTILE_SCALE,
                angle: p.transform.angle,
                scale: PROJECTILE_SCALE,
            },
            vel,
            circle: CollisionCircle { radius: PROJECTILE_RADIUS },
            originator: Originator(shooter),
        };
        p.energy = Energy(p.energy.0 - PROJECTILE_ENERGY_COST);
        Some(pr)
    } else {
        None
    }
}

/// Advance one projectile by its velocity: no drag, no rotation.
pub fn move_projectile(pr: &mut Projectile)
    requires
        projectile_wf(*old(pr)),
        in_box(old(pr).transform.pos, 5_000_000),
    ensures
        final(pr).transform.pos.x == old(pr).transform.pos.x + old(pr).vel.x,
        final(pr).transform.pos.y == old(pr).transform.pos.y + old(pr).vel.y,
        final(pr).transform.depth == old(pr).transform.depth,
        final(pr).transform.angle == old(pr).transform.angle,
        final(pr).transform.scale == old(pr).transform.scale,
        final(pr).vel == old(pr).vel,
        final(pr).circle == old(pr).circle,
        final(pr).originator == old(pr).originator,
        projectile_wf(*final(pr)),
        in_box(final(pr).transform.pos, 5_013_000),
{
    pr.transform.pos = Vec2 {
        x: pr.transform.pos.x + pr.vel.x,
        y: pr.transform.pos.y + pr.vel.y,
    };
}

/// One damageable body as the hit test sees it.
#[derive(Clone, Copy, Debug, PartialEq, Eq, Structural)]
pub struct Target {
    pub id: u64,
    pub pos: Vec2,
    pub radius: i64,
}

pub open spec fn target_wf(t: Target) -> bool {
    &&& in_box(t.pos, 5_000_000)
    &&& 0 <= t.radius <= 1_000_000
}

/// How deep a projectile and a target interpenetrate: non-positive means
/// a hit.
pub open spec fn target_penetration(pr: Projectile, t: Target) -> int {
    sqrt_floor(dist2(pr.transform.pos, t.pos)) - t.radius - pr.circle.radius
}

/// Among all targets except the projectile's own originator, pick the
/// one the projectile interpenetrates deepest; it is hit when the
/// penetration is non-positive. The originator is never hit, whatever
/// the relative positions; between targets tied at the minimal
/// penetration the choice is arbitrary.
pub fn find_hit(pr: &Projectile, targets: &Vec<Target>) -> (r: Option<usize>)
    requires
        projectile_wf(*pr),
        forall|k: int| 0 <= k < targets@.len() ==> target_wf(#[trigger] targets@[k]),
    ensures
        match r {
            Some(i) => {
                &&& 0 <= i < targets@.len()
                &&& targets@[i as int].id != pr.originator.0
                &&& target_penetration(*pr, targets@[i as int]) <= 0
                &&& forall|j: int|
                    0 <= j < targets@.len() && (#[trigger] targets@[j]).id != pr.originator.0
                        ==> target_penetration(*pr, targets@[j]) >= target_penetration(
                        *pr,
                        targets@[i as int],
                    )
            },
            None => forall|j: int|
                0 <= j < targets@.len() && (#[trigger] targets@[j]).id != pr.originator.0
                    ==> target_penetration(*pr, targets@[j]) > 0,
        },
{
    let n = targets.len();
    let mut best: Option<(usize, i64)> = None;
    let mut i: usize = 0;
    while i < n
        invariant
            i <= n == targets@.len(),
            projectile_wf(*pr),
            forall|k: int| 0 <= k < n ==> target_wf(#[trigger] targets@[k]),
            match best {
                Some((bi, bp)) => {
                    &&& 0 <= bi < i
                    &&& targets@[bi as int].id != pr.originator.0
                    &&& bp == target_penetration(*pr, targets@[bi as int])
                    &&& forall|j: int|
                        0 <= j < i && (#[trigger] targets@[j]).id != pr.originator.0
                            ==> target_penetration(*pr, targets@[j]) >= bp
                },
                None => forall|j: int|
                    0 <= j < i ==> (#[trigger] targets@[j]).id == pr.originator.0,
            },
        decreases n - i,
    {
        let t = &targets[i];
        if t.id != pr.originator.0 {
            let d = vdist(pr.transform.pos, t.pos);
            let pen = d - t.radius - pr.circle.radius;
            best = match best {
                Some((bi, bp)) => if pen < bp {
                    Some((i, pen))
                } else {
                    Some((bi, bp))
                },
                None => Some((i, pen)),
            };
        }
        i = i + 1;
    }
    match best {
        Some((bi, bp)) => if bp <= 0 {
            Some(bi)
        } else {
            None
        },
        None => None,
    }
}

/// What a projectile strike did to its target.
#[derive(Clone, Copy, Debug, PartialEq, Eq, Structural)]
pub enum HitOutcome {
    /// The target was shielded: no damage; the projectile dies in a
    /// cosmetic burst.
    Blocked,
    /// One hit point was taken and the target survives; the projectile
    /// sticks to the rig.
    Damaged,
    /// The hit took the last hit point: the target is now dead.
    Killed,
}

/// Apply one qualifying projectile hit to its target: a shielded target
/// takes no damage at all; otherwise hit points drop by exactly one,
/// never below zero, and reaching zero marks the target dead, exactly
/// once.
pub fn apply_hit(p: &mut PlayerState) -> (r: HitOutcome)
    requires
        player_wf(*old(p)),
    ensures
        old(p).shielded ==> *final(p) == *old(p) && r == HitOutcome::Blocked,
        !old(p).shielded ==> final(p).hp.0 == if old(p).hp.0 > 0 {
            (old(p).hp.0 - 1) as u32
        } else {
            0u32
        },
        !old(p).shielded ==> final(p).dead == (old(p).dead || old(p).hp.0 == 1),
        final(p).hp.0 <= old(p).hp.0,
        old(p).hp.0 - final(p).hp.0 <= 1,
        (!old(p).dead && final(p).dead) <==> (!old(p).shielded && !old(p).dead && old(p).hp.0
            == 1),
        r == HitOutcome::Blocked <==> old(p).shielded,
        r == HitOutcome::Killed <==> (!old(p).shielded && old(p).hp.0 == 1),
        final(p).transform == old(p).transform,
        final(p).vel == old(p).vel && final(p).ang_vel == old(p).ang_vel,
        final(p).energy == old(p).energy,
        final(p).lives == old(p).lives,
        final(p).circle == old(p).circle,
        final(p).shielded == old(p).shielded,
        old(p).dead ==> final(p).dead,
        player_wf(*final(p)),
{
    if p.shielded {
        HitOutcome::Blocked
    } else {
        if p.hp.0 > 0 {
            p.hp = HitPoints(p.hp.0 - 1);
            if p.hp.0 == 0 {
                p.dead = true;
                HitOutcome::Killed
            } else {
                HitOutcome::Damaged
            }
        } else {
            HitOutcome::Damaged
        }
    }
}

/// Index of the rig part geometrically nearest the impact point; ties
/// are arbitrary. Nothing comes back only when the rig is empty.
pub fn nearest_part(parts: &Vec<Vec2>, impact: Vec2) -> (r: Option<usize>)
    requires
        forall|k: int| 0 <= k < parts@.len() ==> in_box(#[trigger] parts@[k], 10_000_000),
        in_box(impact, 10_000_000),
    ensures
        match r {
            Some(i) => {
                &&& 0 <= i < parts@.len()
                &&& forall|j: int|
                    0 <= j < parts@.len() ==> dist2(#[trigger] parts@[j], impact) >= dist2(
                        parts@[i as int],
                        impact,
                    )
            },
            None => parts@.len() == 0,
        },
{
    let n = parts.len();
    let mut best: Option<(usize, i64)> = None;
    let mut i: usize = 0;
    while i < n
        invariant
            i <= n == parts@.len(),
            in_box(impact, 10_000_000),
            forall|k: int| 0 <= k < n ==> in_box(#[trigger] parts@[k], 10_000_000),
            match best {
                Some((bi, bd)) => {
                    &&& 0 <= bi < i
                    &&& bd == dist2(parts@[bi as int], impact)
                    &&& forall|j: int|
                        0 <= j < i ==> dist2(#[trigger] parts@[j], impact) >= bd
                },
                None => i == 0,
            },
        decreases n - i,
    {
        let d = crate::vec2::vdist2(parts[i], impact);
        best = match best {
            Some((bi, bd)) => if d < bd {
                Some((i, d))
            } else {
                Some((bi, bd))
            },
            None => Some((i, d)),
        };
        i = i + 1;
    }
    match best {
        Some((bi, _)) => Some(bi),
        None => None,
    }
}

/// A projectile's local placement after sticking to a rig part: the
/// impact offset carried into the part's frame (inverse rotation, then
/// the inverse scale with the wound pulled slightly inward), one layer
/// above the part, with the scale re-expressed relative to the part.
pub open spec fn attach_spec(proj: Transform2, parent: Transform2) -> Transform2 {
    let dx = proj.pos.x - parent.pos.x;
    let dy = proj.pos.y - parent.pos.y;
    let c = cos_fp_spec(parent.angle as int);
    let s = sin_fp_spec(parent.angle as int);
    let rx = tdiv(dx * c + dy * s, SCALE as int);
    let ry = tdiv(dy * c - dx * s, SCALE as int);
    Transform2 {
        pos: Vec2 {
            x: tdiv(rx * 800, parent.scale as int) as i64,
            y: tdiv(ry * 800, parent.scale as int) as i64,
        },
        depth: (tdiv((proj.depth - parent.depth) * 800, parent.scale as int) + 3_000) as i64,
        angle: 0,
        scale: tdiv(proj.scale * SCALE as int, parent.scale as int) as i64,
    }
}

/// Recompute a spent projectile's transform relative to the rig part it
/// sticks to.
pub fn attach_local_transform(proj: &Transform2, parent: &Transform2) -> (r: Transform2)
    requires
        in_box(proj.pos, 10_000_000),
        in_box(parent.pos, 10_000_000),
        -400_000 <= proj.depth <= 400_000,
        -400_000 <= parent.depth <= 400_000,
        0 <= parent.angle < TAU_FP,
        0 < parent.scale <= MAX_SCALE,
        0 < proj.scale <= MAX_SCALE,
    ensures
        r == attach_spec(*proj, *parent),
{
    let dx = proj.pos.x - parent.pos.x;
    let dy = proj.pos.y - parent.pos.y;
    let c = cos_fp(parent.angle);
    let s = sin_fp(parent.angle);
    proof {
        assert(absi(dx as int * c as int) <= 20_000_000_000 && absi(dy as int * s as int)
            <= 20_000_000_000 && absi(dx as int * s as int) <= 20_000_000_000 && absi(
            dy as int * c as int,
        ) <= 20_000_000_000) by (nonlinear_arith)
            requires
                absi(dx as int) <= 20_000_000,
                absi(dy as int) <= 20_000_000,
                -SCALE <= c <= SCALE,
                -SCALE <= s <= SCALE,
        ;
        lemma_tdiv_le(dx as int * c as int + dy as int * s as int, SCALE as int, 40_000_000);
        lemma_tdiv_le(dy as int * c as int - dx as int * s as int, SCALE as int, 40_000_000);
    }
    let rx = div_fp(dx * c + dy * s, SCALE);
    let ry = div_fp(dy * c - dx * s, SCALE);
    proof {
        lemma_tdiv_le(rx as int * 800, parent.scale as int, 32_000_000_000);
        lemma_tdiv_le(ry as int * 800, parent.scale as int, 32_000_000_000);
        lemma_tdiv_le((proj.depth - parent.depth) as int * 800, parent.scale as int,
            640_000_000);
        lemma_tdiv_le(proj.scale as int * SCALE as int, parent.scale as int, 7_000_000);
    }
    Transform2 {
        pos: Vec2 {
            x: div_fp(rx * 800, parent.scale),
            y: div_fp(ry * 800, parent.scale),
        },
        depth: div_fp((proj.depth - parent.depth) * 800, parent.scale) + 3_000,
        angle: 0,
        scale: div_fp(proj.scale * SCALE, parent.scale),
    }
}

} // verus!
