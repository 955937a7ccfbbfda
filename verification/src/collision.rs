//! Positional collision resolution: after movement, overlapping circles
//! are pushed apart symmetrically along the line between their centers,
//! and every body is clamped against the four playfield boundaries with
//! a sliding velocity response. The solver iterates up to a fixed cap
//! and stops early once an iteration makes no correction; it guarantees
//! approximate non-penetration, not physical accuracy. The quadratic
//! pass over all pairs is acceptable at this game's small body counts
//! but is a scaling limit.

use vstd::prelude::*;

use crate::configuration::{LOGICAL_HEIGHT, LOGICAL_WIDTH};
use crate::fp::{div_fp, sq, sqrt_floor, tdiv, SCALE};
use crate::player::MAX_RADIUS;
use crate::vec2::{absi, dist2, in_box, lemma_tdiv_le, lemma_tdiv_sign, vdist, Vec2};

verus! {

/// Cap on resolution iterations per tick: beyond it, residual overlap is
/// accepted rather than looping forever. A tunable, not a protocol.
pub const COLLISION_ITERATIONS: usize = 10;

/// Buffer added to every correction so floating residue cannot
/// immediately re-trigger the same collision, in thousandths of a world
/// unit.
pub const COLLISION_MARGIN: i64 = 100;

/// Most bodies the solver accepts in one pass.
pub const MAX_BODIES: usize = 32;

/// Box around the origin that body positions handed to the solver stay
/// in.
pub const BODY_POS_LIMIT: i64 = 5_000_000;

/// Box that positions may visit while a pass is still pushing pairs
/// apart.
pub const PASS_POS_LIMIT: i64 = 1_050_000_000;

/// Largest single push a pair correction applies to one coordinate.
pub const PUSH_LIMIT: i64 = 1_000_100;

/// One solid body the solver works on: the collision-relevant slice of
/// an entity.
#[derive(Clone, Copy, Debug, PartialEq, Eq, Structural)]
pub struct Body {
    pub pos: Vec2,
    pub vel: Vec2,
    pub radius: i64,
}

/// What the solver requires of each body it is handed.
pub open spec fn body_wf(b: Body) -> bool {
    &&& in_box(b.pos, BODY_POS_LIMIT as int)
    &&& 0 <= b.radius <= MAX_RADIUS
    &&& in_box(b.vel, 100_000)
}

/// Two circles whose center distance reaches the sum of their radii.
pub open spec fn pair_separated(a: Body, b: Body) -> bool {
    sqrt_floor(dist2(a.pos, b.pos)) >= a.radius + b.radius
}

/// No overlapping pair anywhere in the sequence.
pub open spec fn all_separated(s: Seq<Body>) -> bool {
    forall|i: int, j: int| 0 <= i < j < s.len() ==> pair_separated(#[trigger] s[i], #[trigger] s[j])
}

/// The whole collision circle lies within the playfield.
pub open spec fn body_inside_walls(b: Body) -> bool {
    crate::player::inside_walls(b.pos, b.radius as int)
}

/// The center lies within the playfield rectangle (what one solver pass
/// guarantees even for oversized bodies).
pub open spec fn body_in_field(b: Body) -> bool {
    &&& 0 <= b.pos.x <= LOGICAL_WIDTH
    &&& 0 <= b.pos.y <= LOGICAL_HEIGHT
}

/// Where an overlapping pair is pushed: both bodies move half the
/// penetration depth plus the margin apart along the connecting unit
/// direction; coincident centers are the degenerate case and move
/// nothing.
pub open spec fn pair_pushed(a: Body, b: Body) -> (Body, Body) {
    let d = sqrt_floor(dist2(a.pos, b.pos));
    if d == 0 {
        (a, b)
    } else {
        let corr = tdiv(d - a.radius - b.radius, 2) - COLLISION_MARGIN as int;
        let nx = tdiv((b.pos.x - a.pos.x) * SCALE as int, d);
        let ny = tdiv((b.pos.y - a.pos.y) * SCALE as int, d);
        let sx = tdiv(nx * corr, SCALE as int);
        let sy = tdiv(ny * corr, SCALE as int);
        (
            Body {
                pos: Vec2 { x: (a.pos.x + sx) as i64, y: (a.pos.y + sy) as i64 },
                vel: a.vel,
                radius: a.radius,
            },
            Body {
                pos: Vec2 { x: (b.pos.x - sx) as i64, y: (b.pos.y - sy) as i64 },
                vel: b.vel,
                radius: b.radius,
            },
        )
    }
}

/// Resolve one unordered pair: when the circles overlap, push them apart
/// as [`pair_pushed`] says and report the collision. The push never
/// brings the centers closer: the pair's overlap is non-increasing.
pub fn pair_correction(a: Body, b: Body) -> (r: (Body, Body, bool))
    requires
        in_box(a.pos, PASS_POS_LIMIT as int),
        in_box(b.pos, PASS_POS_LIMIT as int),
        0 <= a.radius <= MAX_RADIUS,
        0 <= b.radius <= MAX_RADIUS,
    ensures
        r.2 == (sqrt_floor(dist2(a.pos, b.pos)) < a.radius + b.radius),
        r.2 ==> (r.0, r.1) == pair_pushed(a, b),
        !r.2 ==> r.0 == a && r.1 == b,
        r.0.vel == a.vel && r.0.radius == a.radius,
        r.1.vel == b.vel && r.1.radius == b.radius,
        absi(r.0.pos.x - a.pos.x) <= PUSH_LIMIT && absi(r.0.pos.y - a.pos.y) <= PUSH_LIMIT,
        absi(r.1.pos.x - b.pos.x) <= PUSH_LIMIT && absi(r.1.pos.y - b.pos.y) <= PUSH_LIMIT,
        dist2(r.0.pos, r.1.pos) >= dist2(a.pos, b.pos),
{
    let d = vdist(a.pos, b.pos);
    if d < a.radius + b.radius {
        if d == 0 {
            return (a, b, true);
        }
        let corr = div_fp(d - a.radius - b.radius, 2) - COLLISION_MARGIN;
        proof {
            lemma_tdiv_le(d - a.radius - b.radius, 2, MAX_RADIUS as int);
            lemma_tdiv_sign(d - a.radius - b.radius, 2);
        }
        let dx = b.pos.x - a.pos.x;
        let dy = b.pos.y - a.pos.y;
        proof {
            assert(-(d as int) <= dx <= d as int && -(d as int) <= dy <= d as int);
            assert(-(SCALE as int) * (d as int) <= dx * (SCALE as int) && dx * (SCALE as int)
                <= (SCALE as int) * (d as int)) by (nonlinear_arith)
                requires
                    -(d as int) <= dx <= d as int,
            ;
            assert(-(SCALE as int) * (d as int) <= dy * (SCALE as int) && dy * (SCALE as int)
                <= (SCALE as int) * (d as int)) by (nonlinear_arith)
                requires
                    -(d as int) <= dy <= d as int,
            ;
            lemma_tdiv_le(dx * SCALE as int, d as int, SCALE as int);
            lemma_tdiv_le(dy * SCALE as int, d as int, SCALE as int);
        }
        let nx = div_fp(dx * SCALE, d);
        let ny = div_fp(dy * SCALE, d);
        proof {
            assert(-(SCALE as int) * (PUSH_LIMIT as int) <= nx * corr <= SCALE as int
                * PUSH_LIMIT as int) by (nonlinear_arith)
                requires
                    -SCALE <= nx <= SCALE,
                    -PUSH_LIMIT <= corr <= 0,
            ;
            assert(-(SCALE as int) * (PUSH_LIMIT as int) <= ny * corr <= SCALE as int
                * PUSH_LIMIT as int) by (nonlinear_arith)
                requires
                    -SCALE <= ny <= SCALE,
                    -PUSH_LIMIT <= corr <= 0,
            ;
            lemma_tdiv_le(nx * corr, SCALE as int, PUSH_LIMIT as int);
            lemma_tdiv_le(ny * corr, SCALE as int, PUSH_LIMIT as int);
        }
        let sx = div_fp(nx * corr, SCALE);
        let sy = div_fp(ny * corr, SCALE);
        proof {
            lemma_tdiv_sign(dx * SCALE as int, d as int);
            lemma_tdiv_sign(dy * SCALE as int, d as int);
            if dx >= 0 {
                assert(nx * corr <= 0) by (nonlinear_arith)
                    requires
                        nx >= 0,
                        corr <= 0,
                ;
            } else {
                assert(nx * corr >= 0) by (nonlinear_arith)
                    requires
                        nx <= 0,
                        corr <= 0,
                ;
            }
            if dy >= 0 {
                assert(ny * corr <= 0) by (nonlinear_arith)
                    requires
                        ny >= 0,
                        corr <= 0,
                ;
            } else {
                assert(ny * corr >= 0) by (nonlinear_arith)
                    requires
                        ny <= 0,
                        corr <= 0,
                ;
            }
            lemma_tdiv_sign(nx * corr, SCALE as int);
            lemma_tdiv_sign(ny * corr, SCALE as int);
        }
        let na = Body {
            pos: Vec2 { x: a.pos.x + sx, y: a.pos.y + sy },
            vel: a.vel,
            radius: a.radius,
        };
        let nb = Body {
            pos: Vec2 { x: b.pos.x - sx, y: b.pos.y - sy },
            vel: b.vel,
            radius: b.radius,
        };
        proof {
            let ndx = nb.pos.x as int - na.pos.x as int;
            let ndy = nb.pos.y as int - na.pos.y as int;
            assert(ndx == dx - 2 * sx && ndy == dy - 2 * sy);
            assert(sq(ndx) >= sq(dx as int)) by (nonlinear_arith)
                requires
                    ndx == dx - 2 * sx,
                    dx >= 0 ==> sx <= 0,
                    dx < 0 ==> sx >= 0,
            ;
            assert(sq(ndy) >= sq(dy as int)) by (nonlinear_arith)
                requires
                    ndy == dy - 2 * sy,
                    dy >= 0 ==> sy <= 0,
                    dy < 0 ==> sy >= 0,
            ;
            assert(sq(a.pos.x as int - b.pos.x as int) == sq(dx as int)) by (nonlinear_arith)
                requires
                    a.pos.x as int - b.pos.x as int == -(dx as int),
            ;
            assert(sq(a.pos.y as int - b.pos.y as int) == sq(dy as int)) by (nonlinear_arith)
                requires
                    a.pos.y as int - b.pos.y as int == -(dy as int),
            ;
            assert(sq(na.pos.x as int - nb.pos.x as int) == sq(ndx)) by (nonlinear_arith)
                requires
                    na.pos.x as int - nb.pos.x as int == -ndx,
            ;
            assert(sq(na.pos.y as int - nb.pos.y as int) == sq(ndy)) by (nonlinear_arith)
                requires
                    na.pos.y as int - nb.pos.y as int == -ndy,
            ;
        }
        (na, nb, true)
    } else {
        (a, b, false)
    }
}

/// A body clamped against the east wall.
pub open spec fn clamp_east(b: Body) -> Body {
    if b.pos.x + b.radius > LOGICAL_WIDTH {
        Body {
            pos: Vec2 {
                x: (LOGICAL_WIDTH - b.radius - COLLISION_MARGIN) as i64,
                y: b.pos.y,
            },
            vel: Vec2 { x: 0, y: b.vel.y },
            radius: b.radius,
        }
    } else {
        b
    }
}

/// A body clamped against the north wall.
pub open spec fn clamp_north(b: Body) -> Body {
    if b.pos.y + b.radius > LOGICAL_HEIGHT {
        Body {
            pos: Vec2 {
                x: b.pos.x,
                y: (LOGICAL_HEIGHT - b.radius - COLLISION_MARGIN) as i64,
            },
            vel: Vec2 { x: b.vel.x, y: 0 },
            radius: b.radius,
        }
    } else {
        b
    }
}

/// A body clamped against the west wall.
pub open spec fn clamp_west(b: Body) -> Body {
    if b.pos.x - b.radius < 0 {
        Body {
            pos: Vec2 { x: (b.radius + COLLISION_MARGIN) as i64, y: b.pos.y },
            vel: Vec2 { x: 0, y: b.vel.y },
            radius: b.radius,
        }
    } else {
        b
    }
}

/// A body clamped against the south wall.
pub open spec fn clamp_south(b: Body) -> Body {
    if b.pos.y - b.radius < 0 {
        Body {
            pos: Vec2 { x: b.pos.x, y: (b.radius + COLLISION_MARGIN) as i64 },
            vel: Vec2 { x: b.vel.x, y: 0 },
            radius: b.radius,
        }
    } else {
        b
    }
}

/// The four wall clamps in the order the solver applies them.
pub open spec fn wall_clamped(b: Body) -> Body {
    clamp_south(clamp_west(clamp_north(clamp_east(b))))
}

/// Whether any of the four staged clamps triggers.
pub open spec fn wall_hit(b: Body) -> bool {
    let b1 = clamp_east(b);
    let b2 = clamp_north(b1);
    let b3 = clamp_west(b2);
    ||| b.pos.x + b.radius > LOGICAL_WIDTH
    ||| b1.pos.y + b1.radius > LOGICAL_HEIGHT
    ||| b2.pos.x - b2.radius < 0
    ||| b3.pos.y - b3.radius < 0
}

/// Whether two circles overlap: the pass pushes exactly these pairs.
pub open spec fn pair_hit(a: Body, b: Body) -> bool {
    sqrt_floor(dist2(a.pos, b.pos)) < a.radius + b.radius
}

/// The pair phase of one pass, resumed at pair `(i, j)`: every
/// unordered pair in scan order, each overlapping one pushed by
/// [`pair_pushed`], together with whether any pair overlapped.
pub open spec fn pairs_pass_from(s: Seq<Body>, i: int, j: int) -> (Seq<Body>, bool)
    decreases s.len() - i, s.len() - j + 2,
{
    if i < 0 || j < i + 1 || i >= s.len() {
        (s, false)
    } else if j >= s.len() {
        pairs_pass_from(s, i + 1, i + 2)
    } else {
        let hit = pair_hit(s[i], s[j]);
        let pushed = pair_pushed(s[i], s[j]);
        let s1 = if hit {
            s.update(i, pushed.0).update(j, pushed.1)
        } else {
            s
        };
        let rest = pairs_pass_from(s1, i, j + 1);
        (rest.0, hit || rest.1)
    }
}

/// The wall phase of one pass, resumed at body `k`: every body clamped
/// by [`wall_clamped`], together with whether any clamp fired.
pub open spec fn walls_pass_from(s: Seq<Body>, k: int) -> (Seq<Body>, bool)
    decreases s.len() - k,
{
    if k < 0 || k >= s.len() {
        (s, false)
    } else {
        let rest = walls_pass_from(s.update(k, wall_clamped(s[k])), k + 1);
        (rest.0, wall_hit(s[k]) || rest.1)
    }
}

/// One full resolution pass: the pair phase, then the wall phase, and
/// whether either made a correction.
pub open spec fn pass_spec(s: Seq<Body>) -> (Seq<Body>, bool) {
    let p = pairs_pass_from(s, 0, 1);
    let w = walls_pass_from(p.0, 0);
    (w.0, p.1 || w.1)
}

/// The whole solver on a budget of passes: run passes until one makes
/// no correction or the budget runs out. Yields the final bodies,
/// whether the run converged, and how many passes ran.
pub open spec fn run_solver(s: Seq<Body>, fuel: int) -> (Seq<Body>, bool, int)
    decreases fuel,
{
    if fuel <= 0 {
        (s, false, 0)
    } else {
        let p = pass_spec(s);
        if !p.1 {
            (p.0, true, 1)
        } else {
            let r = run_solver(p.0, fuel - 1);
            (r.0, r.1, r.2 + 1)
        }
    }
}

/// Clamp one body against the four playfield boundaries: a clamped
/// coordinate lands one margin inside its wall and the velocity
/// component perpendicular to that wall is zeroed (sliding response).
pub fn wall_clamp(b: Body) -> (r: (Body, bool))
    requires
        in_box(b.pos, PASS_POS_LIMIT as int),
        0 <= b.radius <= MAX_RADIUS,
        in_box(b.vel, 100_000),
    ensures
        r.0 == wall_clamped(b),
        r.1 == wall_hit(b),
        !r.1 ==> r.0 == b && body_inside_walls(b),
        r.0.radius == b.radius,
        body_in_field(r.0),
        in_box(r.0.vel, 100_000),
        absi(r.0.vel.x as int) <= absi(b.vel.x as int),
        absi(r.0.vel.y as int) <= absi(b.vel.y as int),
{
    let mut c = b;
    let mut hit = false;
    if c.pos.x + c.radius > LOGICAL_WIDTH {
        c.pos.x = LOGICAL_WIDTH - c.radius - COLLISION_MARGIN;
        c.vel = Vec2 { x: 0, y: c.vel.y };
        hit = true;
    }
    proof {
        assert(c == clamp_east(b));
    }
    if c.pos.y + c.radius > LOGICAL_HEIGHT {
        c.pos.y = LOGICAL_HEIGHT - c.radius - COLLISION_MARGIN;
        c.vel = Vec2 { x: c.vel.x, y: 0 };
        hit = true;
    }
    proof {
        assert(c == clamp_north(clamp_east(b)));
    }
    if c.pos.x - c.radius < 0 {
        c.pos.x = c.radius + COLLISION_MARGIN;
        c.vel = Vec2 { x: 0, y: c.vel.y };
        hit = true;
    }
    proof {
        assert(c == clamp_west(clamp_north(clamp_east(b))));
    }
    if c.pos.y - c.radius < 0 {
        c.pos.y = c.radius + COLLISION_MARGIN;
        c.vel = Vec2 { x: c.vel.x, y: 0 };
        hit = true;
    }
    (c, hit)
}

/// One full resolution iteration: push every overlapping unordered pair
/// apart, then clamp every body against the walls. Reports whether any
/// correction occurred; when none did, the bodies are untouched, every
/// pair is separated and every body sits inside the walls.
pub fn collision_pass(bodies: &mut Vec<Body>) -> (found: bool)
    requires
        old(bodies)@.len() <= MAX_BODIES,
        forall|k: int| 0 <= k < old(bodies)@.len() ==> body_wf(#[trigger] old(bodies)@[k]),
    ensures
        final(bodies)@.len() == old(bodies)@.len(),
        forall|k: int|
            0 <= k < final(bodies)@.len() ==> (#[trigger] final(bodies)@[k]).radius == old(
                bodies,
            )@[k].radius,
        forall|k: int|
            0 <= k < final(bodies)@.len() ==> in_box((#[trigger] final(bodies)@[k]).vel, 100_000),
        forall|k: int|
            0 <= k < final(bodies)@.len() ==> absi((#[trigger] final(bodies)@[k]).vel.x as int)
                <= absi(old(bodies)@[k].vel.x as int) && absi(final(bodies)@[k].vel.y as int)
                <= absi(old(bodies)@[k].vel.y as int),
        forall|k: int|
            0 <= k < final(bodies)@.len() ==> body_in_field(#[trigger] final(bodies)@[k]),
        !found ==> final(bodies)@ =~= old(bodies)@,
        !found ==> all_separated(final(bodies)@),
        !found ==> forall|k: int|
            0 <= k < final(bodies)@.len() ==> body_inside_walls(#[trigger] final(bodies)@[k]),
        final(bodies)@ == pass_spec(old(bodies)@).0,
        found == pass_spec(old(bodies)@).1,
{
    let n = bodies.len();
    let mut found = false;
    let mut i: usize = 0;
    while i < n
        invariant
            n == bodies@.len() == old(bodies)@.len(),
            n <= MAX_BODIES,
            i <= n,
            forall|k: int|
                0 <= k < n ==> (#[trigger] bodies@[k]).radius == old(bodies)@[k].radius,
            forall|k: int| 0 <= k < n ==> 0 <= (#[trigger] bodies@[k]).radius <= MAX_RADIUS,
            forall|k: int| 0 <= k < n ==> (#[trigger] bodies@[k]).vel == old(bodies)@[k].vel,
            forall|k: int|
                0 <= k < n ==> in_box(
                    (#[trigger] bodies@[k]).pos,
                    BODY_POS_LIMIT as int + (i * n) * PUSH_LIMIT as int,
                ),
            !found ==> bodies@ =~= old(bodies)@,
            !found ==> forall|p: int, q: int|
                0 <= p < q < n && p < i ==> pair_separated(
                    #[trigger] bodies@[p],
                    #[trigger] bodies@[q],
                ),
            ({
                let full = pairs_pass_from(old(bodies)@, 0, 1);
                let rest = pairs_pass_from(bodies@, i as int, i as int + 1);
                full.0 == rest.0 && full.1 == (found || rest.1)
            }),
        decreases n - i,
    {
        let mut j: usize = i + 1;
        while j < n
            invariant
                n == bodies@.len() == old(bodies)@.len(),
                n <= MAX_BODIES,
                i < n,
                i + 1 <= j <= n,
                forall|k: int|
                    0 <= k < n ==> (#[trigger] bodies@[k]).radius == old(bodies)@[k].radius,
                forall|k: int| 0 <= k < n ==> 0 <= (#[trigger] bodies@[k]).radius <= MAX_RADIUS,
                forall|k: int| 0 <= k < n ==> (#[trigger] bodies@[k]).vel == old(bodies)@[k].vel,
                forall|k: int|
                    0 <= k < n ==> in_box(
                        (#[trigger] bodies@[k]).pos,
                        BODY_POS_LIMIT as int + (i * n + j) * PUSH_LIMIT as int,
                    ),
                !found ==> bodies@ =~= old(bodies)@,
                !found ==> forall|p: int, q: int|
                    0 <= p < q < n && (p < i || (p == i && q < j)) ==> pair_separated(
                        #[trigger] bodies@[p],
                        #[trigger] bodies@[q],
                    ),
                ({
                    let full = pairs_pass_from(old(bodies)@, 0, 1);
                    let rest = pairs_pass_from(bodies@, i as int, j as int);
                    full.0 == rest.0 && full.1 == (found || rest.1)
                }),
            decreases n - j,
        {
            proof {
                assert(i * n + j <= 1024) by (nonlinear_arith)
                    requires
                        0 <= i < n,
                        0 <= j <= n,
                        n <= 32,
                ;
            }
            let ghost pre = bodies@;
            let a = bodies[i];
            let b = bodies[j];
            let (na, nb, hit) = pair_correction(a, b);
            if hit {
                bodies[i] = na;
                bodies[j] = nb;
                found = true;
            }
            proof {
                assert((i * n + j + 1) * PUSH_LIMIT as int == (i * n + j) * PUSH_LIMIT as int
                    + PUSH_LIMIT as int) by (nonlinear_arith);
                let stepped = if pair_hit(pre[i as int], pre[j as int]) {
                    pre.update(i as int, pair_pushed(pre[i as int], pre[j as int]).0).update(
                        j as int,
                        pair_pushed(pre[i as int], pre[j as int]).1,
                    )
                } else {
                    pre
                };
                assert(bodies@ == stepped);
                assert(pairs_pass_from(pre, i as int, j as int) == ({
                    let rest = pairs_pass_from(stepped, i as int, j as int + 1);
                    (rest.0, pair_hit(pre[i as int], pre[j as int]) || rest.1)
                }));
            }
            j = j + 1;
        }
        proof {
            assert((i + 1) * n == i * n + n) by (nonlinear_arith);
            assert(pairs_pass_from(bodies@, i as int, n as int) == pairs_pass_from(
                bodies@,
                i as int + 1,
                i as int + 2,
            ));
        }
        i = i + 1;
    }
    proof {
        assert(i * n <= 1024) by (nonlinear_arith)
            requires
                i == n,
                n <= 32,
        ;
    }
    proof {
        assert(pairs_pass_from(bodies@, i as int, i as int + 1) == (bodies@, false));
        assert(pairs_pass_from(old(bodies)@, 0, 1) == (bodies@, found));
    }
    let mut k: usize = 0;
    while k < n
        invariant
            n == bodies@.len() == old(bodies)@.len(),
            n <= MAX_BODIES,
            k <= n,
            forall|m: int|
                0 <= m < n ==> (#[trigger] bodies@[m]).radius == old(bodies)@[m].radius,
            forall|m: int| 0 <= m < n ==> 0 <= (#[trigger] bodies@[m]).radius <= MAX_RADIUS,
            forall|m: int| 0 <= m < n ==> in_box((#[trigger] bodies@[m]).vel, 100_000),
            forall|m: int|
                0 <= m < n ==> absi((#[trigger] bodies@[m]).vel.x as int) <= absi(
                    old(bodies)@[m].vel.x as int,
                ) && absi(bodies@[m].vel.y as int) <= absi(old(bodies)@[m].vel.y as int),
            forall|m: int| 0 <= m < k ==> body_in_field(#[trigger] bodies@[m]),
            forall|m: int|
                k <= m < n ==> in_box((#[trigger] bodies@[m]).pos, PASS_POS_LIMIT as int),
            !found ==> bodies@ =~= old(bodies)@,
            !found ==> all_separated(bodies@),
            !found ==> forall|m: int| 0 <= m < k ==> body_inside_walls(#[trigger] bodies@[m]),
            ({
                let full = pass_spec(old(bodies)@);
                let rest = walls_pass_from(bodies@, k as int);
                full.0 == rest.0 && full.1 == (found || rest.1)
            }),
        decreases n - k,
    {
        let ghost pre = bodies@;
        let b = bodies[k];
        let (c, hit) = wall_clamp(b);
        bodies[k] = c;
        if hit {
            found = true;
        }
        proof {
            assert(bodies@ == pre.update(k as int, wall_clamped(pre[k as int])));
            assert(walls_pass_from(pre, k as int) == ({
                let rest = walls_pass_from(
                    pre.update(k as int, wall_clamped(pre[k as int])),
                    k as int + 1,
                );
                (rest.0, wall_hit(pre[k as int]) || rest.1)
            }));
        }
        k = k + 1;
    }
    proof {
        assert(walls_pass_from(bodies@, k as int) == (bodies@, false));
    }
    found
}

/// Resolve all collisions for this tick: run resolution iterations until
/// one makes no correction or the cap is reached. The result is whether
/// the pass converged and how many iterations ran: either no pair
/// overlaps and every body sits inside the walls, or the iteration cap
/// was reached and residual overlap is accepted.
pub fn handle_collision(bodies: &mut Vec<Body>) -> (r: (bool, usize))
    requires
        old(bodies)@.len() <= MAX_BODIES,
        forall|k: int| 0 <= k < old(bodies)@.len() ==> body_wf(#[trigger] old(bodies)@[k]),
    ensures
        final(bodies)@.len() == old(bodies)@.len(),
        forall|k: int|
            0 <= k < final(bodies)@.len() ==> (#[trigger] final(bodies)@[k]).radius == old(
                bodies,
            )@[k].radius,
        forall|k: int|
            0 <= k < final(bodies)@.len() ==> body_in_field(#[trigger] final(bodies)@[k]),
        forall|k: int| 0 <= k < final(bodies)@.len() ==> body_wf(#[trigger] final(bodies)@[k]),
        forall|k: int|
            0 <= k < final(bodies)@.len() ==> absi((#[trigger] final(bodies)@[k]).vel.x as int)
                <= absi(old(bodies)@[k].vel.x as int) && absi(final(bodies)@[k].vel.y as int)
                <= absi(old(bodies)@[k].vel.y as int),
        r.0 ==> all_separated(final(bodies)@),
        r.0 ==> forall|k: int|
            0 <= k < final(bodies)@.len() ==> body_inside_walls(#[trigger] final(bodies)@[k]),
        r.1 <= COLLISION_ITERATIONS,
        !r.0 ==> r.1 == COLLISION_ITERATIONS,
        ({
            let full = run_solver(old(bodies)@, COLLISION_ITERATIONS as int);
            final(bodies)@ == full.0 && r.0 == full.1 && r.1 as int == full.2
        }),
{
    let mut converged = false;
    let mut it: usize = 0;
    while it < COLLISION_ITERATIONS && !converged
        invariant
            it <= COLLISION_ITERATIONS,
            bodies@.len() == old(bodies)@.len() <= MAX_BODIES,
            forall|k: int|
                0 <= k < bodies@.len() ==> (#[trigger] bodies@[k]).radius
                    == old(bodies)@[k].radius,
            forall|k: int| 0 <= k < bodies@.len() ==> body_wf(#[trigger] bodies@[k]),
            forall|k: int|
                0 <= k < bodies@.len() ==> absi((#[trigger] bodies@[k]).vel.x as int) <= absi(
                    old(bodies)@[k].vel.x as int,
                ) && absi(bodies@[k].vel.y as int) <= absi(old(bodies)@[k].vel.y as int),
            it > 0 ==> forall|k: int|
                0 <= k < bodies@.len() ==> body_in_field(#[trigger] bodies@[k]),
            converged ==> it > 0 && all_separated(bodies@),
            converged ==> forall|k: int|
                0 <= k < bodies@.len() ==> body_inside_walls(#[trigger] bodies@[k]),
            ({
                let full = run_solver(old(bodies)@, COLLISION_ITERATIONS as int);
                if converged {
                    full == (bodies@, true, it as int)
                } else {
                    let rest = run_solver(bodies@, COLLISION_ITERATIONS as int - it as int);
                    full.0 == rest.0 && full.1 == rest.1 && full.2 == rest.2 + it as int
                }
            }),
        decreases COLLISION_ITERATIONS - it,
    {
        let ghost pre = bodies@;
        let found = collision_pass(bodies);
        converged = !found;
        it = it + 1;
        proof {
            assert(run_solver(pre, COLLISION_ITERATIONS as int - (it as int - 1)) == ({
                let p = pass_spec(pre);
                if !p.1 {
                    (p.0, true, 1int)
                } else {
                    let rr = run_solver(p.0, COLLISION_ITERATIONS as int - it as int);
                    (rr.0, rr.1, rr.2 + 1)
                }
            }));
        }
    }
    proof {
        if !converged {
            assert(run_solver(bodies@, 0) == (bodies@, false, 0int));
        }
    }
    (converged, it)
}

} // verus!
