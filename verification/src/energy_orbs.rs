//! Energy orbs: fixed pickup points that recharge the nearest touching
//! player, hide while on a respawn timer, and come back once the timer
//! runs out and no player sits on top of them. Collected energy also
//! drives a gradual growth of the player's model and collision circle.

use vstd::prelude::*;

use crate::components::CollisionCircle;
use crate::fp::{div_fp, sqrt_floor, tdiv};
use crate::player::{player_wf, PlayerState, MAX_ENERGY, MAX_SCALE, PLAYER_SCALE,
    PLAYER_BASE_RADIUS};
use crate::vec2::{dist2, in_box, lemma_tdiv_le, vdist, Vec2};

verus! {

/// Energy one orb grants, in thousandths of an energy unit.
pub const ORB_ENERGY_BOOST: i64 = 3_000;

/// How long a collected orb stays away, in milliseconds.
pub const ORB_RESPAWN_MS: i64 = 15_000;

/// Uniform scale of the orb sprite, in thousandths.
pub const ORB_SCALE: i64 = 300;

/// Radius of an orb's collision circle, in thousandths of a world unit.
pub const ORB_RADIUS: i64 = 19_200;

/// One energy pickup: a fixed position, a collision circle, and, while
/// collected, the milliseconds left until it may come back.
#[derive(Clone, Copy, Debug, PartialEq, Eq, Structural)]
pub struct EnergyOrb {
    pub pos: Vec2,
    pub radius: i64,
    pub respawn: Option<i64>,
}

pub open spec fn orb_wf(o: EnergyOrb) -> bool {
    &&& in_box(o.pos, 5_000_000)
    &&& 0 <= o.radius <= 1_000_000
    &&& match o.respawn {
        Some(ms) => 0 <= ms <= ORB_RESPAWN_MS,
        None => true,
    }
}

/// The eight fixed orb positions: a square around the center and one
/// near each corner.
pub open spec fn orb_position_spec(k: int) -> Vec2 {
    if k == 0 {
        Vec2 { x: 864_000, y: 621_000 }
    } else if k == 1 {
        Vec2 { x: 864_000, y: 459_000 }
    } else if k == 2 {
        Vec2 { x: 1_056_000, y: 621_000 }
    } else if k == 3 {
        Vec2 { x: 1_056_000, y: 459_000 }
    } else if k == 4 {
        Vec2 { x: 192_000, y: 972_000 }
    } else if k == 5 {
        Vec2 { x: 192_000, y: 108_000 }
    } else if k == 6 {
        Vec2 { x: 1_728_000, y: 972_000 }
    } else {
        Vec2 { x: 1_728_000, y: 108_000 }
    }
}

/// Create the eight starting orbs, visible, at their fixed positions.
pub fn spawn_starting_orbs() -> (r: Vec<EnergyOrb>)
    ensures
        r@.len() == 8,
        forall|k: int|
            0 <= k < 8 ==> #[trigger] r@[k] == (EnergyOrb {
                pos: orb_position_spec(k),
                radius: ORB_RADIUS,
                respawn: None,
            }),
        forall|k: int| 0 <= k < 8 ==> orb_wf(#[trigger] r@[k]),
{
    let mut out: Vec<EnergyOrb> = Vec::new();
    let mut k: usize = 0;
    while k < 8
        invariant
            k <= 8,
            out@.len() == k,
            forall|m: int|
                0 <= m < k ==> #[trigger] out@[m] == (EnergyOrb {
                    pos: orb_position_spec(m),
                    radius: ORB_RADIUS,
                    respawn: None,
                }),
        decreases 8 - k,
    {
        let pos = if k == 0 {
            Vec2 { x: 864_000, y: 621_000 }
        } else if k == 1 {
            Vec2 { x: 864_000, y: 459_000 }
        } else if k == 2 {
            Vec2 { x: 1_056_000, y: 621_000 }
        } else if k == 3 {
            Vec2 { x: 1_056_000, y: 459_000 }
        } else if k == 4 {
            Vec2 { x: 192_000, y: 972_000 }
        } else if k == 5 {
            Vec2 { x: 192_000, y: 108_000 }
        } else if k == 6 {
            Vec2 { x: 1_728_000, y: 972_000 }
        } else {
            Vec2 { x: 1_728_000, y: 108_000 }
        };
        out.push(EnergyOrb { pos, radius: ORB_RADIUS, respawn: None });
        k = k + 1;
    }
    out
}

/// How deep a player's circle and an orb's circle interpenetrate:
/// non-positive means they touch or overlap.
pub open spec fn orb_penetration(p: PlayerState, o: EnergyOrb) -> int {
    sqrt_floor(dist2(p.transform.pos, o.pos)) - p.circle.radius - o.radius
}

/// Energy after one pickup: boosted, capped at the ceiling.
pub open spec fn boosted_energy(e: int) -> int {
    if e + ORB_ENERGY_BOOST > MAX_ENERGY {
        MAX_ENERGY as int
    } else {
        e + ORB_ENERGY_BOOST
    }
}

/// Resolve one visible orb against the players: the player whose circle
/// interpenetrates the orb deepest collects it, unless that player's
/// energy is already full. Collecting boosts the player's energy up to
/// the cap and sends the orb away on its respawn timer. The collector's
/// energy never leaves `[0, MAX_ENERGY]`.
pub fn player_pickup(players: &mut Vec<PlayerState>, orb: &mut EnergyOrb) -> (r: Option<usize>)
    requires
        forall|k: int| 0 <= k < old(players)@.len() ==> player_wf(#[trigger] old(players)@[k]),
        orb_wf(*old(orb)),
        old(orb).respawn is None,
    ensures
        final(players)@.len() == old(players)@.len(),
        forall|k: int| 0 <= k < final(players)@.len() ==> player_wf(#[trigger] final(players)@[k]),
        match r {
            Some(i) => {
                &&& 0 <= i < old(players)@.len()
                &&& orb_penetration(old(players)@[i as int], *old(orb)) <= 0
                &&& forall|j: int|
                    0 <= j < old(players)@.len() ==> orb_penetration(
                        #[trigger] old(players)@[j],
                        *old(orb),
                    ) >= orb_penetration(old(players)@[i as int], *old(orb))
                &&& old(players)@[i as int].energy.0 < MAX_ENERGY
                &&& final(players)@ =~= old(players)@.update(
                    i as int,
                    (PlayerState {
                        energy: crate::components::Energy(
                            boosted_energy(old(players)@[i as int].energy.0 as int) as i64,
                        ),
                        ..old(players)@[i as int]
                    }),
                )
                &&& *final(orb) == (EnergyOrb { respawn: Some(ORB_RESPAWN_MS), ..*old(orb) })
            },
            None => {
                &&& final(players)@ =~= old(players)@
                &&& *final(orb) == *old(orb)
                &&& (forall|j: int|
                    0 <= j < old(players)@.len() ==> orb_penetration(
                        #[trigger] old(players)@[j],
                        *old(orb),
                    ) > 0) || (exists|i: int|
                    0 <= i < old(players)@.len() && orb_penetration(
                        #[trigger] old(players)@[i],
                        *old(orb),
                    ) <= 0 && (forall|j: int|
                        0 <= j < old(players)@.len() ==> orb_penetration(
                            #[trigger] old(players)@[j],
                            *old(orb),
                        ) >= orb_penetration(old(players)@[i], *old(orb)))
                    && old(players)@[i].energy.0 >= MAX_ENERGY)
            },
        },
{
    let n = players.len();
    let mut best: Option<(usize, i64)> = None;
    let mut i: usize = 0;
    while i < n
        invariant
            i <= n == players@.len(),
            players@ =~= old(players)@,
            forall|k: int| 0 <= k < n ==> player_wf(#[trigger] players@[k]),
            orb_wf(*orb),
            *orb == *old(orb),
            match best {
                Some((bi, bp)) => {
                    &&& 0 <= bi < i
                    &&& bp == orb_penetration(players@[bi as int], *orb)
                    &&& forall|k: int|
                        0 <= k < i ==> orb_penetration(#[trigger] players@[k], *orb) >= bp
                },
                None => i == 0,
            },
        decreases n - i,
    {
        let p = &players[i];
        let d = vdist(p.transform.pos, orb.pos);
        let pen = d - p.circle.radius - orb.radius;
        best = match best {
            Some((bi, bp)) => if pen < bp {
                Some((i, pen))
            } else {
                Some((bi, bp))
            },
            None => Some((i, pen)),
        };
        i = i + 1;
    }
    match best {
        Some((bi, bp)) => {
            if bp <= 0 && players[bi].energy.0 < MAX_ENERGY {
                let mut p = players[bi];
                let e = p.energy.0 + ORB_ENERGY_BOOST;
                p.energy = crate::components::Energy(
                    if e > MAX_ENERGY {
                        MAX_ENERGY
                    } else {
                        e
                    },
                );
                players[bi] = p;
                orb.respawn = Some(ORB_RESPAWN_MS);
                Some(bi)
            } else {
                None
            }
        },
        None => None,
    }
}

/// Advance one collected orb's respawn timer; once it runs out and no
/// player's circle touches the orb, the orb becomes visible again.
pub fn respawn_orbs(orb: &mut EnergyOrb, players: &Vec<PlayerState>, dt_ms: i64)
    requires
        orb_wf(*old(orb)),
        old(orb).respawn is Some,
        0 <= dt_ms <= 100_000,
        forall|k: int| 0 <= k < players@.len() ==> player_wf(#[trigger] players@[k]),
    ensures
        final(orb).pos == old(orb).pos,
        final(orb).radius == old(orb).radius,
        ({
            let rem = old(orb).respawn.unwrap() as int;
            let left = if rem - dt_ms < 0 {
                0
            } else {
                rem - dt_ms
            };
            let blocked = exists|k: int|
                0 <= k < players@.len() && orb_penetration(#[trigger] players@[k], *old(orb)) <= 0;
            if left == 0 && !blocked {
                final(orb).respawn is None
            } else {
                final(orb).respawn == Some(left as i64)
            }
        }),
        orb_wf(*final(orb)),
{
    let rem = match orb.respawn {
        Some(ms) => ms,
        None => 0,
    };
    let left = if rem - dt_ms < 0 {
        0
    } else {
        rem - dt_ms
    };
    if left == 0 {
        let n = players.len();
        let mut blocked = false;
        let mut i: usize = 0;
        while i < n
            invariant
                i <= n == players@.len(),
                forall|k: int| 0 <= k < n ==> player_wf(#[trigger] players@[k]),
                orb_wf(*orb),
                *orb == *old(orb),
                blocked == exists|k: int|
                    0 <= k < i && orb_penetration(#[trigger] players@[k], *orb) <= 0,
            decreases n - i,
        {
            let p = &players[i];
            let d = vdist(p.transform.pos, orb.pos);
            if d - p.circle.radius - orb.radius <= 0 {
                blocked = true;
            }
            i = i + 1;
        }
        if blocked {
            orb.respawn = Some(0);
        } else {
            orb.respawn = None;
        }
    } else {
        orb.respawn = Some(left);
    }
}

/// One energy-touching operation of the simulation, as the pickup,
/// shooting and shield systems perform them.
#[derive(Clone, Copy, Debug, PartialEq, Eq, Structural)]
pub enum EnergyOp {
    /// Collect an orb: boost up to the cap.
    Pickup,
    /// Fire a shot: pay the cost when it is covered, otherwise nothing.
    Shoot,
    /// Hold the shield for this many milliseconds: drain, clamped at
    /// zero by the tick's shield-drop handling.
    ShieldDrain(i64),
}

pub open spec fn energy_op_wf(op: EnergyOp) -> bool {
    match op {
        EnergyOp::ShieldDrain(dt_ms) => 0 <= dt_ms,
        _ => true,
    }
}

/// The energy one operation leaves behind, exactly as the executable
/// systems compute it.
pub open spec fn energy_op_result(e: int, op: EnergyOp) -> int {
    match op {
        EnergyOp::Pickup => boosted_energy(e),
        EnergyOp::Shoot => if e >= crate::projectiles::PROJECTILE_ENERGY_COST {
            e - crate::projectiles::PROJECTILE_ENERGY_COST
        } else {
            e
        },
        EnergyOp::ShieldDrain(dt_ms) => {
            let d = e - tdiv(crate::shield::SHIELD_DRAIN_RATE as int * dt_ms, 1_000);
            if d < 0 {
                0
            } else {
                d
            }
        },
    }
}

/// The energy after a whole sequence of operations.
pub open spec fn energy_after(e: int, ops: Seq<EnergyOp>) -> int
    decreases ops.len(),
{
    if ops.len() == 0 {
        e
    } else {
        energy_after(energy_op_result(e, ops[0]), ops.skip(1))
    }
}

/// Energy bounds law: for every sequence of pickup, shoot and shield
/// operations, energy starting within `[0, MAX_ENERGY]` stays within
/// `[0, MAX_ENERGY]` at every tick boundary.
pub proof fn lemma_energy_bounds(e: int, ops: Seq<EnergyOp>)
    requires
        0 <= e <= MAX_ENERGY,
        forall|k: int| 0 <= k < ops.len() ==> energy_op_wf(#[trigger] ops[k]),
    ensures
        0 <= energy_after(e, ops) <= MAX_ENERGY,
    decreases ops.len(),
{
    if ops.len() > 0 {
        let e1 = energy_op_result(e, ops[0]);
        match ops[0] {
            EnergyOp::Pickup => {},
            EnergyOp::Shoot => {},
            EnergyOp::ShieldDrain(dt_ms) => {
                assert((crate::shield::SHIELD_DRAIN_RATE as int * dt_ms) / 1_000 >= 0)
                    by (nonlinear_arith)
                    requires
                        dt_ms >= 0,
                ;
            },
        }
        assert(0 <= e1 <= MAX_ENERGY);
        assert(forall|k: int|
            0 <= k < ops.skip(1).len() ==> energy_op_wf(#[trigger] ops.skip(1)[k]));
        lemma_energy_bounds(e1, ops.skip(1));
    }
}

/// Defensively capped fixed-point powers of the per-unit growth factor
/// `1.06`; the cap sits beyond what any energy within the cap reaches.
pub open spec fn growth_power(n: int) -> int
    decreases n,
{
    if n <= 0 {
        1_000
    } else {
        let g = tdiv(growth_power(n - 1) * 1_060, 1_000);
        if g > 3_200 {
            3_200
        } else {
            g
        }
    }
}

pub proof fn lemma_growth_power_bounds(n: int)
    requires
        n >= 0,
    ensures
        1_000 <= growth_power(n) <= 3_200,
    decreases n,
{
    if n > 0 {
        lemma_growth_power_bounds(n - 1);
        let p = growth_power(n - 1);
        assert(1_000 <= tdiv(p * 1_060, 1_000)) by (nonlinear_arith)
            requires
                1_000 <= p,
                tdiv(p * 1_060, 1_000) == (p * 1_060) / 1_000,
        ;
    }
}

/// The scale an energy level steers toward: the base scale grown by
/// `1.06` per whole energy unit, interpolating linearly within a unit,
/// with the energy read as at least one unit.
pub open spec fn target_scale(e: int) -> int {
    let eu = if e < 1_000 {
        1_000int
    } else {
        e
    };
    let whole = eu / 1_000;
    let frac = eu % 1_000;
    let factor = tdiv(growth_power(whole) * (1_000 + tdiv(60 * frac, 1_000)), 1_000);
    tdiv(PLAYER_SCALE as int * factor, 1_000)
}

/// Move a player's scale one twentieth of the way toward the scale its
/// energy calls for, and recompute the collision radius to match.
pub fn change_player_size(p: &mut PlayerState)
    requires
        player_wf(*old(p)),
    ensures
        ({
            let t = target_scale(old(p).energy.0 as int);
            let next = old(p).transform.scale as int + tdiv(t - old(p).transform.scale, 20);
            &&& final(p).transform.scale == next
            &&& final(p).circle.radius == PLAYER_BASE_RADIUS as int * next
        }),
        final(p).transform.pos == old(p).transform.pos,
        final(p).transform.angle == old(p).transform.angle,
        final(p).transform.depth == old(p).transform.depth,
        final(p).vel == old(p).vel && final(p).ang_vel == old(p).ang_vel,
        final(p).energy == old(p).energy && final(p).hp == old(p).hp,
        final(p).lives == old(p).lives,
        final(p).shielded == old(p).shielded && final(p).dead == old(p).dead,
        player_wf(*final(p)),
{
    let e = p.energy.0;
    let eu = if e < 1_000 {
        1_000
    } else {
        e
    };
    let whole = eu / 1_000;
    let frac = eu % 1_000;
    proof {
        lemma_growth_power_bounds(whole as int);
    }
    let mut g: i64 = 1_000;
    let mut k: i64 = 0;
    while k < whole
        invariant
            0 <= k <= whole <= 20,
            g == growth_power(k as int),
            1_000 <= g <= 3_200,
        decreases whole - k,
    {
        proof {
            lemma_growth_power_bounds(k as int + 1);
        }
        let raw = (((g * 1_060) as u64) / 1_000u64) as i64;
        g = if raw > 3_200 {
            3_200
        } else {
            raw
        };
        k = k + 1;
    }
    proof {
        lemma_tdiv_le(60 * frac as int, 1_000, 60);
    }
    let within = 1_000 + ((60 * frac) as u64 / 1_000u64) as i64;
    proof {
        assert(1_000 * 1_000 <= g as int * within as int <= 3_392 * 1_000) by (nonlinear_arith)
            requires
                1_000 <= g <= 3_200,
                1_000 <= within <= 1_060,
        ;
        lemma_tdiv_le(g as int * within as int, 1_000, 3_392);
    }
    let factor = ((g * within) as u64 / 1_000u64) as i64;
    proof {
        assert(factor >= 1_000) by (nonlinear_arith)
            requires
                g as int * within as int >= 1_000_000,
                factor == (g as int * within as int) / 1_000,
        ;
        lemma_tdiv_le(PLAYER_SCALE as int * factor as int, 1_000, 1_357);
    }
    let t = ((PLAYER_SCALE * factor) as u64 / 1_000u64) as i64;
    proof {
        assert(t >= 400) by (nonlinear_arith)
            requires
                PLAYER_SCALE as int * factor as int >= 400_000,
                t == (PLAYER_SCALE as int * factor as int) / 1_000,
        ;
        lemma_tdiv_le(t as int - p.transform.scale as int, 20, MAX_SCALE as int);
        crate::vec2::lemma_tdiv_sign(t as int - p.transform.scale as int, 20);
        if t >= p.transform.scale {
            lemma_tdiv_le(t as int - p.transform.scale as int, 20,
                t as int - p.transform.scale as int);
        } else {
            lemma_tdiv_le(p.transform.scale as int - t as int, 20,
                p.transform.scale as int - t as int);
        }
    }
    let next = p.transform.scale + div_fp(t - p.transform.scale, 20);
    proof {
        if t >= p.transform.scale {
            assert(p.transform.scale <= next <= t);
        } else {
            assert(t <= next <= p.transform.scale);
        }
    }
    p.transform.scale = next;
    p.circle = CollisionCircle { radius: PLAYER_BASE_RADIUS * next };
}

} // verus!
