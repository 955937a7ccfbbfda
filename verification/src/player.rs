//! Player state and round configuration. A player is one simulated body:
//! placement, motion, energy, hit points, and the transient shield and
//! death markers.

use vstd::prelude::*;

use crate::components::{AngularVelocity, CollisionCircle, Energy, HitPoints, Lives, Transform2,
    Velocity};
use crate::configuration::{LOGICAL_HEIGHT, LOGICAL_WIDTH};
use crate::fp::TAU_FP;
use crate::vec2::{in_box, Vec2};

verus! {

/// Base uniform scale of a player model, in thousandths.
pub const PLAYER_SCALE: i64 = 400;

/// Scale of the shield visual relative to the body, in thousandths.
pub const PLAYER_SHIELD_SCALE: i64 = 1200;

/// Radius of an unscaled player sprite, in thousandths of a world unit
/// per thousandth of scale.
pub const PLAYER_BASE_RADIUS: i64 = 128;

/// Upper bound on any collision radius the solver accepts.
pub const MAX_RADIUS: i64 = 1_000_000;

/// Upper bound on the magnitude of either energy-driven player scale or
/// a projectile scale, in thousandths.
pub const MAX_SCALE: i64 = 7_000;

/// Ceiling on player energy, in thousandths of an energy unit.
pub const MAX_ENERGY: i64 = 20_000;

/// Box around the origin that resting player positions stay in.
pub const POS_LIMIT: i64 = 5_000_000;

/// Box that resting player velocities stay in (one tick of thrust may
/// exceed the speed limit before the integrator clamps it back).
pub const VEL_LIMIT: i64 = 8_300;

/// Bound on angular velocity between clamping passes.
pub const ANG_VEL_LIMIT: i64 = 90;

/// One player's full simulation state.
#[derive(Clone, Copy, Debug, PartialEq, Eq, Structural)]
pub struct PlayerState {
    pub transform: Transform2,
    pub vel: Velocity,
    pub ang_vel: AngularVelocity,
    pub energy: Energy,
    pub hp: HitPoints,
    pub lives: Lives,
    pub circle: CollisionCircle,
    pub shielded: bool,
    pub dead: bool,
}

/// Well-formedness every subsystem preserves: bounded placement and
/// motion, angle within one turn, positive scale, energy within its cap,
/// and a nonnegative bounded collision radius.
pub open spec fn player_wf(p: PlayerState) -> bool {
    &&& in_box(p.transform.pos, POS_LIMIT as int)
    &&& 0 <= p.transform.angle < TAU_FP
    &&& 0 < p.transform.scale <= MAX_SCALE
    &&& -100_000 <= p.transform.depth <= 100_000
    &&& in_box(p.vel.0, VEL_LIMIT as int)
    &&& -ANG_VEL_LIMIT <= p.ang_vel.0 <= ANG_VEL_LIMIT
    &&& 0 <= p.energy.0 <= MAX_ENERGY
    &&& 0 <= p.circle.radius <= MAX_RADIUS
}

/// Per-player round configuration: starting hit points and lives. Key
/// bindings and colors belong to the input and rendering collaborators.
#[derive(Clone, Copy, Debug, PartialEq, Eq, Structural)]
pub struct PlayerConfigurationBundle {
    pub hp: HitPoints,
    pub lives: Lives,
}

/// The configured players of a round, by seat; empty seats sit out.
pub struct PlayerConfiguration(pub Vec<Option<PlayerConfigurationBundle>>);

/// Where the player in the given seat starts: the four quarter points of
/// the playfield.
pub open spec fn start_position_spec(seat: int) -> Vec2 {
    let x = if seat % 2 == 0 {
        672_000int
    } else {
        1_248_000int
    };
    let y = if seat < 2 {
        756_000int
    } else {
        324_000int
    };
    Vec2 { x: x as i64, y: y as i64 }
}

/// Starting heading of the player in the given seat: diagonals facing
/// the playfield center, in milliradians within `[0, TAU_FP)`.
pub open spec fn start_angle_spec(seat: int) -> i64 {
    if seat == 0 {
        785i64
    } else if seat == 1 {
        5_499i64
    } else if seat == 2 {
        2_356i64
    } else {
        3_928i64
    }
}

pub fn start_position(seat: usize) -> (r: Vec2)
    requires
        seat < 4,
    ensures
        r == start_position_spec(seat as int),
{
    let x: i64 = if seat % 2 == 0 {
        672_000
    } else {
        1_248_000
    };
    let y: i64 = if seat < 2 {
        756_000
    } else {
        324_000
    };
    Vec2 { x, y }
}

pub fn start_angle(seat: usize) -> (r: i64)
    requires
        seat < 4,
    ensures
        r == start_angle_spec(seat as int),
        0 <= r < TAU_FP,
{
    if seat == 0 {
        785
    } else if seat == 1 {
        5_499
    } else if seat == 2 {
        2_356
    } else {
        3_928
    }
}

/// The state a configured player enters the round with: at its seat's
/// start pose, at rest, with no energy and no markers.
pub open spec fn spawned_player(cfg: PlayerConfigurationBundle, seat: int) -> PlayerState {
    PlayerState {
        transform: Transform2 {
            pos: start_position_spec(seat),
            depth: 1_000,
            angle: start_angle_spec(seat),
            scale: PLAYER_SCALE,
        },
        vel: Velocity(Vec2 { x: 0, y: 0 }),
        ang_vel: AngularVelocity(0),
        energy: Energy(0),
        hp: cfg.hp,
        lives: cfg.lives,
        circle: CollisionCircle { radius: (PLAYER_BASE_RADIUS * PLAYER_SCALE) as i64 },
        shielded: false,
        dead: false,
    }
}

/// Create one player for the round.
pub fn create_player(cfg: &PlayerConfigurationBundle, seat: usize) -> (r: PlayerState)
    requires
        seat < 4,
    ensures
        r == spawned_player(*cfg, seat as int),
        player_wf(r),
{
    PlayerState {
        transform: Transform2 {
            pos: start_position(seat),
            depth: 1_000,
            angle: start_angle(seat),
            scale: PLAYER_SCALE,
        },
        vel: Velocity(Vec2 { x: 0, y: 0 }),
        ang_vel: AngularVelocity(0),
        energy: Energy(0),
        hp: cfg.hp,
        lives: cfg.lives,
        circle: CollisionCircle { radius: PLAYER_BASE_RADIUS * PLAYER_SCALE },
        shielded: false,
        dead: false,
    }
}

/// The roster the first `i` seats of a configuration produce: one
/// player per occupied seat, in seat order, each in its seat's start
/// state.
pub open spec fn spawned_roster_upto(cfg: Seq<Option<PlayerConfigurationBundle>>, i: int) -> Seq<
    PlayerState,
>
    decreases i,
{
    if i <= 0 {
        Seq::empty()
    } else {
        spawned_roster_upto(cfg, i - 1) + (match cfg[i - 1] {
            Some(c) => seq![spawned_player(c, i - 1)],
            None => Seq::empty(),
        })
    }
}

/// The roster a whole configuration produces.
pub open spec fn spawned_roster(cfg: Seq<Option<PlayerConfigurationBundle>>) -> Seq<PlayerState> {
    spawned_roster_upto(cfg, cfg.len() as int)
}

/// Create every configured player of a round: exactly one per occupied
/// seat, in seat order, each in its seat's start state.
pub fn create_players(config: &PlayerConfiguration) -> (r: Vec<PlayerState>)
    requires
        config.0@.len() <= 4,
    ensures
        r@ == spawned_roster(config.0@),
        r@.len() <= config.0@.len(),
        forall|k: int| 0 <= k < r@.len() ==> player_wf(#[trigger] r@[k]),
{
    let mut out: Vec<PlayerState> = Vec::new();
    let n = config.0.len();
    let mut i: usize = 0;
    while i < n
        invariant
            i <= n == config.0@.len() <= 4,
            out@.len() <= i,
            out@ == spawned_roster_upto(config.0@, i as int),
            forall|k: int| 0 <= k < out@.len() ==> player_wf(#[trigger] out@[k]),
        decreases n - i,
    {
        match &config.0[i] {
            Some(cfg) => {
                let p = create_player(cfg, i);
                out.push(p);
                proof {
                    assert(out@ =~= spawned_roster_upto(config.0@, i as int + 1));
                }
            },
            None => {
                proof {
                    assert(out@ =~= spawned_roster_upto(config.0@, i as int + 1));
                }
            },
        }
        i = i + 1;
    }
    out
}

/// A seat holds a configuration with exactly this many starting hit
/// points.
pub open spec fn seat_hp_is(o: Option<PlayerConfigurationBundle>, m: u32) -> bool {
    match o {
        Some(c) => c.hp.0 == m,
        None => false,
    }
}

/// A seat is empty or its starting hit points stay within the bound.
pub open spec fn seat_hp_le(o: Option<PlayerConfigurationBundle>, m: u32) -> bool {
    match o {
        Some(c) => c.hp.0 <= m,
        None => true,
    }
}

/// Highest starting hit-point value among the configured players, if any
/// seat is taken.
pub fn max_starting_hp(config: &PlayerConfiguration) -> (r: Option<u32>)
    ensures
        match r {
            Some(m) => {
                &&& exists|k: int| 0 <= k < config.0@.len() && seat_hp_is(#[trigger] config.0@[k], m)
                &&& forall|k: int| 0 <= k < config.0@.len() ==> seat_hp_le(#[trigger] config.0@[k], m)
            },
            None => forall|k: int| 0 <= k < config.0@.len() ==> #[trigger] config.0@[k] is None,
        },
{
    let mut best: Option<u32> = None;
    let n = config.0.len();
    let mut i: usize = 0;
    while i < n
        invariant
            i <= n == config.0@.len(),
            match best {
                Some(m) => {
                    &&& exists|k: int| 0 <= k < i && seat_hp_is(#[trigger] config.0@[k], m)
                    &&& forall|k: int| 0 <= k < i ==> seat_hp_le(#[trigger] config.0@[k], m)
                },
                None => forall|k: int| 0 <= k < i ==> #[trigger] config.0@[k] is None,
            },
        decreases n - i,
    {
        match &config.0[i] {
            Some(cfg) => {
                let hp = cfg.hp.0;
                best = match best {
                    Some(m) => if hp > m {
                        Some(hp)
                    } else {
                        Some(m)
                    },
                    None => Some(hp),
                };
            },
            None => {},
        }
        i = i + 1;
    }
    best
}

/// Playfield membership: the whole collision circle within the logical
/// bounds.
pub open spec fn inside_walls(pos: Vec2, radius: int) -> bool {
    &&& pos.x + radius <= LOGICAL_WIDTH
    &&& pos.y + radius <= LOGICAL_HEIGHT
    &&& pos.x - radius >= 0
    &&& pos.y - radius >= 0
}

} // verus!
