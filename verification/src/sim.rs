//! One round of the game as a single state value, advanced by a fixed,
//! explicit tick order: input, shield and shooting, movement, collision
//! resolution, projectile advance and resolution, big-fish attention and
//! feeding, then the animation controllers. Later stages read the state
//! the earlier ones just wrote; there is no concurrency. Dead players
//! stay in the roster, frozen, until the big fish consumes them; the
//! rendering collaborator hides them.

use vstd::prelude::*;

use crate::animation::{timer_wf, PhaseTimer};
use crate::big_fish::{add_dead_things_to_menu, animation_state_wf, bob, breathe, eat_dead_things,
    fish_pose_wf, follow_attention_target, reset_animation, swim, target_wf,
    update_attention_target, AnimationState, AttentionTarget, BigFishRig, EatOutcome, HpEntity};
use crate::collision::{body_wf, handle_collision, Body};
use crate::components::Velocity;
use crate::configuration::{LOGICAL_HEIGHT, LOGICAL_WIDTH};
use crate::energy_orbs::{change_player_size, orb_wf, player_pickup, respawn_orbs,
    spawn_starting_orbs, EnergyOrb};
use crate::input::{gather_player_input, initial_actions, ActionState, PlayerKeys};
use crate::movement::{handle_movement, move_players, PLAYER_MAX_ANGULAR_VELOCITY,
    PLAYER_MAX_SPEED};
use crate::player::{max_starting_hp, player_wf, PlayerConfiguration, PlayerState};
use crate::player_animation::{animate_eyes, animate_swimming, apply_gait_pose, build_player_rig,
    gaze_target, PlayerRig};
use crate::projectiles::{apply_hit, find_hit, handle_shooting, move_projectile, projectile_wf,
    HitOutcome, Projectile, Target};
use crate::shield::{handle_shielding, ShieldEvent};
use crate::vec2::{absi, in_box, Vec2};

verus! {

/// A player stands inside the playfield rectangle.
pub open spec fn in_field(p: PlayerState) -> bool {
    &&& 0 <= p.transform.pos.x <= LOGICAL_WIDTH
    &&& 0 <= p.transform.pos.y <= LOGICAL_HEIGHT
}

/// What the tick maintains of each player between ticks.
pub open spec fn roster_player_wf(p: PlayerState, starting_max_hp: u32) -> bool {
    &&& player_wf(p)
    &&& in_field(p)
    &&& in_box(p.vel.0, PLAYER_MAX_SPEED as int)
    &&& -PLAYER_MAX_ANGULAR_VELOCITY <= p.ang_vel.0 <= PLAYER_MAX_ANGULAR_VELOCITY
    &&& p.hp.0 <= starting_max_hp
}

/// What the tick maintains of each player rig between ticks: the parts
/// stay near the root, the attachment candidates keep their unit local
/// scale, and every animated angle stays within one turn.
pub open spec fn rig_wf(r: PlayerRig) -> bool {
    &&& in_box(r.head.pos, 200_000)
    &&& in_box(r.body.pos, 200_000)
    &&& in_box(r.tail.pos, 200_000)
    &&& 0 <= r.head.angle < crate::fp::TAU_FP
    &&& r.head.scale == 1_000
    &&& r.body.scale == 1_000
    &&& r.tail.scale == 1_000
    &&& -200_000 <= r.head.depth <= 200_000
    &&& -200_000 <= r.body.depth <= 200_000
    &&& -200_000 <= r.tail.depth <= 200_000
    &&& 0 <= r.body.angle < crate::fp::TAU_FP
    &&& 0 <= r.tail.angle < crate::fp::TAU_FP
    &&& in_box(r.right_eye.pos, 200_000)
    &&& in_box(r.left_eye.pos, 200_000)
    &&& 0 <= r.right_eye.angle < crate::fp::TAU_FP
    &&& 0 <= r.left_eye.angle < crate::fp::TAU_FP
}

/// What the tick maintains of the big fish rig between ticks.
pub open spec fn fish_rig_wf(r: BigFishRig) -> bool {
    &&& in_box(r.head.pos, 1_000_000)
    &&& in_box(r.top_jaw.pos, 1_000_000)
    &&& in_box(r.bottom_jaw.pos, 1_000_000)
    &&& -1_000_000 <= r.right_fin_stretch <= 1_000_000
    &&& -1_000_000 <= r.left_fin_stretch <= 1_000_000
}

/// One round's entire simulation state.
pub struct Game {
    pub players: Vec<PlayerState>,
    pub actions: Vec<ActionState>,
    pub swim_timers: Vec<PhaseTimer>,
    pub rigs: Vec<PlayerRig>,
    pub projectiles: Vec<Projectile>,
    pub orbs: Vec<EnergyOrb>,
    pub eat_queue: Vec<u64>,
    pub fish_pos: Vec2,
    pub fish_depth: i64,
    pub fish_anim: AnimationState,
    pub fish_rig: BigFishRig,
    pub attention: AttentionTarget,
    pub starting_max_hp: u32,
}

/// The invariant every tick preserves.
pub open spec fn game_wf(g: Game) -> bool {
    &&& g.players@.len() == g.actions@.len() == g.swim_timers@.len() == g.rigs@.len()
    &&& g.players@.len() <= 8
    &&& forall|k: int|
        0 <= k < g.players@.len() ==> roster_player_wf(#[trigger] g.players@[k], g.starting_max_hp)
    &&& forall|k: int|
        0 <= k < g.swim_timers@.len() ==> timer_wf(#[trigger] g.swim_timers@[k])
            && g.swim_timers@[k].repeating
    &&& forall|k: int| 0 <= k < g.rigs@.len() ==> rig_wf(#[trigger] g.rigs@[k])
    &&& forall|k: int|
        0 <= k < g.projectiles@.len() ==> projectile_wf(#[trigger] g.projectiles@[k]) && in_box(
            g.projectiles@[k].transform.pos,
            5_000_000,
        )
    &&& forall|k: int| 0 <= k < g.orbs@.len() ==> orb_wf(#[trigger] g.orbs@[k])
    &&& fish_pose_wf(g.fish_pos, g.fish_depth as int)
    &&& animation_state_wf(g.fish_anim)
    &&& fish_rig_wf(g.fish_rig)
    &&& target_wf(g.attention)
    &&& g.starting_max_hp >= 1
}

/// One projectile strike for the rendering collaborator: which player
/// was struck and with what outcome, where the projectile stood at the
/// strike, and, when damage went through, which rig part the spent
/// projectile sticks to and its local frame there.
pub struct HitRecord {
    pub victim: usize,
    pub outcome: HitOutcome,
    pub impact: Vec2,
    pub attachment: Option<(crate::player_animation::BodyPart, crate::components::Transform2)>,
}

/// What one tick reported to the rendering collaborator: per-player
/// shield transitions, the projectile strikes, and the meal the big
/// fish finished, if any.
pub struct TickReport {
    pub shield_events: Vec<ShieldEvent>,
    pub hits: Vec<HitRecord>,
    pub eaten: Option<u64>,
}

/// Set up one round from its configuration: configured players at their
/// seats, idle input, fresh rigs and timers, the eight orbs, an empty
/// meal queue and the big fish resting at depth over the playfield
/// center. The starting maximum is the configured maximum of the
/// occupied seats; an empty configuration gets one. Seats are assigned
/// by index: an empty seat sits out without shifting the later ones.
pub fn new_game(config: &PlayerConfiguration) -> (g: Game)
    requires
        config.0@.len() <= 4,
    ensures
        game_wf(g),
        g.players@ == crate::player::spawned_roster(config.0@),
        g.actions@.len() == g.players@.len(),
        forall|k: int| 0 <= k < g.actions@.len() ==> #[trigger] g.actions@[k]
            == crate::input::actions_released(),
        g.swim_timers@.len() == g.players@.len(),
        forall|k: int|
            0 <= k < g.swim_timers@.len() ==> #[trigger] g.swim_timers@[k] == (PhaseTimer {
                elapsed_ms: 0,
                duration_ms: crate::player_animation::SWIM_PERIOD_MS,
                repeating: true,
            }),
        g.rigs@.len() == g.players@.len(),
        forall|k: int|
            0 <= k < g.rigs@.len() ==> #[trigger] g.rigs@[k]
                == crate::player_animation::base_player_rig(),
        g.projectiles@.len() == 0,
        g.orbs@.len() == 8,
        forall|k: int|
            0 <= k < 8 ==> #[trigger] g.orbs@[k] == (EnergyOrb {
                pos: crate::energy_orbs::orb_position_spec(k),
                radius: crate::energy_orbs::ORB_RADIUS,
                respawn: None,
            }),
        g.eat_queue@.len() == 0,
        g.fish_pos == (Vec2 { x: 960_000, y: 540_000 }),
        g.fish_depth == crate::big_fish::START_DEPTH,
        g.fish_anim == crate::big_fish::initial_animation_state(),
        g.fish_rig == crate::big_fish::base_fish_rig(),
        g.attention == (AttentionTarget { pos: Vec2 { x: 960_000, y: 540_000 }, depth: 0 }),
        forall|k: int|
            0 <= k < config.0@.len() ==> crate::player::seat_hp_le(
                #[trigger] config.0@[k],
                g.starting_max_hp,
            ),
        (exists|k: int|
            0 <= k < config.0@.len() && crate::player::seat_hp_is(
                #[trigger] config.0@[k],
                g.starting_max_hp,
            )) || g.starting_max_hp == 1,
        g.starting_max_hp >= 1,
{
    let max_hp = match max_starting_hp(config) {
        Some(m) => if m >= 1 {
            m
        } else {
            1
        },
        None => 1,
    };
    let players = crate::player::create_players(config);
    proof {
        lemma_spawned_roster_wf(config.0@, config.0@.len() as int, max_hp);
    }
    let count = players.len();
    let mut actions: Vec<ActionState> = Vec::new();
    let mut swim_timers: Vec<PhaseTimer> = Vec::new();
    let mut rigs: Vec<PlayerRig> = Vec::new();
    let mut i: usize = 0;
    while i < count
        invariant
            i <= count,
            actions@.len() == swim_timers@.len() == rigs@.len() == i,
            forall|k: int|
                0 <= k < i ==> #[trigger] actions@[k] == crate::input::actions_released(),
            forall|k: int|
                0 <= k < i ==> #[trigger] swim_timers@[k] == (PhaseTimer {
                    elapsed_ms: 0,
                    duration_ms: crate::player_animation::SWIM_PERIOD_MS,
                    repeating: true,
                }),
            forall|k: int|
                0 <= k < i ==> #[trigger] rigs@[k]
                    == crate::player_animation::base_player_rig(),
        decreases count - i,
    {
        actions.push(initial_actions());
        swim_timers.push(
            crate::animation::timer_new(crate::player_animation::SWIM_PERIOD_MS, true),
        );
        rigs.push(build_player_rig());
        i = i + 1;
    }
    Game {
        players,
        actions,
        swim_timers,
        rigs,
        projectiles: Vec::new(),
        orbs: spawn_starting_orbs(),
        eat_queue: Vec::new(),
        fish_pos: Vec2 { x: 960_000, y: 540_000 },
        fish_depth: crate::big_fish::START_DEPTH,
        fish_anim: Default::default(),
        fish_rig: crate::big_fish::build_fish_rig(),
        attention: AttentionTarget { pos: Vec2 { x: 960_000, y: 540_000 }, depth: 0 },
        starting_max_hp: max_hp,
    }
}

/// Every player a configuration spawns starts well within the roster
/// invariant: at rest at its seat inside the playfield, with its
/// configured hit points within the starting maximum.
proof fn lemma_spawned_roster_wf(
    cfg: Seq<Option<crate::player::PlayerConfigurationBundle>>,
    i: int,
    m: u32,
)
    requires
        0 <= i <= cfg.len(),
        forall|k: int| 0 <= k < cfg.len() ==> crate::player::seat_hp_le(#[trigger] cfg[k], m),
    ensures
        crate::player::spawned_roster_upto(cfg, i).len() <= i,
        forall|k: int|
            0 <= k < crate::player::spawned_roster_upto(cfg, i).len() ==> roster_player_wf(
                #[trigger] crate::player::spawned_roster_upto(cfg, i)[k],
                m,
            ),
    decreases i,
{
    if i > 0 {
        lemma_spawned_roster_wf(cfg, i - 1, m);
    }
}

/// Advance the whole round by one tick in the fixed system order. The
/// contract pins, for every player, the gathered action state, the
/// reported shield event, and the whole heading pipeline of the tick
/// (turn acceleration, clamping, integration, decay); positions,
/// energy, projectile outcomes and the fish step are specified exactly
/// on the phase functions this composition calls. No player's hit
/// points ever rise, death is never undone, and the whole invariant is
/// preserved.
pub fn tick(g: &mut Game, keys: &Vec<PlayerKeys>, dt_ms: i64) -> (r: TickReport)
    requires
        game_wf(*old(g)),
        keys@.len() == old(g).players@.len(),
        0 <= dt_ms <= 50_000,
    ensures
        game_wf(*final(g)),
        final(g).players@.len() == old(g).players@.len(),
        forall|k: int|
            0 <= k < final(g).players@.len() ==> (#[trigger] final(g).players@[k]).hp.0 <= old(g).players@[k].hp.0,
        forall|k: int|
            0 <= k < final(g).players@.len() ==> (old(g).players@[k].dead ==> (
            #[trigger] final(g).players@[k]).dead),
        r.shield_events@.len() == old(g).players@.len(),
        final(g).actions@.len() == old(g).players@.len(),
        forall|k: int|
            0 <= k < final(g).actions@.len() ==> #[trigger] final(g).actions@[k]
                == crate::input::gather_spec(old(g).actions@[k], keys@[k]),
        forall|k: int|
            0 <= k < r.shield_events@.len() ==> #[trigger] r.shield_events@[k] == (if old(
                g,
            ).players@[k].dead {
                ShieldEvent::Held
            } else {
                crate::shield::shield_step(
                    old(g).players@[k],
                    crate::input::gather_spec(old(g).actions@[k], keys@[k]),
                    dt_ms as int,
                ).1
            }),
        forall|k: int|
            0 <= k < final(g).players@.len() ==> (#[trigger] final(g).players@[k]).transform.angle
                as int == (if old(g).players@[k].dead {
                old(g).players@[k].transform.angle as int
            } else {
                crate::movement::integrated_angle(
                    old(g).players@[k].transform.angle as int,
                    old(g).players@[k].ang_vel.0 + crate::movement::turn_delta(
                        crate::input::gather_spec(old(g).actions@[k], keys@[k]),
                    ),
                )
            }),
        forall|k: int|
            0 <= k < final(g).players@.len() ==> (#[trigger] final(g).players@[k]).ang_vel.0
                as int == (if old(g).players@[k].dead {
                old(g).players@[k].ang_vel.0 as int
            } else {
                crate::movement::integrated_ang_vel(
                    old(g).players@[k].ang_vel.0 + crate::movement::turn_delta(
                        crate::input::gather_spec(old(g).actions@[k], keys@[k]),
                    ),
                )
            }),
{
    let n = g.players.len();
    let mut shield_events: Vec<ShieldEvent> = Vec::new();
    let mut hits: Vec<HitRecord> = Vec::new();
    let mut newly_dead: Vec<u64> = Vec::new();

    // Input, shield, shooting and per-gesture control, player by player.
    let mut i: usize = 0;
    while i < n
        invariant
            i <= n == g.players@.len(),
            g.players@.len() == g.actions@.len() == g.swim_timers@.len() == g.rigs@.len(),
            g.players@.len() <= 8,
            keys@.len() == n,
            0 <= dt_ms <= 50_000,
            shield_events@.len() == i,
            g.starting_max_hp >= 1,
            forall|k: int|
                0 <= k < n ==> player_wf(#[trigger] g.players@[k]) && in_field(g.players@[k])
                    && in_box(g.players@[k].vel.0, 8_300) && -90 <= g.players@[k].ang_vel.0 <= 90
                    && g.players@[k].hp.0 <= g.starting_max_hp,
            forall|k: int|
                i <= k < n ==> in_box((#[trigger] g.players@[k]).vel.0, 8_000) && -75
                    <= g.players@[k].ang_vel.0 <= 75,
            forall|k: int| i <= k < n ==> #[trigger] g.players@[k] == old(g).players@[k],
            forall|k: int| i <= k < n ==> #[trigger] g.actions@[k] == old(g).actions@[k],
            forall|k: int|
                0 <= k < i ==> #[trigger] g.actions@[k] == crate::input::gather_spec(
                    old(g).actions@[k],
                    keys@[k],
                ),
            forall|k: int|
                0 <= k < i ==> #[trigger] shield_events@[k] == (if old(g).players@[k].dead {
                    ShieldEvent::Held
                } else {
                    crate::shield::shield_step(
                        old(g).players@[k],
                        crate::input::gather_spec(old(g).actions@[k], keys@[k]),
                        dt_ms as int,
                    ).1
                }),
            forall|k: int|
                0 <= k < n ==> (#[trigger] g.players@[k]).dead == old(g).players@[k].dead,
            forall|k: int|
                0 <= k < i && !old(g).players@[k].dead ==> (#[trigger] g.players@[k]).transform
                    == old(g).players@[k].transform && g.players@[k].ang_vel.0 as int == old(
                    g,
                ).players@[k].ang_vel.0 + crate::movement::turn_delta(
                    crate::input::gather_spec(old(g).actions@[k], keys@[k]),
                ),
            forall|k: int|
                0 <= k < i && old(g).players@[k].dead ==> #[trigger] g.players@[k] == old(
                    g,
                ).players@[k],
            forall|k: int|
                0 <= k < n && (#[trigger] g.players@[k]).dead ==> in_box(g.players@[k].vel.0, 8_000)
                    && -75 <= g.players@[k].ang_vel.0 <= 75,
            forall|k: int|
                0 <= k < n ==> (#[trigger] g.players@[k]).hp.0 <= old(g).players@[k].hp.0,
            forall|k: int|
                0 <= k < n ==> (old(g).players@[k].dead ==> (#[trigger] g.players@[k]).dead),
            forall|k: int|
                0 <= k < g.projectiles@.len() ==> projectile_wf(#[trigger] g.projectiles@[k])
                    && in_box(g.projectiles@[k].transform.pos, 5_000_000),
            forall|k: int|
                0 <= k < g.swim_timers@.len() ==> timer_wf(#[trigger] g.swim_timers@[k])
                    && g.swim_timers@[k].repeating,
            forall|k: int| 0 <= k < g.rigs@.len() ==> rig_wf(#[trigger] g.rigs@[k]),
            forall|k: int| 0 <= k < g.orbs@.len() ==> orb_wf(#[trigger] g.orbs@[k]),
            fish_pose_wf(g.fish_pos, g.fish_depth as int),
            animation_state_wf(g.fish_anim),
            fish_rig_wf(g.fish_rig),
            target_wf(g.attention),
        decreases n - i,
    {
        let a = gather_player_input(&g.actions[i], &keys[i]);
        g.actions[i] = a;
        if !g.players[i].dead {
            let mut p = g.players[i];
            handle_movement(&mut p, &a);
            let ghost moved = p;
            let ev = handle_shielding(&mut p, &a, dt_ms);
            proof {
                crate::shield::lemma_shield_event_agrees(
                    moved,
                    old(g).players@[i as int],
                    a,
                    dt_ms as int,
                );
            }
            shield_events.push(ev);
            match handle_shooting(&mut p, &a, i as u64) {
                Some(pr) => {
                    g.projectiles.push(pr);
                },
                None => {},
            }
            g.players[i] = p;
        } else {
            shield_events.push(ShieldEvent::Held);
        }
        i = i + 1;
    }
    tick_world(g, dt_ms, &mut hits, &mut newly_dead);
    add_dead_things_to_menu(&mut g.eat_queue, &newly_dead);
    let eaten = tick_fish(g, dt_ms);
    tick_player_animation(g, dt_ms);
    TickReport { shield_events, hits, eaten }
}

/// Orb pickup and respawn, energy-driven growth, movement integration,
/// collision resolution, and projectile advance and resolution, in that
/// order.
fn tick_world(g: &mut Game, dt_ms: i64, hits: &mut Vec<HitRecord>, newly_dead: &mut Vec<u64>)
    requires
        old(g).players@.len() == old(g).actions@.len() == old(g).swim_timers@.len() == old(g).rigs@.len(),
        old(g).players@.len() <= 8,
        0 <= dt_ms <= 50_000,
        old(g).starting_max_hp >= 1,
        forall|k: int|
            0 <= k < old(g).players@.len() ==> player_wf(#[trigger] old(g).players@[k]) && in_field(
                old(g).players@[k],
            ) && in_box(old(g).players@[k].vel.0, 8_300) && -90 <= old(g).players@[k].ang_vel.0
                <= 90 && old(g).players@[k].hp.0 <= old(g).starting_max_hp,
        forall|k: int|
            0 <= k < old(g).players@.len() && (#[trigger] old(g).players@[k]).dead ==> in_box(
                old(g).players@[k].vel.0,
                8_000,
            ) && -75 <= old(g).players@[k].ang_vel.0 <= 75,
        forall|k: int|
            0 <= k < old(g).projectiles@.len() ==> projectile_wf(#[trigger] old(g).projectiles@[k])
                && in_box(old(g).projectiles@[k].transform.pos, 5_000_000),
        forall|k: int| 0 <= k < old(g).orbs@.len() ==> orb_wf(#[trigger] old(g).orbs@[k]),
        forall|k: int| 0 <= k < old(g).rigs@.len() ==> rig_wf(#[trigger] old(g).rigs@[k]),
        old(newly_dead)@.len() == 0,
    ensures
        final(g).players@.len() == old(g).players@.len(),
        final(g).actions@ == old(g).actions@,
        final(g).swim_timers@ == old(g).swim_timers@,
        final(g).rigs@ == old(g).rigs@,
        final(g).eat_queue@ == old(g).eat_queue@,
        final(g).fish_pos == old(g).fish_pos,
        final(g).fish_depth == old(g).fish_depth,
        final(g).fish_anim == old(g).fish_anim,
        final(g).fish_rig == old(g).fish_rig,
        final(g).attention == old(g).attention,
        final(g).starting_max_hp == old(g).starting_max_hp,
        forall|k: int|
            0 <= k < final(g).players@.len() ==> roster_player_wf(
                #[trigger] final(g).players@[k],
                final(g).starting_max_hp,
            ),
        forall|k: int|
            0 <= k < final(g).players@.len() ==> (#[trigger] final(g).players@[k]).transform.angle
                as int == (if old(g).players@[k].dead {
                old(g).players@[k].transform.angle as int
            } else {
                crate::movement::integrated_angle(
                    old(g).players@[k].transform.angle as int,
                    old(g).players@[k].ang_vel.0 as int,
                )
            }),
        forall|k: int|
            0 <= k < final(g).players@.len() ==> (#[trigger] final(g).players@[k]).ang_vel.0
                as int == (if old(g).players@[k].dead {
                old(g).players@[k].ang_vel.0 as int
            } else {
                crate::movement::integrated_ang_vel(old(g).players@[k].ang_vel.0 as int)
            }),
        forall|k: int|
            0 <= k < final(g).players@.len() ==> (#[trigger] final(g).players@[k]).hp.0 <= old(g).players@[k].hp.0,
        forall|k: int|
            0 <= k < final(g).players@.len() ==> (old(g).players@[k].dead ==> (
            #[trigger] final(g).players@[k]).dead),
        forall|k: int|
            0 <= k < final(g).projectiles@.len() ==> projectile_wf(
                #[trigger] final(g).projectiles@[k],
            ) && in_box(final(g).projectiles@[k].transform.pos, 5_000_000),
        forall|k: int| 0 <= k < final(g).orbs@.len() ==> orb_wf(#[trigger] final(g).orbs@[k]),
{
    let n = g.players.len();

    // Orbs: pickup against the players, respawn timers, then the
    // energy-driven size update.
    let orb_count = g.orbs.len();
    let mut oi: usize = 0;
    while oi < orb_count
        invariant
            oi <= orb_count == g.orbs@.len(),
            n == g.players@.len(),
            0 <= dt_ms <= 50_000,
            g.actions@ == old(g).actions@,
            g.swim_timers@ == old(g).swim_timers@,
            g.rigs@ == old(g).rigs@,
            g.eat_queue@ == old(g).eat_queue@,
            g.projectiles@ == old(g).projectiles@,
            g.fish_pos == old(g).fish_pos,
            g.fish_depth == old(g).fish_depth,
            g.fish_anim == old(g).fish_anim,
            g.fish_rig == old(g).fish_rig,
            g.attention == old(g).attention,
            g.starting_max_hp == old(g).starting_max_hp,
            forall|k: int|
                0 <= k < n ==> player_wf(#[trigger] g.players@[k]) && in_field(g.players@[k])
                    && in_box(g.players@[k].vel.0, 8_300) && -90 <= g.players@[k].ang_vel.0 <= 90
                    && g.players@[k].hp.0 <= old(g).players@[k].hp.0 && (old(g).players@[k].dead ==> g.players@[k].dead) && g.players@[k].hp.0 <= old(g).starting_max_hp,
            forall|k: int|
                0 <= k < n && (#[trigger] g.players@[k]).dead ==> in_box(g.players@[k].vel.0, 8_000)
                    && -75 <= g.players@[k].ang_vel.0 <= 75,
            forall|k: int|
                0 <= k < n ==> (#[trigger] g.players@[k]).transform.angle == old(
                    g,
                ).players@[k].transform.angle && g.players@[k].ang_vel == old(
                    g,
                ).players@[k].ang_vel && g.players@[k].dead == old(g).players@[k].dead,
            forall|k: int| 0 <= k < g.orbs@.len() ==> orb_wf(#[trigger] g.orbs@[k]),
        decreases orb_count - oi,
    {
        let mut orb = g.orbs[oi];
        let visible = match orb.respawn {
            Some(_) => false,
            None => true,
        };
        if visible {
            player_pickup(&mut g.players, &mut orb);
        } else {
            respawn_orbs(&mut orb, &g.players, dt_ms);
        }
        g.orbs[oi] = orb;
        proof {
            assert(n == g.players@.len());
        }
        oi = oi + 1;
    }
    let mut si: usize = 0;
    while si < n
        invariant
            si <= n == g.players@.len(),
            g.actions@ == old(g).actions@,
            g.swim_timers@ == old(g).swim_timers@,
            g.rigs@ == old(g).rigs@,
            g.eat_queue@ == old(g).eat_queue@,
            g.projectiles@ == old(g).projectiles@,
            g.fish_pos == old(g).fish_pos,
            g.fish_depth == old(g).fish_depth,
            g.fish_anim == old(g).fish_anim,
            g.fish_rig == old(g).fish_rig,
            g.attention == old(g).attention,
            g.starting_max_hp == old(g).starting_max_hp,
            forall|k: int|
                0 <= k < n ==> player_wf(#[trigger] g.players@[k]) && in_field(g.players@[k])
                    && in_box(g.players@[k].vel.0, 8_300) && -90 <= g.players@[k].ang_vel.0 <= 90
                    && g.players@[k].hp.0 <= old(g).players@[k].hp.0 && (old(g).players@[k].dead ==> g.players@[k].dead) && g.players@[k].hp.0 <= old(g).starting_max_hp,
            forall|k: int|
                0 <= k < n && (#[trigger] g.players@[k]).dead ==> in_box(g.players@[k].vel.0, 8_000)
                    && -75 <= g.players@[k].ang_vel.0 <= 75,
            forall|k: int|
                0 <= k < n ==> (#[trigger] g.players@[k]).transform.angle == old(
                    g,
                ).players@[k].transform.angle && g.players@[k].ang_vel == old(
                    g,
                ).players@[k].ang_vel && g.players@[k].dead == old(g).players@[k].dead,
            forall|k: int| 0 <= k < g.orbs@.len() ==> orb_wf(#[trigger] g.orbs@[k]),
        decreases n - si,
    {
        let mut p = g.players[si];
        if !p.dead {
            change_player_size(&mut p);
            g.players[si] = p;
        }
        si = si + 1;
    }

    // Movement integration for the living.
    let mut mi: usize = 0;
    while mi < n
        invariant
            mi <= n == g.players@.len(),
            g.actions@ == old(g).actions@,
            g.swim_timers@ == old(g).swim_timers@,
            g.rigs@ == old(g).rigs@,
            g.eat_queue@ == old(g).eat_queue@,
            g.projectiles@ == old(g).projectiles@,
            g.fish_pos == old(g).fish_pos,
            g.fish_depth == old(g).fish_depth,
            g.fish_anim == old(g).fish_anim,
            g.fish_rig == old(g).fish_rig,
            g.attention == old(g).attention,
            g.starting_max_hp == old(g).starting_max_hp,
            forall|k: int|
                0 <= k < n ==> player_wf(#[trigger] g.players@[k]) && in_box(
                    g.players@[k].transform.pos,
                    4_008_300,
                ) && in_box(g.players@[k].vel.0, 8_300) && -90 <= g.players@[k].ang_vel.0 <= 90
                    && g.players@[k].hp.0 <= old(g).players@[k].hp.0 && (old(g).players@[k].dead ==> g.players@[k].dead) && g.players@[k].hp.0 <= old(g).starting_max_hp,
            forall|k: int|
                0 <= k < n && (#[trigger] g.players@[k]).dead ==> in_field(g.players@[k]) && in_box(
                    g.players@[k].vel.0,
                    8_000,
                ) && -75 <= g.players@[k].ang_vel.0 <= 75,
            forall|k: int|
                0 <= k < mi && !(#[trigger] g.players@[k]).dead ==> in_box(
                    g.players@[k].vel.0,
                    8_000,
                ) && -75 <= g.players@[k].ang_vel.0 <= 75,
            forall|k: int| 0 <= k < n ==> (#[trigger] g.players@[k]).dead == old(g).players@[k].dead,
            forall|k: int|
                0 <= k < mi && !(#[trigger] g.players@[k]).dead ==> g.players@[k].transform.angle
                    as int == crate::movement::integrated_angle(
                    old(g).players@[k].transform.angle as int,
                    old(g).players@[k].ang_vel.0 as int,
                ) && g.players@[k].ang_vel.0 as int == crate::movement::integrated_ang_vel(
                    old(g).players@[k].ang_vel.0 as int,
                ),
            forall|k: int|
                mi <= k < n ==> (#[trigger] g.players@[k]).transform.angle == old(
                    g,
                ).players@[k].transform.angle && g.players@[k].ang_vel == old(
                    g,
                ).players@[k].ang_vel,
            forall|k: int|
                0 <= k < n && (#[trigger] g.players@[k]).dead ==> g.players@[k].transform.angle
                    == old(g).players@[k].transform.angle && g.players@[k].ang_vel == old(
                    g,
                ).players@[k].ang_vel,
            forall|k: int| mi <= k < n ==> in_field(#[trigger] g.players@[k]),
            forall|k: int| 0 <= k < g.orbs@.len() ==> orb_wf(#[trigger] g.orbs@[k]),
        decreases n - mi,
    {
        let mut p = g.players[mi];
        if !p.dead {
            move_players(&mut p);
            g.players[mi] = p;
        }
        mi = mi + 1;
    }

    collide_players(&mut g.players);

    // Projectiles: advance, cull strays, then resolve hits against the
    // living.
    let ghost players0 = old(g).players@;
    let max_hp = g.starting_max_hp;
    resolve_projectiles(&mut g.players, &mut g.projectiles, &g.rigs, hits, newly_dead,
        Ghost(players0), max_hp);
}

/// Run the collision solver over the living players and carry the
/// corrected positions and velocities back.
fn collide_players(players: &mut Vec<PlayerState>)
    requires
        old(players)@.len() <= 8,
        forall|k: int|
            0 <= k < old(players)@.len() ==> player_wf(#[trigger] old(players)@[k]) && in_box(
                old(players)@[k].transform.pos,
                4_008_300,
            ) && in_box(old(players)@[k].vel.0, 8_000) && -75 <= old(players)@[k].ang_vel.0 <= 75,
        forall|k: int|
            0 <= k < old(players)@.len() && (#[trigger] old(players)@[k]).dead ==> in_field(
                old(players)@[k],
            ),
    ensures
        final(players)@.len() == old(players)@.len(),
        forall|k: int|
            0 <= k < final(players)@.len() ==> player_wf(#[trigger] final(players)@[k]) && in_field(
                final(players)@[k],
            ) && in_box(final(players)@[k].vel.0, 8_000) && -75 <= final(players)@[k].ang_vel.0 <= 75,
        forall|k: int|
            0 <= k < final(players)@.len() ==> (#[trigger] final(players)@[k]).hp == old(players)@[k].hp && final(players)@[k].dead == old(players)@[k].dead && final(players)@[k].energy == old(players)@[k].energy && final(players)@[k].lives == old(players)@[k].lives,
        forall|k: int|
            0 <= k < final(players)@.len() ==> (#[trigger] final(players)@[k]).ang_vel == old(players)@[k].ang_vel && final(players)@[k].transform.angle == old(players)@[k].transform.angle && final(players)@[k].transform.scale == old(players)@[k].transform.scale && final(players)@[k].transform.depth == old(players)@[k].transform.depth && final(players)@[k].circle == old(players)@[k].circle && final(players)@[k].shielded == old(players)@[k].shielded,
{
    let n = players.len();
    let mut bodies: Vec<Body> = Vec::new();
    let mut idxs: Vec<usize> = Vec::new();
    let mut i: usize = 0;
    while i < n
        invariant
            i <= n == players@.len() <= 8,
            players@ == old(players)@,
            bodies@.len() == idxs@.len() <= i,
            forall|k: int|
                0 <= k < old(players)@.len() ==> player_wf(#[trigger] old(players)@[k]) && in_box(
                    old(players)@[k].transform.pos,
                    4_008_300,
                ) && in_box(old(players)@[k].vel.0, 8_000),
            forall|m: int|
                0 <= m < idxs@.len() ==> 0 <= #[trigger] idxs@[m] < i && !players@[idxs@[m] as int].dead,
            forall|k: int|
                0 <= k < i && !(#[trigger] players@[k]).dead ==> exists|a: int|
                    0 <= a < idxs@.len() && (#[trigger] idxs@[a]) == k,
            forall|a: int, b: int|
                0 <= a < b < idxs@.len() ==> (#[trigger] idxs@[a]) < (#[trigger] idxs@[b]),
            forall|m: int|
                0 <= m < bodies@.len() ==> #[trigger] bodies@[m] == (Body {
                    pos: players@[idxs@[m] as int].transform.pos,
                    vel: players@[idxs@[m] as int].vel.0,
                    radius: players@[idxs@[m] as int].circle.radius,
                }),
            forall|m: int| 0 <= m < bodies@.len() ==> body_wf(#[trigger] bodies@[m]),
        decreases n - i,
    {
        let p = &players[i];
        let ghost idxs_pre = idxs@;
        if !p.dead {
            bodies.push(Body { pos: p.transform.pos, vel: p.vel.0, radius: p.circle.radius });
            idxs.push(i);
        }
        proof {
            assert forall|k: int|
                0 <= k < i + 1 && !(#[trigger] players@[k]).dead implies exists|a: int|
                0 <= a < idxs@.len() && (#[trigger] idxs@[a]) == k by {
                if k == i as int {
                    assert(idxs@[idxs@.len() - 1] == k);
                } else {
                    let a = choose|a: int| 0 <= a < idxs_pre.len() && (#[trigger] idxs_pre[a]) == k;
                    assert(idxs@[a] == k);
                }
            }
        }
        i = i + 1;
    }
    let ghost bodies0 = bodies@;
    let _resolved = handle_collision(&mut bodies);
    let m = bodies.len();
    let mut w: usize = 0;
    while w < m
        invariant
            w <= m == bodies@.len() == idxs@.len(),
            bodies0.len() == bodies@.len(),
            n == players@.len(),
            forall|k: int|
                0 <= k < idxs@.len() ==> 0 <= #[trigger] idxs@[k] < n,
            forall|a: int, b: int|
                0 <= a < b < idxs@.len() ==> (#[trigger] idxs@[a]) < (#[trigger] idxs@[b]),
            forall|k: int|
                0 <= k < bodies@.len() ==> crate::collision::body_in_field(#[trigger] bodies@[k])
                    && absi(bodies@[k].vel.x as int) <= absi(bodies0[k].vel.x as int) && absi(
                    bodies@[k].vel.y as int,
                ) <= absi(bodies0[k].vel.y as int) && bodies@[k].radius == bodies0[k].radius,
            forall|k: int|
                0 <= k < bodies0.len() ==> #[trigger] bodies0[k] == (Body {
                    pos: old(players)@[idxs@[k] as int].transform.pos,
                    vel: old(players)@[idxs@[k] as int].vel.0,
                    radius: old(players)@[idxs@[k] as int].circle.radius,
                }),
            forall|k: int|
                0 <= k < n ==> player_wf(#[trigger] players@[k]) && in_box(
                    players@[k].transform.pos,
                    4_008_300,
                ) && in_box(players@[k].vel.0, 8_000) && -75 <= players@[k].ang_vel.0 <= 75,
            forall|k: int|
                0 <= k < n ==> (#[trigger] players@[k]).hp == old(players)@[k].hp && players@[k].dead
                    == old(players)@[k].dead && players@[k].energy == old(players)@[k].energy
                    && players@[k].lives == old(players)@[k].lives,
            forall|k: int|
                0 <= k < n ==> (#[trigger] players@[k]).ang_vel == old(players)@[k].ang_vel
                    && players@[k].transform.angle == old(players)@[k].transform.angle
                    && players@[k].transform.scale == old(players)@[k].transform.scale
                    && players@[k].transform.depth == old(players)@[k].transform.depth
                    && players@[k].circle == old(players)@[k].circle && players@[k].shielded
                    == old(players)@[k].shielded,
            forall|k: int|
                0 <= k < n && (#[trigger] players@[k]).dead ==> in_field(players@[k]),
            forall|k: int|
                0 <= k < n && !(#[trigger] players@[k]).dead ==> exists|a: int|
                    0 <= a < idxs@.len() && (#[trigger] idxs@[a]) == k,
            forall|a: int|
                0 <= a < w ==> in_field(#[trigger] players@[idxs@[a] as int]),
            forall|k: int|
                0 <= k < n && !(exists|a: int| 0 <= a < idxs@.len() && (#[trigger] idxs@[a]) == k)
                    ==> players@[k] == old(players)@[k],
            forall|a: int|
                w <= a < idxs@.len() ==> #[trigger] players@[idxs@[a] as int] == old(players)@[idxs@[a] as int],
        decreases m - w,
    {
        let pi = idxs[w];
        let mut p = players[pi];
        let b = bodies[w];
        p.transform.pos = b.pos;
        p.vel = Velocity(b.vel);
        players[pi] = p;
        proof {
            assert(idxs@[w as int] == pi as int);
            assert(bodies0[w as int].vel == old(players)@[pi as int].vel.0);
            assert(crate::collision::body_in_field(bodies@[w as int]));
            assert(in_box(old(players)@[pi as int].vel.0, 8_000));
            assert forall|a: int| 0 <= a < w + 1 implies in_field(
                #[trigger] players@[idxs@[a] as int],
            ) by {
                if a < w {
                    assert(idxs@[a] < idxs@[w as int]);
                }
            }
        }
        w = w + 1;
    }
    proof {
        assert forall|k: int| 0 <= k < n implies in_field(#[trigger] players@[k]) by {
            if !players@[k].dead {
                let a = choose|a: int| 0 <= a < idxs@.len() && #[trigger] idxs@[a] == k;
                assert(in_field(players@[idxs@[a] as int]));
            }
        }
    }
}

/// Advance every projectile, cull those that left the extended field,
/// then resolve each survivor against the living players: the deepest
/// interpenetrating non-originator is struck, shields block, damage is
/// one hit point, and a kill marks the target dead and queues it.
fn resolve_projectiles(
    players: &mut Vec<PlayerState>,
    projectiles: &mut Vec<Projectile>,
    rigs: &Vec<PlayerRig>,
    hits: &mut Vec<HitRecord>,
    newly_dead: &mut Vec<u64>,
    Ghost(players0): Ghost<Seq<PlayerState>>,
    starting_max_hp: u32,
)
    requires
        old(players)@.len() == players0.len() <= 8,
        rigs@.len() == old(players)@.len(),
        forall|k: int| 0 <= k < rigs@.len() ==> rig_wf(#[trigger] rigs@[k]),
        old(newly_dead)@.len() == 0,
        forall|k: int|
            0 <= k < old(players)@.len() ==> player_wf(#[trigger] old(players)@[k]) && in_field(
                old(players)@[k],
            ) && in_box(old(players)@[k].vel.0, 8_000) && -75 <= old(players)@[k].ang_vel.0 <= 75,
        forall|k: int|
            0 <= k < old(players)@.len() ==> (#[trigger] old(players)@[k]).hp.0 <= players0[k].hp.0
                && (players0[k].dead ==> old(players)@[k].dead) && old(players)@[k].hp.0
                <= starting_max_hp,
        forall|k: int|
            0 <= k < old(projectiles)@.len() ==> projectile_wf(#[trigger] old(projectiles)@[k])
                && in_box(old(projectiles)@[k].transform.pos, 5_000_000),
    ensures
        final(players)@.len() == old(players)@.len(),
        forall|k: int|
            0 <= k < final(players)@.len() ==> player_wf(#[trigger] final(players)@[k]) && in_field(
                final(players)@[k],
            ) && in_box(final(players)@[k].vel.0, 8_000) && -75 <= final(players)@[k].ang_vel.0 <= 75,
        forall|k: int|
            0 <= k < final(players)@.len() ==> (#[trigger] final(players)@[k]).hp.0
                <= players0[k].hp.0 && (players0[k].dead ==> final(players)@[k].dead) && final(players)@[k].hp.0 <= starting_max_hp,
        forall|k: int|
            0 <= k < final(players)@.len() ==> (#[trigger] final(players)@[k]).transform == old(players)@[k].transform && final(players)@[k].vel == old(players)@[k].vel && final(players)@[k].ang_vel == old(players)@[k].ang_vel && final(players)@[k].energy == old(players)@[k].energy && final(players)@[k].lives == old(players)@[k].lives && final(players)@[k].circle == old(players)@[k].circle && final(players)@[k].shielded == old(players)@[k].shielded,
        forall|k: int|
            0 <= k < final(projectiles)@.len() ==> projectile_wf(#[trigger] final(projectiles)@[k])
                && in_box(final(projectiles)@[k].transform.pos, 5_000_000),
        final(newly_dead)@.len() <= final(players)@.len() + old(projectiles)@.len(),
{
    let n = players.len();
    let count = projectiles.len();
    let mut remaining: Vec<Projectile> = Vec::new();
    let mut pi: usize = 0;
    while pi < count
        invariant
            pi <= count == projectiles@.len(),
            n == players@.len(),
            forall|k: int|
                0 <= k < count ==> projectile_wf(#[trigger] projectiles@[k]) && in_box(
                    projectiles@[k].transform.pos,
                    5_000_000,
                ),
            forall|k: int|
                0 <= k < remaining@.len() ==> projectile_wf(#[trigger] remaining@[k]) && in_box(
                    remaining@[k].transform.pos,
                    5_000_000,
                ),
            forall|k: int|
                0 <= k < n ==> player_wf(#[trigger] players@[k]) && in_field(players@[k])
                    && in_box(players@[k].vel.0, 8_000) && -75 <= players@[k].ang_vel.0 <= 75,
            forall|k: int|
                0 <= k < n ==> (#[trigger] players@[k]).hp.0 <= players0[k].hp.0 && (
                players0[k].dead ==> players@[k].dead) && players@[k].hp.0 <= starting_max_hp,
            forall|k: int|
                0 <= k < n ==> (#[trigger] players@[k]).transform == old(players)@[k].transform
                    && players@[k].vel == old(players)@[k].vel && players@[k].ang_vel == old(players)@[k].ang_vel && players@[k].energy == old(players)@[k].energy && players@[k].lives == old(players)@[k].lives && players@[k].circle == old(players)@[k].circle && players@[k].shielded == old(players)@[k].shielded,
            rigs@.len() == n,
            forall|k: int| 0 <= k < rigs@.len() ==> rig_wf(#[trigger] rigs@[k]),
            newly_dead@.len() <= pi,
        decreases count - pi,
    {
        let mut pr = projectiles[pi];
        move_projectile(&mut pr);
        let inside = -5_000_000 <= pr.transform.pos.x && pr.transform.pos.x <= 5_000_000
            && -5_000_000 <= pr.transform.pos.y && pr.transform.pos.y <= 5_000_000;
        if inside {
            let mut targets: Vec<Target> = Vec::new();
            let mut ti: usize = 0;
            while ti < n
                invariant
                    ti <= n == players@.len(),
                    forall|k: int|
                        0 <= k < n ==> player_wf(#[trigger] players@[k]) && in_field(
                            players@[k],
                        ),
                    forall|k: int|
                        0 <= k < targets@.len() ==> crate::projectiles::target_wf(
                            #[trigger] targets@[k],
                        ) && targets@[k].id < n as u64,
                decreases n - ti,
            {
                let p = &players[ti];
                if !p.dead {
                    targets.push(
                        Target {
                            id: ti as u64,
                            pos: p.transform.pos,
                            radius: p.circle.radius,
                        },
                    );
                }
                ti = ti + 1;
            }
            match find_hit(&pr, &targets) {
                Some(t) => {
                    let target_id = targets[t].id as usize;
                    let mut victim = players[target_id];
                    let outcome = apply_hit(&mut victim);
                    players[target_id] = victim;
                    // The projectile is spent either way: against a
                    // shield it bursts, otherwise it sticks to the
                    // geometrically nearest root-level rig part of the
                    // victim, with its transform recomputed in that
                    // part's frame.
                    let attachment = match outcome {
                        HitOutcome::Blocked => None,
                        _ => Some(attach_to_victim(&victim, &rigs[target_id], &pr)),
                    };
                    hits.push(
                        HitRecord {
                            victim: target_id,
                            outcome,
                            impact: pr.transform.pos,
                            attachment,
                        },
                    );
                    match outcome {
                        HitOutcome::Killed => {
                            newly_dead.push(target_id as u64);
                        },
                        _ => {},
                    }
                },
                None => {
                    remaining.push(pr);
                },
            }
        }
        pi = pi + 1;
    }
    *projectiles = remaining;
}

/// Stick a spent projectile to the struck player: among the rig parts
/// hanging off the root (head, body, tail), the one geometrically
/// nearest the impact point receives it, and the projectile's transform
/// is recomputed in that part's playfield frame.
fn attach_to_victim(victim: &PlayerState, rig: &PlayerRig, pr: &Projectile) -> (r: (
    crate::player_animation::BodyPart,
    crate::components::Transform2,
))
    requires
        player_wf(*victim),
        in_field(*victim),
        rig_wf(*rig),
        projectile_wf(*pr),
        in_box(pr.transform.pos, 5_013_000),
    ensures
        ({
            let head_g = crate::components::compose_spec(victim.transform, rig.head);
            let body_g = crate::components::compose_spec(victim.transform, rig.body);
            let tail_g = crate::components::compose_spec(victim.transform, rig.tail);
            let parent = match r.0 {
                crate::player_animation::BodyPart::Head => head_g,
                crate::player_animation::BodyPart::Body => body_g,
                _ => tail_g,
            };
            &&& (r.0 == crate::player_animation::BodyPart::Head || r.0
                == crate::player_animation::BodyPart::Body || r.0
                == crate::player_animation::BodyPart::Tail)
            &&& crate::vec2::dist2(parent.pos, pr.transform.pos) <= crate::vec2::dist2(
                head_g.pos,
                pr.transform.pos,
            )
            &&& crate::vec2::dist2(parent.pos, pr.transform.pos) <= crate::vec2::dist2(
                body_g.pos,
                pr.transform.pos,
            )
            &&& crate::vec2::dist2(parent.pos, pr.transform.pos) <= crate::vec2::dist2(
                tail_g.pos,
                pr.transform.pos,
            )
            &&& r.1 == crate::projectiles::attach_spec(pr.transform, parent)
        }),
{
    let root = victim.transform;
    let head_g = crate::components::compose_transform(&root, &rig.head);
    let body_g = crate::components::compose_transform(&root, &rig.body);
    let tail_g = crate::components::compose_transform(&root, &rig.tail);
    let parts = vec![head_g.pos, body_g.pos, tail_g.pos];
    let idx = match crate::projectiles::nearest_part(&parts, pr.transform.pos) {
        Some(i) => i,
        None => {
            proof {
                assert(false);
            }
            0
        },
    };
    let (part, parent) = if idx == 0 {
        (crate::player_animation::BodyPart::Head, head_g)
    } else if idx == 1 {
        (crate::player_animation::BodyPart::Body, body_g)
    } else {
        (crate::player_animation::BodyPart::Tail, tail_g)
    };
    let local = crate::projectiles::attach_local_transform(&pr.transform, &parent);
    (part, local)
}

/// Attention, pursuit and feeding of the big fish, then its cyclic rig
/// motions, in tick order: base pose, bobbing, breathing,
/// swimming, then the bite.
#[verifier::rlimit(80)]
fn tick_fish(g: &mut Game, dt_ms: i64) -> (eaten: Option<u64>)
    requires
        0 <= dt_ms <= 50_000,
        old(g).starting_max_hp >= 1,
        forall|k: int|
            0 <= k < old(g).players@.len() ==> player_wf(#[trigger] old(g).players@[k]) && in_field(
                old(g).players@[k],
            ) && old(g).players@[k].hp.0 <= old(g).starting_max_hp,
        old(g).players@.len() <= 8,
        fish_pose_wf(old(g).fish_pos, old(g).fish_depth as int),
        animation_state_wf(old(g).fish_anim),
        fish_rig_wf(old(g).fish_rig),
    ensures
        final(g).players@ == old(g).players@,
        final(g).actions@ == old(g).actions@,
        final(g).swim_timers@ == old(g).swim_timers@,
        final(g).rigs@ == old(g).rigs@,
        final(g).projectiles@ == old(g).projectiles@,
        final(g).orbs@ == old(g).orbs@,
        final(g).starting_max_hp == old(g).starting_max_hp,
        fish_pose_wf(final(g).fish_pos, final(g).fish_depth as int),
        animation_state_wf(final(g).fish_anim),
        fish_rig_wf(final(g).fish_rig),
        target_wf(final(g).attention),
        final(g).eat_queue@.len() <= old(g).eat_queue@.len(),
{
    // Attention: the first queued meal, or the weakest combatants.
    let eat_first: Option<Vec2> = if g.eat_queue.len() > 0 {
        let id = g.eat_queue[0];
        if (id as usize) < g.players.len() {
            Some(g.players[id as usize].transform.pos)
        } else {
            None
        }
    } else {
        None
    };
    let mut entities: Vec<HpEntity> = Vec::new();
    let n = g.players.len();
    let mut i: usize = 0;
    while i < n
        invariant
            i <= n == g.players@.len() <= 8,
            forall|k: int|
                0 <= k < n ==> player_wf(#[trigger] g.players@[k]) && in_field(g.players@[k])
                    && g.players@[k].hp.0 <= g.starting_max_hp,
            entities@.len() <= i,
            forall|k: int|
                0 <= k < entities@.len() ==> in_box((#[trigger] entities@[k]).pos, 2_000_000)
                    && entities@[k].hp <= g.starting_max_hp,
        decreases n - i,
    {
        let p = &g.players[i];
        if !p.dead {
            entities.push(HpEntity { hp: p.hp.0, pos: p.transform.pos });
        }
        i = i + 1;
    }
    g.attention = update_attention_target(eat_first, &entities, g.starting_max_hp);
    let eating = g.eat_queue.len() > 0;
    let attention = g.attention;
    let mut fish_pos = g.fish_pos;
    let mut fish_depth = g.fish_depth;
    follow_attention_target(&mut fish_pos, &mut fish_depth, &mut g.fish_anim, &attention, eating);
    g.fish_pos = fish_pos;
    g.fish_depth = fish_depth;
    run_fish_cycles(&mut g.fish_anim, &mut g.fish_rig, dt_ms);
    let outcome = eat_dead_things(
        &mut g.fish_anim,
        &mut g.fish_rig,
        &mut g.eat_queue,
        g.fish_pos,
        g.fish_depth,
        &attention,
        dt_ms,
    );
    match outcome {
        EatOutcome::Ate(id) => Some(id),
        _ => None,
    }
}

/// The big fish's cyclic rig motions for one tick: base pose, bobbing,
/// breathing, then the speed-scaled swim sway.
fn run_fish_cycles(state: &mut AnimationState, rig: &mut BigFishRig, dt_ms: i64)
    requires
        animation_state_wf(*old(state)),
        0 <= dt_ms <= 50_000,
    ensures
        animation_state_wf(*final(state)),
        final(state).chomping == old(state).chomping,
        final(state).swim_speed == old(state).swim_speed,
        fish_rig_wf(*final(rig)),
        -200_000 <= final(rig).bottom_jaw.pos.y <= 200_000,
        -200_000 <= final(rig).top_jaw.pos.y <= 200_000,
{
    reset_animation(rig);
    bob(state, rig, dt_ms);
    breathe(state, rig, dt_ms);
    swim(state, rig, dt_ms);
}

/// The swimming gait and the gaze of every living player.
fn tick_player_animation(g: &mut Game, dt_ms: i64)
    requires
        0 <= dt_ms <= 50_000,
        old(g).players@.len() == old(g).actions@.len() == old(g).swim_timers@.len() == old(g).rigs@.len(),
        forall|k: int|
            0 <= k < old(g).players@.len() ==> player_wf(#[trigger] old(g).players@[k]) && in_field(
                old(g).players@[k],
            ) && in_box(old(g).players@[k].vel.0, 8_300) && -90 <= old(g).players@[k].ang_vel.0
                <= 90,
        forall|k: int|
            0 <= k < old(g).swim_timers@.len() ==> timer_wf(#[trigger] old(g).swim_timers@[k])
                && old(g).swim_timers@[k].repeating,
        forall|k: int| 0 <= k < old(g).rigs@.len() ==> rig_wf(#[trigger] old(g).rigs@[k]),
        forall|k: int| 0 <= k < old(g).orbs@.len() ==> orb_wf(#[trigger] old(g).orbs@[k]),
    ensures
        final(g).players@ == old(g).players@,
        final(g).actions@ == old(g).actions@,
        final(g).projectiles@ == old(g).projectiles@,
        final(g).orbs@ == old(g).orbs@,
        final(g).eat_queue@ == old(g).eat_queue@,
        final(g).fish_pos == old(g).fish_pos,
        final(g).fish_depth == old(g).fish_depth,
        final(g).fish_anim == old(g).fish_anim,
        final(g).fish_rig == old(g).fish_rig,
        final(g).attention == old(g).attention,
        final(g).starting_max_hp == old(g).starting_max_hp,
        final(g).swim_timers@.len() == old(g).swim_timers@.len(),
        final(g).rigs@.len() == old(g).rigs@.len(),
        forall|k: int|
            0 <= k < final(g).swim_timers@.len() ==> timer_wf(#[trigger] final(g).swim_timers@[k])
                && final(g).swim_timers@[k].repeating,
        forall|k: int| 0 <= k < final(g).rigs@.len() ==> rig_wf(#[trigger] final(g).rigs@[k]),
{
    let n = g.players.len();
    let mut i: usize = 0;
    while i < n
        invariant
            i <= n == g.players@.len() == g.swim_timers@.len() == g.rigs@.len(),
            0 <= dt_ms <= 50_000,
            g.players@ == old(g).players@,
            g.actions@ == old(g).actions@,
            g.projectiles@ == old(g).projectiles@,
            g.orbs@ == old(g).orbs@,
            g.eat_queue@ == old(g).eat_queue@,
            g.fish_pos == old(g).fish_pos,
            g.fish_depth == old(g).fish_depth,
            g.fish_anim == old(g).fish_anim,
            g.fish_rig == old(g).fish_rig,
            g.attention == old(g).attention,
            g.starting_max_hp == old(g).starting_max_hp,
            forall|k: int|
                0 <= k < n ==> player_wf(#[trigger] g.players@[k]) && in_field(g.players@[k])
                    && in_box(g.players@[k].vel.0, 8_300) && -90 <= g.players@[k].ang_vel.0 <= 90,
            forall|k: int|
                0 <= k < g.swim_timers@.len() ==> timer_wf(#[trigger] g.swim_timers@[k])
                    && g.swim_timers@[k].repeating,
            forall|k: int| 0 <= k < g.rigs@.len() ==> rig_wf(#[trigger] g.rigs@[k]),
            forall|k: int| 0 <= k < g.orbs@.len() ==> orb_wf(#[trigger] g.orbs@[k]),
        decreases n - i,
    {
        if !g.players[i].dead {
            let p = g.players[i];
            let mut timer = g.swim_timers[i];
            let pose = animate_swimming(&mut timer, p.vel.0, p.ang_vel.0, dt_ms);
            g.swim_timers[i] = timer;
            let mut rig = g.rigs[i];
            apply_gait_pose(&mut rig, &pose);
            // Gaze candidates: the other living players and the visible
            // orbs.
            let mut candidates: Vec<Vec2> = Vec::new();
            let mut c: usize = 0;
            while c < n
                invariant
                    c <= n == g.players@.len(),
                    forall|k: int|
                        0 <= k < n ==> player_wf(#[trigger] g.players@[k]) && in_field(
                            g.players@[k],
                        ),
                    forall|k: int|
                        0 <= k < candidates@.len() ==> in_box(#[trigger] candidates@[k], 5_000_000),
                decreases n - c,
            {
                if c != i && !g.players[c].dead {
                    candidates.push(g.players[c].transform.pos);
                }
                c = c + 1;
            }
            let orb_count = g.orbs.len();
            let mut oc: usize = 0;
            while oc < orb_count
                invariant
                    oc <= orb_count == g.orbs@.len(),
                    forall|k: int| 0 <= k < g.orbs@.len() ==> orb_wf(#[trigger] g.orbs@[k]),
                    forall|k: int|
                        0 <= k < candidates@.len() ==> in_box(#[trigger] candidates@[k], 5_000_000),
                decreases orb_count - oc,
            {
                let orb = &g.orbs[oc];
                let visible = match orb.respawn {
                    Some(_) => false,
                    None => true,
                };
                if visible {
                    candidates.push(orb.pos);
                }
                oc = oc + 1;
            }
            let target = gaze_target(p.transform.pos, p.transform.angle, &candidates);
            let root = p.transform;
            animate_eyes(&mut rig, &root, target);
            g.rigs[i] = rig;
        }
        i = i + 1;
    }
}

} // verus!
