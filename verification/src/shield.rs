//! Shield system: a just-pressed shield gesture with energy in reserve
//! raises the shield; holding it drains energy linearly with time; a
//! release or exhausted energy drops it. While the shield is up, damage
//! and forward thrust are suppressed elsewhere and drag is increased.
//! The returned event tells the rendering collaborator when to attach or
//! despawn the shield visual and when to emit the cosmetic burst.

use vstd::prelude::*;

use crate::components::Energy;
use crate::input::ActionState;
use crate::player::{player_wf, PlayerState, MAX_ENERGY};

verus! {

/// Energy drained per second while the shield is held, in thousandths of
/// an energy unit.
pub const SHIELD_DRAIN_RATE: i64 = 2_000;

/// What the shield system did to one player this tick.
#[derive(Clone, Copy, Debug, PartialEq, Eq, Structural)]
pub enum ShieldEvent {
    /// Nothing changed (possibly energy drained while holding).
    Held,
    /// The shield went up: attach the shield visual.
    Raised,
    /// The shield came down: despawn the visual and emit the burst.
    Dropped,
}

/// Energy drained by holding the shield for `dt_ms` milliseconds.
pub open spec fn drained_energy(e: int, dt_ms: int) -> int {
    e - (SHIELD_DRAIN_RATE as int * dt_ms) / 1_000
}

/// The shield transition one tick applies: raise on a fresh press with
/// energy in reserve; drain while held; drop on release or exhaustion,
/// clamping energy at zero. The drop decision reads the state the tick
/// started with, so a shield raised this tick is never dropped in the
/// same tick.
pub open spec fn shield_step(p: PlayerState, a: ActionState, dt_ms: int) -> (
    PlayerState,
    ShieldEvent,
) {
    let was = p.shielded;
    let p1 = if a.shield.just_pressed && p.energy.0 > 0 {
        PlayerState { shielded: true, ..p }
    } else if was && a.shield.pressed {
        PlayerState { energy: Energy(drained_energy(p.energy.0 as int, dt_ms) as i64), ..p }
    } else {
        p
    };
    let ev1 = if a.shield.just_pressed && p.energy.0 > 0 {
        ShieldEvent::Raised
    } else {
        ShieldEvent::Held
    };
    if was && (a.shield.just_released || p1.energy.0 <= 0) {
        let e = if p1.energy.0 < 0 {
            0int
        } else {
            p1.energy.0 as int
        };
        (PlayerState { energy: Energy(e as i64), shielded: false, ..p1 }, ShieldEvent::Dropped)
    } else {
        (p1, ev1)
    }
}

/// Which event the shield transition fires reads only the shield flag,
/// the energy and the gesture: motion updates between gathering input
/// and shielding never change it.
pub proof fn lemma_shield_event_agrees(
    p1: PlayerState,
    p2: PlayerState,
    a: ActionState,
    dt_ms: int,
)
    requires
        p1.shielded == p2.shielded,
        p1.energy == p2.energy,
    ensures
        shield_step(p1, a, dt_ms).1 == shield_step(p2, a, dt_ms).1,
{
}

/// Run one player's shield transition for this tick. Energy never
/// leaves `[0, MAX_ENERGY]`, and the shield only goes up when energy is
/// in reserve.
pub fn handle_shielding(p: &mut PlayerState, actions: &ActionState, dt_ms: i64) -> (r: ShieldEvent)
    requires
        player_wf(*old(p)),
        0 <= dt_ms <= 100_000,
    ensures
        (*final(p), r) == shield_step(*old(p), *actions, dt_ms as int),
        0 <= final(p).energy.0 <= MAX_ENERGY,
        r == ShieldEvent::Raised ==> old(p).energy.0 > 0 && final(p).shielded,
        final(p).transform == old(p).transform,
        final(p).vel == old(p).vel && final(p).ang_vel == old(p).ang_vel,
        final(p).hp == old(p).hp && final(p).lives == old(p).lives,
        final(p).circle == old(p).circle,
        final(p).dead == old(p).dead,
        player_wf(*final(p)),
{
    let was = p.shielded;
    let mut ev = ShieldEvent::Held;
    if actions.shield.just_pressed && p.energy.0 > 0 {
        p.shielded = true;
        ev = ShieldEvent::Raised;
    } else if was && actions.shield.pressed {
        let drain = (SHIELD_DRAIN_RATE * dt_ms) / 1_000;
        p.energy = Energy(p.energy.0 - drain);
    }
    if was && (actions.shield.just_released || p.energy.0 <= 0) {
        if p.energy.0 < 0 {
            p.energy = Energy(0);
        }
        p.shielded = false;
        ev = ShieldEvent::Dropped;
    }
    ev
}

} // verus!
