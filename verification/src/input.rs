//! Action model: raw per-device key state becomes a per-player,
//! per-gesture action state with press/hold/release edges. Holding both
//! turn keys is canonicalized to the shield gesture and suppresses the
//! turn gestures for that tick; the canonicalization is recomputed every
//! tick from the raw key state, never retained across frames.

use vstd::prelude::*;

verus! {

/// Raw state of one logical key for the current tick, as the input
/// collaborator reports it.
#[derive(Clone, Copy, Debug, PartialEq, Eq, Structural)]
pub struct KeyState {
    pub pressed: bool,
    pub just_pressed: bool,
    pub just_released: bool,
}

/// A key cannot be freshly pressed while up, nor freshly released while
/// down.
pub open spec fn key_wf(k: KeyState) -> bool {
    &&& (k.just_pressed ==> k.pressed)
    &&& (k.just_released ==> !k.pressed)
}

/// The four raw keys mapped to one player.
#[derive(Clone, Copy, Debug, PartialEq, Eq, Structural)]
pub struct PlayerKeys {
    pub forward: KeyState,
    pub left: KeyState,
    pub right: KeyState,
    pub shoot: KeyState,
}

pub open spec fn keys_wf(k: PlayerKeys) -> bool {
    &&& key_wf(k.forward)
    &&& key_wf(k.left)
    &&& key_wf(k.right)
    &&& key_wf(k.shoot)
}

/// One gesture's state for the current tick.
#[derive(Clone, Copy, Debug, PartialEq, Eq, Structural)]
pub struct GestureState {
    pub pressed: bool,
    pub just_pressed: bool,
    pub just_released: bool,
}

/// The five gestures of one player.
#[derive(Clone, Copy, Debug, PartialEq, Eq, Structural)]
pub struct ActionState {
    pub move_forward: GestureState,
    pub turn_left: GestureState,
    pub turn_right: GestureState,
    pub shield: GestureState,
    pub shoot: GestureState,
}

/// All gestures up, no edges: the state before the first tick.
pub open spec fn actions_released() -> ActionState {
    let g = GestureState { pressed: false, just_pressed: false, just_released: false };
    ActionState { move_forward: g, turn_left: g, turn_right: g, shield: g, shoot: g }
}

pub fn initial_actions() -> (r: ActionState)
    ensures
        r == actions_released(),
{
    let g = GestureState { pressed: false, just_pressed: false, just_released: false };
    ActionState { move_forward: g, turn_left: g, turn_right: g, shield: g, shoot: g }
}

/// Edge detection for one gesture: pressed follows the current decision,
/// the edges compare it with the previous tick.
pub open spec fn gesture_edge(was: GestureState, down: bool) -> GestureState {
    GestureState {
        pressed: down,
        just_pressed: down && !was.pressed,
        just_released: !down && was.pressed,
    }
}

/// The action state a player's raw keys produce this tick, given the
/// previous tick's action state: forward and shoot follow their keys;
/// both turn keys held canonicalizes to shield and suppresses both turn
/// gestures.
pub open spec fn gather_spec(prev: ActionState, keys: PlayerKeys) -> ActionState {
    let shield_down = keys.left.pressed && keys.right.pressed;
    ActionState {
        move_forward: gesture_edge(prev.move_forward, keys.forward.pressed),
        turn_left: gesture_edge(prev.turn_left, keys.left.pressed && !shield_down),
        turn_right: gesture_edge(prev.turn_right, keys.right.pressed && !shield_down),
        shield: gesture_edge(prev.shield, shield_down),
        shoot: gesture_edge(prev.shoot, keys.shoot.pressed),
    }
}

fn edge(was: GestureState, down: bool) -> (r: GestureState)
    ensures
        r == gesture_edge(was, down),
{
    GestureState {
        pressed: down,
        just_pressed: down && !was.pressed,
        just_released: !down && was.pressed,
    }
}

/// Convert one player's raw key state into this tick's action state.
pub fn gather_player_input(prev: &ActionState, keys: &PlayerKeys) -> (r: ActionState)
    ensures
        r == gather_spec(*prev, *keys),
{
    let shield_down = keys.left.pressed && keys.right.pressed;
    ActionState {
        move_forward: edge(prev.move_forward, keys.forward.pressed),
        turn_left: edge(prev.turn_left, keys.left.pressed && !shield_down),
        turn_right: edge(prev.turn_right, keys.right.pressed && !shield_down),
        shield: edge(prev.shield, shield_down),
        shoot: edge(prev.shoot, keys.shoot.pressed),
    }
}

/// Shield canonicalization law: whenever the shield gesture is down, both
/// turn gestures are suppressed for that tick, whatever the keys and the
/// previous state.
pub proof fn lemma_shield_suppresses_turns(prev: ActionState, keys: PlayerKeys)
    ensures
        gather_spec(prev, keys).shield.pressed ==> !gather_spec(prev, keys).turn_left.pressed
            && !gather_spec(prev, keys).turn_right.pressed,
{
}

/// One player's key bindings: the logical key codes of the four
/// gestures, as the input collaborator numbers its keys.
#[derive(Clone, Copy, Debug, PartialEq, Eq, Structural)]
pub struct KeyMap {
    pub forward: u32,
    pub left: u32,
    pub right: u32,
    pub shoot: u32,
}

/// A key that was not touched this tick.
pub open spec fn key_released() -> KeyState {
    KeyState { pressed: false, just_pressed: false, just_released: false }
}

/// The state of a key code in a raw frame, scanning from position `i`:
/// the first entry for the code wins, and an absent code reads as
/// released.
pub open spec fn key_lookup_from(frame: Seq<(u32, KeyState)>, code: u32, i: int) -> KeyState
    decreases frame.len() - i,
{
    if i < 0 || i >= frame.len() {
        key_released()
    } else if frame[i].0 == code {
        frame[i].1
    } else {
        key_lookup_from(frame, code, i + 1)
    }
}

/// The state of a key code in a raw frame.
pub open spec fn key_lookup(frame: Seq<(u32, KeyState)>, code: u32) -> KeyState {
    key_lookup_from(frame, code, 0)
}

/// Read one key code out of a raw key frame.
pub fn lookup_key(frame: &Vec<(u32, KeyState)>, code: u32) -> (r: KeyState)
    ensures
        r == key_lookup(frame@, code),
{
    let n = frame.len();
    let mut i: usize = 0;
    while i < n
        invariant
            i <= n == frame@.len(),
            key_lookup(frame@, code) == key_lookup_from(frame@, code, i as int),
        decreases n - i,
    {
        let (c, k) = frame[i];
        if c == code {
            return k;
        }
        i = i + 1;
    }
    KeyState { pressed: false, just_pressed: false, just_released: false }
}

/// Bind a player's four gesture keys out of the raw key frame the
/// input collaborator reports.
pub fn map_keys(map: &KeyMap, frame: &Vec<(u32, KeyState)>) -> (r: PlayerKeys)
    ensures
        r.forward == key_lookup(frame@, map.forward),
        r.left == key_lookup(frame@, map.left),
        r.right == key_lookup(frame@, map.right),
        r.shoot == key_lookup(frame@, map.shoot),
{
    PlayerKeys {
        forward: lookup_key(frame, map.forward),
        left: lookup_key(frame, map.left),
        right: lookup_key(frame, map.right),
        shoot: lookup_key(frame, map.shoot),
    }
}

} // verus!
