use vstd::prelude::*;
use crate::components::MoveDirection;

verus! {

/// Event a client sends to the server when it reacts to local input.
///
/// `Shoot` carries the bits of the entity the client pre-spawned, so the
/// server can map its own spawn back to it. `Movement` carries the raw axis
/// intent; scaling and normalisation happen at the rendering edge.
#[derive(Clone, Copy, PartialEq, Eq, Structural, Debug)]
pub enum PlayerInput {
    Nothing,
    Shoot(u64),
    Movement(MoveDirection),
}

/// Event a client sends to the server on its secondary key.
#[derive(Clone, Copy, PartialEq, Eq, Structural, Debug)]
pub struct OtherPlayerInput(pub bool);

/// What a client decides to do after sampling its keyboard this frame.
#[derive(Clone, Copy, PartialEq, Eq, Structural, Debug)]
pub enum ClientAction {
    /// Pre-spawn a decoy entity locally and tell the server about it.
    SpawnDecoy,
    /// Send the secondary input event.
    SendOther,
    /// Do nothing this frame.
    Idle,
}

/// Movement intent along one axis from a pair of opposing keys.
pub open spec fn spec_axis(positive: bool, negative: bool) -> int {
    (if positive { 1int } else { 0int }) - (if negative { 1int } else { 0int })
}

/// Combines the four held movement keys into a per-axis intent.
///
/// Opposing keys cancel out; each axis ends at -1, 0 or 1.
pub fn movement_direction(right: bool, left: bool, up: bool, down: bool) -> (d: MoveDirection)
    ensures
        d.x == spec_axis(right, left),
        d.y == spec_axis(up, down),
{
    let mut x: i8 = 0;
    let mut y: i8 = 0;
    if right {
        x = x + 1;
    }
    if left {
        x = x - 1;
    }
    if up {
        y = y + 1;
    }
    if down {
        y = y - 1;
    }
    MoveDirection { x, y }
}

/// Decides the movement event to send this frame, if any.
///
/// An event is sent exactly when some key produces a net intent; a frame
/// whose keys cancel out sends nothing.
pub fn movement_event(right: bool, left: bool, up: bool, down: bool) -> (e: Option<PlayerInput>)
    ensures
        spec_axis(right, left) == 0 && spec_axis(up, down) == 0 ==> e is None,
        !(spec_axis(right, left) == 0 && spec_axis(up, down) == 0) ==> e == Some(
            PlayerInput::Movement(
                MoveDirection { x: spec_axis(right, left) as i8, y: spec_axis(up, down) as i8 },
            ),
        ),
{
    let d = movement_direction(right, left, up, down);
    if d.is_zero() {
        None
    } else {
        Some(PlayerInput::Movement(d))
    }
}

/// Decides the client's reaction to the two action keys.
///
/// The spawn key wins over the secondary key; with neither freshly pressed
/// the frame is idle.
pub fn input_action(spawn_pressed: bool, other_pressed: bool) -> (a: ClientAction)
    ensures
        spawn_pressed ==> a == ClientAction::SpawnDecoy,
        !spawn_pressed && other_pressed ==> a == ClientAction::SendOther,
        !spawn_pressed && !other_pressed ==> a == ClientAction::Idle,
{
    if spawn_pressed {
        ClientAction::SpawnDecoy
    } else if other_pressed {
        ClientAction::SendOther
    } else {
        ClientAction::Idle
    }
}

} // verus!
