use vstd::prelude::*;
use crate::components::MoveDirection;
use crate::components::Player;
use crate::components::Position;
use crate::input::PlayerInput;
use crate::SERVER_ID;

verus! {

/// How far one secondary-input event nudges a player sideways, in world
/// units.
pub const LATERAL_STEP: i64 = 25;

/// A connection change reported by the server transport.
#[derive(Clone, Copy, PartialEq, Eq, Structural, Debug)]
pub enum ServerEvent {
    ClientConnected { client_id: u64 },
    ClientDisconnected { client_id: u64 },
}

/// What the server does with one client input event.
#[derive(Clone, Copy, PartialEq, Eq, Structural, Debug)]
pub enum ServerAction {
    /// Nothing: the event came from the server itself or carried no input.
    Ignore,
    /// Spawn a decoy entity and map it to the client's pre-spawned one.
    SpawnMapped { client_entity: u64 },
    /// Steer the sending client's player.
    SetDirection { direction: MoveDirection },
}

/// The player entity the server spawns for itself at startup: its own
/// identifier, standing at the origin.
pub fn initial_server_player() -> (r: (Player, Position))
    ensures
        r.0.0 == SERVER_ID,
        r.1.x == 0 && r.1.y == 0,
{
    (Player(SERVER_ID), Position::zero())
}

/// Decides the components to spawn for a connection change.
///
/// A newly connected client gets a player entity under its identifier,
/// standing at the origin and not yet moving; a disconnect spawns nothing.
pub fn connection_response(event: &ServerEvent) -> (r: Option<(Player, Position, MoveDirection)>)
    ensures
        event matches ServerEvent::ClientConnected { client_id } ==> r == Some(
            (Player(*client_id), Position { x: 0, y: 0 }, MoveDirection { x: 0, y: 0 }),
        ),
        event matches ServerEvent::ClientDisconnected { .. } ==> r is None,
{
    match event {
        ServerEvent::ClientConnected { client_id } => Some(
            (Player(*client_id), Position::zero(), MoveDirection::zero()),
        ),
        ServerEvent::ClientDisconnected { .. } => None,
    }
}

/// Decides the server's reaction to one input event from a client.
///
/// Events the server sent to itself are ignored; otherwise a shoot request
/// is answered with a mapped spawn and a movement request steers the
/// sender's player.
pub fn server_input_response(client_id: u64, event: &PlayerInput) -> (a: ServerAction)
    ensures
        client_id == SERVER_ID ==> a == ServerAction::Ignore,
        client_id != SERVER_ID ==> a == (match event {
            PlayerInput::Nothing => ServerAction::Ignore,
            PlayerInput::Shoot(client_entity) => ServerAction::SpawnMapped {
                client_entity: *client_entity,
            },
            PlayerInput::Movement(direction) => ServerAction::SetDirection {
                direction: *direction,
            },
        }),
{
    if client_id == SERVER_ID {
        return ServerAction::Ignore;
    }
    match event {
        PlayerInput::Nothing => ServerAction::Ignore,
        PlayerInput::Shoot(client_entity) => ServerAction::SpawnMapped {
            client_entity: *client_entity,
        },
        PlayerInput::Movement(direction) => ServerAction::SetDirection { direction: *direction },
    }
}

/// Whether position `i` holds the first player owned by `id`.
pub open spec fn is_first_with_id(s: Seq<(Player, MoveDirection)>, id: u64, i: int) -> bool {
    &&& 0 <= i < s.len()
    &&& s[i].0.0 == id
    &&& forall|k: int| 0 <= k < i ==> s[k].0.0 != id
}

/// Steers the sender's player: the first player owned by `client_id` takes
/// the new direction, every other player and every owner is untouched. A
/// client without a player changes nothing.
pub fn apply_movement_input(
    players: &mut Vec<(Player, MoveDirection)>,
    client_id: u64,
    direction: MoveDirection,
)
    ensures
        final(players)@.len() == old(players)@.len(),
        forall|i: int|
            0 <= i < old(players)@.len() ==> (#[trigger] final(players)@[i]).0 == old(
                players,
            )@[i].0,
        forall|i: int|
            0 <= i < old(players)@.len() && is_first_with_id(old(players)@, client_id, i) ==> (
            #[trigger] final(players)@[i]).1 == direction,
        forall|i: int|
            0 <= i < old(players)@.len() && !is_first_with_id(old(players)@, client_id, i) ==> (
            #[trigger] final(players)@[i]).1 == old(players)@[i].1,
{
    let ghost orig = players@;
    let mut idx: usize = 0;
    let mut found = false;
    while idx < players.len()
        invariant
            idx <= players@.len(),
            players@.len() == orig.len(),
            forall|i: int| 0 <= i < orig.len() ==> (#[trigger] players@[i]).0 == orig[i].0,
            found == exists|j: int| 0 <= j < idx && (#[trigger] orig[j]).0.0 == client_id,
            forall|i: int|
                0 <= i < orig.len() && i < idx && is_first_with_id(orig, client_id, i) ==> (
                #[trigger] players@[i]).1 == direction,
            forall|i: int|
                0 <= i < orig.len() && !(i < idx && is_first_with_id(orig, client_id, i)) ==> (
                #[trigger] players@[i]).1 == orig[i].1,
        decreases players@.len() - idx,
    {
        let ghost prev = players@;
        let ghost was_found = found;
        let hit = !found && players[idx].0.0 == client_id;
        if hit {
            let owner = players[idx].0;
            players[idx] = (owner, direction);
            found = true;
        }
        proof {
            if hit {
                assert(is_first_with_id(orig, client_id, idx as int));
                assert(players@ =~= prev.update(idx as int, (orig[idx as int].0, direction)));
                assert(exists|j: int|
                    0 <= j < idx + 1 && (#[trigger] orig[j]).0.0 == client_id) by {
                    assert((#[trigger] orig[idx as int]).0.0 == client_id);
                }
            } else {
                assert(players@ == prev);
                if was_found {
                    assert(!is_first_with_id(orig, client_id, idx as int));
                }
            }
            assert forall|i: int|
                0 <= i < orig.len() && i < idx + 1 && is_first_with_id(
                    orig,
                    client_id,
                    i,
                ) implies (#[trigger] players@[i]).1 == direction by {
                if i == idx as int {
                    assert(hit);
                } else {
                    assert(players@[i].1 == prev[i].1);
                }
            }
            assert forall|i: int|
                0 <= i < orig.len() && !(i < idx + 1 && is_first_with_id(
                    orig,
                    client_id,
                    i,
                )) implies (#[trigger] players@[i]).1 == orig[i].1 by {
                if i != idx as int {
                    assert(players@[i].1 == prev[i].1);
                }
            }
        }
        idx = idx + 1;
    }
}

/// Applies one secondary-input event to every player's position: player `i`
/// is nudged sideways by [`LATERAL_STEP`] times `i % 3 - 1`, so the lined-up
/// players fan out left, stay, right in turn.
pub fn apply_lateral_shifts(positions: &mut Vec<Position>)
    requires
        forall|i: int|
            0 <= i < old(positions)@.len() ==> i64::MIN + LATERAL_STEP <= (#[trigger] old(
                positions,
            )@[i]).x <= i64::MAX - LATERAL_STEP,
    ensures
        final(positions)@.len() == old(positions)@.len(),
        forall|i: int|
            0 <= i < old(positions)@.len() ==> final(positions)@[i].x == old(positions)@[i].x
                + LATERAL_STEP * (i % 3 - 1),
        forall|i: int|
            0 <= i < old(positions)@.len() ==> final(positions)@[i].y == old(positions)@[i].y,
{
    let ghost orig = positions@;
    let mut idx: usize = 0;
    while idx < positions.len()
        invariant
            idx <= positions@.len(),
            positions@.len() == orig.len(),
            forall|i: int|
                0 <= i < orig.len() ==> i64::MIN + LATERAL_STEP <= (#[trigger] orig[i]).x
                    <= i64::MAX - LATERAL_STEP,
            forall|i: int|
                idx <= i < orig.len() ==> positions@[i] == orig[i],
            forall|i: int|
                0 <= i < idx ==> positions@[i].x == orig[i].x + LATERAL_STEP * (i % 3 - 1),
            forall|i: int| 0 <= i < idx ==> positions@[i].y == orig[i].y,
        decreases positions@.len() - idx,
    {
        let step: i64 = if idx % 3 == 0 {
            -LATERAL_STEP
        } else if idx % 3 == 1 {
            0
        } else {
            LATERAL_STEP
        };
        proof {
            assert(step == LATERAL_STEP * (idx as int % 3 - 1));
            assert(positions@[idx as int] == orig[idx as int]);
            assert(i64::MIN + LATERAL_STEP <= orig[idx as int].x <= i64::MAX - LATERAL_STEP);
        }
        positions[idx].x = positions[idx].x + step;
        idx = idx + 1;
    }
}

} // verus!
