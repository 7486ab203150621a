use vstd::prelude::*;

verus! {

/// Replicated component naming the client that owns a player entity.
#[derive(Clone, Copy, PartialEq, Eq, Structural, Debug)]
pub struct Player(pub u64);

/// Resource holding the identifier this process plays under.
#[derive(Clone, Copy, PartialEq, Eq, Structural, Debug)]
pub struct LocalPlayerId(pub u64);

impl Player {
    /// Whether this player entity belongs to the local process.
    pub fn is_local(&self, local: &LocalPlayerId) -> (r: bool)
        ensures
            r == (self.0 == local.0),
    {
        self.0 == local.0
    }
}

/// Replicated 2D position of a player entity, in world units.
#[derive(Clone, Copy, PartialEq, Eq, Structural, Debug)]
pub struct Position {
    pub x: i64,
    pub y: i64,
}

impl Position {
    /// The origin, where every player entity starts.
    pub fn zero() -> (r: Position)
        ensures
            r.x == 0 && r.y == 0,
    {
        Position { x: 0, y: 0 }
    }
}

/// Unscaled movement intent along each axis: every field is -1, 0 or 1.
#[derive(Clone, Copy, PartialEq, Eq, Structural, Debug)]
pub struct MoveDirection {
    pub x: i8,
    pub y: i8,
}

impl MoveDirection {
    /// Both axes at rest.
    pub fn zero() -> (r: MoveDirection)
        ensures
            r.x == 0 && r.y == 0,
    {
        MoveDirection { x: 0, y: 0 }
    }

    /// Whether no movement is requested on either axis.
    pub fn is_zero(&self) -> (r: bool)
        ensures
            r == (self.x == 0 && self.y == 0),
    {
        self.x == 0 && self.y == 0
    }
}

impl Default for MoveDirection {
    fn default() -> (r: Self)
        ensures
            r.x == 0 && r.y == 0,
    {
        MoveDirection { x: 0, y: 0 }
    }
}

/// Inert payload attached to every pre-spawned decoy entity, present only
/// to give the replication layer something to mirror.
#[derive(Clone, Copy, PartialEq, Eq, Debug)]
pub struct PlayerSpawnedComponent {
    pub random_stuff: [u64; 20],
    pub other_random_stuff: [u64; 13],
}

impl Default for PlayerSpawnedComponent {
    fn default() -> (r: Self)
        ensures
            forall|i: int| 0 <= i < 20 ==> r.random_stuff@[i] == 0,
            forall|i: int| 0 <= i < 13 ==> r.other_random_stuff@[i] == 0,
    {
        PlayerSpawnedComponent { random_stuff: [0; 20], other_random_stuff: [0; 13] }
    }
}

/// Marker that both sides attach to a decoy entity when they first see it.
#[derive(Clone, Copy, PartialEq, Eq, Structural, Debug)]
pub struct RandomComponent;

/// Marker that only clients attach to a decoy entity when they first see it.
#[derive(Clone, Copy, PartialEq, Eq, Structural, Debug)]
pub struct RandomOtherComponent;

} // verus!
