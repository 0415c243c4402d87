use vstd::prelude::*;

verus! {

/// The way an actor faces. `Unset` stands for no facing at all (an unmapped key).
#[derive(Clone, Copy, Debug, PartialEq, Eq, Structural)]
pub enum ActorDirection {
    North,
    South,
    East,
    West,
    Unset,
}

/// The pose an actor shows: standing, or one of the two walking gaits.
#[derive(Clone, Copy, Debug, PartialEq, Eq, Structural)]
pub enum ActorAction {
    Stand,
    Walk1,
    Walk2,
}

/// What the renderer needs to pick an actor's sprite.
#[derive(Clone, Copy, Debug, PartialEq, Eq, Structural)]
pub struct ActorAttributes {
    pub direction: ActorDirection,
    pub action: ActorAction,
}

/// The same attributes under their shorter name.
pub type ActorAttrs = ActorAttributes;

/// Which behaviour script drives an actor.
#[derive(Clone, Copy, Debug, PartialEq, Eq, Structural)]
pub enum ActorBehaviourType {
    Player,
}

/// First sprite of a facing in a sheet laid out as
/// north, south, east, west, three poses each.
pub open spec fn direction_base(d: ActorDirection) -> nat {
    match d {
        ActorDirection::North => 0,
        ActorDirection::South => 3,
        ActorDirection::East => 6,
        ActorDirection::West => 9,
        ActorDirection::Unset => 0,
    }
}

/// Offset of a pose within its facing's three sprites.
pub open spec fn action_offset(a: ActorAction) -> nat {
    match a {
        ActorAction::Stand => 0,
        ActorAction::Walk1 => 1,
        ActorAction::Walk2 => 2,
    }
}

impl ActorAttributes {
    /// A fresh actor stands facing south.
    pub fn new() -> (r: Self)
        ensures
            r.direction == ActorDirection::South,
            r.action == ActorAction::Stand,
    {
        ActorAttributes { direction: ActorDirection::South, action: ActorAction::Stand }
    }

    /// Index of this pose in the actor's sprite sheet.
    pub fn to_sprite_index(&self) -> (r: usize)
        ensures
            r == direction_base(self.direction) + action_offset(self.action),
    {
        let index: usize = match self.direction {
            ActorDirection::North => 0,
            ActorDirection::South => 3,
            ActorDirection::East => 6,
            ActorDirection::West => 9,
            ActorDirection::Unset => 0,
        };
        match self.action {
            ActorAction::Stand => index,
            ActorAction::Walk1 => index + 1,
            ActorAction::Walk2 => index + 2,
        }
    }
}

} // verus!
