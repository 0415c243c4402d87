use vstd::prelude::*;

verus! {

/// Which of the player's behaviours a component stands for.
#[derive(Clone, Copy, Debug, PartialEq, Eq, Structural)]
pub enum PlayerBehaviourType {
    Base,
    Walk,
    Run,
    Surf,
    Bike,
}

/// Kinds of ground tile.
#[derive(Clone, Copy, Debug, PartialEq, Eq, Structural)]
pub enum TileType {
    GreenPatch,
}

/// Kinds of dialog box.
#[derive(Clone, Copy, Debug, PartialEq, Eq, Structural)]
pub enum DialogType {
    TalkDialog,
}

/// The identity under which a component asks for the controller.
#[derive(Clone, Copy, Debug, PartialEq, Eq, Structural)]
pub enum ComponentIdentity {
    World,
    Player(PlayerBehaviourType),
    Tile(TileType),
    Dialog(DialogType),
}

} // verus!
