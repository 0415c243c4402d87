use vstd::prelude::*;

verus! {

/// Classes of ground tile in a tile set.
#[derive(Clone, Copy, Debug, PartialEq, Eq, Structural)]
pub enum TileClass {
    GreenPatch,
}

/// First sprite of a tile class in its sheet.
pub open spec fn class_base(c: TileClass) -> nat {
    match c {
        TileClass::GreenPatch => 0,
    }
}

/// A tile's class, if it has one, and its animation state.
#[derive(Clone, Copy, Debug, PartialEq, Eq, Structural)]
pub struct TileAttrs {
    class: Option<TileClass>,
    state: usize,
}

impl TileAttrs {
    pub closed spec fn spec_class(&self) -> Option<TileClass> {
        self.class
    }

    pub closed spec fn spec_state(&self) -> nat {
        self.state as nat
    }

    pub fn new(class: Option<TileClass>, state: usize) -> (r: TileAttrs)
        ensures
            r.spec_class() == class,
            r.spec_state() == state,
    {
        TileAttrs { class, state }
    }

    /// Index of the tile's sprite: its class's first sprite plus its state;
    /// a tile without a class shows the first sprite.
    pub fn to_sprite_index(&self) -> (r: usize)
        ensures
            r == match self.spec_class() {
                Some(c) => class_base(c) + self.spec_state(),
                None => 0,
            },
    {
        match self.class {
            Some(c) => {
                let class_index: usize = match c {
                    TileClass::GreenPatch => 0,
                };
                class_index + self.state
            },
            None => 0,
        }
    }
}

} // verus!
