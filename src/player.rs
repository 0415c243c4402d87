use vstd::prelude::*;
use crate::actor::{ActorAttributes, ActorBehaviourType};
use crate::components::{ComponentIdentity, PlayerBehaviourType};
use crate::shared_state::SharedState;
use crate::viewport::Point;
use crate::walk::{actor_anchor, capframes_for, WalkBehaviour, WalkView};

verus! {

/// Steps per second at which the player walks.
pub const PLAYER_SPEED: u16 = 4;

/// The player's script: walking, at the player's speed.
pub struct PlayerBehaviour {
    walk: WalkBehaviour,
}

impl PlayerBehaviour {
    /// The walk behaviour inside.
    pub closed spec fn walker(&self) -> WalkBehaviour {
        self.walk
    }

    pub fn new() -> (r: PlayerBehaviour)
        ensures
            r.walker().wf(),
            r.walker()@ == (WalkView { capframes: capframes_for(PLAYER_SPEED as nat), ..WalkBehaviour::new_view() }),
    {
        PlayerBehaviour { walk: WalkBehaviour::new().speed(PLAYER_SPEED) }
    }

    /// The same player walking at `speed` steps per second; see
    /// `WalkBehaviour::speed`.
    pub fn speed(self, speed: u16) -> (r: Self)
        requires
            self.walker().wf(),
            self.walker()@.handled,
        ensures
            r.walker().wf(),
            r.walker()@ == (WalkView { capframes: capframes_for(speed as nat), bypass_counter: 0, ..self.walker()@ }),
    {
        PlayerBehaviour { walk: self.walk.speed(speed) }
    }

    /// One poll of the player's walk: see `WalkBehaviour::run`.
    pub fn run(&mut self, state: &mut SharedState, attr: &mut ActorAttributes)
        requires
            old(self).walker().wf(),
            old(state).view_port.in_range(),
        ensures
            final(self).walker().wf(),
            final(self).walker().spec_speed() == old(self).walker().spec_speed(),
            final(self).walker()@ == old(self).walker()@.poll(old(state).controller@, *old(attr)).walker,
            final(state).controller@ == old(self).walker()@.poll(old(state).controller@, *old(attr)).controller,
            *final(attr) == old(self).walker()@.poll(old(state).controller@, *old(attr)).attrs,
            final(state).view_port == old(state).view_port.moved(
                old(self).walker()@.poll(old(state).controller@, *old(attr)).dx,
                old(self).walker()@.poll(old(state).controller@, *old(attr)).dy,
            ),
    {
        self.walk.run(state, attr);
    }

    /// Where the player's sprite is drawn.
    pub fn transform_location(&self, state: &SharedState, location: &mut Point)
        requires
            state.view_port.in_range(),
        ensures
            *final(location) == actor_anchor(state.view_port),
    {
        self.walk.transform_location(state, location);
    }

    pub fn id(&self) -> (r: ComponentIdentity)
        ensures
            r == ComponentIdentity::Player(PlayerBehaviourType::Base),
    {
        ComponentIdentity::Player(PlayerBehaviourType::Base)
    }
}

/// The script for a kind of actor.
pub fn load(key: &ActorBehaviourType) -> (r: PlayerBehaviour)
    ensures
        r.walker().wf(),
        r.walker()@ == (WalkView { capframes: capframes_for(PLAYER_SPEED as nat), ..WalkBehaviour::new_view() }),
{
    match key {
        ActorBehaviourType::Player => PlayerBehaviour::new(),
    }
}

} // verus!
