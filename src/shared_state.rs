use vstd::prelude::*;
use crate::controller::Controller;
use crate::viewport::ViewPort;

verus! {

/// What every behaviour reads and writes during a poll: the keyboard with its
/// ownership lock, and the camera.
pub struct SharedState {
    pub controller: Controller,
    pub view_port: ViewPort,
}

impl SharedState {
    /// A fresh controller and an all-zero viewport.
    pub fn new() -> (r: SharedState)
        ensures
            r.controller@.pressed == Set::<crate::controller::KeyCode>::empty(),
            r.controller@.unpressed == Set::<crate::controller::KeyCode>::empty(),
            !r.controller@.locked,
            r.view_port == ViewPort::new_spec(),
    {
        SharedState { controller: Controller::new(), view_port: ViewPort::new() }
    }
}

} // verus!
