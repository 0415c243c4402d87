use vstd::prelude::*;
use crate::actor::{ActorAction, ActorAttributes, ActorDirection};
use crate::components::{ComponentIdentity, PlayerBehaviourType};
use crate::controller::{Controller, ControllerView, KeyCode, KeyEvent};
use crate::frame_sync::{next_event_frame, FrameSync, REFRESH_RATE};
use crate::shared_state::SharedState;
use crate::viewport::{Point, ViewPort};

verus! {

/// Side of a tile, in logical units: the distance of one walk step.
pub const TILE_SIZE: u16 = 16;

/// What the sprite is doing during the current press.
#[derive(Clone, Copy, Debug, PartialEq, Eq, Structural)]
pub enum SpriteTransitionType {
    Walk,
    Turn,
    Still,
}

pub open spec fn is_arrow(k: KeyCode) -> bool {
    k == KeyCode::Up || k == KeyCode::Down || k == KeyCode::Left || k == KeyCode::Right
}

/// The facing that an arrow key asks for.
pub open spec fn key_direction(k: KeyCode) -> ActorDirection {
    match k {
        KeyCode::Up => ActorDirection::North,
        KeyCode::Down => ActorDirection::South,
        KeyCode::Left => ActorDirection::West,
        KeyCode::Right => ActorDirection::East,
        _ => ActorDirection::Unset,
    }
}

pub open spec fn any_arrow_down(pressed: Set<KeyCode>) -> bool {
    pressed.contains(KeyCode::Up) || pressed.contains(KeyCode::Down) || pressed.contains(KeyCode::Left)
        || pressed.contains(KeyCode::Right)
}

/// The arrow to latch: the one latched before if it is still down, else the
/// first one down in the order up, down, left, right.
pub open spec fn chosen_walk_key(prev: KeyCode, pressed: Set<KeyCode>) -> KeyCode {
    if is_arrow(prev) && pressed.contains(prev) {
        prev
    } else if pressed.contains(KeyCode::Up) {
        KeyCode::Up
    } else if pressed.contains(KeyCode::Down) {
        KeyCode::Down
    } else if pressed.contains(KeyCode::Left) {
        KeyCode::Left
    } else {
        KeyCode::Right
    }
}

/// The gait of the next walk cycle: the two walking gaits take turns.
pub open spec fn next_gait(a: ActorAction) -> ActorAction {
    if a == ActorAction::Walk1 {
        ActorAction::Walk2
    } else {
        ActorAction::Walk1
    }
}

/// `a / b`, rounded up.
pub open spec fn ceil_div(a: nat, b: nat) -> nat {
    if b == 0 {
        0
    } else {
        ((a + b - 1) as nat) / b
    }
}

/// Polls per cycle at `speed` steps per second; a speed of zero counts as
/// one, and a cycle lasts at least one poll.
pub open spec fn capframes_for(speed: nat) -> nat {
    if speed == 0 {
        REFRESH_RATE as nat
    } else if speed > REFRESH_RATE as nat {
        1
    } else {
        REFRESH_RATE as nat / speed
    }
}

/// Last frame of a walk cycle of `c` polls.
pub open spec fn walk_end(c: nat) -> nat {
    (c - 1) as nat
}

/// Last frame of a turn in a cycle of `c` polls: two thirds of the cycle.
pub open spec fn turn_end(c: nat) -> nat {
    (ceil_div(2 * c, 3) - 1) as nat
}

/// The four arrows' presses consumed.
pub open spec fn arrows_consumed(c: ControllerView) -> ControllerView {
    c.after_keydown_handled(KeyCode::Up).after_keydown_handled(KeyCode::Down).after_keydown_handled(
        KeyCode::Left,
    ).after_keydown_handled(KeyCode::Right)
}

/// The identity under which walking asks for the controller.
pub open spec fn walk_id() -> ComponentIdentity {
    ComponentIdentity::Player(PlayerBehaviourType::Walk)
}

/// Share of frame `f` in a distance `slice` spread evenly over `c` polls:
/// what has been covered after frame `f`, less what had been covered before
/// it, both rounded down. The shares of frames `0` to `c - 1` add up to
/// `slice`.
pub open spec fn spread_step(slice: nat, c: nat, f: nat) -> nat {
    if c == 0 {
        0
    } else {
        ((slice * (f + 1)) / c - (slice * f) / c) as nat
    }
}

/// Scroll distance of the poll at frame `f` of a cycle of `c` polls: the
/// frame's share of the step, or what is left if that is less.
pub open spec fn scroll_step_size(transition: nat, slice: nat, c: nat, f: nat) -> nat {
    let share = spread_step(slice, c, f);
    if transition < share {
        transition
    } else {
        share
    }
}

/// Logical offset of a scroll of `s` units towards `d`.
pub open spec fn direction_dx(d: ActorDirection, s: int) -> int {
    match d {
        ActorDirection::East => s,
        ActorDirection::West => -s,
        _ => 0,
    }
}

pub open spec fn direction_dy(d: ActorDirection, s: int) -> int {
    match d {
        ActorDirection::North => -s,
        ActorDirection::South => s,
        _ => 0,
    }
}

/// The walk behaviour's state.
pub ghost struct WalkView {
    /// Gait of the current or last walk cycle.
    pub action_state: ActorAction,
    /// Polls since the current press began.
    pub frame: nat,
    /// Distance still to scroll in the current step.
    pub transition: nat,
    /// Length of the current step, spread evenly over the cycle's polls:
    /// `transition_slice / capframes` per poll.
    pub transition_slice: nat,
    /// Facing the current press asks for.
    pub direction: ActorDirection,
    /// Polls per cycle.
    pub capframes: nat,
    pub key: KeyCode,
    /// No press is pending.
    pub handled: bool,
    pub sprite: SpriteTransitionType,
    /// Walking momentum: a turn now walks on instead of turning in place.
    pub is_walking: bool,
    /// Polls since momentum was last renewed.
    pub bypass_counter: nat,
}

/// Everything one poll of the walk behaviour produces.
pub ghost struct WalkPoll {
    pub walker: WalkView,
    pub controller: ControllerView,
    pub attrs: ActorAttributes,
    pub dx: int,
    pub dy: int,
}

impl WalkView {
    /// Poll of the current press at which it ends.
    pub open spec fn terminal_frame(self) -> nat {
        if self.sprite == SpriteTransitionType::Walk {
            walk_end(self.capframes)
        } else {
            turn_end(self.capframes)
        }
    }

    pub open spec fn wf(self) -> bool {
        &&& 1 <= self.capframes <= REFRESH_RATE
        &&& self.bypass_counter < self.capframes
        &&& self.transition <= TILE_SIZE
        &&& self.transition_slice <= TILE_SIZE
        &&& self.frame < REFRESH_RATE
        &&& self.handled ==> self.frame == 0
        &&& !self.handled ==> {
            &&& is_arrow(self.key)
            &&& 1 <= self.frame <= self.terminal_frame()
            &&& self.sprite != SpriteTransitionType::Still
        }
    }

    /// Reads the controller: latches a new press when none is pending, and
    /// keeps the momentum counter. A latched arrow towards the current facing
    /// renews momentum; every other poll counts towards its decay, which
    /// comes after `capframes` such polls. This happens before the same
    /// poll decides between walking and turning. The arrows' presses are
    /// consumed either way.
    pub open spec fn evaluated(self, c: ControllerView, a: ActorAttributes) -> (WalkView, ControllerView) {
        let w = if self.handled && any_arrow_down(c.pressed) {
            let key = chosen_walk_key(self.key, c.pressed);
            if key_direction(key) == a.direction {
                WalkView { handled: false, key, is_walking: true, bypass_counter: 0, ..self }
            } else {
                WalkView { handled: false, key, ..self }
            }
        } else if self.bypass_counter + 1 == self.capframes {
            WalkView { bypass_counter: 0, is_walking: false, ..self }
        } else {
            WalkView { bypass_counter: self.bypass_counter + 1, ..self }
        };
        (w, arrows_consumed(c))
    }

    /// Start of a cycle: the gait turns over, and the press becomes a walk
    /// (facing kept, or momentum) or a turn in place.
    pub open spec fn cycle_started(self, a: ActorAttributes) -> (WalkView, ActorAttributes) {
        let dir = key_direction(self.key);
        let gait = next_gait(self.action_state);
        if a.direction == dir || self.is_walking {
            let t: nat = if dir != ActorDirection::Unset {
                TILE_SIZE as nat
            } else {
                0
            };
            (
                WalkView {
                    action_state: gait,
                    transition: t,
                    transition_slice: t,
                    sprite: SpriteTransitionType::Walk,
                    direction: dir,
                    ..self
                },
                ActorAttributes { direction: dir, ..a },
            )
        } else {
            (
                WalkView {
                    action_state: gait,
                    transition: 0,
                    transition_slice: 0,
                    sprite: SpriteTransitionType::Turn,
                    direction: dir,
                    ..self
                },
                a,
            )
        }
    }

    /// One poll's scroll: the state after it and the distance scrolled.
    pub open spec fn scrolled(self) -> (WalkView, nat) {
        let s = scroll_step_size(self.transition, self.transition_slice, self.capframes, self.frame);
        (WalkView { transition: (self.transition - s) as nat, ..self }, s)
    }

    /// The sprite's pose for this poll; the press ends on its last frame.
    pub open spec fn sprite_applied(self, a: ActorAttributes) -> (WalkView, ActorAttributes) {
        let f = self.frame;
        let c = self.capframes;
        match self.sprite {
            SpriteTransitionType::Walk => {
                let a2 = if f < c / 2 {
                    ActorAttributes { action: self.action_state, ..a }
                } else if f < c {
                    ActorAttributes { action: ActorAction::Stand, ..a }
                } else {
                    a
                };
                let w2 = if f == walk_end(c) {
                    WalkView { handled: true, ..self }
                } else {
                    self
                };
                (w2, a2)
            },
            SpriteTransitionType::Turn => {
                let a1 = ActorAttributes { direction: self.direction, ..a };
                let a2 = if f < ceil_div(c, 3) {
                    ActorAttributes { action: self.action_state, ..a1 }
                } else if f < ceil_div(2 * c, 3) {
                    ActorAttributes { action: ActorAction::Stand, ..a1 }
                } else {
                    a1
                };
                let w2 = if f == turn_end(c) {
                    WalkView { handled: true, sprite: SpriteTransitionType::Still, ..self }
                } else {
                    self
                };
                (w2, a2)
            },
            SpriteTransitionType::Still => (self, a),
        }
    }

    /// A press still pending on the last poll of the window ends there.
    pub open spec fn deadline_checked(self) -> WalkView {
        if self.frame == REFRESH_RATE - 1 {
            WalkView { handled: true, ..self }
        } else {
            self
        }
    }

    /// The poll counter moves on, and starts over once the press has ended.
    pub open spec fn frame_advanced(self) -> WalkView {
        if self.handled {
            WalkView { frame: 0, ..self }
        } else {
            WalkView { frame: next_event_frame(self.frame), ..self }
        }
    }

    /// One poll of the walk behaviour. Without the lock nothing changes.
    /// With it, the controller is read, and a pending press advances by one
    /// frame: the cycle starts on its first frame, the viewport scrolls by a
    /// slice, the sprite takes its pose. The lock is released at the end.
    pub open spec fn poll(self, c: ControllerView, a: ActorAttributes) -> WalkPoll {
        if !c.lock_available(walk_id()) {
            WalkPoll { walker: self, controller: c, attrs: a, dx: 0, dy: 0 }
        } else {
            let c1 = c.after_try_lock(walk_id()).0;
            let (w1, c2) = self.evaluated(c1, a);
            let c3 = c2.after_unlock(walk_id());
            if w1.handled {
                WalkPoll { walker: w1, controller: c3, attrs: a, dx: 0, dy: 0 }
            } else {
                let (w2, a2) = if w1.frame == 0 {
                    w1.cycle_started(a)
                } else {
                    (w1, a)
                };
                let (w3, s) = w2.scrolled();
                let (w4, a3) = w3.sprite_applied(a2);
                let w5 = w4.deadline_checked().frame_advanced();
                WalkPoll {
                    walker: w5,
                    controller: c3,
                    attrs: a3,
                    dx: direction_dx(w3.direction, s as int),
                    dy: direction_dy(w3.direction, s as int),
                }
            }
        }
    }
}

/// Moves the actor's camera one tile per key press, turning it in place
/// first when the press asks for a new facing.
pub struct WalkBehaviour {
    action_state: ActorAction,
    fsync: FrameSync,
    transition: u16,
    transition_slice: u16,
    direction: ActorDirection,
    speed: u16,
    capframes: u16,
    key_event: KeyEvent,
    sprite_transition: SpriteTransitionType,
    is_walking: bool,
    bypass_counter: u16,
}

impl View for WalkBehaviour {
    type V = WalkView;

    closed spec fn view(&self) -> WalkView {
        WalkView {
            action_state: self.action_state,
            frame: self.fsync.event_frame(),
            transition: self.transition as nat,
            transition_slice: self.transition_slice as nat,
            direction: self.direction,
            capframes: self.capframes as nat,
            key: self.key_event.key,
            handled: self.key_event.handled,
            sprite: self.sprite_transition,
            is_walking: self.is_walking,
            bypass_counter: self.bypass_counter as nat,
        }
    }
}

impl WalkBehaviour {
    pub closed spec fn wf(&self) -> bool {
        self.fsync.wf() && self@.wf()
    }

    /// A well-formed behaviour has a well-formed state.
    pub proof fn lemma_wf_view(&self)
        requires
            self.wf(),
        ensures
            self@.wf(),
    {
    }

    /// Steps per second this behaviour was configured with.
    pub closed spec fn spec_speed(&self) -> nat {
        self.speed as nat
    }

    /// State of a new walk behaviour.
    pub open spec fn new_view() -> WalkView {
        WalkView {
            action_state: ActorAction::Stand,
            frame: 0,
            transition: 0,
            transition_slice: 0,
            direction: ActorDirection::Unset,
            capframes: REFRESH_RATE as nat,
            key: KeyCode::Escape,
            handled: true,
            sprite: SpriteTransitionType::Still,
            is_walking: false,
            bypass_counter: 0,
        }
    }

    /// Standing, facing nowhere yet, at one step per second.
    pub fn new() -> (r: WalkBehaviour)
        ensures
            r.wf(),
            r.spec_speed() == 1,
            r@ == WalkBehaviour::new_view(),
    {
        WalkBehaviour {
            action_state: ActorAction::Stand,
            fsync: FrameSync::new(REFRESH_RATE),
            transition: 0,
            transition_slice: 0,
            direction: ActorDirection::Unset,
            speed: 1,
            capframes: REFRESH_RATE,
            key_event: KeyEvent::new(),
            sprite_transition: SpriteTransitionType::Still,
            is_walking: false,
            bypass_counter: 0,
        }
    }

    /// The same behaviour at `speed` steps per second: a cycle then lasts
    /// `REFRESH_RATE / speed` polls, at least one. A speed of zero is taken
    /// as one. The momentum counter starts over.
    pub fn speed(self, speed: u16) -> (r: Self)
        requires
            self.wf(),
            self@.handled,
        ensures
            r.wf(),
            r.spec_speed() == (if speed == 0 { 1 } else { speed as nat }),
            r@ == (WalkView { capframes: capframes_for(speed as nat), bypass_counter: 0, ..self@ }),
    {
        let s: u16 = if speed == 0 { 1 } else { speed };
        let c: u16 = if s > REFRESH_RATE { 1 } else { REFRESH_RATE / s };
        assert(1 <= c <= 60) by {
            if s <= 60 {
                assert(1 <= 60int / (s as int) <= 60) by (nonlinear_arith)
                    requires 1 <= s <= 60;
            }
        }
        WalkBehaviour { speed: s, capframes: c, bypass_counter: 0, ..self }
    }

    /// The latched press, if any: `handled` is false while one is pending.
    pub fn key_event(&self) -> (r: KeyEvent)
        ensures
            r.key == self@.key,
            r.handled == self@.handled,
    {
        self.key_event
    }

    /// The identity under which this behaviour takes the controller.
    pub fn id(&self) -> (r: ComponentIdentity)
        ensures
            r == walk_id(),
    {
        ComponentIdentity::Player(PlayerBehaviourType::Walk)
    }

    fn map_to_direction(keycode: KeyCode) -> (r: ActorDirection)
        ensures
            r == key_direction(keycode),
    {
        match keycode {
            KeyCode::Up => ActorDirection::North,
            KeyCode::Down => ActorDirection::South,
            KeyCode::Left => ActorDirection::West,
            KeyCode::Right => ActorDirection::East,
            _ => ActorDirection::Unset,
        }
    }

    fn is_valid_walk(controller: &Controller) -> (r: bool)
        ensures
            r == any_arrow_down(controller@.pressed),
    {
        controller.is_keydown(KeyCode::Up) || controller.is_keydown(KeyCode::Down)
            || controller.is_keydown(KeyCode::Left) || controller.is_keydown(KeyCode::Right)
    }

    fn walk_key(&self, controller: &Controller) -> (r: KeyCode)
        ensures
            r == chosen_walk_key(self.key_event.key, controller@.pressed),
    {
        let prev = self.key_event.key;
        let prev_is_arrow = prev == KeyCode::Up || prev == KeyCode::Down || prev == KeyCode::Left
            || prev == KeyCode::Right;
        if prev_is_arrow && controller.is_keydown(prev) {
            prev
        } else if controller.is_keydown(KeyCode::Up) {
            KeyCode::Up
        } else if controller.is_keydown(KeyCode::Down) {
            KeyCode::Down
        } else if controller.is_keydown(KeyCode::Left) {
            KeyCode::Left
        } else {
            KeyCode::Right
        }
    }

    fn handle_keydown(controller: &mut Controller)
        ensures
            final(controller)@ == arrows_consumed(old(controller)@),
    {
        controller.handle_keydown(KeyCode::Up);
        controller.handle_keydown(KeyCode::Down);
        controller.handle_keydown(KeyCode::Left);
        controller.handle_keydown(KeyCode::Right);
    }

    fn evaluate(&mut self, controller: &mut Controller, attr: &ActorAttributes)
        requires
            old(self).wf(),
        ensures
            final(self).fsync == old(self).fsync,
            final(self).speed == old(self).speed,
            (final(self)@, final(controller)@) == old(self)@.evaluated(old(controller)@, *attr),
    {
        if self.key_event.handled && Self::is_valid_walk(controller) {
            let key = self.walk_key(controller);
            self.key_event.handled = false;
            self.key_event.key = key;
            let direction = Self::map_to_direction(key);
            if direction == attr.direction {
                self.is_walking = true;
                self.bypass_counter = 0;
            }
        } else {
            self.bypass_counter = self.bypass_counter + 1;
            if self.bypass_counter == self.capframes {
                self.bypass_counter = 0;
                self.is_walking = false;
            }
        }
        Self::handle_keydown(controller);
    }

    fn pre_walk(&mut self)
        ensures
            final(self).action_state == next_gait(old(self).action_state),
            final(self).fsync == old(self).fsync,
            final(self).speed == old(self).speed,
            final(self)@ == (WalkView { action_state: next_gait(old(self).action_state), ..old(self)@ }),
    {
        if self.action_state == ActorAction::Walk1 {
            self.action_state = ActorAction::Walk2;
        } else {
            self.action_state = ActorAction::Walk1;
        }
    }

    fn set_transition(&mut self, attr: &mut ActorAttributes)
        requires
            1 <= old(self).capframes <= REFRESH_RATE,
        ensures
            final(self).fsync == old(self).fsync,
            final(self).speed == old(self).speed,
            (final(self)@, *final(attr)) == old(self)@.cycle_started(*old(attr)),
    {
        let direction = Self::map_to_direction(self.key_event.key);
        self.pre_walk();
        if attr.direction == direction || self.is_walking {
            let t: u16 = match direction {
                ActorDirection::Unset => 0,
                _ => TILE_SIZE,
            };
            self.transition = t;
            self.transition_slice = t;
            self.sprite_transition = SpriteTransitionType::Walk;
            attr.direction = direction;
        } else {
            self.transition = 0;
            self.transition_slice = 0;
            self.sprite_transition = SpriteTransitionType::Turn;
        }
        self.direction = direction;
    }

    fn apply_viewport_transition(&mut self, view_port: &mut ViewPort)
        requires
            old(view_port).in_range(),
            old(self).transition <= TILE_SIZE,
            old(self).transition_slice <= TILE_SIZE,
            1 <= old(self).capframes <= REFRESH_RATE,
            old(self).fsync.wf(),
        ensures
            final(self).fsync == old(self).fsync,
            final(self).speed == old(self).speed,
            final(self)@ == old(self)@.scrolled().0,
            *final(view_port) == old(view_port).moved(
                direction_dx(old(self).direction, old(self)@.scrolled().1 as int),
                direction_dy(old(self).direction, old(self)@.scrolled().1 as int),
            ),
    {
        let frame = self.fsync.get_event_frame() as u32;
        let total = self.transition_slice as u32;
        let c = self.capframes as u32;
        assert(total * (frame + 1) <= 16 * 60 && total * frame <= 16 * 60) by (nonlinear_arith)
            requires
                total <= 16,
                frame < 60,
        ;
        let before = total * frame / c;
        let after = total * (frame + 1) / c;
        proof {
            assert(total * frame <= total * (frame + 1)) by (nonlinear_arith);
            use_div_bounds((total * frame) as int, (total * (frame + 1)) as int, c as int);
        }
        let share = (after - before) as u16;
        let slice: u16 = if self.transition < share {
            self.transition
        } else {
            share
        };
        let s = slice as i64;
        assert(s * view_port.scale_x <= 16 * 0x1_0000) by (nonlinear_arith)
            requires 0 <= s <= 16, 0 <= view_port.scale_x <= 0x1_0000;
        assert(s * view_port.scale_y <= 16 * 0x1_0000) by (nonlinear_arith)
            requires 0 <= s <= 16, 0 <= view_port.scale_y <= 0x1_0000;
        assert(s * view_port.scale_x >= 0) by (nonlinear_arith)
            requires 0 <= s, 0 <= view_port.scale_x;
        assert(s * view_port.scale_y >= 0) by (nonlinear_arith)
            requires 0 <= s, 0 <= view_port.scale_y;
        assert(-s * view_port.scale_x == -(s * view_port.scale_x)) by (nonlinear_arith);
        assert(-s * view_port.scale_y == -(s * view_port.scale_y)) by (nonlinear_arith);
        assert(0 * view_port.scale_x == 0) by (nonlinear_arith);
        assert(0 * view_port.scale_y == 0) by (nonlinear_arith);
        match self.direction {
            ActorDirection::North => view_port.move_origin(0, -s),
            ActorDirection::South => view_port.move_origin(0, s),
            ActorDirection::East => view_port.move_origin(s, 0),
            ActorDirection::West => view_port.move_origin(-s, 0),
            ActorDirection::Unset => {
                assert(*view_port == old(view_port).moved(0, 0));
            },
        }
        self.transition = self.transition - slice;
    }

    fn apply_sprite_transition(&mut self, attr: &mut ActorAttributes)
        requires
            1 <= old(self).capframes <= REFRESH_RATE,
        ensures
            final(self).fsync == old(self).fsync,
            final(self).speed == old(self).speed,
            (final(self)@, *final(attr)) == old(self)@.sprite_applied(*old(attr)),
    {
        let capframes = self.capframes;
        let frame = self.fsync.get_event_frame();
        match self.sprite_transition {
            SpriteTransitionType::Walk => {
                if frame < capframes / 2 {
                    attr.action = self.action_state;
                } else if frame < capframes {
                    attr.action = ActorAction::Stand;
                }
                if frame == capframes - 1 {
                    self.key_event.handled = true;
                }
            },
            SpriteTransitionType::Turn => {
                let shown = (capframes + 2) / 3;
                let end = (2 * capframes + 2) / 3;
                attr.direction = self.direction;
                if frame < shown {
                    attr.action = self.action_state;
                } else if frame < end {
                    attr.action = ActorAction::Stand;
                }
                if frame == end - 1 {
                    self.sprite_transition = SpriteTransitionType::Still;
                    self.key_event.handled = true;
                }
            },
            SpriteTransitionType::Still => {},
        }
    }

    fn try_handle(&mut self)
        ensures
            final(self).fsync == old(self).fsync,
            final(self).speed == old(self).speed,
            final(self)@ == old(self)@.deadline_checked(),
    {
        if self.fsync.get_event_frame() == REFRESH_RATE - 1 {
            self.key_event.handled = true;
        }
    }

    /// One poll: see `WalkView::poll`. The actor and the viewport change only
    /// if this behaviour gets the controller's lock.
    pub fn run(&mut self, state: &mut SharedState, attr: &mut ActorAttributes)
        requires
            old(self).wf(),
            old(state).view_port.in_range(),
        ensures
            final(self).wf(),
            final(self).spec_speed() == old(self).spec_speed(),
            final(self)@ == old(self)@.poll(old(state).controller@, *old(attr)).walker,
            final(state).controller@ == old(self)@.poll(old(state).controller@, *old(attr)).controller,
            *final(attr) == old(self)@.poll(old(state).controller@, *old(attr)).attrs,
            final(state).view_port == old(state).view_port.moved(
                old(self)@.poll(old(state).controller@, *old(attr)).dx,
                old(self)@.poll(old(state).controller@, *old(attr)).dy,
            ),
    {
        let id = self.id();
        if state.controller.try_lock(id) {
            self.evaluate(&mut state.controller, attr);
            if !self.key_event.handled {
                if self.fsync.cycle_completed() {
                    self.set_transition(attr);
                }
                self.apply_viewport_transition(&mut state.view_port);
                self.apply_sprite_transition(attr);
                self.try_handle();
                self.fsync.update();
                if self.key_event.handled {
                    self.fsync.reset_frames();
                }
            } else {
                assert(state.view_port == old(state).view_port.moved(0, 0));
            }
            state.controller.unlock(id);
            proof {
                lemma_poll_wf(old(self)@, old(state).controller@, *old(attr));
            }
        } else {
            assert(state.view_port == old(state).view_port.moved(0, 0));
        }
    }

    /// Where the actor's sprite is drawn: the viewport's centre, less the
    /// sprite's anchor. The camera moves; the actor stays in the middle.
    pub fn transform_location(&self, state: &SharedState, location: &mut Point)
        requires
            state.view_port.in_range(),
        ensures
            *final(location) == actor_anchor(state.view_port),
    {
        let vp = state.view_port;
        assert(8 * vp.scale_x <= 8 * 0x1_0000) by (nonlinear_arith)
            requires 0 <= vp.scale_x <= 0x1_0000;
        assert(18 * vp.scale_y <= 18 * 0x1_0000) by (nonlinear_arith)
            requires 0 <= vp.scale_y <= 0x1_0000;
        *location = Point {
            x: vp.origin.x + vp.width / 2 - 8 * vp.scale_x,
            y: vp.origin.y + vp.height / 2 - 18 * vp.scale_y,
        };
    }
}

/// Screen anchor of the actor's sprite for a viewport.
pub open spec fn actor_anchor(vp: ViewPort) -> Point {
    Point {
        x: (vp.origin.x + vp.width / 2 - 8 * vp.scale_x) as i64,
        y: (vp.origin.y + vp.height / 2 - 18 * vp.scale_y) as i64,
    }
}

/// One poll keeps the walk behaviour's state well formed.
pub proof fn lemma_poll_wf(w: WalkView, c: ControllerView, a: ActorAttributes)
    requires
        w.wf(),
    ensures
        w.poll(c, a).walker.wf(),
{
    let cap = w.capframes;
    assert(ceil_div(2 * cap, 3) <= cap && ceil_div(2 * cap, 3) >= 1) by {
        assert(((2 * cap + 2) as nat) / 3 <= cap && ((2 * cap + 2) as nat) / 3 >= 1) by (nonlinear_arith)
            requires 1 <= cap;
    }
    assert(ceil_div(TILE_SIZE as nat, cap) <= TILE_SIZE) by {
        assert(((16 + cap - 1) as nat) / cap <= 16) by (nonlinear_arith)
            requires 1 <= cap;
    }
    assert(ceil_div(0, cap) == 0) by {
        assert(((cap - 1) as nat) / cap == 0) by (nonlinear_arith)
            requires 1 <= cap;
    }
}

/// The walk behaviour's state and the actor after polls with each of
/// `inputs`, in order, as the controller stands at the start of each poll.
pub open spec fn walk_after_polls(w: WalkView, a: ActorAttributes, inputs: Seq<ControllerView>) -> (
    WalkView,
    ActorAttributes,
)
    decreases inputs.len(),
{
    if inputs.len() == 0 {
        (w, a)
    } else {
        let p = w.poll(inputs[0], a);
        walk_after_polls(p.walker, p.attrs, inputs.drop_first())
    }
}

/// Whether a poll with controller `c` starts a new cycle.
pub open spec fn starts_cycle(w: WalkView, c: ControllerView, a: ActorAttributes) -> bool {
    let w1 = w.evaluated(c.after_try_lock(walk_id()).0, a).0;
    c.lock_available(walk_id()) && !w1.handled && w1.frame == 0
}

/// An arrow key is down and nothing but walking holds the controller.
pub open spec fn held_and_free(c: ControllerView) -> bool {
    c.lock_available(walk_id()) && any_arrow_down(c.pressed)
}

/// Upper bound on the polls until the current press, or the next one, is handled.
spec fn polls_left(w: WalkView) -> nat {
    if w.handled {
        w.capframes
    } else {
        (w.terminal_frame() + 1 - w.frame) as nat
    }
}

proof fn lemma_turn_end_bound(cap: nat)
    requires
        1 <= cap,
    ensures
        turn_end(cap) <= walk_end(cap),
{
    assert(((2 * cap + 2) as nat) / 3 <= cap && ((2 * cap + 2) as nat) / 3 >= 1) by (nonlinear_arith)
        requires
            1 <= cap,
    ;
}

proof fn lemma_poll_progress(w: WalkView, c: ControllerView, a: ActorAttributes)
    requires
        w.wf(),
        c.lock_available(walk_id()),
        any_arrow_down(c.pressed),
    ensures
        w.poll(c, a).walker.handled || polls_left(w.poll(c, a).walker) < polls_left(w),
        1 <= polls_left(w) <= w.capframes,
{
    lemma_turn_end_bound(w.capframes);
    lemma_poll_wf(w, c, a);
}

proof fn lemma_cycle_bound_from(w: WalkView, a: ActorAttributes, inputs: Seq<ControllerView>)
    requires
        w.wf(),
        inputs.len() >= polls_left(w),
        forall|i: int| 0 <= i < inputs.len() ==> held_and_free(#[trigger] inputs[i]),
    ensures
        exists|k: int| 1 <= k <= polls_left(w) && (#[trigger] walk_after_polls(w, a, inputs.take(k))).0.handled,
    decreases polls_left(w),
{
    let p = w.poll(inputs[0], a);
    assert(held_and_free(inputs[0]));
    lemma_poll_progress(w, inputs[0], a);
    lemma_poll_wf(w, inputs[0], a);
    let rest = inputs.drop_first();
    assert forall|k: int| 1 <= k <= inputs.len() implies walk_after_polls(w, a, inputs.take(k))
        == walk_after_polls(p.walker, p.attrs, rest.take(k - 1)) by {
        assert(inputs.take(k)[0] == inputs[0]);
        assert(inputs.take(k).drop_first() =~= rest.take(k - 1));
    }
    if p.walker.handled {
        assert(rest.take(0) =~= Seq::<ControllerView>::empty());
        assert(walk_after_polls(w, a, inputs.take(1)).0.handled);
    } else {
        assert forall|i: int| 0 <= i < rest.len() implies held_and_free(#[trigger] rest[i]) by {
            assert(rest[i] == inputs[i + 1]);
        }
        lemma_cycle_bound_from(p.walker, p.attrs, rest);
        let k = choose|k: int|
            1 <= k <= polls_left(p.walker) && (#[trigger] walk_after_polls(p.walker, p.attrs, rest.take(k))).0.handled;
        assert(walk_after_polls(w, a, inputs.take(k + 1)).0.handled);
    }
}

/// Cycle bound: while an arrow key is held and nothing else holds the
/// controller, the walk behaviour handles a press within `capframes` polls,
/// whatever state it starts in.
pub proof fn lemma_cycle_bound(w: WalkView, a: ActorAttributes, inputs: Seq<ControllerView>)
    requires
        w.wf(),
        inputs.len() >= w.capframes,
        forall|i: int| 0 <= i < inputs.len() ==> held_and_free(#[trigger] inputs[i]),
    ensures
        exists|k: int| 1 <= k <= w.capframes && (#[trigger] walk_after_polls(w, a, inputs.take(k))).0.handled,
{
    lemma_turn_end_bound(w.capframes);
    lemma_cycle_bound_from(w, a, inputs);
}

/// `x / c` and `y / c` for `0 <= x <= y` and `c >= 1`: ordered, and at most `y`.
proof fn use_div_bounds(x: int, y: int, c: int)
    requires
        0 <= x <= y,
        c >= 1,
    ensures
        x / c <= y / c <= y,
{
    vstd::arithmetic::div_mod::lemma_div_is_ordered(x, y, c);
    vstd::arithmetic::div_mod::lemma_div_is_ordered_by_denominator(y, 1, c);
    vstd::arithmetic::div_mod::lemma_div_basics(y);
}

/// Covered part of a step of length `slice` after `f` of `c` polls: at most
/// the step, growing with `f`, and all of it after `c` polls.
proof fn lemma_covered(slice: nat, c: nat, f: nat)
    requires
        c >= 1,
        f < c,
    ensures
        (slice * f) / c <= (slice * (f + 1)) / c <= slice,
        (slice * c) / c == slice,
{
    assert(slice * f <= slice * (f + 1) <= slice * c) by (nonlinear_arith)
        requires
            f < c,
    ;
    vstd::arithmetic::div_mod::lemma_div_is_ordered((slice * f) as int, (slice * (f + 1)) as int, c as int);
    vstd::arithmetic::div_mod::lemma_div_is_ordered((slice * (f + 1)) as int, (slice * c) as int, c as int);
    vstd::arithmetic::div_mod::lemma_div_by_multiple(slice as int, c as int);
}

/// Distance scrolled over `k` polls of a cycle of `c` polls, from frame `f`
/// on, with `transition` left of a step of length `slice`.
pub open spec fn scrolled_over(transition: nat, slice: nat, c: nat, f: nat, k: nat) -> nat
    decreases k,
{
    if k == 0 {
        0
    } else {
        let s = scroll_step_size(transition, slice, c, f);
        s + scrolled_over((transition - s) as nat, slice, c, f + 1, (k - 1) as nat)
    }
}

/// From frame `f` on, with what frames `0` to `f - 1` did not cover left,
/// each poll scrolls its full share.
proof fn lemma_scrolled_over(slice: nat, c: nat, f: nat, k: nat)
    requires
        c >= 1,
        f + k <= c,
    ensures
        scrolled_over((slice - (slice * f) / c) as nat, slice, c, f, k) == (slice * (f + k)) / c - (slice * f)
            / c,
    decreases k,
{
    if k > 0 {
        lemma_covered(slice, c, f);
        let t = (slice - (slice * f) / c) as nat;
        let s = scroll_step_size(t, slice, c, f);
        assert(s == (slice * (f + 1)) / c - (slice * f) / c);
        assert((t - s) as nat == (slice - (slice * (f + 1)) / c) as nat);
        lemma_scrolled_over(slice, c, f + 1, (k - 1) as nat);
        assert(f + 1 + (k - 1) == f + k);
    } else {
        assert(f + k == f);
    }
}

/// Transition conservation: a one-tile walk step spread over a cycle of
/// `capframes` polls scrolls exactly one tile over the cycle. After `k`
/// polls it has covered `16 * k / capframes` units, rounded down, and no
/// poll's share exceeds what is left of the step.
pub proof fn lemma_transition_conservation(capframes: nat)
    requires
        capframes >= 1,
    ensures
        scrolled_over(TILE_SIZE as nat, TILE_SIZE as nat, capframes, 0, capframes) == TILE_SIZE,
        forall|k: nat|
            k <= capframes ==> #[trigger] scrolled_over(TILE_SIZE as nat, TILE_SIZE as nat, capframes, 0, k)
                == (TILE_SIZE * k) as nat / capframes,
        forall|f: nat|
            f < capframes ==> #[trigger] spread_step(TILE_SIZE as nat, capframes, f) <= TILE_SIZE - (TILE_SIZE
                * f) as nat / capframes,
{
    let t = TILE_SIZE as nat;
    assert((t * 0) / capframes == 0) by {
        vstd::arithmetic::div_mod::lemma_div_basics(capframes as int);
    }
    assert forall|k: nat| k <= capframes implies #[trigger] scrolled_over(t, t, capframes, 0, k) == (TILE_SIZE * k) as nat
        / capframes by {
        lemma_scrolled_over(t, capframes, 0, k);
    }
    assert forall|f: nat| f < capframes implies #[trigger] spread_step(t, capframes, f) <= TILE_SIZE - (TILE_SIZE * f) as nat
        / capframes by {
        lemma_covered(t, capframes, f);
    }
    lemma_scrolled_over(t, capframes, 0, capframes);
    lemma_covered(t, capframes, 0);
}

/// Gait alternation: the gait turns over exactly when a poll starts a cycle,
/// each new gait is a walking one other than the last, and two cycles on the
/// gait is back where it was.
pub proof fn lemma_gait_alternation(w: WalkView, c: ControllerView, a: ActorAttributes)
    ensures
        w.poll(c, a).walker.action_state == if starts_cycle(w, c, a) {
            next_gait(w.action_state)
        } else {
            w.action_state
        },
        next_gait(w.action_state) != w.action_state,
        next_gait(w.action_state) == ActorAction::Walk1 || next_gait(w.action_state) == ActorAction::Walk2,
        w.action_state != ActorAction::Stand ==> next_gait(next_gait(w.action_state)) == w.action_state,
{
}

/// Total logical scroll `(dx, dy)` over polls with each of `inputs`, in order.
pub open spec fn walk_scroll_after_polls(w: WalkView, a: ActorAttributes, inputs: Seq<ControllerView>) -> (
    int,
    int,
)
    decreases inputs.len(),
{
    if inputs.len() == 0 {
        (0, 0)
    } else {
        let p = w.poll(inputs[0], a);
        let rest = walk_scroll_after_polls(p.walker, p.attrs, inputs.drop_first());
        (p.dx + rest.0, p.dy + rest.1)
    }
}

proof fn lemma_unfold_polls(w: WalkView, a: ActorAttributes, inputs: Seq<ControllerView>)
    requires
        inputs.len() >= 1,
    ensures
        ({
            let p = w.poll(inputs[0], a);
            let rest = inputs.drop_first();
            &&& walk_scroll_after_polls(w, a, inputs) == (
                p.dx + walk_scroll_after_polls(p.walker, p.attrs, rest).0,
                p.dy + walk_scroll_after_polls(p.walker, p.attrs, rest).1,
            )
            &&& walk_after_polls(w, a, inputs) == walk_after_polls(p.walker, p.attrs, rest)
            &&& rest.len() == 0 ==> walk_scroll_after_polls(p.walker, p.attrs, rest) == (0int, 0int)
                && walk_after_polls(p.walker, p.attrs, rest) == (p.walker, p.attrs)
        }),
{
}

proof fn lemma_direction_linear(d: ActorDirection, x: int, y: int)
    ensures
        direction_dx(d, x) + direction_dx(d, y) == direction_dx(d, x + y),
        direction_dy(d, x) + direction_dy(d, y) == direction_dy(d, x + y),
{
}

/// The rest of a walk cycle, from frame `j` on, scrolls what is left of the step.
proof fn lemma_walk_cycle_rest(w: WalkView, a: ActorAttributes, inputs: Seq<ControllerView>)
    requires
        w.wf(),
        !w.handled,
        w.sprite == SpriteTransitionType::Walk,
        1 <= w.frame,
        w.transition == w.transition_slice - (w.transition_slice * w.frame) / w.capframes,
        inputs.len() == w.capframes - w.frame,
        forall|i: int| 0 <= i < inputs.len() ==> (#[trigger] inputs[i]).lock_available(walk_id()),
    ensures
        walk_scroll_after_polls(w, a, inputs) == (
            direction_dx(w.direction, w.transition as int),
            direction_dy(w.direction, w.transition as int),
        ),
        walk_after_polls(w, a, inputs).0.handled,
    decreases inputs.len(),
{
    let p = w.poll(inputs[0], a);
    let rest = inputs.drop_first();
    let c = w.capframes;
    let slice = w.transition_slice;
    lemma_covered(slice, c, w.frame);
    let step = scroll_step_size(w.transition, slice, c, w.frame);
    assert(step == (slice * (w.frame + 1)) / c - (slice * w.frame) / c);
    lemma_poll_wf(w, inputs[0], a);
    lemma_unfold_polls(w, a, inputs);
    assert(p.dx == direction_dx(w.direction, step as int));
    assert(p.dy == direction_dy(w.direction, step as int));
    if inputs.len() == 1 {
        assert(w.frame + 1 == c);
        assert(rest.len() == 0);
        assert(step == w.transition);
        assert(p.walker.handled);
    } else {
        assert forall|i: int| 0 <= i < rest.len() implies (#[trigger] rest[i]).lock_available(walk_id()) by {
            assert(rest[i] == inputs[i + 1]);
        }
        assert(!p.walker.handled);
        assert(p.walker.frame == w.frame + 1);
        assert(p.walker.transition == slice - (slice * (w.frame + 1)) / c);
        lemma_walk_cycle_rest(p.walker, p.attrs, rest);
        lemma_direction_linear(w.direction, step as int, p.walker.transition as int);
    }
}

/// Transition conservation over a whole walk cycle: a press of an arrow
/// that keeps the actor's facing scrolls the viewport by exactly one tile
/// towards that facing over the `capframes` polls of the cycle, each poll
/// taking its even share, and the press is handled on the last of them.
/// Only the first poll needs the key down; every poll needs the controller
/// free for walking.
pub proof fn lemma_walk_cycle_moves_one_tile(w: WalkView, a: ActorAttributes, inputs: Seq<ControllerView>)
    requires
        w.wf(),
        w.handled,
        inputs.len() == w.capframes,
        any_arrow_down(inputs[0].pressed),
        key_direction(chosen_walk_key(w.key, inputs[0].pressed)) == a.direction,
        forall|i: int| 0 <= i < inputs.len() ==> (#[trigger] inputs[i]).lock_available(walk_id()),
    ensures
        walk_scroll_after_polls(w, a, inputs) == (
            direction_dx(a.direction, TILE_SIZE as int),
            direction_dy(a.direction, TILE_SIZE as int),
        ),
        walk_after_polls(w, a, inputs).0.handled,
{
    let c = w.capframes;
    let t = TILE_SIZE as nat;
    assert(inputs[0].lock_available(walk_id()));
    let p = w.poll(inputs[0], a);
    let rest = inputs.drop_first();
    lemma_poll_wf(w, inputs[0], a);
    lemma_unfold_polls(w, a, inputs);
    lemma_covered(t, c, 0);
    assert((t * 0) / c == 0) by {
        vstd::arithmetic::div_mod::lemma_div_basics(c as int);
    }
    let step = scroll_step_size(t, t, c, 0);
    assert(step == (t * 1) / c);
    assert(p.dx == direction_dx(a.direction, step as int));
    assert(p.dy == direction_dy(a.direction, step as int));
    if c == 1 {
        assert(rest.len() == 0);
        assert(step == t);
        assert(p.walker.handled);
    } else {
        assert forall|i: int| 0 <= i < rest.len() implies (#[trigger] rest[i]).lock_available(walk_id()) by {
            assert(rest[i] == inputs[i + 1]);
        }
        assert(!p.walker.handled);
        assert(p.walker.frame == 1);
        assert(p.walker.direction == a.direction);
        assert(p.walker.transition == t - (t * 1) / c);
        lemma_walk_cycle_rest(p.walker, p.attrs, rest);
        lemma_direction_linear(a.direction, step as int, p.walker.transition as int);
    }
}

} // verus!
