use vstd::prelude::*;
use crate::components::{ComponentIdentity, DialogType};
use crate::controller::{Controller, ControllerView, KeyCode, KeyEvent};
use crate::frame_sync::{next_event_frame, FrameSync, REFRESH_RATE};
use crate::shared_state::SharedState;
use crate::viewport::{Point, ViewPort};

verus! {

/// Sprites of a dialog sheet.
#[derive(Clone, Copy, Debug, PartialEq, Eq, Structural)]
pub enum DialogSpritetype {
    Bottom,
    OptionBox,
}

impl DialogSpritetype {
    pub fn to_sprite_index(&self) -> (r: usize)
        ensures
            r == match self {
                DialogSpritetype::Bottom => 0usize,
                DialogSpritetype::OptionBox => 1usize,
            },
    {
        match self {
            DialogSpritetype::Bottom => 0,
            DialogSpritetype::OptionBox => 1,
        }
    }
}

/// What a key does to a talk dialog.
#[derive(Clone, Copy, Debug, PartialEq, Eq, Structural)]
pub enum TalkDialogAction {
    /// Next line, or close after the last one.
    Continue,
    /// Close.
    Cancel,
}

/// Margin between the dialog box and its text, in pixels.
pub const TEXT_MARGIN: i64 = 16;

/// A dialog box as the renderer sees it.
pub struct DialogAttrs {
    /// The lines, shown one at a time.
    pub text: Vec<String>,
    /// The line shown now.
    pub display_text: String,
    pub mesh_location: Point,
    pub text_location: Point,
    pub text_bounds: Point,
    pub dialog_type: DialogType,
    pub visible: bool,
}

/// The box's place for a viewport: the bottom quarter of the view.
pub open spec fn mesh_location_for(vp: ViewPort) -> Point {
    Point { x: vp.origin.x, y: (vp.origin.y + vp.height * 3 / 4) as i64 }
}

pub open spec fn text_location_for(vp: ViewPort) -> Point {
    let m = mesh_location_for(vp);
    Point { x: (m.x + TEXT_MARGIN) as i64, y: (m.y + TEXT_MARGIN) as i64 }
}

pub open spec fn text_bounds_for(vp: ViewPort) -> Point {
    let m = mesh_location_for(vp);
    Point { x: (m.x + vp.width - TEXT_MARGIN) as i64, y: (m.y + vp.height / 4 - TEXT_MARGIN) as i64 }
}

impl DialogAttrs {
    /// A visible talk dialog over `text`, placed for `view_port`, showing nothing yet.
    pub fn new(text: Vec<String>, view_port: &ViewPort) -> (r: DialogAttrs)
        requires
            view_port.in_range(),
        ensures
            r.text@ == text@,
            r.display_text@ == Seq::<char>::empty(),
            r.mesh_location == mesh_location_for(*view_port),
            r.text_location == mesh_location_for(*view_port),
            r.text_bounds == mesh_location_for(*view_port),
            r.dialog_type == DialogType::TalkDialog,
            r.visible,
    {
        let location = Point { x: view_port.origin.x, y: view_port.origin.y + view_port.height * 3 / 4 };
        DialogAttrs {
            text,
            display_text: String::new(),
            mesh_location: location,
            text_location: location,
            text_bounds: location,
            dialog_type: DialogType::TalkDialog,
            visible: true,
        }
    }
}

/// The key a dialog acts on.
pub open spec fn key_action(k: KeyCode) -> Option<TalkDialogAction> {
    match k {
        KeyCode::Z => Some(TalkDialogAction::Continue),
        KeyCode::X => Some(TalkDialogAction::Cancel),
        _ => None,
    }
}

pub open spec fn is_dialog_key(k: KeyCode) -> bool {
    k == KeyCode::Z || k == KeyCode::X
}

/// The key to latch: the one latched before if it is still down, else
/// confirm before cancel.
pub open spec fn chosen_dialog_key(prev: KeyCode, pressed: Set<KeyCode>) -> KeyCode {
    if is_dialog_key(prev) && pressed.contains(prev) {
        prev
    } else if pressed.contains(KeyCode::Z) {
        KeyCode::Z
    } else {
        KeyCode::X
    }
}

pub open spec fn talk_id() -> ComponentIdentity {
    ComponentIdentity::Dialog(DialogType::TalkDialog)
}

/// Line shown and visibility after an action, for a dialog of `n` lines.
/// Closing goes back to the first line.
pub open spec fn after_action(index: nat, visible: bool, n: nat, action: TalkDialogAction) -> (nat, bool) {
    match action {
        TalkDialogAction::Continue => if index + 1 == n {
            (0, false)
        } else {
            (index + 1, visible)
        },
        TalkDialogAction::Cancel => (0, false),
    }
}

/// The talk dialog's state.
pub ghost struct TalkView {
    pub key: KeyCode,
    /// No press is pending.
    pub handled: bool,
    /// Polls since the pending press began.
    pub frame: nat,
    /// Line shown now.
    pub text_index: nat,
}

/// Everything one poll of a talk dialog produces.
pub ghost struct TalkPoll {
    pub dialog: TalkView,
    pub controller: ControllerView,
    pub visible: bool,
    /// Whether the dialog had the controller, and so placed its box.
    pub owned: bool,
}

impl TalkView {
    pub open spec fn wf(self) -> bool {
        &&& self.frame < REFRESH_RATE
        &&& self.handled ==> self.frame == 0
    }

    /// One poll of a visible talk dialog with `n` lines. It takes the
    /// controller and keeps it while it stays open. A press of confirm or
    /// cancel is latched when the key goes down and acted on when it is
    /// released; a press held for a whole window is dropped.
    pub open spec fn poll(self, c: ControllerView, visible: bool, n: nat) -> TalkPoll {
        if !visible || !c.lock_available(talk_id()) {
            TalkPoll { dialog: self, controller: c, visible, owned: false }
        } else {
            let c1 = c.after_try_lock(talk_id()).0;
            let d1 = if self.handled && (c1.pressed.contains(KeyCode::Z) || c1.pressed.contains(KeyCode::X)) {
                TalkView { handled: false, key: chosen_dialog_key(self.key, c1.pressed), ..self }
            } else {
                self
            };
            let released = !d1.handled && (c1.unpressed.contains(KeyCode::Z) || c1.unpressed.contains(
                KeyCode::X,
            ));
            let c2 = if released {
                c1.after_keyup_handled(KeyCode::Z).after_keyup_handled(KeyCode::X)
            } else {
                c1
            };
            let c3 = c2.after_keydown_handled(KeyCode::Z).after_keydown_handled(KeyCode::X);
            if d1.handled {
                TalkPoll { dialog: d1, controller: c3, visible, owned: true }
            } else if released {
                let (index, vis) = match key_action(d1.key) {
                    Some(action) => after_action(self.text_index, visible, n, action),
                    None => (self.text_index, visible),
                };
                TalkPoll {
                    dialog: TalkView { handled: true, frame: 0, text_index: index, ..d1 },
                    controller: if vis {
                        c3
                    } else {
                        c3.after_unlock(talk_id())
                    },
                    visible: vis,
                    owned: true,
                }
            } else {
                let d2 = if d1.frame == REFRESH_RATE - 1 {
                    TalkView { handled: true, frame: 0, ..d1 }
                } else {
                    TalkView { frame: next_event_frame(d1.frame), ..d1 }
                };
                TalkPoll { dialog: d2, controller: c3, visible, owned: true }
            }
        }
    }
}

/// Pages through lines of text on confirm and closes on cancel, holding the
/// controller while it is open so that nothing else reads the keys.
pub struct TalkDialog {
    key_event: KeyEvent,
    fsync: FrameSync,
    text_index: usize,
}

impl View for TalkDialog {
    type V = TalkView;

    closed spec fn view(&self) -> TalkView {
        TalkView {
            key: self.key_event.key,
            handled: self.key_event.handled,
            frame: self.fsync.event_frame(),
            text_index: self.text_index as nat,
        }
    }
}

impl TalkDialog {
    pub closed spec fn wf(&self) -> bool {
        self.fsync.wf() && self@.wf()
    }

    /// A well-formed dialog has a well-formed state.
    pub proof fn lemma_wf_view(&self)
        requires
            self.wf(),
        ensures
            self@.wf(),
    {
    }

    /// On the first line, no press pending.
    pub fn new() -> (r: TalkDialog)
        ensures
            r.wf(),
            r@ == (TalkView { key: KeyCode::Escape, handled: true, frame: 0, text_index: 0 }),
    {
        TalkDialog { key_event: KeyEvent::new(), fsync: FrameSync::new(REFRESH_RATE), text_index: 0 }
    }

    /// The identity under which this dialog takes the controller.
    pub fn id(&self) -> (r: ComponentIdentity)
        ensures
            r == talk_id(),
    {
        ComponentIdentity::Dialog(DialogType::TalkDialog)
    }

    fn map_key_action(keycode: KeyCode) -> (r: Option<TalkDialogAction>)
        ensures
            r == key_action(keycode),
    {
        match keycode {
            KeyCode::Z => Some(TalkDialogAction::Continue),
            KeyCode::X => Some(TalkDialogAction::Cancel),
            _ => None,
        }
    }

    fn dialog_key(&self, controller: &Controller) -> (r: KeyCode)
        ensures
            r == chosen_dialog_key(self.key_event.key, controller@.pressed),
    {
        let prev = self.key_event.key;
        if (prev == KeyCode::Z || prev == KeyCode::X) && controller.is_keydown(prev) {
            prev
        } else if controller.is_keydown(KeyCode::Z) {
            KeyCode::Z
        } else {
            KeyCode::X
        }
    }

    fn set_location(attrs: &mut DialogAttrs, view_port: &ViewPort)
        requires
            view_port.in_range(),
        ensures
            final(attrs).mesh_location == mesh_location_for(*view_port),
            final(attrs).text_location == text_location_for(*view_port),
            final(attrs).text_bounds == text_bounds_for(*view_port),
            final(attrs).text@ == old(attrs).text@,
            final(attrs).display_text@ == old(attrs).display_text@,
            final(attrs).visible == old(attrs).visible,
            final(attrs).dialog_type == old(attrs).dialog_type,
    {
        let mesh = Point { x: view_port.origin.x, y: view_port.origin.y + view_port.height * 3 / 4 };
        attrs.mesh_location = mesh;
        attrs.text_location = Point { x: mesh.x + TEXT_MARGIN, y: mesh.y + TEXT_MARGIN };
        attrs.text_bounds = Point {
            x: mesh.x + view_port.width - TEXT_MARGIN,
            y: mesh.y + view_port.height / 4 - TEXT_MARGIN,
        };
    }

    fn handle_action(&mut self, action: TalkDialogAction, attrs: &mut DialogAttrs, controller: &mut Controller)
        requires
            old(self).text_index < old(attrs).text.len(),
            old(attrs).visible,
        ensures
            (final(self)@.text_index, final(attrs).visible) == after_action(
                old(self)@.text_index,
                old(attrs).visible,
                old(attrs).text.len() as nat,
                action,
            ),
            final(self).text_index < final(attrs).text.len(),
            final(self).key_event == old(self).key_event,
            final(self).fsync == old(self).fsync,
            final(controller)@ == if final(attrs).visible {
                old(controller)@
            } else {
                old(controller)@.after_unlock(talk_id())
            },
            final(attrs).text@ == old(attrs).text@,
            final(attrs).display_text@ == old(attrs).display_text@,
            final(attrs).mesh_location == old(attrs).mesh_location,
            final(attrs).text_location == old(attrs).text_location,
            final(attrs).text_bounds == old(attrs).text_bounds,
            final(attrs).dialog_type == old(attrs).dialog_type,
    {
        match action {
            TalkDialogAction::Continue => {
                if self.text_index + 1 == attrs.text.len() {
                    attrs.visible = false;
                    self.text_index = 0;
                    controller.unlock(self.id());
                } else {
                    self.text_index = self.text_index + 1;
                }
            },
            TalkDialogAction::Cancel => {
                attrs.visible = false;
                self.text_index = 0;
                controller.unlock(self.id());
            },
        }
    }

    /// One poll: see `TalkView::poll`. A visible dialog shows its current
    /// line; a hidden one changes nothing.
    pub fn run(&mut self, attrs: &mut DialogAttrs, state: &mut SharedState)
        requires
            old(self).wf(),
            old(self)@.text_index < old(attrs).text.len(),
            old(state).view_port.in_range(),
        ensures
            final(self).wf(),
            final(self)@.text_index < final(attrs).text.len(),
            final(self)@ == old(self)@.poll(old(state).controller@, old(attrs).visible, old(attrs).text.len() as nat).dialog,
            final(state).controller@ == old(self)@.poll(
                old(state).controller@,
                old(attrs).visible,
                old(attrs).text.len() as nat,
            ).controller,
            final(attrs).visible == old(self)@.poll(old(state).controller@, old(attrs).visible, old(attrs).text.len() as nat).visible,
            final(state).view_port == old(state).view_port,
            final(attrs).text@ == old(attrs).text@,
            final(attrs).dialog_type == old(attrs).dialog_type,
            final(attrs).display_text@ == if old(attrs).visible {
                old(attrs).text@[final(self)@.text_index as int]@
            } else {
                old(attrs).display_text@
            },
            old(self)@.poll(old(state).controller@, old(attrs).visible, old(attrs).text.len() as nat).owned ==> {
                &&& final(attrs).mesh_location == mesh_location_for(old(state).view_port)
                &&& final(attrs).text_location == text_location_for(old(state).view_port)
                &&& final(attrs).text_bounds == text_bounds_for(old(state).view_port)
            },
            !old(self)@.poll(old(state).controller@, old(attrs).visible, old(attrs).text.len() as nat).owned ==> {
                &&& final(attrs).mesh_location == old(attrs).mesh_location
                &&& final(attrs).text_location == old(attrs).text_location
                &&& final(attrs).text_bounds == old(attrs).text_bounds
            },
    {
        if attrs.visible {
            let id = self.id();
            if state.controller.try_lock(id) {
                if self.key_event.handled && (state.controller.is_keydown(KeyCode::Z) || state.controller.is_keydown(
                    KeyCode::X,
                )) {
                    let key = self.dialog_key(&state.controller);
                    self.key_event.handled = false;
                    self.key_event.key = key;
                }
                let released = !self.key_event.handled && (state.controller.is_keyup(KeyCode::Z)
                    || state.controller.is_keyup(KeyCode::X));
                if released {
                    state.controller.handle_keyup(KeyCode::Z);
                    state.controller.handle_keyup(KeyCode::X);
                }
                state.controller.handle_keydown(KeyCode::Z);
                state.controller.handle_keydown(KeyCode::X);
                if !self.key_event.handled {
                    if released {
                        match Self::map_key_action(self.key_event.key) {
                            Some(action) => self.handle_action(action, attrs, &mut state.controller),
                            None => {},
                        }
                        self.key_event.handled = true;
                    } else if self.fsync.get_event_frame() == REFRESH_RATE - 1 {
                        self.key_event.handled = true;
                    }
                    self.fsync.update();
                    if self.key_event.handled {
                        self.fsync.reset_frames();
                    }
                }
                Self::set_location(attrs, &state.view_port);
            }
            attrs.display_text = attrs.text[self.text_index].clone();
        }
    }
}

/// One press of `k` as the dialog sees it: a poll with `k` down and nothing
/// released, then a poll with nothing down and `k` released. The lock is as
/// the previous poll left it.
pub open spec fn after_press(d: TalkView, c: ControllerView, visible: bool, n: nat, k: KeyCode) -> TalkPoll {
    let down_poll = d.poll(ControllerView { pressed: set![k], unpressed: Set::empty(), ..c }, visible, n);
    down_poll.dialog.poll(ControllerView { pressed: Set::empty(), unpressed: set![k], ..down_poll.controller }, down_poll.visible, n)
}

/// A dialog waiting for a press: nothing latched, and the controller free for it.
pub open spec fn ready(d: TalkView, c: ControllerView, n: nat) -> bool {
    &&& d.wf()
    &&& d.handled
    &&& d.text_index < n
    &&& c.lock_available(talk_id())
}

/// A press of confirm or cancel on a ready, open dialog does what its action
/// says, and leaves the dialog ready again while it stays open; once closed,
/// the lock is free.
pub proof fn lemma_press(d: TalkView, c: ControllerView, n: nat, k: KeyCode)
    requires
        ready(d, c, n),
        is_dialog_key(k),
    ensures
        ({
            let p = after_press(d, c, true, n, k);
            &&& (p.dialog.text_index, p.visible) == after_action(d.text_index, true, n, key_action(k)->0)
            &&& p.visible ==> ready(p.dialog, p.controller, n) && p.controller.holds(talk_id())
            &&& !p.visible ==> !p.controller.locked && p.dialog.wf() && p.dialog.handled
        }),
{
    let c1 = ControllerView { pressed: set![k], unpressed: Set::<KeyCode>::empty(), ..c };
    assert(c1.pressed.contains(k));
    assert(!c1.unpressed.contains(KeyCode::Z) && !c1.unpressed.contains(KeyCode::X));
    let down_poll = d.poll(c1, true, n);
    assert(down_poll.dialog.key == k);
    let c2 = ControllerView { pressed: Set::<KeyCode>::empty(), unpressed: set![k], ..down_poll.controller };
    assert(c2.unpressed.contains(k));
    assert(!c2.pressed.contains(KeyCode::Z) && !c2.pressed.contains(KeyCode::X));
}

/// The dialog after `k` presses of `key`, each as `after_press` has it.
pub open spec fn after_presses(d: TalkView, c: ControllerView, visible: bool, n: nat, key: KeyCode, k: nat) -> TalkPoll
    decreases k,
{
    if k == 0 {
        TalkPoll { dialog: d, controller: c, visible, owned: false }
    } else {
        let p = after_presses(d, c, visible, n, key, (k - 1) as nat);
        after_press(p.dialog, p.controller, p.visible, n, key)
    }
}

/// Dialog termination: a dialog of `n` lines, open on its first line and
/// ready for a press, stays open through the first `n - 1` presses of
/// confirm, showing line `k` after `k` of them; the `n`-th closes it, goes
/// back to the first line and frees the controller.
pub proof fn lemma_dialog_termination(d: TalkView, c: ControllerView, n: nat)
    requires
        ready(d, c, n),
        d.text_index == 0,
    ensures
        forall|k: nat|
            k < n ==> {
                let p = #[trigger] after_presses(d, c, true, n, KeyCode::Z, k);
                p.visible && p.dialog.text_index == k && ready(p.dialog, p.controller, n)
                    && (k > 0 ==> p.controller.holds(talk_id()))
            },
        ({
            let p = after_presses(d, c, true, n, KeyCode::Z, n);
            !p.visible && p.dialog.text_index == 0 && !p.controller.locked
        }),
{
    assert forall|k: nat| k < n implies {
        let p = #[trigger] after_presses(d, c, true, n, KeyCode::Z, k);
        p.visible && p.dialog.text_index == k && ready(p.dialog, p.controller, n) && (k > 0
            ==> p.controller.holds(talk_id()))
    } by {
        lemma_presses_below(d, c, n, k);
        if k > 0 {
            lemma_presses_below(d, c, n, (k - 1) as nat);
            let q = after_presses(d, c, true, n, KeyCode::Z, (k - 1) as nat);
            lemma_press(q.dialog, q.controller, n, KeyCode::Z);
        }
    }
    lemma_presses_below(d, c, n, (n - 1) as nat);
    let p = after_presses(d, c, true, n, KeyCode::Z, (n - 1) as nat);
    lemma_press(p.dialog, p.controller, n, KeyCode::Z);
}

proof fn lemma_presses_below(d: TalkView, c: ControllerView, n: nat, k: nat)
    requires
        ready(d, c, n),
        d.text_index == 0,
        k < n,
    ensures
        ({
            let p = after_presses(d, c, true, n, KeyCode::Z, k);
            p.visible && p.dialog.text_index == k && ready(p.dialog, p.controller, n)
        }),
    decreases k,
{
    if k > 0 {
        lemma_presses_below(d, c, n, (k - 1) as nat);
        let p = after_presses(d, c, true, n, KeyCode::Z, (k - 1) as nat);
        lemma_press(p.dialog, p.controller, n, KeyCode::Z);
    }
}

} // verus!
