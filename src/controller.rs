use vstd::prelude::*;
use crate::components::ComponentIdentity;

verus! {

/// The keys of the virtual layout: four arrows, confirm (`Z`), cancel (`X`)
/// and escape.
#[derive(Clone, Copy, Debug, PartialEq, Eq, Structural)]
pub enum KeyCode {
    Up,
    Down,
    Left,
    Right,
    Z,
    X,
    Escape,
}

/// A set of keys, one flag per key of the layout.
#[derive(Clone, Copy, Debug, PartialEq, Eq, Structural)]
pub struct KeySet {
    up: bool,
    down: bool,
    left: bool,
    right: bool,
    z: bool,
    x: bool,
    escape: bool,
}

impl KeySet {
    pub closed spec fn has(&self, k: KeyCode) -> bool {
        match k {
            KeyCode::Up => self.up,
            KeyCode::Down => self.down,
            KeyCode::Left => self.left,
            KeyCode::Right => self.right,
            KeyCode::Z => self.z,
            KeyCode::X => self.x,
            KeyCode::Escape => self.escape,
        }
    }

    pub closed spec fn view(&self) -> Set<KeyCode> {
        Set::new(|k: KeyCode| self.has(k))
    }

    pub fn empty() -> (r: Self)
        ensures
            r.view() == Set::<KeyCode>::empty(),
    {
        let r = KeySet { up: false, down: false, left: false, right: false, z: false, x: false, escape: false };
        assert(r.view() =~= Set::<KeyCode>::empty());
        r
    }

    pub fn contains(&self, k: KeyCode) -> (r: bool)
        ensures
            r == self.view().contains(k),
    {
        match k {
            KeyCode::Up => self.up,
            KeyCode::Down => self.down,
            KeyCode::Left => self.left,
            KeyCode::Right => self.right,
            KeyCode::Z => self.z,
            KeyCode::X => self.x,
            KeyCode::Escape => self.escape,
        }
    }

    fn set_flag(&mut self, k: KeyCode, b: bool)
        ensures
            final(self).view() == (if b { old(self).view().insert(k) } else { old(self).view().remove(k) }),
    {
        match k {
            KeyCode::Up => self.up = b,
            KeyCode::Down => self.down = b,
            KeyCode::Left => self.left = b,
            KeyCode::Right => self.right = b,
            KeyCode::Z => self.z = b,
            KeyCode::X => self.x = b,
            KeyCode::Escape => self.escape = b,
        }
        assert(self.view() =~= (if b { old(self).view().insert(k) } else { old(self).view().remove(k) }));
    }

    pub fn insert(&mut self, k: KeyCode)
        ensures
            final(self).view() == old(self).view().insert(k),
    {
        self.set_flag(k, true);
    }

    pub fn remove(&mut self, k: KeyCode)
        ensures
            final(self).view() == old(self).view().remove(k),
    {
        self.set_flag(k, false);
    }

    /// The set of the keys listed, duplicates ignored.
    pub fn from_keys(keys: &Vec<KeyCode>) -> (r: Self)
        ensures
            r.view() == keys@.to_set(),
    {
        let mut r = KeySet::empty();
        let mut i: usize = 0;
        while i < keys.len()
            invariant
                i <= keys.len(),
                forall|k: KeyCode| r.view().contains(k) <==> keys@.subrange(0, i as int).contains(k),
            decreases keys.len() - i,
        {
            r.insert(keys[i]);
            i = i + 1;
            assert forall|k: KeyCode| r.view().contains(k) <==> keys@.subrange(0, i as int).contains(k) by {
                if keys@.subrange(0, i as int).contains(k) {
                    let j = choose|j: int| 0 <= j < i && #[trigger] keys@.subrange(0, i as int)[j] == k;
                    if j < i - 1 {
                        assert(keys@.subrange(0, i - 1)[j] == k);
                    }
                }
                if keys@.subrange(0, i - 1).contains(k) {
                    let j = choose|j: int| 0 <= j < i - 1 && #[trigger] keys@.subrange(0, i - 1)[j] == k;
                    assert(keys@.subrange(0, i as int)[j] == k);
                }
                if k == keys@[i - 1] {
                    assert(keys@.subrange(0, i as int)[i - 1] == k);
                }
            }
        }
        assert(keys@.subrange(0, keys@.len() as int) =~= keys@);
        assert(r.view() =~= keys@.to_set());
        r
    }

    /// The keys of `self` that are not in `other`.
    pub fn difference(&self, other: &KeySet) -> (r: KeySet)
        ensures
            r.view() == self.view().difference(other.view()),
    {
        let r = KeySet {
            up: self.up && !other.up,
            down: self.down && !other.down,
            left: self.left && !other.left,
            right: self.right && !other.right,
            z: self.z && !other.z,
            x: self.x && !other.x,
            escape: self.escape && !other.escape,
        };
        assert(r.view() =~= self.view().difference(other.view()));
        r
    }

    /// The keys of the set, in the layout's order.
    pub fn to_vec(&self) -> (r: Vec<KeyCode>)
        ensures
            r@.to_set() == self.view(),
    {
        let mut r: Vec<KeyCode> = Vec::new();
        assert(r@.to_set() =~= Set::<KeyCode>::empty());
        push_if(&mut r, self.up, KeyCode::Up);
        push_if(&mut r, self.down, KeyCode::Down);
        push_if(&mut r, self.left, KeyCode::Left);
        push_if(&mut r, self.right, KeyCode::Right);
        push_if(&mut r, self.z, KeyCode::Z);
        push_if(&mut r, self.x, KeyCode::X);
        push_if(&mut r, self.escape, KeyCode::Escape);
        assert(r@.to_set() =~= self.view());
        r
    }
}

fn push_if(r: &mut Vec<KeyCode>, b: bool, k: KeyCode)
    ensures
        final(r)@.to_set() == (if b { old(r)@.to_set().insert(k) } else { old(r)@.to_set() }),
{
    if b {
        proof {
            old(r)@.lemma_push_to_set_commute(k);
        }
        r.push(k);
    }
}

/// The most recent unresolved press of a key that a behaviour tracks.
/// `handled` is true when no press is pending.
#[derive(Clone, Copy, Debug, PartialEq, Eq, Structural)]
pub struct KeyEvent {
    pub key: KeyCode,
    pub handled: bool,
}

impl KeyEvent {
    /// No pending press.
    pub fn new() -> (r: KeyEvent)
        ensures
            r.key == KeyCode::Escape,
            r.handled,
    {
        KeyEvent { key: KeyCode::Escape, handled: true }
    }
}

/// What a controller holds: the keys down this poll, the keys released since
/// the last poll, and the ownership lock.
pub ghost struct ControllerView {
    pub pressed: Set<KeyCode>,
    pub unpressed: Set<KeyCode>,
    pub locked: bool,
    pub owner: ComponentIdentity,
}

impl ControllerView {
    /// Whether `id` holds the lock.
    pub open spec fn holds(self, id: ComponentIdentity) -> bool {
        self.locked && self.owner == id
    }

    /// Whether a `try_lock` by `id` succeeds.
    pub open spec fn lock_available(self, id: ComponentIdentity) -> bool {
        !self.locked || self.owner == id
    }

    /// The controller after a `try_lock` by `id`, and whether it succeeded.
    pub open spec fn after_try_lock(self, id: ComponentIdentity) -> (ControllerView, bool) {
        if self.lock_available(id) {
            (ControllerView { locked: true, owner: id, ..self }, true)
        } else {
            (self, false)
        }
    }

    /// The controller after an `unlock` by `id`.
    pub open spec fn after_unlock(self, id: ComponentIdentity) -> ControllerView {
        if self.owner == id {
            ControllerView { locked: false, ..self }
        } else {
            self
        }
    }

    /// The controller after a key's press has been consumed.
    pub open spec fn after_keydown_handled(self, k: KeyCode) -> ControllerView {
        ControllerView { pressed: self.pressed.remove(k), ..self }
    }

    /// The controller after a key's release has been consumed.
    pub open spec fn after_keyup_handled(self, k: KeyCode) -> ControllerView {
        ControllerView { unpressed: self.unpressed.remove(k), ..self }
    }
}

/// Keyboard state for one poll, and the lock that decides which behaviour may
/// read it.
pub struct Controller {
    pressed_keys: KeySet,
    unpressed_keys: KeySet,
    locked: bool,
    component_id: ComponentIdentity,
}

impl View for Controller {
    type V = ControllerView;

    closed spec fn view(&self) -> ControllerView {
        ControllerView {
            pressed: self.pressed_keys.view(),
            unpressed: self.unpressed_keys.view(),
            locked: self.locked,
            owner: self.component_id,
        }
    }
}

impl Controller {
    /// No keys, unlocked.
    pub fn new() -> (r: Controller)
        ensures
            r@.pressed == Set::<KeyCode>::empty(),
            r@.unpressed == Set::<KeyCode>::empty(),
            !r@.locked,
            r@.owner == ComponentIdentity::World,
    {
        Controller {
            pressed_keys: KeySet::empty(),
            unpressed_keys: KeySet::empty(),
            locked: false,
            component_id: ComponentIdentity::World,
        }
    }

    pub fn is_keydown(&self, keycode: KeyCode) -> (r: bool)
        ensures
            r == self@.pressed.contains(keycode),
    {
        self.pressed_keys.contains(keycode)
    }

    pub fn is_keyup(&self, keycode: KeyCode) -> (r: bool)
        ensures
            r == self@.unpressed.contains(keycode),
    {
        self.unpressed_keys.contains(keycode)
    }

    /// Replaces the keys held down with those listed.
    pub fn set_pressed_keys(&mut self, keys: Vec<KeyCode>)
        ensures
            final(self)@ == (ControllerView { pressed: keys@.to_set(), ..old(self)@ }),
    {
        self.pressed_keys = KeySet::from_keys(&keys);
    }

    /// Replaces the keys released since the last poll with those listed.
    pub fn set_unpressed_keys(&mut self, keys: Vec<KeyCode>)
        ensures
            final(self)@ == (ControllerView { unpressed: keys@.to_set(), ..old(self)@ }),
    {
        self.unpressed_keys = KeySet::from_keys(&keys);
    }

    pub fn get_pressed_keys(&self) -> (r: Vec<KeyCode>)
        ensures
            r@.to_set() == self@.pressed,
    {
        self.pressed_keys.to_vec()
    }

    pub fn get_unpressed_keys(&self) -> (r: Vec<KeyCode>)
        ensures
            r@.to_set() == self@.unpressed,
    {
        self.unpressed_keys.to_vec()
    }

    /// Marks this poll's press of `keycode` as consumed; no change if it is not down.
    pub fn handle_keydown(&mut self, keycode: KeyCode)
        ensures
            final(self)@ == old(self)@.after_keydown_handled(keycode),
    {
        self.pressed_keys.remove(keycode);
    }

    /// Marks this poll's release of `keycode` as consumed; no change if it was not released.
    pub fn handle_keyup(&mut self, keycode: KeyCode)
        ensures
            final(self)@ == old(self)@.after_keyup_handled(keycode),
    {
        self.unpressed_keys.remove(keycode);
    }

    /// Takes the lock for `component_id` if it is free or already theirs, and
    /// says whether it did. Another owner's lock is left as it is.
    pub fn try_lock(&mut self, component_id: ComponentIdentity) -> (r: bool)
        ensures
            (final(self)@, r) == old(self)@.after_try_lock(component_id),
    {
        if !self.locked || self.component_id == component_id {
            self.component_id = component_id;
            self.locked = true;
            true
        } else {
            false
        }
    }

    /// Releases the lock if `component_id` owns it; otherwise nothing changes.
    pub fn unlock(&mut self, component_id: ComponentIdentity)
        ensures
            final(self)@ == old(self)@.after_unlock(component_id),
    {
        if self.component_id == component_id {
            self.locked = false;
        }
    }
}

/// One call on the ownership lock.
pub ghost enum LockCall {
    TryLock(ComponentIdentity),
    Unlock(ComponentIdentity),
}

impl LockCall {
    pub open spec fn caller(self) -> ComponentIdentity {
        match self {
            LockCall::TryLock(id) => id,
            LockCall::Unlock(id) => id,
        }
    }
}

/// The controller after one lock call.
pub open spec fn after_lock_call(c: ControllerView, call: LockCall) -> ControllerView {
    match call {
        LockCall::TryLock(id) => c.after_try_lock(id).0,
        LockCall::Unlock(id) => c.after_unlock(id),
    }
}

/// The controller after a sequence of lock calls, made in order.
pub open spec fn after_lock_calls(c: ControllerView, calls: Seq<LockCall>) -> ControllerView
    decreases calls.len(),
{
    if calls.len() == 0 {
        c
    } else {
        after_lock_call(after_lock_calls(c, calls.drop_last()), calls.last())
    }
}

/// Lock exclusivity: whatever sequence of `try_lock` and `unlock` calls two
/// distinct components make, at no point do both hold the lock, a `try_lock`
/// by one fails while the other holds the lock, and an `unlock` by the one
/// that does not hold the lock leaves the other's lock in place.
pub proof fn lemma_lock_exclusive(
    c: ControllerView,
    a: ComponentIdentity,
    b: ComponentIdentity,
    calls: Seq<LockCall>,
)
    requires
        a != b,
        forall|i: int| 0 <= i < calls.len() ==> (#[trigger] calls[i].caller() == a || calls[i].caller() == b),
    ensures
        forall|i: int|
            0 <= i <= calls.len() ==> !(#[trigger] after_lock_calls(c, calls.take(i)).holds(a)
                && after_lock_calls(c, calls.take(i)).holds(b)),
        forall|i: int, y: ComponentIdentity|
            0 <= i < calls.len() && calls[i].caller() != y
                && #[trigger] after_lock_calls(c, calls.take(i)).holds(y) ==> {
                &&& after_lock_calls(c, calls.take(i + 1)).holds(y)
                &&& calls[i] is TryLock ==> !after_lock_calls(c, calls.take(i)).after_try_lock(
                    calls[i].caller(),
                ).1
            },
{
    assert forall|i: int, y: ComponentIdentity|
        0 <= i < calls.len() && calls[i].caller() != y
            && #[trigger] after_lock_calls(c, calls.take(i)).holds(y) implies {
            &&& after_lock_calls(c, calls.take(i + 1)).holds(y)
            &&& calls[i] is TryLock ==> !after_lock_calls(c, calls.take(i)).after_try_lock(
                calls[i].caller(),
            ).1
        } by {
        assert(calls.take(i + 1).drop_last() =~= calls.take(i));
        assert(calls.take(i + 1).last() == calls[i]);
    }
}

/// Turns snapshots of the keys held into the controller's per-poll sets:
/// the keys down now, and the keys that were down at the last capture but
/// are not any more.
pub struct Input {
    pressed_keys: KeySet,
}

impl Input {
    /// Keys held at the last capture.
    pub closed spec fn held(&self) -> Set<KeyCode> {
        self.pressed_keys.view()
    }

    /// Nothing held yet.
    pub fn new() -> (r: Input)
        ensures
            r.held() == Set::<KeyCode>::empty(),
    {
        Input { pressed_keys: KeySet::empty() }
    }

    /// Hands the controller this poll's snapshot of the keys held.
    pub fn capture(&mut self, pressed: Vec<KeyCode>, controller: &mut Controller)
        ensures
            final(self).held() == pressed@.to_set(),
            final(controller)@ == (ControllerView {
                pressed: pressed@.to_set(),
                unpressed: old(self).held().difference(pressed@.to_set()),
                ..old(controller)@
            }),
    {
        let now = KeySet::from_keys(&pressed);
        let released = self.pressed_keys.difference(&now);
        controller.pressed_keys = now;
        controller.unpressed_keys = released;
        self.pressed_keys = now;
    }
}

} // verus!
