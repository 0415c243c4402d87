use pokedriver::components::{ComponentIdentity, DialogType, PlayerBehaviourType};
use pokedriver::controller::{Controller, Input, KeyCode, KeyEvent};

const WALK: ComponentIdentity = ComponentIdentity::Player(PlayerBehaviourType::Walk);
const TALK: ComponentIdentity = ComponentIdentity::Dialog(DialogType::TalkDialog);

#[test]
fn lock_is_exclusive_and_reentrant() {
    let mut c = Controller::new();
    assert!(c.try_lock(TALK));
    assert!(c.try_lock(TALK));
    assert!(!c.try_lock(WALK));
    c.unlock(WALK);
    assert!(!c.try_lock(WALK));
    c.unlock(TALK);
    assert!(c.try_lock(WALK));
    assert!(!c.try_lock(TALK));
}

#[test]
fn lock_sequence_never_has_two_owners() {
    let mut c = Controller::new();
    let mut owner: Option<ComponentIdentity> = None;
    let calls = [(WALK, true), (TALK, true), (WALK, false), (TALK, true), (TALK, false), (WALK, false),
        (TALK, true), (WALK, true), (TALK, false), (WALK, true)];
    for (id, lock) in calls {
        if lock {
            let got = c.try_lock(id);
            assert_eq!(got, owner.is_none() || owner == Some(id));
            if got {
                owner = Some(id);
            }
        } else {
            c.unlock(id);
            if owner == Some(id) {
                owner = None;
            }
        }
    }
    assert_eq!(owner, Some(WALK));
    assert!(!c.try_lock(TALK));
}

#[test]
fn key_sets_and_consumption() {
    let mut c = Controller::new();
    c.set_pressed_keys(vec![KeyCode::Up, KeyCode::Z, KeyCode::Up]);
    c.set_unpressed_keys(vec![KeyCode::X]);
    assert!(c.is_keydown(KeyCode::Up));
    assert!(c.is_keydown(KeyCode::Z));
    assert!(!c.is_keydown(KeyCode::X));
    assert!(c.is_keyup(KeyCode::X));
    assert_eq!(c.get_pressed_keys(), vec![KeyCode::Up, KeyCode::Z]);
    c.handle_keydown(KeyCode::Up);
    c.handle_keydown(KeyCode::Up);
    c.handle_keydown(KeyCode::Down);
    assert_eq!(c.get_pressed_keys(), vec![KeyCode::Z]);
    c.handle_keyup(KeyCode::X);
    assert!(c.get_unpressed_keys().is_empty());
}

#[test]
fn key_event_starts_handled() {
    let e = KeyEvent::new();
    assert!(e.handled);
    assert_eq!(e.key, KeyCode::Escape);
}

#[test]
fn capture_reports_releases() {
    let mut input = Input::new();
    let mut c = Controller::new();
    input.capture(vec![KeyCode::Up, KeyCode::Z], &mut c);
    assert_eq!(c.get_pressed_keys(), vec![KeyCode::Up, KeyCode::Z]);
    assert!(c.get_unpressed_keys().is_empty());
    input.capture(vec![KeyCode::Z], &mut c);
    assert_eq!(c.get_pressed_keys(), vec![KeyCode::Z]);
    assert_eq!(c.get_unpressed_keys(), vec![KeyCode::Up]);
    input.capture(vec![], &mut c);
    assert_eq!(c.get_unpressed_keys(), vec![KeyCode::Z]);
}
