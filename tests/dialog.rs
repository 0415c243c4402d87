use pokedriver::actor::{ActorAction, ActorAttributes, ActorDirection};
use pokedriver::components::{ComponentIdentity, DialogType};
use pokedriver::controller::KeyCode;
use pokedriver::dialog::{DialogAttrs, DialogSpritetype, TalkDialog};
use pokedriver::shared_state::SharedState;
use pokedriver::viewport::{Point, ViewPort};
use pokedriver::walk::WalkBehaviour;

fn scene() -> SharedState {
    let mut state = SharedState::new();
    state.view_port = ViewPort::new().init(640, 480);
    state
}

fn lines(n: usize) -> Vec<String> {
    (0..n).map(|i| format!("line {}", i)).collect()
}

fn set_keys(state: &mut SharedState, down: Vec<KeyCode>, up: Vec<KeyCode>) {
    state.controller.set_pressed_keys(down);
    state.controller.set_unpressed_keys(up);
}

/// One press of `key`: a poll with it down, then a poll with it released.
fn press(dialog: &mut TalkDialog, attrs: &mut DialogAttrs, state: &mut SharedState, key: KeyCode) {
    set_keys(state, vec![key], vec![]);
    dialog.run(attrs, state);
    set_keys(state, vec![], vec![key]);
    dialog.run(attrs, state);
}

#[test]
fn continue_pages_then_closes() {
    let mut state = scene();
    let mut attrs = DialogAttrs::new(lines(3), &state.view_port);
    let mut dialog = TalkDialog::new();
    set_keys(&mut state, vec![], vec![]);
    dialog.run(&mut attrs, &mut state);
    assert_eq!(attrs.display_text, "line 0");
    press(&mut dialog, &mut attrs, &mut state, KeyCode::Z);
    assert!(attrs.visible);
    assert_eq!(attrs.display_text, "line 1");
    press(&mut dialog, &mut attrs, &mut state, KeyCode::Z);
    assert!(attrs.visible);
    assert_eq!(attrs.display_text, "line 2");
    press(&mut dialog, &mut attrs, &mut state, KeyCode::Z);
    assert!(!attrs.visible);
    assert_eq!(attrs.display_text, "line 0");
    // closed: the lock is free again
    assert!(state.controller.try_lock(ComponentIdentity::World));
}

#[test]
fn single_line_closes_on_first_continue() {
    let mut state = scene();
    let mut attrs = DialogAttrs::new(lines(1), &state.view_port);
    let mut dialog = TalkDialog::new();
    press(&mut dialog, &mut attrs, &mut state, KeyCode::Z);
    assert!(!attrs.visible);
}

#[test]
fn cancel_closes_at_once() {
    let mut state = scene();
    let mut attrs = DialogAttrs::new(lines(4), &state.view_port);
    let mut dialog = TalkDialog::new();
    press(&mut dialog, &mut attrs, &mut state, KeyCode::Z);
    assert_eq!(attrs.display_text, "line 1");
    press(&mut dialog, &mut attrs, &mut state, KeyCode::X);
    assert!(!attrs.visible);
    assert_eq!(attrs.display_text, "line 0");
}

#[test]
fn press_acts_on_release_only() {
    let mut state = scene();
    let mut attrs = DialogAttrs::new(lines(3), &state.view_port);
    let mut dialog = TalkDialog::new();
    for _ in 0..5 {
        set_keys(&mut state, vec![KeyCode::Z], vec![]);
        dialog.run(&mut attrs, &mut state);
        assert_eq!(attrs.display_text, "line 0");
    }
    set_keys(&mut state, vec![], vec![KeyCode::Z]);
    dialog.run(&mut attrs, &mut state);
    assert_eq!(attrs.display_text, "line 1");
}

#[test]
fn hidden_dialog_changes_nothing() {
    let mut state = scene();
    let mut attrs = DialogAttrs::new(lines(2), &state.view_port);
    attrs.visible = false;
    let mut dialog = TalkDialog::new();
    press(&mut dialog, &mut attrs, &mut state, KeyCode::Z);
    assert_eq!(attrs.display_text, "");
    assert!(state.controller.try_lock(ComponentIdentity::World));
}

#[test]
fn dialog_box_sits_in_bottom_quarter() {
    let mut state = scene();
    state.view_port = state.view_port.origin(Point { x: 30, y: 60 });
    let mut attrs = DialogAttrs::new(lines(2), &state.view_port);
    let mut dialog = TalkDialog::new();
    dialog.run(&mut attrs, &mut state);
    assert_eq!(attrs.mesh_location, Point { x: 30, y: 60 + 360 });
    assert_eq!(attrs.text_location, Point { x: 46, y: 436 });
    assert_eq!(attrs.text_bounds, Point { x: 30 + 640 - 16, y: 420 + 120 - 16 });
    assert_eq!(attrs.dialog_type, DialogType::TalkDialog);
}

#[test]
fn open_dialog_freezes_walking() {
    let mut state = scene();
    let mut walker = WalkBehaviour::new().speed(12);
    let mut actor = ActorAttributes::new();
    let mut attrs = DialogAttrs::new(lines(2), &state.view_port);
    let mut dialog = TalkDialog::new();
    // first poll: the walker runs before the dialog has taken the controller
    set_keys(&mut state, vec![], vec![]);
    walker.run(&mut state, &mut actor);
    dialog.run(&mut attrs, &mut state);
    let origin = state.view_port.origin;
    for _ in 0..30 {
        set_keys(&mut state, vec![KeyCode::Up], vec![]);
        walker.run(&mut state, &mut actor);
        assert_eq!(state.view_port.origin, origin);
        assert_eq!(actor, ActorAttributes { direction: ActorDirection::South, action: ActorAction::Stand });
        assert!(walker.key_event().handled);
        // the arrow was not consumed by the walker
        assert!(state.controller.is_keydown(KeyCode::Up));
        dialog.run(&mut attrs, &mut state);
    }
    // closing the dialog hands input back
    press(&mut dialog, &mut attrs, &mut state, KeyCode::X);
    assert!(!attrs.visible);
    set_keys(&mut state, vec![KeyCode::Down], vec![]);
    walker.run(&mut state, &mut actor);
    assert_eq!(actor.action, ActorAction::Walk1);
}

#[test]
fn dialog_sprite_indices() {
    assert_eq!(DialogSpritetype::Bottom.to_sprite_index(), 0);
    assert_eq!(DialogSpritetype::OptionBox.to_sprite_index(), 1);
}
