use pokedriver::actor::{ActorAction, ActorAttributes, ActorDirection};
use pokedriver::controller::KeyCode;
use pokedriver::shared_state::SharedState;
use pokedriver::viewport::{Point, ViewPort};
use pokedriver::walk::WalkBehaviour;
use pokedriver::player::PlayerBehaviour;

const W1: ActorAction = ActorAction::Walk1;
const W2: ActorAction = ActorAction::Walk2;
const ST: ActorAction = ActorAction::Stand;

fn scene() -> SharedState {
    let mut state = SharedState::new();
    state.view_port = ViewPort::new().init(640, 480).origin(Point { x: 0, y: 0 });
    state
}

fn poll(walker: &mut WalkBehaviour, state: &mut SharedState, attr: &mut ActorAttributes, held: Vec<KeyCode>) {
    state.controller.set_pressed_keys(held);
    state.controller.set_unpressed_keys(vec![]);
    walker.run(state, attr);
}

#[test]
fn walk_down_two_cycles_at_five_frames() {
    // speed 12 at 60 polls per second: five polls per cycle
    let mut walker = WalkBehaviour::new().speed(12);
    let mut state = scene();
    let mut attr = ActorAttributes::new();
    let mut ys = Vec::new();
    let mut actions = Vec::new();
    for _ in 0..10 {
        poll(&mut walker, &mut state, &mut attr, vec![KeyCode::Down]);
        ys.push(state.view_port.origin.y);
        actions.push(attr.action);
    }
    // one tile (16 units) at scale 3 per cycle, spread as 3, 3, 3, 3, 4 units
    assert_eq!(ys, vec![9, 18, 27, 36, 48, 57, 66, 75, 84, 96]);
    assert_eq!(state.view_port.origin.x, 0);
    assert_eq!(actions, vec![W1, W1, ST, ST, ST, W2, W2, ST, ST, ST]);
    assert_eq!(attr.direction, ActorDirection::South);
    assert!(walker.key_event().handled);
}

#[test]
fn turn_up_from_south() {
    let mut walker = WalkBehaviour::new().speed(12);
    let mut state = scene();
    let mut attr = ActorAttributes::new();
    poll(&mut walker, &mut state, &mut attr, vec![KeyCode::Up]);
    assert_eq!(attr.direction, ActorDirection::North);
    assert_eq!(attr.action, ActorAction::Walk1);
    assert!(!walker.key_event().handled);
    let mut actions = vec![attr.action];
    let mut handled_at = 0;
    for i in 2..=6 {
        poll(&mut walker, &mut state, &mut attr, vec![]);
        actions.push(attr.action);
        if handled_at == 0 && walker.key_event().handled {
            handled_at = i;
        }
    }
    // ceil(2 * 5 / 3) = 4 polls
    assert_eq!(handled_at, 4);
    assert_eq!(&actions[..4], &[ActorAction::Walk1, ActorAction::Walk1, ActorAction::Stand, ActorAction::Stand]);
    assert_eq!(state.view_port.origin, Point { x: 0, y: 0 });
    assert_eq!(attr.direction, ActorDirection::North);
}

#[test]
fn turn_takes_two_thirds_of_a_cycle_at_player_speed() {
    let mut walker = WalkBehaviour::new().speed(4);
    let mut state = scene();
    let mut attr = ActorAttributes::new();
    poll(&mut walker, &mut state, &mut attr, vec![KeyCode::Left]);
    let mut polls = 1;
    while !walker.key_event().handled {
        poll(&mut walker, &mut state, &mut attr, vec![]);
        polls += 1;
    }
    assert_eq!(polls, 10);
    assert_eq!(attr.direction, ActorDirection::West);
    assert_eq!(attr.action, ActorAction::Stand);
    assert_eq!(state.view_port.origin, Point { x: 0, y: 0 });
}

#[test]
fn held_key_is_handled_within_a_cycle() {
    for speed in [1u16, 4, 7, 12, 30, 60] {
        let capframes = 60 / speed as usize;
        let mut walker = WalkBehaviour::new().speed(speed);
        let mut state = scene();
        let mut attr = ActorAttributes::new();
        let mut seen = false;
        for _ in 0..capframes {
            poll(&mut walker, &mut state, &mut attr, vec![KeyCode::Right]);
            if walker.key_event().handled {
                seen = true;
                break;
            }
        }
        assert!(seen, "speed {}", speed);
    }
}

#[test]
fn walk_cycle_scrolls_exactly_one_tile() {
    for speed in [1u16, 4, 7, 9, 12, 60] {
        let mut walker = WalkBehaviour::new().speed(speed);
        let mut state = scene();
        let mut attr = ActorAttributes::new();
        attr.direction = ActorDirection::East;
        poll(&mut walker, &mut state, &mut attr, vec![KeyCode::Right]);
        while !walker.key_event().handled {
            poll(&mut walker, &mut state, &mut attr, vec![KeyCode::Right]);
        }
        assert_eq!(state.view_port.origin, Point { x: 48, y: 0 }, "speed {}", speed);
    }
}

#[test]
fn gait_alternates_between_cycles() {
    let mut walker = WalkBehaviour::new().speed(30);
    let mut state = scene();
    let mut attr = ActorAttributes::new();
    let mut gaits = Vec::new();
    for _ in 0..4 {
        poll(&mut walker, &mut state, &mut attr, vec![KeyCode::Down]);
        gaits.push(attr.action);
        poll(&mut walker, &mut state, &mut attr, vec![KeyCode::Down]);
        assert!(walker.key_event().handled);
    }
    assert_eq!(gaits, vec![W1, W2, W1, W2]);
}

#[test]
fn arrow_priority_is_up_down_left_right() {
    let mut walker = WalkBehaviour::new().speed(12);
    let mut state = scene();
    let mut attr = ActorAttributes::new();
    poll(&mut walker, &mut state, &mut attr, vec![KeyCode::Right, KeyCode::Left, KeyCode::Down]);
    assert_eq!(walker.key_event().key, KeyCode::Down);
    assert_eq!(attr.direction, ActorDirection::South);
}

#[test]
fn run_consumes_arrows_and_releases_lock() {
    let mut walker = WalkBehaviour::new().speed(12);
    let mut state = scene();
    let mut attr = ActorAttributes::new();
    state.controller.set_pressed_keys(vec![KeyCode::Down, KeyCode::Z]);
    walker.run(&mut state, &mut attr);
    assert!(!state.controller.is_keydown(KeyCode::Down));
    assert!(state.controller.is_keydown(KeyCode::Z));
    assert!(state.controller.try_lock(pokedriver::components::ComponentIdentity::World));
}

#[test]
fn idle_walker_does_nothing_without_keys() {
    let mut walker = WalkBehaviour::new().speed(12);
    let mut state = scene();
    let mut attr = ActorAttributes::new();
    for _ in 0..20 {
        poll(&mut walker, &mut state, &mut attr, vec![KeyCode::Z]);
    }
    assert_eq!(attr, ActorAttributes::new());
    assert_eq!(state.view_port.origin, Point { x: 0, y: 0 });
    assert!(walker.key_event().handled);
}

#[test]
fn actor_anchor_is_viewport_centre_less_sprite_offset() {
    let walker = WalkBehaviour::new();
    let state = scene();
    let mut location = Point { x: 0, y: 0 };
    walker.transform_location(&state, &mut location);
    assert_eq!(location, Point { x: 320 - 24, y: 240 - 54 });
}

#[test]
fn player_walks_at_four_steps_per_second() {
    let mut player = PlayerBehaviour::new();
    let mut state = scene();
    let mut attr = ActorAttributes::new();
    let mut polls = 0;
    loop {
        let before = state.view_port.origin.y;
        state.controller.set_pressed_keys(vec![KeyCode::Down]);
        player.run(&mut state, &mut attr);
        assert!(state.view_port.origin.y > before);
        polls += 1;
        if state.view_port.origin.y == 48 {
            break;
        }
        assert!(polls < 60);
    }
    // 15 polls per cycle, one unit per poll and two on the last
    assert_eq!(polls, 15);
}

#[test]
fn speed_zero_is_taken_as_one() {
    let mut walker = WalkBehaviour::new().speed(0);
    let mut state = scene();
    let mut attr = ActorAttributes::new();
    poll(&mut walker, &mut state, &mut attr, vec![KeyCode::Down]);
    let mut polls = 1;
    while !walker.key_event().handled {
        poll(&mut walker, &mut state, &mut attr, vec![KeyCode::Down]);
        polls += 1;
    }
    assert_eq!(polls, 60);
    assert_eq!(state.view_port.origin.y, 48);
}

#[test]
fn player_speed_can_be_changed() {
    let mut player = PlayerBehaviour::new().speed(60);
    let mut state = scene();
    let mut attr = ActorAttributes::new();
    state.controller.set_pressed_keys(vec![KeyCode::Down]);
    player.run(&mut state, &mut attr);
    assert_eq!(state.view_port.origin.y, 48);
}

#[test]
fn momentum_turns_into_a_walk_right_after_a_step() {
    let mut walker = WalkBehaviour::new().speed(12);
    let mut state = scene();
    let mut attr = ActorAttributes::new();
    for _ in 0..5 {
        poll(&mut walker, &mut state, &mut attr, vec![KeyCode::Down]);
    }
    assert_eq!(state.view_port.origin, Point { x: 0, y: 48 });
    for _ in 0..5 {
        poll(&mut walker, &mut state, &mut attr, vec![KeyCode::Left]);
    }
    assert_eq!(state.view_port.origin, Point { x: -48, y: 48 });
    assert_eq!(attr.direction, ActorDirection::West);
}

#[test]
fn momentum_decays_after_a_cycle_of_idle_polls() {
    let mut walker = WalkBehaviour::new().speed(12);
    let mut state = scene();
    let mut attr = ActorAttributes::new();
    for _ in 0..5 {
        poll(&mut walker, &mut state, &mut attr, vec![KeyCode::Down]);
    }
    poll(&mut walker, &mut state, &mut attr, vec![]);
    for _ in 0..5 {
        poll(&mut walker, &mut state, &mut attr, vec![KeyCode::Left]);
    }
    // turned in place, then walked once the new facing was kept
    assert_eq!(attr.direction, ActorDirection::West);
    assert_eq!(state.view_port.origin.y, 48);
    assert!(state.view_port.origin.x > -48);
}

#[test]
fn every_poll_of_a_short_cycle_scrolls() {
    for speed in [4u16, 6, 12, 20, 30, 60] {
        let mut walker = WalkBehaviour::new().speed(speed);
        let mut state = scene();
        let mut attr = ActorAttributes::new();
        let mut steps = Vec::new();
        loop {
            let before = state.view_port.origin.y;
            poll(&mut walker, &mut state, &mut attr, vec![KeyCode::Down]);
            steps.push((state.view_port.origin.y - before) / 3);
            if walker.key_event().handled {
                break;
            }
        }
        assert_eq!(steps.len(), 60 / speed as usize, "speed {}", speed);
        assert_eq!(steps.iter().sum::<i64>(), 16);
        let low = 16 / steps.len() as i64;
        assert!(steps.iter().all(|s| *s == low || *s == low + 1), "speed {}: {:?}", speed, steps);
    }
}
