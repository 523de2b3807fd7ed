use movebox::components::{Controllable, Renderable};
use movebox::keys::{KeyEvent, MOVE_SPEED};
use movebox::systems::ButtonSystem;
use piston_window::Key;

fn code(key: Key) -> u32 {
    u32::from(key)
}

#[test]
fn arrow_codes_are_piston_codes() {
    // Each arrow key, as piston numbers it, steers the way it points.
    let mut sys = ButtonSystem::new();
    assert_eq!(sys.run(&vec![KeyEvent::Press(code(Key::Left))]), (-5, 0));
    assert_eq!(sys.run(&vec![KeyEvent::Release(code(Key::Left)), KeyEvent::Press(code(Key::Right))]), (5, 0));
    assert_eq!(sys.run(&vec![KeyEvent::Release(code(Key::Right)), KeyEvent::Press(code(Key::Up))]), (0, -5));
    assert_eq!(sys.run(&vec![KeyEvent::Release(code(Key::Up)), KeyEvent::Press(code(Key::Down))]), (0, 5));
}

#[test]
fn new_system_stands_still() {
    let sys = ButtonSystem::new();
    assert_eq!(sys.velocity(), (0, 0));
    assert_eq!(MOVE_SPEED, 5);
}

#[test]
fn opposite_keys_cancel() {
    let mut sys = ButtonSystem::new();
    sys.handle_event(KeyEvent::Press(code(Key::Left)));
    sys.handle_event(KeyEvent::Press(code(Key::Right)));
    sys.handle_event(KeyEvent::Press(code(Key::Up)));
    sys.handle_event(KeyEvent::Press(code(Key::Down)));
    assert_eq!(sys.velocity(), (0, 0));
    sys.handle_event(KeyEvent::Release(code(Key::Right)));
    assert_eq!(sys.velocity(), (-5, 0));
}

#[test]
fn diagonal_movement() {
    let mut sys = ButtonSystem::new();
    let v = sys.run(&vec![KeyEvent::Press(code(Key::Right)), KeyEvent::Press(code(Key::Down))]);
    assert_eq!(v, (5, 5));
}

#[test]
fn held_key_keeps_moving_between_frames() {
    let mut sys = ButtonSystem::new();
    assert_eq!(sys.run(&vec![KeyEvent::Press(code(Key::Left))]), (-5, 0));
    // No new events: the key is still held, the speed does not grow.
    assert_eq!(sys.run(&Vec::new()), (-5, 0));
    assert_eq!(sys.run(&vec![KeyEvent::Other]), (-5, 0));
    assert_eq!(sys.run(&vec![KeyEvent::Release(code(Key::Left))]), (0, 0));
}

#[test]
fn other_keys_are_not_registered() {
    let mut sys = ButtonSystem::new();
    sys.handle_event(KeyEvent::Press(code(Key::Space)));
    sys.handle_event(KeyEvent::Press(code(Key::A)));
    assert_eq!(sys.velocity(), (0, 0));
}

#[test]
fn last_event_for_a_key_wins() {
    let mut sys = ButtonSystem::new();
    let left = code(Key::Left);
    let v = sys.run(&vec![
        KeyEvent::Press(left),
        KeyEvent::Release(left),
        KeyEvent::Press(left),
        KeyEvent::Other,
    ]);
    assert_eq!(v, (-5, 0));
    let v = sys.run(&vec![KeyEvent::Press(left), KeyEvent::Release(left)]);
    assert_eq!(v, (0, 0));
}

#[test]
fn marker_components_default() {
    assert_eq!(Controllable::default(), Controllable);
    assert_eq!(Renderable::default(), Renderable);
}

#[test]
fn held_keys_are_only_arrows() {
    let mut sys = ButtonSystem::new();
    sys.run(&vec![
        KeyEvent::Press(code(Key::Space)),
        KeyEvent::Press(code(Key::W)),
        KeyEvent::Press(code(Key::Up)),
        KeyEvent::Release(code(Key::A)),
    ]);
    let held = sys.held_keys();
    assert_eq!(held.len(), 1);
    assert!(held.contains(&code(Key::Up)));
}

#[test]
fn non_arrow_events_do_not_matter() {
    let mut sys1 = ButtonSystem::new();
    let mut sys2 = ButtonSystem::new();
    let v1 = sys1.run(&vec![KeyEvent::Press(code(Key::Left)), KeyEvent::Press(code(Key::Down))]);
    let v2 = sys2.run(&vec![
        KeyEvent::Press(code(Key::Space)),
        KeyEvent::Press(code(Key::Left)),
        KeyEvent::Other,
        KeyEvent::Release(code(Key::Space)),
        KeyEvent::Press(code(Key::Down)),
        KeyEvent::Release(code(Key::Return)),
    ]);
    assert_eq!(v1, v2);
    assert_eq!(sys1.held_keys(), sys2.held_keys());
}
