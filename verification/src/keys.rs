use vstd::prelude::*;

verus! {

/// SDL key code of the left arrow key, as piston's `Key::Left` carries it.
pub open spec fn left_code() -> u32 {
    0x4000_0050
}

/// SDL key code of the right arrow key, as piston's `Key::Right` carries it.
pub open spec fn right_code() -> u32 {
    0x4000_004F
}

/// SDL key code of the up arrow key, as piston's `Key::Up` carries it.
pub open spec fn up_code() -> u32 {
    0x4000_0052
}

/// SDL key code of the down arrow key, as piston's `Key::Down` carries it.
pub open spec fn down_code() -> u32 {
    0x4000_0051
}

/// The four arrow keys.
pub open spec fn arrow_keys() -> Set<u32> {
    set![up_code(), down_code(), left_code(), right_code()]
}

/// The key codes of piston's four arrow keys, in the order left, right, up,
/// down, each read through piston's `impl From<Key> for u32` (which casts the
/// enum's discriminant). The contract states the discriminants that
/// `pistoncore-input`'s `Key` enum declares for these variants.
#[verifier::external_body]
pub(crate) fn arrow_key_codes() -> (codes: (u32, u32, u32, u32))
    ensures
        codes == (left_code(), right_code(), up_code(), down_code()),
{
    (
        u32::from(piston_window::Key::Left),
        u32::from(piston_window::Key::Right),
        u32::from(piston_window::Key::Up),
        u32::from(piston_window::Key::Down),
    )
}

/// A window event as far as key handling is concerned: a keyboard key went
/// down or came up (by its key code), or anything else.
#[derive(Clone, Copy, Debug, PartialEq, Eq, Structural)]
pub enum KeyEvent {
    Press(u32),
    Release(u32),
    Other,
}

/// Whether an event presses or releases one of the arrow keys.
pub open spec fn names_arrow(event: KeyEvent) -> bool {
    match event {
        KeyEvent::Press(key) => arrow_keys().contains(key),
        KeyEvent::Release(key) => arrow_keys().contains(key),
        KeyEvent::Other => false,
    }
}

/// `names_arrow` as a predicate on events, to filter sequences of events.
pub open spec fn arrow_events() -> spec_fn(KeyEvent) -> bool {
    |event: KeyEvent| names_arrow(event)
}

/// Whether a key may be registered under a mask: with no mask every key is.
pub open spec fn key_allowed(mask: Option<Set<u32>>, key: u32) -> bool {
    match mask {
        Some(allowed) => allowed.contains(key),
        None => true,
    }
}

/// The held keys after `key` went down.
pub open spec fn after_press(presses: Set<u32>, mask: Option<Set<u32>>, key: u32) -> Set<u32> {
    if key_allowed(mask, key) {
        presses.insert(key)
    } else {
        presses
    }
}

/// The held keys after `key` came up.
pub open spec fn after_release(presses: Set<u32>, key: u32) -> Set<u32> {
    presses.remove(key)
}

/// The held keys after one event.
pub open spec fn after_event(presses: Set<u32>, mask: Option<Set<u32>>, event: KeyEvent) -> Set<u32> {
    match event {
        KeyEvent::Press(key) => after_press(presses, mask, key),
        KeyEvent::Release(key) => after_release(presses, key),
        KeyEvent::Other => presses,
    }
}

/// The held keys after a sequence of events, taken in order.
pub open spec fn after_events(presses: Set<u32>, mask: Option<Set<u32>>, events: Seq<KeyEvent>) -> Set<u32>
    decreases events.len(),
{
    if events.len() == 0 {
        presses
    } else {
        after_event(after_events(presses, mask, events.drop_last()), mask, events.last())
    }
}

/// How far a controllable entity moves along an axis in one frame.
pub const MOVE_SPEED: i32 = 5;

/// The velocity along one axis: `-MOVE_SPEED` for the key toward the
/// negative end, `MOVE_SPEED` for the other, summed; so both keys cancel.
pub open spec fn axis_velocity(negative: bool, positive: bool) -> int {
    (if negative { -MOVE_SPEED } else { 0int }) + (if positive { MOVE_SPEED as int } else { 0int })
}

/// The velocity `(x, y)` that a set of held keys asks for: left and right
/// steer `x`, up and down steer `y` (screen coordinates grow downward).
pub open spec fn velocity_for(presses: Set<u32>) -> (int, int) {
    (
        axis_velocity(presses.contains(left_code()), presses.contains(right_code())),
        axis_velocity(presses.contains(up_code()), presses.contains(down_code())),
    )
}

} // verus!
