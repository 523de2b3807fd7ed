use vstd::prelude::*;

use crate::keys::{
    after_event, after_events, after_press, after_release, arrow_events, arrow_keys, down_code,
    key_allowed, left_code, names_arrow, right_code, up_code, velocity_for, KeyEvent, MOVE_SPEED,
};

verus! {

/// The last press or release of `key` in `events`: `Some(true)` for a press,
/// `Some(false)` for a release, `None` when no event names the key.
pub open spec fn last_key_event(events: Seq<KeyEvent>, key: u32) -> Option<bool>
    decreases events.len(),
{
    if events.len() == 0 {
        None
    } else {
        match events.last() {
            KeyEvent::Press(k) if k == key => Some(true),
            KeyEvent::Release(k) if k == key => Some(false),
            _ => last_key_event(events.drop_last(), key),
        }
    }
}

/// Letting a key go undoes pressing it: the held keys lose that key, and are
/// what they were before whenever the key was not held already.
pub proof fn lemma_release_undoes_press(presses: Set<u32>, mask: Option<Set<u32>>, key: u32)
    ensures
        after_release(after_press(presses, mask, key), key) == presses.remove(key),
        !presses.contains(key) ==> after_release(after_press(presses, mask, key), key) == presses,
{
    assert(after_release(after_press(presses, mask, key), key) =~= presses.remove(key));
    if !presses.contains(key) {
        assert(presses.remove(key) =~= presses);
    }
}

/// Pressing a key twice registers it once; letting it go twice removes it once.
pub proof fn lemma_press_and_release_idempotent(presses: Set<u32>, mask: Option<Set<u32>>, key: u32)
    ensures
        after_press(after_press(presses, mask, key), mask, key) == after_press(presses, mask, key),
        after_release(after_release(presses, key), key) == after_release(presses, key),
{
    assert(after_press(after_press(presses, mask, key), mask, key) =~= after_press(presses, mask, key));
    assert(after_release(after_release(presses, key), key) =~= after_release(presses, key));
}

/// Without a mask every key that goes down is registered; with a mask, a
/// key outside it never is.
pub proof fn lemma_mask_decides_registration(presses: Set<u32>, mask: Option<Set<u32>>, key: u32)
    ensures
        mask is None ==> after_press(presses, mask, key).contains(key),
        mask matches Some(allowed) && !allowed.contains(key) ==> after_press(presses, mask, key)
            == presses,
{
}

/// Under a mask, the held keys stay inside the mask whatever events come.
pub proof fn lemma_held_keys_stay_in_mask(presses: Set<u32>, allowed: Set<u32>, events: Seq<KeyEvent>)
    requires
        presses.subset_of(allowed),
    ensures
        after_events(presses, Some(allowed), events).subset_of(allowed),
    decreases events.len(),
{
    if events.len() > 0 {
        lemma_held_keys_stay_in_mask(presses, allowed, events.drop_last());
    }
}

/// A key is held after a run of events exactly when the last event naming it
/// was a press (for a key that may be registered), was not held when its
/// last event was a release, and keeps its state when no event names it.
pub proof fn lemma_last_event_decides(
    presses: Set<u32>,
    mask: Option<Set<u32>>,
    events: Seq<KeyEvent>,
    key: u32,
)
    ensures
        last_key_event(events, key) is None ==> (after_events(presses, mask, events).contains(key)
            == presses.contains(key)),
        last_key_event(events, key) == Some(false) ==> !after_events(presses, mask, events).contains(key),
        last_key_event(events, key) == Some(true) && key_allowed(mask, key) ==> after_events(
            presses,
            mask,
            events,
        ).contains(key),
    decreases events.len(),
{
    if events.len() > 0 {
        lemma_last_event_decides(presses, mask, events.drop_last(), key);
    }
}

/// Calling `register_key_press` or `deregister_key` does to the held keys
/// what a press or a release event does, so a run of such calls on a
/// registration acts as `after_events` of the matching events, and the laws
/// on event sequences hold of call sequences.
pub proof fn lemma_calls_are_events(presses: Set<u32>, mask: Option<Set<u32>>, key: u32)
    ensures
        after_press(presses, mask, key) == after_event(presses, mask, KeyEvent::Press(key)),
        after_release(presses, key) == after_event(presses, mask, KeyEvent::Release(key)),
{
}

/// Starting from no held keys under a mask, the held keys after any run of
/// events are exactly the keys of the mask whose last event was a press.
pub proof fn lemma_held_are_masked_keys_last_pressed(allowed: Set<u32>, events: Seq<KeyEvent>)
    ensures
        after_events(Set::<u32>::empty(), Some(allowed), events) == Set::new(
            |key: u32| allowed.contains(key) && last_key_event(events, key) == Some(true),
        ),
{
    let held = after_events(Set::<u32>::empty(), Some(allowed), events);
    lemma_held_keys_stay_in_mask(Set::<u32>::empty(), allowed, events);
    assert forall|key: u32|
        held.contains(key) <==> (allowed.contains(key) && last_key_event(events, key) == Some(
            true,
        )) by {
        lemma_last_event_decides(Set::<u32>::empty(), Some(allowed), events, key);
        if held.contains(key) {
            assert(allowed.contains(key));
        }
        match last_key_event(events, key) {
            Some(pressed) => {
                if pressed {
                    assert(allowed.contains(key) ==> held.contains(key));
                } else {
                    assert(!held.contains(key));
                }
            },
            None => {
                assert(!held.contains(key));
            },
        }
    }
    assert(held =~= Set::new(
        |key: u32| allowed.contains(key) && last_key_event(events, key) == Some(true),
    ));
}

/// With the arrow keys as mask and only arrow keys held, an event that does
/// not press or release an arrow key changes nothing.
pub proof fn lemma_non_arrow_event_changes_nothing(presses: Set<u32>, event: KeyEvent)
    requires
        presses.subset_of(arrow_keys()),
        !names_arrow(event),
    ensures
        after_event(presses, Some(arrow_keys()), event) == presses,
{
    assert(after_event(presses, Some(arrow_keys()), event) =~= presses);
}

/// With the arrow keys as mask and only arrow keys held, the held keys after
/// a run of events are those after its arrow-key events alone.
pub proof fn lemma_only_arrow_events_count(presses: Set<u32>, events: Seq<KeyEvent>)
    requires
        presses.subset_of(arrow_keys()),
    ensures
        after_events(presses, Some(arrow_keys()), events) == after_events(
            presses,
            Some(arrow_keys()),
            events.filter(arrow_events()),
        ),
    decreases events.len(),
{
    reveal(Seq::filter);
    if events.len() > 0 {
        let rest = events.drop_last();
        let last = events.last();
        lemma_only_arrow_events_count(presses, rest);
        let kept = rest.filter(arrow_events());
        if names_arrow(last) {
            assert(kept.push(last).drop_last() == kept);
        } else {
            lemma_held_keys_stay_in_mask(presses, arrow_keys(), rest);
            lemma_non_arrow_event_changes_nothing(after_events(presses, Some(arrow_keys()), rest), last);
        }
    }
}

/// Two runs of events that differ only in events that do not press or
/// release an arrow key leave a system with the arrow keys as mask, and only
/// arrow keys held, with the same held keys, so with the same velocity.
pub proof fn lemma_non_arrow_events_do_not_matter(
    presses: Set<u32>,
    events1: Seq<KeyEvent>,
    events2: Seq<KeyEvent>,
)
    requires
        presses.subset_of(arrow_keys()),
        events1.filter(arrow_events()) == events2.filter(arrow_events()),
    ensures
        after_events(presses, Some(arrow_keys()), events1) == after_events(
            presses,
            Some(arrow_keys()),
            events2,
        ),
        velocity_for(after_events(presses, Some(arrow_keys()), events1)) == velocity_for(
            after_events(presses, Some(arrow_keys()), events2),
        ),
{
    lemma_only_arrow_events_count(presses, events1);
    lemma_only_arrow_events_count(presses, events2);
}

/// The velocity along each axis is `-MOVE_SPEED`, `0` or `MOVE_SPEED`: it is
/// set from the held keys alone, so it never goes past the top speed.
pub proof fn lemma_velocity_bounded(presses: Set<u32>)
    ensures
        velocity_for(presses).0 == -MOVE_SPEED || velocity_for(presses).0 == 0 || velocity_for(
            presses,
        ).0 == MOVE_SPEED,
        velocity_for(presses).1 == -MOVE_SPEED || velocity_for(presses).1 == 0 || velocity_for(
            presses,
        ).1 == MOVE_SPEED,
{
}

/// Each axis reads only its own two keys: left alone moves left (x = -5),
/// right alone moves right (x = 5), up alone moves up (y = -5), down alone
/// moves down (y = 5), whatever the keys of the other axis are.
pub proof fn lemma_each_axis_reads_its_own_keys(presses: Set<u32>)
    ensures
        presses.contains(left_code()) && !presses.contains(right_code()) ==> velocity_for(presses).0
            == -5,
        presses.contains(right_code()) && !presses.contains(left_code()) ==> velocity_for(presses).0
            == 5,
        presses.contains(up_code()) && !presses.contains(down_code()) ==> velocity_for(presses).1
            == -5,
        presses.contains(down_code()) && !presses.contains(up_code()) ==> velocity_for(presses).1
            == 5,
{
}

/// Two sets of held keys that agree on left and right give the same x; two
/// that agree on up and down give the same y.
pub proof fn lemma_axes_are_independent(p: Set<u32>, q: Set<u32>)
    ensures
        p.contains(left_code()) == q.contains(left_code()) && p.contains(right_code())
            == q.contains(right_code()) ==> velocity_for(p).0 == velocity_for(q).0,
        p.contains(up_code()) == q.contains(up_code()) && p.contains(down_code()) == q.contains(
            down_code(),
        ) ==> velocity_for(p).1 == velocity_for(q).1,
{
}

/// Opposite arrow keys held together cancel out; with neither held the axis
/// is still.
pub proof fn lemma_opposite_keys_cancel(presses: Set<u32>)
    ensures
        presses.contains(left_code()) == presses.contains(right_code()) ==> velocity_for(presses).0 == 0,
        presses.contains(up_code()) == presses.contains(down_code()) ==> velocity_for(presses).1 == 0,
{
}

/// Keys other than the arrows do not steer.
pub proof fn lemma_other_keys_do_not_steer(presses: Set<u32>, key: u32)
    requires
        key != left_code(),
        key != right_code(),
        key != up_code(),
        key != down_code(),
    ensures
        velocity_for(presses.insert(key)) == velocity_for(presses),
        velocity_for(presses.remove(key)) == velocity_for(presses),
{
}

} // verus!
