use std::collections::HashSet;
use vstd::prelude::*;

use crate::keys::{
    after_event, after_events, after_press, after_release, arrow_key_codes, arrow_keys, down_code,
    left_code, right_code, up_code, velocity_for, KeyEvent, MOVE_SPEED,
};

verus! {

broadcast use vstd::std_specs::hash::group_hash_axioms;

/// Keeps track of the keys we care about that are held down right now, so
/// that movement follows the held keys rather than individual button events
/// (which makes for choppy motion).
pub struct KeyPressRegistration {
    /// The keys held right now: a key is registered when it goes down and
    /// removed when it comes up.
    presses: HashSet<u32>,
    /// The keys that may be registered at all; `None` lets every key through.
    key_mask: Option<HashSet<u32>>,
}

impl KeyPressRegistration {
    /// The keys held down right now.
    pub closed spec fn held(&self) -> Set<u32> {
        self.presses@
    }

    /// The keys that may be registered (`None`: all of them).
    pub closed spec fn mask(&self) -> Option<Set<u32>> {
        match self.key_mask {
            Some(m) => Some(m@),
            None => None,
        }
    }

    /// No key held, no mask.
    pub fn new() -> (r: KeyPressRegistration)
        ensures
            r.held() == Set::<u32>::empty(),
            r.mask() == None::<Set<u32>>,
    {
        KeyPressRegistration { presses: HashSet::new(), key_mask: None }
    }

    /// Sets the group of keys we care about registering: a key outside
    /// `allowed_keys` will not be registered by `register_key_press`.
    pub fn with_key_mask(self, allowed_keys: Vec<u32>) -> (r: KeyPressRegistration)
        ensures
            r.held() == self.held(),
            r.mask() == Some(allowed_keys@.to_set()),
    {
        let mut key_mask: HashSet<u32> = HashSet::new();
        let mut i: usize = 0;
        while i < allowed_keys.len()
            invariant
                0 <= i <= allowed_keys.len(),
                key_mask@ == allowed_keys@.take(i as int).to_set(),
            decreases allowed_keys.len() - i,
        {
            proof {
                assert(allowed_keys@.take(i as int + 1) == allowed_keys@.take(i as int).push(
                    allowed_keys@[i as int],
                ));
                allowed_keys@.take(i as int).lemma_push_to_set_commute(allowed_keys@[i as int]);
            }
            key_mask.insert(allowed_keys[i]);
            i = i + 1;
        }
        proof {
            assert(allowed_keys@.take(allowed_keys@.len() as int) == allowed_keys@);
        }
        let mut r = self;
        r.key_mask = Some(key_mask);
        r
    }

    /// Registers `key` as held, unless a mask is set that leaves it out.
    pub fn register_key_press(&mut self, key: u32)
        ensures
            final(self).held() == after_press(old(self).held(), old(self).mask(), key),
            final(self).mask() == old(self).mask(),
            old(self).mask() matches Some(allowed) ==> (old(self).held().subset_of(allowed)
                ==> final(self).held().subset_of(allowed)),
    {
        let allowed = match &self.key_mask {
            Some(allowed) => allowed.contains(&key),
            None => true,
        };
        if allowed {
            self.presses.insert(key);
        }
    }

    /// Removes `key` from the held keys.
    pub fn deregister_key(&mut self, key: u32)
        ensures
            final(self).held() == after_release(old(self).held(), key),
            final(self).mask() == old(self).mask(),
            old(self).mask() matches Some(allowed) ==> (old(self).held().subset_of(allowed)
                ==> final(self).held().subset_of(allowed)),
    {
        self.presses.remove(&key);
    }

    /// The keys held down right now.
    pub fn current_presses(&self) -> (r: &HashSet<u32>)
        ensures
            r@ == self.held(),
    {
        &self.presses
    }
}

/// Turns held arrow keys into the velocity of the controllable entities.
pub struct ButtonSystem {
    current_press: KeyPressRegistration,
}

impl ButtonSystem {
    /// The keys held down right now.
    pub closed spec fn held(&self) -> Set<u32> {
        self.current_press.held()
    }

    /// The keys this system registers at all.
    pub closed spec fn mask(&self) -> Option<Set<u32>> {
        self.current_press.mask()
    }

    /// Registers only the arrow keys, and holds only arrow keys.
    #[verifier::type_invariant]
    closed spec fn tracks_arrows(self) -> bool {
        &&& self.current_press.mask() == Some(arrow_keys())
        &&& self.current_press.held().subset_of(arrow_keys())
    }

    /// A registration for the four arrow keys, none of them held.
    fn arrow_registration() -> (r: KeyPressRegistration)
        ensures
            r.held() == Set::<u32>::empty(),
            r.mask() == Some(arrow_keys()),
    {
        let (left, right, up, down) = arrow_key_codes();
        let mask = vec![up, down, left, right];
        let registration = KeyPressRegistration::new().with_key_mask(mask);
        proof {
            let order = seq![up, down, left, right];
            assert(mask@ == order);
            assert(order.to_set() =~= arrow_keys()) by {
                assert(order[0] == up && order[1] == down && order[2] == left && order[3] == right);
            }
        }
        registration
    }

    /// A system that registers only the four arrow keys, none of them held.
    pub fn new() -> (r: ButtonSystem)
        ensures
            r.held() == Set::<u32>::empty(),
            r.mask() == Some(arrow_keys()),
    {
        ButtonSystem { current_press: Self::arrow_registration() }
    }

    /// The keys held down right now. Whatever happened before, they are arrow
    /// keys, and the arrow keys are the only ones the system registers.
    pub fn held_keys(&self) -> (r: &HashSet<u32>)
        ensures
            r@ == self.held(),
            self.held().subset_of(arrow_keys()),
            self.mask() == Some(arrow_keys()),
    {
        proof {
            use_type_invariant(self);
        }
        self.current_press.current_presses()
    }

    /// Registers a key going down, removes a key coming up, ignores the rest.
    pub fn handle_event(&mut self, event: KeyEvent)
        ensures
            final(self).held() == after_event(old(self).held(), old(self).mask(), event),
            final(self).mask() == old(self).mask(),
    {
        proof {
            use_type_invariant(&*self);
        }
        if let KeyEvent::Other = event {
            return;
        }
        // Take the registration out, leaving an idle one in its place, so that
        // the system is well formed at every step.
        let mut registration = Self::arrow_registration();
        std::mem::swap(&mut registration, &mut self.current_press);
        match event {
            KeyEvent::Press(key) => registration.register_key_press(key),
            KeyEvent::Release(key) => registration.deregister_key(key),
            KeyEvent::Other => {},
        }
        self.current_press = registration;
    }

    /// The velocity `(x, y)` that the held keys ask for. It is set afresh
    /// from the held keys, so movement goes at most at `MOVE_SPEED` along an
    /// axis and never accelerates.
    pub fn velocity(&self) -> (v: (i32, i32))
        ensures
            (v.0 as int, v.1 as int) == velocity_for(self.held()),
            // Left/right steer x alone, up/down steer y alone.
            self.held().contains(left_code()) && !self.held().contains(right_code()) ==> v.0 == -5,
            self.held().contains(right_code()) && !self.held().contains(left_code()) ==> v.0 == 5,
            self.held().contains(left_code()) == self.held().contains(right_code()) ==> v.0 == 0,
            self.held().contains(up_code()) && !self.held().contains(down_code()) ==> v.1 == -5,
            self.held().contains(down_code()) && !self.held().contains(up_code()) ==> v.1 == 5,
            self.held().contains(up_code()) == self.held().contains(down_code()) ==> v.1 == 0,
    {
        let (left_key, right_key, up_key, down_key) = arrow_key_codes();
        let presses = self.current_press.current_presses();
        let left = presses.contains(&left_key);
        let right = presses.contains(&right_key);
        let up = presses.contains(&up_key);
        let down = presses.contains(&down_key);

        let mut x: i32 = 0;
        if left {
            x += -MOVE_SPEED;
        }
        if right {
            x += MOVE_SPEED;
        }
        if !left && !right {
            x = 0;
        }

        let mut y: i32 = 0;
        if up {
            y += -MOVE_SPEED;
        }
        if down {
            y += MOVE_SPEED;
        }
        if !up && !down {
            y = 0;
        }
        (x, y)
    }

    /// Takes in this frame's events, in order, then gives the velocity for
    /// every controllable entity.
    pub fn run(&mut self, events: &Vec<KeyEvent>) -> (v: (i32, i32))
        ensures
            final(self).held() == after_events(old(self).held(), old(self).mask(), events@),
            final(self).mask() == old(self).mask(),
            (v.0 as int, v.1 as int) == velocity_for(final(self).held()),
            final(self).held().contains(left_code()) && !final(self).held().contains(right_code())
                ==> v.0 == -5,
            final(self).held().contains(right_code()) && !final(self).held().contains(left_code())
                ==> v.0 == 5,
            final(self).held().contains(left_code()) == final(self).held().contains(right_code())
                ==> v.0 == 0,
            final(self).held().contains(up_code()) && !final(self).held().contains(down_code())
                ==> v.1 == -5,
            final(self).held().contains(down_code()) && !final(self).held().contains(up_code())
                ==> v.1 == 5,
            final(self).held().contains(up_code()) == final(self).held().contains(down_code())
                ==> v.1 == 0,
    {
        let mut i: usize = 0;
        while i < events.len()
            invariant
                0 <= i <= events.len(),
                self.mask() == old(self).mask(),
                self.held() == after_events(old(self).held(), old(self).mask(), events@.take(i as int)),
            decreases events.len() - i,
        {
            proof {
                assert(events@.take(i as int + 1).drop_last() == events@.take(i as int));
            }
            self.handle_event(events[i]);
            i = i + 1;
        }
        proof {
            assert(events@.take(events@.len() as int) == events@);
        }
        self.velocity()
    }
}

} // verus!
