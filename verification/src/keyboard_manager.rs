//! Keyboard state: which keys are held, and which went down or up with
//! their latest event.
use vstd::prelude::*;

verus! {

/// Number of key codes the state has room for.
pub const KEYCODE_COUNT: usize = 512;

pub struct KeyboardMgr {
    /// The key is held.
    pub key_pressed: [bool; 512],
    /// The latest event of the key was a press while it was not held.
    pub key_down: [bool; 512],
    /// The latest event of the key was a release while it was held.
    pub key_up: [bool; 512],
}

impl KeyboardMgr {
    /// A keyboard with no key held.
    pub fn new() -> (mgr: KeyboardMgr)
        ensures
            forall|k: int|
                0 <= k < KEYCODE_COUNT ==> !(#[trigger] mgr.key_pressed@[k]) && !mgr.key_down@[k]
                    && !mgr.key_up@[k],
    {
        let key_pressed = [false;512];
        let key_down = [false;512];
        let key_up = [false;512];
        KeyboardMgr { key_pressed, key_down, key_up }
    }

    /// Records a press (`is_pressed`) or a release of `key`: the key goes
    /// down where it was not held and is pressed, up where it was held and is
    /// released. No other key changes.
    pub fn update_key_state(&mut self, key: usize, is_pressed: bool)
        requires
            key < KEYCODE_COUNT,
        ensures
            final(self).key_pressed@ == old(self).key_pressed@.update(key as int, is_pressed),
            final(self).key_down@ == old(self).key_down@.update(
                key as int,
                !old(self).key_pressed@[key as int] && is_pressed,
            ),
            final(self).key_up@ == old(self).key_up@.update(
                key as int,
                old(self).key_pressed@[key as int] && !is_pressed,
            ),
    {
        let pressed_prev_frame = self.key_pressed[key];
        let mut is_down = false;
        let mut is_up = false;
        if !pressed_prev_frame && is_pressed {
            is_down = true;
        } else if pressed_prev_frame && !is_pressed {
            is_up = true;
        }
        self.key_pressed[key] = is_pressed;
        self.key_down[key] = is_down;
        self.key_up[key] = is_up;
    }

    /// Records the event if `key` is a key code the state has room for, and
    /// says whether it was.
    pub fn input(&mut self, key: usize, is_pressed: bool) -> (known: bool)
        ensures
            known == (key < KEYCODE_COUNT),
            known ==> {
                &&& final(self).key_pressed@ == old(self).key_pressed@.update(
                    key as int,
                    is_pressed,
                )
                &&& final(self).key_down@ == old(self).key_down@.update(
                    key as int,
                    !old(self).key_pressed@[key as int] && is_pressed,
                )
                &&& final(self).key_up@ == old(self).key_up@.update(
                    key as int,
                    old(self).key_pressed@[key as int] && !is_pressed,
                )
            },
            !known ==> *final(self) == *old(self),
    {
        if key < KEYCODE_COUNT {
            self.update_key_state(key, is_pressed);
            true
        } else {
            false
        }
    }
}

} // verus!
