//! Logical keys and the set of currently held keys.

use vstd::prelude::*;

verus! {

/// The logical keys the entity reacts to. Any other physical key is
/// ignored by the host before it reaches this crate.
#[derive(Clone, Copy, PartialEq, Eq, Structural, Debug)]
pub enum Key {
    /// Move up on screen.
    W,
    /// Move down on screen.
    S,
    /// Move right on screen.
    A,
    /// Move left on screen.
    D,
    /// Rotate counterclockwise.
    Q,
    /// Rotate clockwise.
    E,
    /// Reset rotation to zero.
    R,
    /// Request termination.
    Escape,
}

/// The set of keys currently held down. Press and release events keep it
/// up to date; an update step only reads it. Both events are idempotent:
/// only current membership is observable, never a count of repeats.
#[derive(Clone, Copy, PartialEq, Eq, Structural, Debug)]
pub struct InputState {
    pub w: bool,
    pub s: bool,
    pub a: bool,
    pub d: bool,
    pub q: bool,
    pub e: bool,
    pub r: bool,
    pub escape: bool,
}

impl InputState {
    /// Whether `k` is currently held.
    pub open spec fn held(self, k: Key) -> bool {
        match k {
            Key::W => self.w,
            Key::S => self.s,
            Key::A => self.a,
            Key::D => self.d,
            Key::Q => self.q,
            Key::E => self.e,
            Key::R => self.r,
            Key::Escape => self.escape,
        }
    }

    /// The held-set with membership of `k` set to `v` and every other key
    /// unchanged.
    pub open spec fn with_key(self, k: Key, v: bool) -> InputState {
        match k {
            Key::W => InputState { w: v, ..self },
            Key::S => InputState { s: v, ..self },
            Key::A => InputState { a: v, ..self },
            Key::D => InputState { d: v, ..self },
            Key::Q => InputState { q: v, ..self },
            Key::E => InputState { e: v, ..self },
            Key::R => InputState { r: v, ..self },
            Key::Escape => InputState { escape: v, ..self },
        }
    }

    /// The empty held-set: no key is down.
    pub fn new() -> (st: InputState)
        ensures
            forall|k: Key| !st.held(k),
    {
        InputState {
            w: false,
            s: false,
            a: false,
            d: false,
            q: false,
            e: false,
            r: false,
            escape: false,
        }
    }

    /// Records that `k` went down. Other keys are untouched.
    pub fn press(&mut self, k: Key)
        ensures
            *final (self) == old(self).with_key(k, true),
            final (self).held(k),
            forall|k2: Key| k2 != k ==> final (self).held(k2) == old(self).held(k2),
    {
        match k {
            Key::W => self.w = true,
            Key::S => self.s = true,
            Key::A => self.a = true,
            Key::D => self.d = true,
            Key::Q => self.q = true,
            Key::E => self.e = true,
            Key::R => self.r = true,
            Key::Escape => self.escape = true,
        }
    }

    /// Records that `k` went up. Other keys are untouched.
    pub fn release(&mut self, k: Key)
        ensures
            *final (self) == old(self).with_key(k, false),
            !final (self).held(k),
            forall|k2: Key| k2 != k ==> final (self).held(k2) == old(self).held(k2),
    {
        match k {
            Key::W => self.w = false,
            Key::S => self.s = false,
            Key::A => self.a = false,
            Key::D => self.d = false,
            Key::Q => self.q = false,
            Key::E => self.e = false,
            Key::R => self.r = false,
            Key::Escape => self.escape = false,
        }
    }

    /// Membership test, usable from unverified callers.
    pub fn is_held(&self, k: Key) -> (b: bool)
        ensures
            b == self.held(k),
    {
        match k {
            Key::W => self.w,
            Key::S => self.s,
            Key::A => self.a,
            Key::D => self.d,
            Key::Q => self.q,
            Key::E => self.e,
            Key::R => self.r,
            Key::Escape => self.escape,
        }
    }
}

} // verus!
