//! The per-frame event interface: one state object whose methods the host
//! event loop calls for each render, update, key, and resize event.
//!
//! The whole system has two states: running, and terminated once the quit
//! key is observed during an update step (or the host decides to stop on
//! its own). The `exit` flag only ever goes from `false` to `true`; the
//! host loop consults it before dispatching further events.

use vstd::prelude::*;

use crate::keys::InputState;
use crate::keys::Key;
use crate::player::frame_spec;
use crate::player::player_after;
use crate::player::Player;
use crate::player::MAX_BOUND;
use crate::render::Frame;
use crate::MAX_DT;

verus! {

/// The full state the host loop drives: the entity, the cached window
/// size, the held-set, and the termination flag.
#[derive(Clone, Copy, PartialEq, Eq, Structural, Debug)]
pub struct App {
    /// Cached window width, thousandths of a unit.
    pub window_w: u64,
    /// Cached window height, thousandths of a unit.
    pub window_h: u64,
    /// The moving entity.
    pub player: Player,
    /// The keys currently held down.
    pub pressed_keys: InputState,
    /// Set once the quit key is observed during an update step; never
    /// cleared.
    pub exit: bool,
}

impl App {
    /// Well-formedness: the entity is well-formed and clamps against the
    /// same bounds the renderer centers on.
    pub open spec fn wf(self) -> bool {
        &&& self.player.wf()
        &&& self.player.bound_w == self.window_w
        &&& self.player.bound_h == self.window_h
    }

    /// The state after one update step: the entity moves under the held
    /// keys, and the quit key latches the termination flag.
    pub open spec fn update_spec(self, dt: int) -> App {
        App {
            player: player_after(self.player, self.pressed_keys, dt),
            exit: self.exit || self.pressed_keys.held(Key::Escape),
            ..self
        }
    }

    /// The state after a key-press event.
    pub open spec fn press_spec(self, k: Key) -> App {
        App { pressed_keys: self.pressed_keys.with_key(k, true), ..self }
    }

    /// The state after a key-release event.
    pub open spec fn release_spec(self, k: Key) -> App {
        App { pressed_keys: self.pressed_keys.with_key(k, false), ..self }
    }

    /// The state after a resize event: both the render center and the
    /// clamp bounds are replaced; nothing else — in particular not the
    /// entity's position — changes.
    pub open spec fn resize_spec(self, w: u64, h: u64) -> App {
        App {
            window_w: w,
            window_h: h,
            player: Player { bound_w: w, bound_h: h, ..self.player },
            ..self
        }
    }

    /// A fresh state for a window of the given size: entity at the center,
    /// no key held, running.
    pub fn new(window_w: u64, window_h: u64) -> (app: App)
        requires
            window_w <= MAX_BOUND,
            window_h <= MAX_BOUND,
        ensures
            app.wf(),
            app.window_w == window_w,
            app.window_h == window_h,
            app.player == Player::new_spec(window_w, window_h),
            forall|k: Key| !app.pressed_keys.held(k),
            !app.exit,
    {
        App {
            window_w,
            window_h,
            player: Player::new(window_w, window_h),
            pressed_keys: InputState::new(),
            exit: false,
        }
    }

    /// One update step of `dt` milliseconds: moves the entity under the
    /// currently held keys and latches the termination flag if the quit
    /// key is among them.
    pub fn update(&mut self, dt: u64)
        requires
            old(self).wf(),
            dt <= MAX_DT,
        ensures
            final (self).wf(),
            *final (self) == old(self).update_spec(dt as int),
            final (self).exit == (old(self).exit || old(self).pressed_keys.held(Key::Escape)),
            old(self).pressed_keys.held(Key::R) ==> final (self).player.rotation == 0,
    {
        let keys = self.pressed_keys;
        self.player.update(&keys, dt);
        if keys.is_held(Key::Escape) {
            self.exit = true;
        }
    }

    /// The frame that draws the current state: computed from the entity
    /// and the cached window size alone.
    pub fn render(&self) -> (f: Frame)
        requires
            self.wf(),
        ensures
            f == frame_spec(self.player, self.window_w, self.window_h),
    {
        self.player.render(self.window_w, self.window_h)
    }

    /// Records a key press.
    pub fn handle_key_press(&mut self, key: Key)
        ensures
            *final (self) == old(self).press_spec(key),
            final (self).pressed_keys.held(key),
            forall|k2: Key|
                k2 != key ==> final (self).pressed_keys.held(k2) == old(self).pressed_keys.held(
                    k2,
                ),
            old(self).wf() ==> final (self).wf(),
    {
        self.pressed_keys.press(key);
    }

    /// Records a key release.
    pub fn handle_key_release(&mut self, key: Key)
        ensures
            *final (self) == old(self).release_spec(key),
            !final (self).pressed_keys.held(key),
            forall|k2: Key|
                k2 != key ==> final (self).pressed_keys.held(k2) == old(self).pressed_keys.held(
                    k2,
                ),
            old(self).wf() ==> final (self).wf(),
    {
        self.pressed_keys.release(key);
    }

    /// Replaces the cached window size and the entity's clamp bounds.
    pub fn resize(&mut self, new_w: u64, new_h: u64)
        requires
            old(self).wf(),
            new_w <= MAX_BOUND,
            new_h <= MAX_BOUND,
        ensures
            final (self).wf(),
            *final (self) == old(self).resize_spec(new_w, new_h),
            final (self).player.position_x == old(self).player.position_x,
            final (self).player.position_y == old(self).player.position_y,
            final (self).player.rotation == old(self).player.rotation,
    {
        self.window_w = new_w;
        self.window_h = new_h;
        self.player.resize(new_w, new_h);
    }

    /// Whether the quit key has been observed: the host loop stops
    /// dispatching events once this is true.
    pub fn should_exit(&self) -> (b: bool)
        ensures
            b == self.exit,
    {
        self.exit
    }
}

/// A resize changes only the cached bounds: the entity does not move or
/// turn, and the frame rendered next centers on the new bounds, offset by
/// the unchanged position.
pub proof fn lemma_resize_then_render(a: App, w: u64, h: u64)
    requires
        a.wf(),
        w <= MAX_BOUND,
        h <= MAX_BOUND,
    ensures
        a.resize_spec(w, h).player.position_x == a.player.position_x,
        a.resize_spec(w, h).player.position_y == a.player.position_y,
        a.resize_spec(w, h).player.rotation == a.player.rotation,
        frame_spec(a.resize_spec(w, h).player, w, h).translate_x == w as int / 2
            + a.player.position_x,
        frame_spec(a.resize_spec(w, h).player, w, h).translate_y == h as int / 2
            + a.player.position_y,
{
}

/// Termination latches: an update step with the quit key held sets the
/// exit flag, and no event — update, press, release, or resize — ever
/// clears it once set. (Rendering takes the state immutably and cannot
/// change it at all.)
pub proof fn lemma_exit_latches(a: App, dt: int, k: Key, w: u64, h: u64)
    ensures
        a.update_spec(dt).exit == (a.exit || a.pressed_keys.held(Key::Escape)),
        a.exit ==> a.update_spec(dt).exit,
        a.press_spec(k).exit == a.exit,
        a.release_spec(k).exit == a.exit,
        a.resize_spec(w, h).exit == a.exit,
{
}

} // verus!
