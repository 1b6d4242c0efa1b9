//! The event interface: the held-set, rendering, resizing, and the
//! termination flag.

use centered_triangle::App;
use centered_triangle::Key;
use centered_triangle::InputState;

#[test]
fn press_and_release_track_membership() {
    let mut st = InputState::new();
    assert!(!st.is_held(Key::W));
    st.press(Key::W);
    assert!(st.is_held(Key::W));
    assert!(!st.is_held(Key::S));
    st.release(Key::W);
    assert!(!st.is_held(Key::W));
}

#[test]
fn press_and_release_are_idempotent() {
    let mut st = InputState::new();
    st.press(Key::Q);
    st.press(Key::Q);
    st.release(Key::Q);
    assert!(!st.is_held(Key::Q));
    st.release(Key::Q);
    assert!(!st.is_held(Key::Q));
}

#[test]
fn app_update_moves_under_held_keys() {
    let mut app = App::new(500_000, 350_000);
    app.handle_key_press(Key::S);
    app.update(1_000);
    assert_eq!(app.player.position_y, 150_000);
    app.handle_key_release(Key::S);
    app.update(1_000);
    assert_eq!(app.player.position_y, 150_000);
}

#[test]
fn frame_draws_fixed_triangle_and_colors() {
    let app = App::new(500_000, 350_000);
    let f = app.render();
    // Opaque green background, opaque red triangle.
    assert_eq!(
        (f.clear.red, f.clear.green, f.clear.blue, f.clear.alpha),
        (0, 255, 0, 255)
    );
    assert_eq!(
        (f.fill.red, f.fill.green, f.fill.blue, f.fill.alpha),
        (255, 0, 0, 255)
    );
    // The fixed 25-unit triangle, apex up.
    assert_eq!((f.apex.x, f.apex.y), (0, -25_000));
    assert_eq!((f.base_left.x, f.base_left.y), (-25_000, 25_000));
    assert_eq!((f.base_right.x, f.base_right.y), (25_000, 25_000));
}

#[test]
fn frame_centers_on_window_offset_by_position() {
    let mut app = App::new(500_000, 350_000);
    let f = app.render();
    assert_eq!(f.translate_x, 250_000);
    assert_eq!(f.translate_y, 175_000);
    assert_eq!(f.rotation, 0);
    app.handle_key_press(Key::A);
    app.handle_key_press(Key::E);
    app.update(100);
    let f2 = app.render();
    assert_eq!(f2.translate_x, 270_000);
    assert_eq!(f2.translate_y, 175_000);
    assert_eq!(f2.rotation, 10_000);
}

#[test]
fn resize_recenters_next_frame_without_moving_entity() {
    let mut app = App::new(500_000, 350_000);
    app.handle_key_press(Key::A);
    app.update(100);
    app.handle_key_release(Key::A);
    assert_eq!(app.player.position_x, 20_000);
    app.resize(800_000, 600_000);
    // The entity did not move...
    assert_eq!(app.player.position_x, 20_000);
    assert_eq!(app.player.position_y, 0);
    // ...but the next frame centers on the new bounds.
    let f = app.render();
    assert_eq!(f.translate_x, 420_000);
    assert_eq!(f.translate_y, 300_000);
    // And the new bounds clamp from now on.
    app.handle_key_press(Key::A);
    app.update(10_000);
    assert_eq!(app.player.position_x, 375_000);
}

#[test]
fn quit_key_latches_exit() {
    let mut app = App::new(500_000, 350_000);
    assert!(!app.should_exit());
    app.handle_key_press(Key::Escape);
    // The flag is set during an update step, not by the press itself.
    assert!(!app.should_exit());
    app.update(1);
    assert!(app.should_exit());
    // Releasing the key and updating again does not clear it.
    app.handle_key_release(Key::Escape);
    app.update(1);
    assert!(app.should_exit());
}

#[test]
fn movement_keys_do_not_set_exit() {
    let mut app = App::new(500_000, 350_000);
    app.handle_key_press(Key::W);
    app.handle_key_press(Key::R);
    app.update(100);
    assert!(!app.should_exit());
}
