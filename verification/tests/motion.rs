//! Motion-step behavior: exact moves, clamping, and rotation.
//!
//! Lengths are thousandths of a unit, angles thousandths of a degree,
//! time steps milliseconds. The default speed is 200 units per second, so
//! a step of `dt` milliseconds moves by `200 * dt` thousandths of a unit.

use centered_triangle::InputState;
use centered_triangle::Key;
use centered_triangle::Player;

fn held(keys: &[Key]) -> InputState {
    let mut st = InputState::new();
    for k in keys {
        st.press(*k);
    }
    st
}

#[test]
fn single_key_moves_exactly_each_direction() {
    // A huge window, so no clamp binds: 100 ms at 200 units/s moves by
    // exactly 20 units = 20_000 thousandths, on one axis, signed.
    let cases = [
        (Key::W, 0, -20_000),
        (Key::S, 0, 20_000),
        (Key::A, 20_000, 0),
        (Key::D, -20_000, 0),
    ];
    for (key, expect_x, expect_y) in cases {
        let mut p = Player::new(1_000_000_000, 1_000_000_000);
        p.update(&held(&[key]), 100);
        assert_eq!(p.position_x, expect_x);
        assert_eq!(p.position_y, expect_y);
        assert_eq!(p.rotation, 0);
    }
}

#[test]
fn zero_dt_changes_nothing() {
    let mut p = Player::new(500_000, 350_000);
    p.update(&held(&[Key::S, Key::A, Key::E]), 0);
    assert_eq!(p.position_x, 0);
    assert_eq!(p.position_y, 0);
    assert_eq!(p.rotation, 0);
}

#[test]
fn no_key_changes_nothing() {
    let mut p = Player::new(500_000, 350_000);
    p.update(&InputState::new(), 1_000);
    assert_eq!(p.position_x, 0);
    assert_eq!(p.position_y, 0);
    assert_eq!(p.rotation, 0);
}

#[test]
fn down_key_clamps_at_bottom_inset() {
    // Window bound (500, 350) units, entity at the origin, "down" held for
    // one second at 200 units/s: the attempted 200-unit move clamps at
    // 350/2 - 25 = 150 units below center.
    let mut p = Player::new(500_000, 350_000);
    let keys = held(&[Key::S]);
    p.update(&keys, 1_000);
    assert_eq!(p.position_y, 150_000);
    assert_eq!(p.position_x, 0);
    // A further second against the clamp stays put.
    p.update(&keys, 1_000);
    assert_eq!(p.position_y, 150_000);
}

#[test]
fn every_direction_clamps_at_its_inset() {
    let keys_and_expect = [
        (Key::W, 0, -150_000),
        (Key::S, 0, 150_000),
        (Key::A, 225_000, 0),
        (Key::D, -225_000, 0),
    ];
    for (key, expect_x, expect_y) in keys_and_expect {
        let mut p = Player::new(500_000, 350_000);
        // 10 s at 200 units/s tries 2000 units, far past every clamp.
        p.update(&held(&[key]), 10_000);
        assert_eq!(p.position_x, expect_x);
        assert_eq!(p.position_y, expect_y);
    }
}

#[test]
fn smallest_window_pins_to_center() {
    // A bound of exactly 50 units leaves the clamp interval at the single
    // point 0: the entity cannot leave the center.
    let mut p = Player::new(50_000, 50_000);
    p.update(&held(&[Key::S]), 5_000);
    assert_eq!(p.position_y, 0);
    p.update(&held(&[Key::A]), 5_000);
    assert_eq!(p.position_x, 0);
}

#[test]
fn opposing_keys_clamp_in_sequence() {
    // Both vertical keys held with a move amount past both clamps: the
    // upward key clamps at the top inset first, then the downward key
    // carries the position to the bottom inset. The step is two one-sided
    // clamps in order, not a cancellation.
    let mut p = Player::new(100_000, 100_000);
    p.update(&held(&[Key::W, Key::S]), 1_000);
    assert_eq!(p.position_y, 25_000);
}

#[test]
fn rotation_keys_turn_at_fixed_rate() {
    // 100 degrees per second: a quarter second turns 25 degrees.
    let mut p = Player::new(500_000, 350_000);
    p.update(&held(&[Key::E]), 250);
    assert_eq!(p.rotation, 25_000);
    p.update(&held(&[Key::Q]), 750);
    assert_eq!(p.rotation, -50_000);
    assert_eq!(p.position_x, 0);
    assert_eq!(p.position_y, 0);
}

#[test]
fn both_rotation_keys_cancel() {
    let mut p = Player::new(500_000, 350_000);
    p.update(&held(&[Key::E]), 100);
    let before = p.rotation;
    p.update(&held(&[Key::Q, Key::E]), 5_000);
    assert_eq!(p.rotation, before);
}

#[test]
fn reset_key_zeroes_rotation() {
    let mut p = Player::new(500_000, 350_000);
    p.update(&held(&[Key::E]), 500);
    assert_eq!(p.rotation, 50_000);
    p.update(&held(&[Key::R]), 123);
    assert_eq!(p.rotation, 0);
}

#[test]
fn reset_key_wins_over_rotation_keys() {
    // Reset and both rotation keys held the same step: the reset wins,
    // whatever turn was attempted that frame.
    let mut p = Player::new(500_000, 350_000);
    p.update(&held(&[Key::Q]), 500);
    assert_eq!(p.rotation, -50_000);
    p.update(&held(&[Key::R, Key::E, Key::Q]), 777);
    assert_eq!(p.rotation, 0);
}

#[test]
fn rotation_saturates_at_the_ends() {
    let mut p = Player::new(500_000, 350_000);
    p.rotation = i64::MAX - 10;
    p.update(&held(&[Key::E]), 10);
    assert_eq!(p.rotation, i64::MAX);
    p.rotation = i64::MIN + 10;
    p.update(&held(&[Key::Q]), 10);
    assert_eq!(p.rotation, i64::MIN);
}

#[test]
fn new_player_starts_centered_at_default_speed() {
    let p = Player::new(500_000, 350_000);
    assert_eq!(p.position_x, 0);
    assert_eq!(p.position_y, 0);
    assert_eq!(p.rotation, 0);
    assert_eq!(p.speed, 200);
    assert_eq!(p.bound_w, 500_000);
    assert_eq!(p.bound_h, 350_000);
}

#[test]
fn resize_does_not_reclamp() {
    // Drive the entity to the bottom inset of a large window, then shrink
    // the window: the position stays where it was, outside the new clamp
    // interval, until a movement key next applies its clamp.
    let mut p = Player::new(500_000, 350_000);
    p.update(&held(&[Key::S]), 1_000);
    assert_eq!(p.position_y, 150_000);
    p.resize(100_000, 100_000);
    assert_eq!(p.position_y, 150_000);
    p.update(&held(&[Key::S]), 1);
    assert_eq!(p.position_y, 25_000);
}
