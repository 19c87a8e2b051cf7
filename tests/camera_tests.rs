use raytracer::camera::{Camera, Step, FULL_TURN, PITCH_LIMIT};
use raytracer::controls::{Action, Key, KeyInput};

fn press(k: Key) -> KeyInput {
    KeyInput { key: Some(k), pressed: true }
}

fn release(k: Key) -> KeyInput {
    KeyInput { key: Some(k), pressed: false }
}

#[test]
fn update_with_zero_time_changes_nothing() {
    let mut c = Camera::new();
    c.handle_input(&press(Key::W));
    c.handle_input(&press(Key::Right));
    c.handle_input(&press(Key::Up));
    assert_eq!(c.update(0), None);
    assert_eq!(c.yaw(), 0);
    assert_eq!(c.pitch(), 0);
}

#[test]
fn update_with_nothing_held_changes_nothing() {
    let mut c = Camera::new();
    assert_eq!(c.update(1_000_000), None);
    assert_eq!(c.yaw(), 0);
    assert_eq!(c.pitch(), 0);
}

#[test]
fn forward_for_one_second_moves_five_units() {
    let mut c = Camera::new();
    c.handle_input(&press(Key::W));
    let step = c.update(1_000_000);
    assert_eq!(step, Some(Step { x: 0, y: 0, z: 1, distance: 5_000_000 }));
    assert_eq!(c.yaw(), 0);
    assert_eq!(c.pitch(), 0);
}

#[test]
fn boosted_forward_for_one_second_moves_twenty_units() {
    let mut c = Camera::new();
    c.handle_input(&press(Key::W));
    c.handle_input(&press(Key::LShift));
    assert!(c.boost());
    let step = c.update(1_000_000);
    assert_eq!(step, Some(Step { x: 0, y: 0, z: 1, distance: 20_000_000 }));
    c.handle_input(&release(Key::LShift));
    assert!(!c.boost());
    assert_eq!(c.update(500_000), Some(Step { x: 0, y: 0, z: 1, distance: 2_500_000 }));
}

#[test]
fn release_forward_leaves_left_in_either_order() {
    for order in [[Key::W, Key::A], [Key::A, Key::W]] {
        let mut c = Camera::new();
        c.handle_input(&press(order[0]));
        c.handle_input(&press(order[1]));
        c.handle_input(&release(Key::W));
        assert!(c.is_held(Action::Left));
        assert!(!c.is_held(Action::Forward));
        for a in [
            Action::Backward, Action::Right, Action::Up, Action::Down,
            Action::LookLeft, Action::LookRight, Action::LookUp, Action::LookDown,
        ] {
            assert!(!c.is_held(a));
        }
        assert_eq!(c.update(1_000_000), Some(Step { x: -1, y: 0, z: 0, distance: 5_000_000 }));
    }
}

#[test]
fn turning_left_wraps_yaw_into_one_turn() {
    let mut c = Camera::new();
    c.handle_input(&press(Key::Left));
    assert_eq!(c.update(1_000_000), None);
    assert_eq!(c.yaw(), 300_000_000);
    assert_eq!(c.update(6_500_000), None);
    assert_eq!(c.yaw(), 270_000_000);
}

#[test]
fn turning_right_wraps_past_a_full_turn() {
    let mut c = Camera::new();
    c.handle_input(&press(Key::Right));
    c.update(7_000_000);
    assert_eq!(c.yaw(), 60_000_000);
}

#[test]
fn tilting_clamps_pitch() {
    let mut c = Camera::new();
    c.handle_input(&press(Key::Up));
    c.update(2_000_000);
    assert_eq!(c.pitch(), PITCH_LIMIT);
    c.handle_input(&release(Key::Up));
    c.handle_input(&press(Key::Down));
    c.update(1_000_000);
    assert_eq!(c.pitch(), 30_000_000);
    c.update(u64::MAX);
    assert_eq!(c.pitch(), -PITCH_LIMIT);
}

#[test]
fn angles_stay_in_range_over_many_updates() {
    let mut c = Camera::new();
    let keys = [Key::Left, Key::Up, Key::Right, Key::Down];
    for i in 0..200u64 {
        let k = keys[(i % 4) as usize];
        c.handle_input(&KeyInput { key: Some(k), pressed: i % 3 != 0 });
        c.update(i * 123_457 + 17);
        assert!(c.yaw() >= 0 && c.yaw() < FULL_TURN);
        assert!(c.pitch() >= -PITCH_LIMIT && c.pitch() <= PITCH_LIMIT);
    }
}

#[test]
fn opposite_keys_cancel() {
    let mut c = Camera::new();
    c.handle_input(&press(Key::W));
    c.handle_input(&press(Key::S));
    c.handle_input(&press(Key::Left));
    c.handle_input(&press(Key::Right));
    assert_eq!(c.update(1_000_000), None);
    assert_eq!(c.yaw(), 0);
}

#[test]
fn diagonal_and_vertical_steps() {
    let mut c = Camera::new();
    c.handle_input(&press(Key::W));
    c.handle_input(&press(Key::D));
    c.handle_input(&press(Key::Z));
    assert_eq!(c.update(2_000_000), Some(Step { x: 1, y: -1, z: 1, distance: 10_000_000 }));
    c.handle_input(&release(Key::Z));
    c.handle_input(&press(Key::Q));
    assert_eq!(c.update(1), Some(Step { x: 1, y: 1, z: 1, distance: 5 }));
}

#[test]
fn unknown_keys_are_ignored() {
    let mut c = Camera::new();
    c.handle_input(&press(Key::Other));
    c.handle_input(&KeyInput { key: None, pressed: true });
    assert_eq!(c.update(1_000_000), None);
    assert!(!c.boost());
}

#[test]
fn largest_time_step_does_not_overflow() {
    let mut c = Camera::new();
    c.handle_input(&press(Key::LShift));
    c.handle_input(&press(Key::S));
    c.handle_input(&press(Key::Right));
    let step = c.update(u64::MAX);
    assert_eq!(step, Some(Step { x: 0, y: 0, z: -1, distance: 20 * (u64::MAX as u128) }));
    assert_eq!(c.yaw(), ((u64::MAX as u128 * 60) % 360_000_000) as i64);
}
