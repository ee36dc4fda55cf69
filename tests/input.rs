use arena_repro::input::{keyboard_movement, Direction, HeldKeys, KeyEvent, KeyState, Velocity, SPEED};

fn press(key: Direction) -> KeyEvent {
    KeyEvent { key, state: KeyState::Pressed }
}

fn release(key: Direction) -> KeyEvent {
    KeyEvent { key, state: KeyState::Released }
}

const ALL: [Direction; 4] = [Direction::Up, Direction::Down, Direction::Left, Direction::Right];

#[test]
fn every_subset_sums_its_contributions() {
    for mask in 0u32..16 {
        let mut held = HeldKeys::new();
        let mut x = 0;
        let mut y = 0;
        for (bit, d) in ALL.iter().enumerate() {
            if mask & (1 << bit) != 0 {
                held.press(*d);
                match d {
                    Direction::Up => y += 200,
                    Direction::Down => y -= 200,
                    Direction::Right => x += 200,
                    Direction::Left => x -= 200,
                }
            }
        }
        assert_eq!(held.velocity(), Velocity { x, y, z: 0 }, "mask {mask}");
    }
}

#[test]
fn opposite_keys_cancel() {
    let mut held = HeldKeys::new();
    held.press(Direction::Up);
    held.press(Direction::Down);
    assert_eq!(held.velocity(), Velocity { x: 0, y: 0, z: 0 });
    held.press(Direction::Left);
    held.press(Direction::Right);
    assert_eq!(held.velocity(), Velocity { x: 0, y: 0, z: 0 });
    held.release(Direction::Down);
    assert_eq!(held.velocity(), Velocity { x: 0, y: SPEED, z: 0 });
}

#[test]
fn no_keys_no_motion() {
    let held = HeldKeys::new();
    assert_eq!(held.velocity(), Velocity { x: 0, y: 0, z: 0 });
    for d in ALL {
        assert!(!held.contains(d));
    }
}

#[test]
fn press_then_release_clears_the_key() {
    for d in ALL {
        let mut held = HeldKeys::new();
        held.press(Direction::Up);
        let before = held;
        let v = keyboard_movement(&mut held, &vec![press(d), release(d)]);
        assert!(!held.contains(d));
        if d != Direction::Up {
            assert_eq!(held, before);
            assert_eq!(v, Velocity { x: 0, y: 200, z: 0 });
        } else {
            assert_eq!(v, Velocity { x: 0, y: 0, z: 0 });
        }
    }
}

#[test]
fn release_of_unheld_key_is_noop() {
    let mut held = HeldKeys::new();
    held.press(Direction::Left);
    let before = held;
    held.apply(release(Direction::Right));
    assert_eq!(held, before);
    assert_eq!(held.velocity(), Velocity { x: -200, y: 0, z: 0 });
    let mut empty = HeldKeys::new();
    let v = keyboard_movement(&mut empty, &vec![release(Direction::Up)]);
    assert_eq!(empty, HeldKeys::new());
    assert_eq!(v, Velocity { x: 0, y: 0, z: 0 });
}

#[test]
fn working_scenario_of_three_ticks() {
    let mut held = HeldKeys::new();
    let v = keyboard_movement(&mut held, &vec![press(Direction::Up)]);
    assert_eq!(v, Velocity { x: 0, y: 200, z: 0 });
    let v = keyboard_movement(&mut held, &vec![release(Direction::Up), press(Direction::Left)]);
    assert_eq!(v, Velocity { x: -200, y: 0, z: 0 });
    let v = keyboard_movement(
        &mut held,
        &vec![release(Direction::Left), press(Direction::Up), press(Direction::Right)],
    );
    assert_eq!(v, Velocity { x: 200, y: 200, z: 0 });
}

#[test]
fn velocity_is_recomputed_without_events() {
    let mut held = HeldKeys::new();
    keyboard_movement(&mut held, &vec![press(Direction::Down)]);
    let v = keyboard_movement(&mut held, &vec![]);
    assert_eq!(v, Velocity { x: 0, y: -200, z: 0 });
}

#[test]
fn double_press_is_idempotent() {
    let mut once = HeldKeys::new();
    once.apply(press(Direction::Right));
    let mut twice = HeldKeys::new();
    twice.apply_all(&vec![press(Direction::Right), press(Direction::Right)]);
    assert_eq!(once, twice);
    assert_eq!(twice.velocity(), Velocity { x: 200, y: 0, z: 0 });
    twice.apply(release(Direction::Right));
    assert!(!twice.contains(Direction::Right));
    assert_eq!(twice.velocity(), Velocity { x: 0, y: 0, z: 0 });
}
