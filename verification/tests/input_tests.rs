use client::input::{ArrowKey, MoveInputState};

#[test]
fn default_holds_no_key() {
    let s = MoveInputState::default();
    assert_eq!(
        s,
        MoveInputState { up: false, down: false, left: false, right: false }
    );
    assert_eq!(s.direction(), (0, 0));
}

#[test]
fn each_key_moves_its_way() {
    let mut s = MoveInputState::default();
    s.set_key(ArrowKey::Right, true);
    assert_eq!(s.direction(), (1, 0));
    s.set_key(ArrowKey::Up, true);
    assert_eq!(s.direction(), (1, 1));
    s.set_key(ArrowKey::Right, false);
    s.set_key(ArrowKey::Left, true);
    assert_eq!(s.direction(), (-1, 1));
    s.set_key(ArrowKey::Up, false);
    s.set_key(ArrowKey::Down, true);
    assert_eq!(s.direction(), (-1, -1));
}

#[test]
fn opposite_keys_cancel() {
    let s = MoveInputState { up: true, down: true, left: true, right: true };
    assert_eq!(s.direction(), (0, 0));
    let t = MoveInputState { up: false, down: true, left: true, right: true };
    assert_eq!(t.direction(), (0, -1));
}

#[test]
fn press_then_release_restores() {
    let mut s = MoveInputState::default();
    s.set_key(ArrowKey::Left, true);
    assert!(s.left && !s.right && !s.up && !s.down);
    s.set_key(ArrowKey::Left, false);
    assert_eq!(s, MoveInputState::default());
}

#[test]
fn repeated_press_is_idempotent() {
    let mut s = MoveInputState::default();
    s.set_key(ArrowKey::Down, true);
    s.set_key(ArrowKey::Down, true);
    assert_eq!(s, MoveInputState { up: false, down: true, left: false, right: false });
}
