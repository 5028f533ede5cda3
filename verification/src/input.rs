//! Which arrow keys are held, and the movement direction they ask for.
use vstd::prelude::*;

verus! {

/// One of the four arrow keys that move the player.
#[derive(Debug, Clone, Copy, PartialEq, Eq, Structural)]
pub enum ArrowKey {
    Up,
    Down,
    Left,
    Right,
}

/// The arrow keys held at the moment.
#[derive(Debug, Clone, Copy, PartialEq, Eq, Structural)]
pub struct MoveInputState {
    pub up: bool,
    pub down: bool,
    pub left: bool,
    pub right: bool,
}

/// One axis of movement: +1 toward `positive`, -1 toward `negative`, 0 when
/// both or neither are held.
pub open spec fn axis(positive: bool, negative: bool) -> int {
    (if positive {
        1int
    } else {
        0int
    }) - (if negative {
        1int
    } else {
        0int
    })
}

impl MoveInputState {
    /// Whether `key` is held.
    pub open spec fn holds(self, key: ArrowKey) -> bool {
        match key {
            ArrowKey::Up => self.up,
            ArrowKey::Down => self.down,
            ArrowKey::Left => self.left,
            ArrowKey::Right => self.right,
        }
    }

    /// The state with `key` held or released, the other keys as they were.
    pub open spec fn with_key(self, key: ArrowKey, held: bool) -> MoveInputState {
        match key {
            ArrowKey::Up => MoveInputState { up: held, ..self },
            ArrowKey::Down => MoveInputState { down: held, ..self },
            ArrowKey::Left => MoveInputState { left: held, ..self },
            ArrowKey::Right => MoveInputState { right: held, ..self },
        }
    }

    /// Records a press (`held == true`) or a release of `key`.
    pub fn set_key(&mut self, key: ArrowKey, held: bool)
        ensures
            *final(self) == old(self).with_key(key, held),
    {
        match key {
            ArrowKey::Up => self.up = held,
            ArrowKey::Down => self.down = held,
            ArrowKey::Left => self.left = held,
            ArrowKey::Right => self.right = held,
        }
    }

    /// The requested movement before normalisation: `(right - left, up - down)`,
    /// each component -1, 0 or 1, and 0 where opposite keys are both held.
    pub fn direction(&self) -> (d: (i8, i8))
        ensures
            d.0 == axis(self.right, self.left),
            d.1 == axis(self.up, self.down),
            -1 <= d.0 <= 1,
            -1 <= d.1 <= 1,
            self.left && self.right ==> d.0 == 0,
            self.up && self.down ==> d.1 == 0,
            d.0 == 1 <==> self.right && !self.left,
            d.0 == -1 <==> self.left && !self.right,
            d.1 == 1 <==> self.up && !self.down,
            d.1 == -1 <==> self.down && !self.up,
    {
        let x: i8 = (if self.right {
            1i8
        } else {
            0i8
        }) - (if self.left {
            1i8
        } else {
            0i8
        });
        let y: i8 = (if self.up {
            1i8
        } else {
            0i8
        }) - (if self.down {
            1i8
        } else {
            0i8
        });
        (x, y)
    }
}

impl Default for MoveInputState {
    /// No key held.
    fn default() -> (s: Self)
        ensures
            !s.up && !s.down && !s.left && !s.right,
    {
        MoveInputState { up: false, down: false, left: false, right: false }
    }
}

/// A press or release changes the state of that key only.
pub proof fn lemma_keys_are_independent(
    s: MoveInputState,
    key: ArrowKey,
    held: bool,
    other: ArrowKey,
)
    ensures
        s.with_key(key, held).holds(other) == if other == key {
            held
        } else {
            s.holds(other)
        },
{
}

/// Each key sets its own field: `Up` the `up` field, and so on, leaving
/// the other three fields as they were.
pub proof fn lemma_key_sets_its_field(s: MoveInputState, held: bool)
    ensures
        s.with_key(ArrowKey::Up, held) == (MoveInputState { up: held, ..s }),
        s.with_key(ArrowKey::Down, held) == (MoveInputState { down: held, ..s }),
        s.with_key(ArrowKey::Left, held) == (MoveInputState { left: held, ..s }),
        s.with_key(ArrowKey::Right, held) == (MoveInputState { right: held, ..s }),
{
}

/// Pressing and then releasing a key leaves the state as releasing it alone
/// would; in particular, from a state where the key was not held, the state is
/// restored.
pub proof fn lemma_release_undoes_press(s: MoveInputState, key: ArrowKey)
    ensures
        s.with_key(key, true).with_key(key, false) == s.with_key(key, false),
        !s.holds(key) ==> s.with_key(key, true).with_key(key, false) == s,
{
}

/// With no key held there is no movement.
pub proof fn lemma_no_keys_no_movement(s: MoveInputState)
    requires
        !s.up && !s.down && !s.left && !s.right,
    ensures
        axis(s.right, s.left) == 0,
        axis(s.up, s.down) == 0,
{
}

} // verus!
