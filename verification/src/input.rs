//! The keys that are held during a frame.

use vstd::prelude::*;

verus! {

/// A control the player can hold.
#[derive(Clone, Copy, Debug, PartialEq, Eq, Structural)]
pub enum Key {
    MoveLeft,
    MoveRight,
    MoveForward,
    MoveBack,
    Jump,
}

/// Which controls are held during one frame. The controls are polled: a key
/// counts for as long as it is down, not only when it goes down.
#[derive(Clone, Copy, Debug, PartialEq, Eq, Structural)]
pub struct InputSnapshot {
    pub left: bool,
    pub right: bool,
    pub forward: bool,
    pub back: bool,
    pub jump: bool,
}

impl InputSnapshot {
    /// Whether `key` is held.
    pub open spec fn holds(self, key: Key) -> bool {
        match key {
            Key::MoveLeft => self.left,
            Key::MoveRight => self.right,
            Key::MoveForward => self.forward,
            Key::MoveBack => self.back,
            Key::Jump => self.jump,
        }
    }

    /// The intent along x: one to the right for `MoveRight`, one to the left
    /// for `MoveLeft`, nothing for both or neither.
    pub open spec fn axis_x(self) -> int {
        (if self.right { 1int } else { 0int }) - (if self.left { 1int } else { 0int })
    }

    /// The intent along z: one towards the viewer for `MoveBack`, one away
    /// for `MoveForward`, nothing for both or neither.
    pub open spec fn axis_z(self) -> int {
        (if self.back { 1int } else { 0int }) - (if self.forward { 1int } else { 0int })
    }

    /// The squared length of the intent vector: 0, 1 or 2.
    pub open spec fn intent_len2(self) -> int {
        self.axis_x() * self.axis_x() + self.axis_z() * self.axis_z()
    }

    /// The snapshot of a frame in which nothing is held.
    pub fn none() -> (s: InputSnapshot)
        ensures
            forall|key: Key| !s.holds(key),
    {
        InputSnapshot { left: false, right: false, forward: false, back: false, jump: false }
    }

    /// This snapshot with `key` held as well.
    pub fn with(self, key: Key) -> (s: InputSnapshot)
        ensures
            forall|k: Key| s.holds(k) == (k == key || self.holds(k)),
    {
        let mut s = self;
        match key {
            Key::MoveLeft => {
                s.left = true;
            },
            Key::MoveRight => {
                s.right = true;
            },
            Key::MoveForward => {
                s.forward = true;
            },
            Key::MoveBack => {
                s.back = true;
            },
            Key::Jump => {
                s.jump = true;
            },
        }
        s
    }

    /// Whether `key` is held.
    pub fn pressed(&self, key: Key) -> (held: bool)
        ensures
            held == self.holds(key),
    {
        match key {
            Key::MoveLeft => self.left,
            Key::MoveRight => self.right,
            Key::MoveForward => self.forward,
            Key::MoveBack => self.back,
            Key::Jump => self.jump,
        }
    }

    /// The planar intent vector `(x, z)`: every held direction adds one step
    /// along its axis, so opposite keys cancel and orthogonal keys combine.
    pub fn intent(&self) -> (v: (i8, i8))
        ensures
            v.0 == self.axis_x(),
            v.1 == self.axis_z(),
    {
        let mut x: i8 = 0;
        let mut z: i8 = 0;
        if self.left {
            x = x - 1;
        }
        if self.right {
            x = x + 1;
        }
        if self.forward {
            z = z - 1;
        }
        if self.back {
            z = z + 1;
        }
        (x, z)
    }
}

} // verus!
