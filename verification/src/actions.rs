//! What the player can ask the actor to do, and the state of those requests at
//! one tick.

use vstd::prelude::*;

verus! {

/// The directions in which the actor can be asked to move.
#[derive(Clone, Copy, Debug, PartialEq, Eq, Hash, Structural)]
pub enum MoveAction {
    Forward,
    Backward,
    Left,
    Right,
}

/// Which of the four directions are held at one tick. Nothing of earlier
/// ticks is kept.
#[derive(Clone, Copy, Debug, PartialEq, Eq, Structural)]
pub struct InputSnapshot {
    pub forward: bool,
    pub backward: bool,
    pub left: bool,
    pub right: bool,
}

impl InputSnapshot {
    /// Whether `action` is held.
    pub open spec fn spec_pressed(&self, action: MoveAction) -> bool {
        match action {
            MoveAction::Forward => self.forward,
            MoveAction::Backward => self.backward,
            MoveAction::Left => self.left,
            MoveAction::Right => self.right,
        }
    }

    /// Whether no direction at all is held.
    pub open spec fn is_idle(&self) -> bool {
        !self.forward && !self.backward && !self.left && !self.right
    }

    /// The snapshot in which nothing is held.
    pub fn released() -> (input: InputSnapshot)
        ensures
            input.is_idle(),
    {
        InputSnapshot { forward: false, backward: false, left: false, right: false }
    }

    /// Whether `action` is held.
    #[verifier::when_used_as_spec(spec_pressed)]
    pub fn pressed(&self, action: MoveAction) -> (held: bool)
        ensures
            held == self.pressed(action),
    {
        match action {
            MoveAction::Forward => self.forward,
            MoveAction::Backward => self.backward,
            MoveAction::Left => self.left,
            MoveAction::Right => self.right,
        }
    }
}

} // verus!
