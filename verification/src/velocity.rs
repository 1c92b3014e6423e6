//! Velocity, and what the rules ask it to become.
//!
//! The physics engine owns the player's velocity. A stage of the tick does not
//! read it; it says which components it sets and to what, and leaves the rest
//! to the engine.

use vstd::prelude::*;

verus! {

/// Speed of running left or right.
pub const RUN_SPEED: i32 = 100;

/// Speed of climbing up or down a ladder.
pub const CLIMB_SPEED: i32 = 100;

/// Upward speed at the start of a jump.
pub const JUMP_SPEED: i32 = 200;

/// Upward speed that a jump pad gives.
pub const PAD_SPEED: i32 = 350;

/// A velocity in whole units per second; `y` grows upward.
#[derive(Clone, Copy, Debug, PartialEq, Eq, Structural)]
pub struct Velocity {
    pub x: i32,
    pub y: i32,
}

/// What a stage sets of the player's velocity. A component that is `None` is
/// left as the engine has it.
#[derive(Clone, Copy, Debug, PartialEq, Eq)]
pub struct VelocityWrite {
    pub horizontal: Option<i32>,
    pub vertical: Option<i32>,
}

impl VelocityWrite {
    /// Sets nothing.
    pub open spec fn keep() -> VelocityWrite {
        VelocityWrite { horizontal: None, vertical: None }
    }

    /// Sets the vertical component alone.
    pub open spec fn lift(speed: i32) -> VelocityWrite {
        VelocityWrite { horizontal: None, vertical: Some(speed) }
    }

    /// The velocity after this write, if it was `velocity` before.
    pub open spec fn applied_to(self, velocity: Velocity) -> Velocity {
        Velocity {
            x: match self.horizontal {
                Some(x) => x,
                None => velocity.x,
            },
            y: match self.vertical {
                Some(y) => y,
                None => velocity.y,
            },
        }
    }

    /// This write and then `later` as one write: on each component the later
    /// of the two values stands.
    pub open spec fn followed_by(self, later: VelocityWrite) -> VelocityWrite {
        VelocityWrite {
            horizontal: if later.horizontal is Some {
                later.horizontal
            } else {
                self.horizontal
            },
            vertical: if later.vertical is Some {
                later.vertical
            } else {
                self.vertical
            },
        }
    }

    /// A write that sets nothing.
    pub fn nothing() -> (write: VelocityWrite)
        ensures
            write == VelocityWrite::keep(),
    {
        VelocityWrite { horizontal: None, vertical: None }
    }

    /// A write that sets the vertical component to `speed`.
    pub fn vertical_only(speed: i32) -> (write: VelocityWrite)
        ensures
            write == VelocityWrite::lift(speed),
    {
        VelocityWrite { horizontal: None, vertical: Some(speed) }
    }

    /// Joins two writes of one tick, `self` first.
    pub fn chain(self, later: VelocityWrite) -> (both: VelocityWrite)
        ensures
            both == self.followed_by(later),
    {
        VelocityWrite {
            horizontal: match later.horizontal {
                Some(x) => Some(x),
                None => self.horizontal,
            },
            vertical: match later.vertical {
                Some(y) => Some(y),
                None => self.vertical,
            },
        }
    }

    /// Carries the write out on a velocity.
    pub fn apply(self, velocity: Velocity) -> (after: Velocity)
        ensures
            after == self.applied_to(velocity),
    {
        Velocity {
            x: match self.horizontal {
                Some(x) => x,
                None => velocity.x,
            },
            y: match self.vertical {
                Some(y) => y,
                None => velocity.y,
            },
        }
    }
}

/// Joining two writes and applying the result is applying the first and then
/// the second.
pub proof fn lemma_joined_writes_apply_in_order(
    first: VelocityWrite,
    second: VelocityWrite,
    velocity: Velocity,
)
    ensures
        first.followed_by(second).applied_to(velocity) == second.applied_to(
            first.applied_to(velocity),
        ),
{
}

/// A component that a write sets does not depend on the velocity before.
pub proof fn lemma_write_overrides(write: VelocityWrite, before: Velocity, other: Velocity)
    ensures
        write.horizontal is Some ==> write.applied_to(before).x == write.applied_to(other).x,
        write.vertical is Some ==> write.applied_to(before).y == write.applied_to(other).y,
        write.horizontal is None ==> write.applied_to(before).x == before.x,
        write.vertical is None ==> write.applied_to(before).y == before.y,
{
}

} // verus!
