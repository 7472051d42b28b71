//! Pointer input as the canvas sees it, and what a widget answers.

use vstd::prelude::*;
use crate::geometry::Point;

verus! {

/// A button of the pointing device.
#[derive(Clone, Copy, Debug, PartialEq, Eq, Structural)]
pub enum Button {
    Left,
    Right,
    Middle,
    Other,
}

/// One input event, reduced to what the canvas and its nodes react to.
#[derive(Clone, Copy, Debug, PartialEq, Eq, Structural)]
pub enum Input {
    /// The cursor moved to `position`, in screen space.
    CursorMoved { position: Point },
    /// A button went down.
    ButtonPressed(Button),
    /// A button went up.
    ButtonReleased(Button),
    /// The wheel turned by `y` thousandths of a line (or of a pixel), upwards positive.
    WheelScrolled { y: i32 },
    /// Any other event: another pointer event, a key, a window or a touch event.
    Other,
}

/// Whether a widget consumed an event.
#[derive(Clone, Copy, Debug, PartialEq, Eq, Structural)]
pub enum Status {
    /// Nobody handled the event.
    Ignored,
    /// Some widget handled the event.
    Captured,
}

impl Status {
    /// `Captured` if either side captured.
    pub open spec fn spec_merge(self, other: Status) -> Status {
        if self is Captured || other is Captured {
            Status::Captured
        } else {
            Status::Ignored
        }
    }

    pub fn merge(self, other: Status) -> (merged: Status)
        ensures
            merged == self.spec_merge(other),
    {
        match self {
            Status::Ignored => other,
            Status::Captured => Status::Captured,
        }
    }
}

/// The hint a widget gives for the look of the cursor, lowest priority first.
#[derive(Clone, Copy, Debug, PartialEq, Eq, Structural)]
pub enum Affordance {
    /// Nothing to do here.
    Idle,
    /// What lies under the cursor can be picked up.
    Grab,
    /// Something is being dragged.
    Grabbing,
}

impl Affordance {
    /// Rank of the hint: a higher rank wins over a lower one.
    pub open spec fn spec_priority(self) -> nat {
        match self {
            Affordance::Idle => 0,
            Affordance::Grab => 1,
            Affordance::Grabbing => 2,
        }
    }

    pub fn priority(self) -> (p: u8)
        ensures
            p == self.spec_priority(),
    {
        match self {
            Affordance::Idle => 0,
            Affordance::Grab => 1,
            Affordance::Grabbing => 2,
        }
    }

    /// The hint of higher priority; `self` where both rank the same.
    pub open spec fn spec_max(self, other: Affordance) -> Affordance {
        if other.spec_priority() > self.spec_priority() {
            other
        } else {
            self
        }
    }

    pub fn max(self, other: Affordance) -> (m: Affordance)
        ensures
            m == self.spec_max(other),
    {
        if other.priority() > self.priority() {
            other
        } else {
            self
        }
    }
}

} // verus!
