//! What the pointer does: where the cursor is, and the events a split hears.

use crate::geometry::{Point, Rectangle};
use crate::split::Axis;
use vstd::prelude::*;

verus! {

/// How far around the divider a press still takes hold of it, and the pointer
/// still counts as over it.
pub const HIT_MARGIN: u16 = 5;

/// The mouse cursor.
#[derive(Clone, Copy, Debug, PartialEq, Eq, Structural)]
pub enum Cursor {
    /// The cursor is at a position.
    Available(Point),
    /// The cursor is nowhere: out of the window, or busy.
    Unavailable,
}

impl Cursor {
    /// The position of the cursor, if it has one.
    pub open spec fn spec_position(self) -> Option<Point> {
        match self {
            Cursor::Available(position) => Some(position),
            Cursor::Unavailable => None,
        }
    }

    /// The position of the cursor, if it has one.
    #[verifier::when_used_as_spec(spec_position)]
    pub fn position(self) -> (position: Option<Point>)
        ensures
            position == self.spec_position(),
    {
        match self {
            Cursor::Available(position) => Some(position),
            Cursor::Unavailable => None,
        }
    }

    /// The position of the cursor, with the origin standing in for a cursor
    /// that is nowhere.
    pub open spec fn spec_position_or_origin(self) -> Point {
        match self {
            Cursor::Available(position) => position,
            Cursor::Unavailable => Point::spec_origin(),
        }
    }

    /// The position of the cursor, or the origin.
    #[verifier::when_used_as_spec(spec_position_or_origin)]
    pub fn position_or_origin(self) -> (position: Point)
        ensures
            position == self.spec_position_or_origin(),
    {
        match self {
            Cursor::Available(position) => position,
            Cursor::Unavailable => Point::origin(),
        }
    }

    /// A cursor is over a rectangle grown by `margin` when it has a position
    /// and that position lies in the grown rectangle.
    pub open spec fn spec_is_over(self, bounds: Rectangle, margin: u16) -> bool {
        match self {
            Cursor::Available(position) => bounds.spec_contains_within(position, margin),
            Cursor::Unavailable => false,
        }
    }

    /// Whether the cursor is over `bounds` grown by `margin` on all sides.
    #[verifier::when_used_as_spec(spec_is_over)]
    pub fn is_over(self, bounds: Rectangle, margin: u16) -> (over: bool)
        ensures
            over == self.spec_is_over(bounds, margin),
    {
        match self {
            Cursor::Available(position) => bounds.contains_within(position, margin),
            Cursor::Unavailable => false,
        }
    }
}

/// A button of the mouse.
#[derive(Clone, Copy, Debug, PartialEq, Eq, Structural)]
pub enum Button {
    Left,
    Right,
    Middle,
    Back,
    Forward,
    Other(u16),
}

/// What the mouse did.
#[derive(Clone, Copy, Debug, PartialEq, Eq, Structural)]
pub enum MouseEvent {
    /// The cursor entered the window.
    CursorEntered,
    /// The cursor left the window.
    CursorLeft,
    /// The cursor moved to `position`.
    CursorMoved { position: Point },
    /// A button went down.
    ButtonPressed(Button),
    /// A button came up.
    ButtonReleased(Button),
    /// The wheel turned.
    WheelScrolled,
}

/// What a finger did, and where.
#[derive(Clone, Copy, Debug, PartialEq, Eq, Structural)]
pub enum TouchEvent {
    /// A finger touched down.
    FingerPressed { position: Point },
    /// A finger moved while down.
    FingerMoved { position: Point },
    /// A finger was lifted.
    FingerLifted { position: Point },
    /// A touch was cancelled.
    FingerLost { position: Point },
}

/// An event of the user interface, as far as a split tells events apart.
#[derive(Clone, Copy, Debug, PartialEq, Eq, Structural)]
pub enum Event {
    /// A key was pressed or released.
    Keyboard,
    /// The mouse did something.
    Mouse(MouseEvent),
    /// The window changed.
    Window,
    /// A finger did something.
    Touch(TouchEvent),
}

impl Event {
    /// A press takes hold: the left button going down, or a finger touching
    /// down.
    pub open spec fn is_press(self) -> bool {
        self == Event::Mouse(MouseEvent::ButtonPressed(Button::Left))
            || self is Touch && self->Touch_0 is FingerPressed
    }

    /// A release lets go: the left button coming up, or a finger being
    /// lifted.
    pub open spec fn is_release(self) -> bool {
        self == Event::Mouse(MouseEvent::ButtonReleased(Button::Left))
            || self is Touch && self->Touch_0 is FingerLifted
    }

    /// Where a motion went: the new position of the cursor or of the finger.
    /// `None` for every event that is no motion.
    pub open spec fn motion(self) -> Option<Point> {
        match self {
            Event::Mouse(MouseEvent::CursorMoved { position }) => Some(position),
            Event::Touch(TouchEvent::FingerMoved { position }) => Some(position),
            _ => None,
        }
    }
}

/// The divider coordinate nearest to `v`: `v` itself where it is one, else
/// the nearer end of the range of coordinates.
pub open spec fn spec_coordinate_of(v: i32) -> u16 {
    if v < 0 {
        0
    } else if v > u16::MAX {
        u16::MAX
    } else {
        v as u16
    }
}

/// Turns a position along the axis into a divider coordinate.
#[verifier::when_used_as_spec(spec_coordinate_of)]
pub fn coordinate_of(v: i32) -> (c: u16)
    ensures
        c == spec_coordinate_of(v),
{
    if v < 0 {
        0
    } else if v > 65535 {
        65535
    } else {
        v as u16
    }
}

/// The part of a position that lies along the axis of the split: `x` where
/// the panes are side by side, `y` where one is above the other.
pub open spec fn spec_along(axis: Axis, position: Point) -> i32 {
    match axis {
        Axis::Horizontal => position.y,
        Axis::Vertical => position.x,
    }
}

/// The part of a position that lies along the axis of the split.
#[verifier::when_used_as_spec(spec_along)]
pub fn along(axis: Axis, position: Point) -> (v: i32)
    ensures
        v == spec_along(axis, position),
{
    match axis {
        Axis::Horizontal => position.y,
        Axis::Vertical => position.x,
    }
}

} // verus!
