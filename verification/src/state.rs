//! The drag state machine of a split.
//!
//! A split is idle or being dragged. A press near the divider starts a drag,
//! a release ends it, and every motion during a drag reports the coordinate
//! the pointer moved to.

use crate::geometry::{Point, Rectangle};
use crate::pointer::{
    along, coordinate_of, spec_along, spec_coordinate_of, Button, Cursor, Event, MouseEvent,
    TouchEvent, HIT_MARGIN,
};
use crate::split::Axis;
use vstd::prelude::*;

verus! {

/// Whether a split is dragged after `event`, given whether it was before.
///
/// A press starts a drag if the cursor is within [`HIT_MARGIN`] of the
/// divider; the origin stands in for a cursor that is nowhere. A press
/// elsewhere changes nothing. A release ends a drag wherever the pointer is.
/// No other event changes the state.
pub open spec fn drags_after(dragging: bool, event: Event, divider: Rectangle, cursor: Cursor) -> bool {
    if event.is_press() {
        dragging || divider.spec_contains_within(cursor.spec_position_or_origin(), HIT_MARGIN)
    } else if event.is_release() {
        false
    } else {
        dragging
    }
}

/// The coordinate that `event` reports: the position of a motion along the
/// axis, as a divider coordinate, if the split is being dragged; nothing for
/// any other event, and nothing while the split is idle. The coordinate is
/// reported as the pointer gave it: only the next layout clamps it.
pub open spec fn resize_for(dragging: bool, event: Event, axis: Axis) -> Option<u16> {
    match event.motion() {
        Some(position) => if dragging {
            Some(spec_coordinate_of(spec_along(axis, position)))
        } else {
            None
        },
        None => None,
    }
}

/// The state of a split: whether its divider is being dragged.
#[derive(Clone, Copy, Debug, PartialEq, Eq, Structural)]
pub struct State {
    dragging: bool,
}

impl State {
    /// True while the divider is held.
    pub closed spec fn dragging(&self) -> bool {
        self.dragging
    }

    /// Creates the state of a split that nobody has touched yet: idle.
    #[must_use]
    pub fn new() -> (state: Self)
        ensures
            !state.dragging(),
    {
        Self { dragging: false }
    }

    /// Whether the divider is being dragged.
    pub fn is_dragging(&self) -> (dragging: bool)
        ensures
            dragging == self.dragging(),
    {
        self.dragging
    }

    /// Takes one event: moves the state as [`drags_after`] says and returns
    /// the coordinate to report, as [`resize_for`] says of the state before
    /// the event.
    pub fn on_event(&mut self, event: &Event, divider: Rectangle, cursor: Cursor, axis: Axis) -> (resize:
        Option<u16>)
        ensures
            final(self).dragging() == drags_after(old(self).dragging(), *event, divider, cursor),
            resize == resize_for(old(self).dragging(), *event, axis),
    {
        match *event {
            Event::Mouse(MouseEvent::ButtonPressed(Button::Left))
            | Event::Touch(TouchEvent::FingerPressed { .. }) => {
                if divider.contains_within(cursor.position_or_origin(), HIT_MARGIN) {
                    self.dragging = true;
                }
                None
            },
            Event::Mouse(MouseEvent::ButtonReleased(Button::Left))
            | Event::Touch(TouchEvent::FingerLifted { .. }) => {
                self.dragging = false;
                None
            },
            Event::Mouse(MouseEvent::CursorMoved { position })
            | Event::Touch(TouchEvent::FingerMoved { position }) => {
                if self.dragging {
                    Some(coordinate_of(along(axis, position)))
                } else {
                    None
                }
            },
            _ => None,
        }
    }
}

impl Default for State {
    fn default() -> (state: Self)
        ensures
            !state.dragging(),
    {
        State::new()
    }
}

/// A drag from start to end: a press within the margin of the divider, two
/// motions and a release report exactly the two coordinates moved to, in that
/// order, and leave the split idle.
pub proof fn lemma_drag_reports_each_motion(
    divider: Rectangle,
    axis: Axis,
    press: Event,
    pressed_at: Cursor,
    first_motion: Event,
    second_motion: Event,
    release: Event,
    later: Cursor,
)
    requires
        press.is_press(),
        divider.spec_contains_within(pressed_at.spec_position_or_origin(), HIT_MARGIN),
        first_motion.motion() is Some,
        second_motion.motion() is Some,
        release.is_release(),
    ensures
        ({
            let held = drags_after(false, press, divider, pressed_at);
            let moved = drags_after(held, first_motion, divider, later);
            let moved_again = drags_after(moved, second_motion, divider, later);
            let held_after_release = drags_after(moved_again, release, divider, later);
            &&& resize_for(false, press, axis) is None
            &&& held
            &&& resize_for(held, first_motion, axis) == Some(
                spec_coordinate_of(spec_along(axis, first_motion.motion()->0)),
            )
            &&& moved
            &&& resize_for(moved, second_motion, axis) == Some(
                spec_coordinate_of(spec_along(axis, second_motion.motion()->0)),
            )
            &&& moved_again
            &&& resize_for(moved_again, release, axis) is None
            &&& !held_after_release
        }),
{
}

/// A position that is a coordinate is reported unchanged.
pub proof fn lemma_coordinate_in_range_is_kept(v: i32)
    requires
        0 <= v <= u16::MAX,
    ensures
        spec_coordinate_of(v) == v,
{
}

/// A press outside the margin of the divider leaves an idle split idle, and
/// no event that follows reports a coordinate until a press takes hold.
pub proof fn lemma_press_outside_reports_nothing(
    divider: Rectangle,
    axis: Axis,
    press: Event,
    pressed_at: Cursor,
    next: Event,
    later: Cursor,
)
    requires
        press.is_press(),
        !divider.spec_contains_within(pressed_at.spec_position_or_origin(), HIT_MARGIN),
    ensures
        !drags_after(false, press, divider, pressed_at),
        resize_for(false, press, axis) is None,
        resize_for(drags_after(false, press, divider, pressed_at), next, axis) is None,
        !next.is_press() ==> !drags_after(
            drags_after(false, press, divider, pressed_at),
            next,
            divider,
            later,
        ),
{
}

/// A point six units or more away from the divider, on any side, is outside
/// its margin.
pub proof fn lemma_six_units_off_is_outside(divider: Rectangle, point: Point)
    requires
        point.x <= divider.x - 6 || point.x >= divider.x + divider.width + 6 || point.y <= divider.y
            - 6 || point.y >= divider.y + divider.height + 6,
    ensures
        !divider.spec_contains_within(point, HIT_MARGIN),
{
}

} // verus!
