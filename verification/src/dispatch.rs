//! What a split does with an event and with the pointer, between what its
//! two children do with them.
//!
//! The host hands every event to the first child, then to the split itself,
//! then to the second child, and merges what the two children answered. The
//! split's own part is [`Split::on_event`]; the merge is [`merge`]. The
//! cursor a split shows is the strongest of its children's and its own.

use crate::geometry::Rectangle;
use crate::pointer::{Cursor, Event, HIT_MARGIN};
use crate::split::{Axis, Split};
use crate::state::{drags_after, resize_for, State};
use crate::style::Catalog;
use iced::advanced::Shell;
use iced::mouse::Interaction;
use vstd::prelude::*;

verus! {

/// `iced::advanced::Shell`: the connection of a widget to the application,
/// through which messages are published. Nothing in it is looked at here.
#[verifier::external_type_specification]
#[verifier::external_body]
#[verifier::reject_recursive_types(M)]
pub struct ExShell<'a, M>(Shell<'a, M>);

/// `iced::mouse::Interaction`: the cursor a widget asks for, with its
/// variants as the toolkit declares them.
#[verifier::external_type_specification]
pub struct ExInteraction(Interaction);

/// What a widget answers to an event.
#[derive(Clone, Copy, Debug, PartialEq, Eq, Structural)]
pub enum EventStatus {
    /// The widget did not handle the event.
    Ignored,
    /// The widget handled the event.
    Captured,
}

/// An event counts as captured if either child captured it.
pub open spec fn merged_status(first: EventStatus, second: EventStatus) -> EventStatus {
    if first is Captured || second is Captured {
        EventStatus::Captured
    } else {
        EventStatus::Ignored
    }
}

/// `iced::advanced::Shell::publish`: hands `message` to the application. The
/// shell keeps its messages to itself, so nothing is claimed of it here.
#[verifier::external_body]
fn publish<M>(shell: &mut Shell<'_, M>, message: M) {
    shell.publish(message)
}

/// `iced::event::Status::merge`: of two answers to one event, `Captured`
/// takes precedence over `Ignored`.
#[verifier::external_body]
fn merge_statuses(first: EventStatus, second: EventStatus) -> (merged: EventStatus)
    ensures
        merged == merged_status(first, second),
{
    let first = match first {
        EventStatus::Ignored => iced::event::Status::Ignored,
        EventStatus::Captured => iced::event::Status::Captured,
    };
    let second = match second {
        EventStatus::Ignored => iced::event::Status::Ignored,
        EventStatus::Captured => iced::event::Status::Captured,
    };
    match first.merge(second) {
        iced::event::Status::Ignored => EventStatus::Ignored,
        iced::event::Status::Captured => EventStatus::Captured,
    }
}

/// What a split answers to an event: what its two children answered, merged.
/// What the split itself did with the event does not count.
pub fn merge(first: EventStatus, second: EventStatus) -> (merged: EventStatus)
    ensures
        merged == merged_status(first, second),
{
    merge_statuses(first, second)
}

impl<A, B, F, T: Catalog> Split<A, B, F, T> {
    /// Takes one event for the split itself and returns what it calls for,
    /// if anything: the coordinate that [`resize_for`] reports, and with it
    /// what `on_resize` makes of that coordinate.
    fn resize<M>(&self, state: &mut State, event: &Event, divider: Rectangle, cursor: Cursor) -> (resize:
        Option<(u16, M)>) where F: Fn(u16) -> M
        requires
            forall|coordinate: u16| call_requires(self.on_resize, (coordinate,)),
        ensures
            final(state).dragging() == drags_after(old(state).dragging(), *event, divider, cursor),
            match resize_for(old(state).dragging(), *event, self.axis) {
                Some(coordinate) => resize matches Some((reported, message)) && reported
                    == coordinate && call_ensures(self.on_resize, (coordinate,), message),
                None => resize is None,
            },
    {
        match state.on_event(event, divider, cursor, self.axis) {
            Some(coordinate) => Some((coordinate, (self.on_resize)(coordinate))),
            None => None,
        }
    }

    /// Takes one event for the split itself and returns the message it
    /// calls for, if any.
    ///
    /// `divider` is the region of the divider in the current layout. The
    /// state moves as [`drags_after`] says. A motion during a drag gives one
    /// message: what `on_resize` makes of the coordinate that [`resize_for`]
    /// reports. Every other event gives none.
    pub fn resize_message<M>(
        &self,
        state: &mut State,
        event: &Event,
        divider: Rectangle,
        cursor: Cursor,
    ) -> (message: Option<M>) where F: Fn(u16) -> M
        requires
            forall|coordinate: u16| call_requires(self.on_resize, (coordinate,)),
        ensures
            final(state).dragging() == drags_after(old(state).dragging(), *event, divider, cursor),
            match resize_for(old(state).dragging(), *event, self.axis) {
                Some(coordinate) => message is Some && call_ensures(
                    self.on_resize,
                    (coordinate,),
                    message->0,
                ),
                None => message is None,
            },
    {
        match self.resize(state, event, divider, cursor) {
            Some((_, message)) => Some(message),
            None => None,
        }
    }

    /// Takes one event for the split itself, between its children, and
    /// publishes the message it calls for, if any, to `shell`.
    ///
    /// The state moves as [`drags_after`] says. A motion during a drag
    /// publishes one message, what `on_resize` makes of the coordinate that
    /// [`resize_for`] reports, and returns that coordinate. Every other event
    /// publishes nothing and returns `None`.
    pub fn on_event<M>(
        &self,
        state: &mut State,
        event: &Event,
        divider: Rectangle,
        cursor: Cursor,
        shell: &mut Shell<'_, M>,
    ) -> (resize: Option<u16>) where F: Fn(u16) -> M
        requires
            forall|coordinate: u16| call_requires(self.on_resize, (coordinate,)),
        ensures
            final(state).dragging() == drags_after(old(state).dragging(), *event, divider, cursor),
            resize == resize_for(old(state).dragging(), *event, self.axis),
    {
        match self.resize(state, event, divider, cursor) {
            Some((coordinate, message)) => {
                publish(shell, message);
                Some(coordinate)
            },
            None => None,
        }
    }
}

/// The overlay of a split: the overlay of its first child if that child has
/// one, else whatever the second child has. The second child is asked only
/// when the first has none, so at most one of the two shows an overlay.
pub fn overlay<O, G>(first: Option<O>, second: G) -> (overlay: Option<O>) where G: FnOnce() -> Option<O>
    requires
        first is None ==> call_requires(second, ()),
    ensures
        first is Some ==> overlay == first,
        first is None ==> call_ensures(second, (), overlay),
{
    match first {
        Some(overlay) => Some(overlay),
        None => second(),
    }
}

/// The place of a cursor in the order of cursors: the place of its variant in
/// the declaration of `iced::mouse::Interaction`, from which the order of the
/// type is derived.
pub open spec fn rank(interaction: Interaction) -> int {
    match interaction {
        Interaction::None => 0,
        Interaction::Idle => 1,
        Interaction::Pointer => 2,
        Interaction::Grab => 3,
        Interaction::Text => 4,
        Interaction::Crosshair => 5,
        Interaction::Working => 6,
        Interaction::Grabbing => 7,
        Interaction::ResizingHorizontally => 8,
        Interaction::ResizingVertically => 9,
        Interaction::ResizingDiagonallyUp => 10,
        Interaction::ResizingDiagonallyDown => 11,
        Interaction::NotAllowed => 12,
        Interaction::ZoomIn => 13,
        Interaction::ZoomOut => 14,
        Interaction::Cell => 15,
        Interaction::Move => 16,
        Interaction::Copy => 17,
        Interaction::Help => 18,
    }
}

/// The one of two cursors that comes later in the order of cursors.
pub open spec fn stronger(one: Interaction, other: Interaction) -> Interaction {
    if rank(one) >= rank(other) {
        one
    } else {
        other
    }
}

/// `Ord::max` on `iced::mouse::Interaction`: the greater of the two in the
/// derived order, which is the order of [`rank`].
#[verifier::external_body]
fn max_interaction(one: Interaction, other: Interaction) -> (greatest: Interaction)
    ensures
        greatest == stronger(one, other),
{
    one.max(other)
}

/// The cursor the divider asks for: a resizing cursor across the divider
/// while the pointer is within [`HIT_MARGIN`] of it, none else. The origin
/// stands in for a cursor that is nowhere.
pub open spec fn divider_interaction(axis: Axis, divider: Rectangle, cursor: Cursor) -> Interaction {
    if divider.spec_contains_within(cursor.spec_position_or_origin(), HIT_MARGIN) {
        match axis {
            Axis::Horizontal => Interaction::ResizingVertically,
            Axis::Vertical => Interaction::ResizingHorizontally,
        }
    } else {
        Interaction::None
    }
}

impl<A, B, F, T: Catalog> Split<A, B, F, T> {
    /// The cursor a split shows: the strongest of what its first child, its
    /// second child and its divider ask for.
    pub fn mouse_interaction(
        &self,
        divider: Rectangle,
        cursor: Cursor,
        first: Interaction,
        second: Interaction,
    ) -> (interaction: Interaction)
        ensures
            interaction == stronger(
                stronger(first, second),
                divider_interaction(self.axis, divider, cursor),
            ),
    {
        let own = if divider.contains_within(cursor.position_or_origin(), HIT_MARGIN) {
            match self.axis {
                Axis::Horizontal => Interaction::ResizingVertically,
                Axis::Vertical => Interaction::ResizingHorizontally,
            }
        } else {
            Interaction::None
        };
        max_interaction(max_interaction(first, second), own)
    }
}

} // verus!
