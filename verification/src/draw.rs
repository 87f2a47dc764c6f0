//! What a split draws, and in which order.
//!
//! A split draws six things: the fill of the whole split, the fill of the
//! first pane, the first child, the fill of the second pane, the second
//! child, and last the divider, which so lies above both children where
//! they meet. Each fill takes the style of the status of its own region.

use crate::geometry::{Point, Rectangle};
use crate::layout::Regions;
use crate::pointer::{Cursor, HIT_MARGIN};
use crate::split::Split;
use crate::state::State;
use crate::style::{Background, Border, Catalog, Color, Status, Style};
use vstd::prelude::*;

verus! {

/// One of the four regions of a split that have a style of their own.
#[derive(Clone, Copy, Debug, PartialEq, Eq, Structural)]
pub enum Region {
    /// The whole split.
    Whole,
    /// The first pane.
    First,
    /// The second pane.
    Second,
    /// The divider.
    Divider,
}

/// One of the two children of a split.
#[derive(Clone, Copy, Debug, PartialEq, Eq, Structural)]
pub enum Pane {
    First,
    Second,
}

/// How far around a region the pointer still counts as over it: the hit
/// margin for the divider, nothing for the other regions.
pub open spec fn spec_margin_of(region: Region) -> u16 {
    match region {
        Region::Divider => HIT_MARGIN,
        _ => 0,
    }
}

/// How far around a region the pointer still counts as over it.
#[verifier::when_used_as_spec(spec_margin_of)]
pub fn margin_of(region: Region) -> (margin: u16)
    ensures
        margin == spec_margin_of(region),
{
    match region {
        Region::Divider => HIT_MARGIN,
        _ => 0,
    }
}

/// The status of a region with the bounds `bounds`: active while the pointer
/// is elsewhere; hovered while the pointer is over it and the split is idle;
/// dragging while the pointer is over it and the split is being dragged. It
/// depends on no other region.
pub open spec fn spec_status(region: Region, bounds: Rectangle, cursor: Cursor, dragging: bool) -> Status {
    if cursor.spec_is_over(bounds, spec_margin_of(region)) {
        if dragging {
            Status::Dragging
        } else {
            Status::Hovered
        }
    } else {
        Status::Active
    }
}

/// The status of a region.
#[verifier::when_used_as_spec(spec_status)]
pub fn status(region: Region, bounds: Rectangle, cursor: Cursor, dragging: bool) -> (status: Status)
    ensures
        status == spec_status(region, bounds, cursor, dragging),
        status != Status::Disabled,
{
    if cursor.is_over(bounds, margin_of(region)) {
        if dragging {
            Status::Dragging
        } else {
            Status::Hovered
        }
    } else {
        Status::Active
    }
}

/// The status of a region follows the pointer over that region alone: a
/// pointer over it makes it hovered while the split is idle and dragging
/// while the split is dragged; a pointer anywhere else leaves it active,
/// whatever the pointer is over instead. No region is ever disabled by the
/// pointer.
pub proof fn lemma_status_follows_the_pointer(
    region: Region,
    bounds: Rectangle,
    cursor: Cursor,
    dragging: bool,
)
    ensures
        cursor.spec_is_over(bounds, spec_margin_of(region)) && !dragging ==> spec_status(
            region,
            bounds,
            cursor,
            dragging,
        ) == Status::Hovered,
        cursor.spec_is_over(bounds, spec_margin_of(region)) && dragging ==> spec_status(
            region,
            bounds,
            cursor,
            dragging,
        ) == Status::Dragging,
        !cursor.spec_is_over(bounds, spec_margin_of(region)) ==> spec_status(
            region,
            bounds,
            cursor,
            dragging,
        ) == Status::Active,
        spec_status(region, bounds, cursor, dragging) != Status::Disabled,
{
}

/// A pointer exactly on the near corner of the divider's margin,
/// [`HIT_MARGIN`] units before the divider in both directions, is over the
/// divider. One unit further out, in either direction, it is not.
pub proof fn lemma_margin_corner_is_over_the_divider(divider: Rectangle, corner: Point)
    requires
        corner.x == divider.x - HIT_MARGIN,
        corner.y == divider.y - HIT_MARGIN,
    ensures
        Cursor::Available(corner).spec_is_over(divider, spec_margin_of(Region::Divider)),
        spec_status(Region::Divider, divider, Cursor::Available(corner), false) == Status::Hovered,
        spec_status(Region::Divider, divider, Cursor::Available(corner), true) == Status::Dragging,
        forall|beyond: Point|
            beyond.x == corner.x - 1 || beyond.y == corner.y - 1 ==> #[trigger] spec_status(
                Region::Divider,
                divider,
                Cursor::Available(beyond),
                true,
            ) == Status::Active,
{
}

/// One step of drawing a split.
#[derive(Clone, Copy, Debug, PartialEq, Eq, Structural)]
pub enum Primitive {
    /// Fill the rectangle `bounds` with `background`, inside `border`.
    Quad { bounds: Rectangle, border: Border, background: Background },
    /// Draw a child in its region.
    Child { pane: Pane, bounds: Rectangle },
}

/// The fill of a region that may go without one: a region without a fill is
/// filled with the transparent colour.
pub open spec fn spec_fill(background: Option<Background>) -> Background {
    match background {
        Some(background) => background,
        None => Background::Color(Color::spec_transparent()),
    }
}

/// The fill of a region that may go without one.
#[verifier::when_used_as_spec(spec_fill)]
pub fn fill(background: Option<Background>) -> (filled: Background)
    ensures
        filled == spec_fill(background),
{
    match background {
        Some(background) => background,
        None => Background::Color(Color::transparent()),
    }
}

/// What a split draws, given the style that the status of each region
/// selected: `whole` for the whole split, `first` and `second` for the panes,
/// `divider` for the divider. From each style only the part for its own
/// region is used.
pub open spec fn draw_list(
    bounds: Rectangle,
    regions: Regions,
    whole: Style,
    first: Style,
    second: Style,
    divider: Style,
) -> Seq<Primitive> {
    seq![
        Primitive::Quad {
            bounds,
            border: whole.border,
            background: spec_fill(whole.background),
        },
        Primitive::Quad {
            bounds: regions.first,
            border: first.first_border,
            background: spec_fill(first.first_background),
        },
        Primitive::Child { pane: Pane::First, bounds: regions.first },
        Primitive::Quad {
            bounds: regions.second,
            border: second.second_border,
            background: spec_fill(second.second_background),
        },
        Primitive::Child { pane: Pane::Second, bounds: regions.second },
        Primitive::Quad {
            bounds: regions.divider,
            border: divider.divider_border,
            background: divider.divider_background,
        },
    ]
}

/// Lists what a split draws, in order, given the style of each region.
pub fn primitives(
    bounds: Rectangle,
    regions: &Regions,
    whole: &Style,
    first: &Style,
    second: &Style,
    divider: &Style,
) -> (list: Vec<Primitive>)
    ensures
        list@ == draw_list(bounds, *regions, *whole, *first, *second, *divider),
{
    let mut list: Vec<Primitive> = Vec::new();
    list.push(Primitive::Quad { bounds, border: whole.border, background: fill(whole.background) });
    list.push(
        Primitive::Quad {
            bounds: regions.first,
            border: first.first_border,
            background: fill(first.first_background),
        },
    );
    list.push(Primitive::Child { pane: Pane::First, bounds: regions.first });
    list.push(
        Primitive::Quad {
            bounds: regions.second,
            border: second.second_border,
            background: fill(second.second_background),
        },
    );
    list.push(Primitive::Child { pane: Pane::Second, bounds: regions.second });
    list.push(
        Primitive::Quad {
            bounds: regions.divider,
            border: divider.divider_border,
            background: divider.divider_background,
        },
    );
    assert(list@ =~= draw_list(bounds, *regions, *whole, *first, *second, *divider));
    list
}

impl<A, B, F, T: Catalog> Split<A, B, F, T> {
    /// Lists what the split draws in the layout `regions` within `bounds`.
    ///
    /// The status of each of the four regions is resolved on its own, `theme`
    /// is asked for the style of the split's class in that status, and the
    /// list is [`draw_list`] of the four answers. What a theme answers is up
    /// to the theme; the six steps, their order and their rectangles are not.
    pub fn draw(&self, theme: &T, state: &State, bounds: Rectangle, regions: &Regions, cursor: Cursor) -> (list:
        Vec<Primitive>)
        ensures
            exists|whole: Style, first: Style, second: Style, divider: Style|
                {
                    &&& call_ensures(
                        T::style,
                        (theme, &self.class, spec_status(Region::Whole, bounds, cursor, state.dragging())),
                        whole,
                    )
                    &&& call_ensures(
                        T::style,
                        (
                            theme,
                            &self.class,
                            spec_status(Region::First, regions.first, cursor, state.dragging()),
                        ),
                        first,
                    )
                    &&& call_ensures(
                        T::style,
                        (
                            theme,
                            &self.class,
                            spec_status(Region::Second, regions.second, cursor, state.dragging()),
                        ),
                        second,
                    )
                    &&& call_ensures(
                        T::style,
                        (
                            theme,
                            &self.class,
                            spec_status(Region::Divider, regions.divider, cursor, state.dragging()),
                        ),
                        divider,
                    )
                    &&& list@ == draw_list(bounds, *regions, whole, first, second, divider)
                },
    {
        let dragging = state.is_dragging();
        let whole = theme.style(&self.class, status(Region::Whole, bounds, cursor, dragging));
        let first = theme.style(&self.class, status(Region::First, regions.first, cursor, dragging));
        let second = theme.style(
            &self.class,
            status(Region::Second, regions.second, cursor, dragging),
        );
        let divider = theme.style(
            &self.class,
            status(Region::Divider, regions.divider, cursor, dragging),
        );
        primitives(bounds, regions, &whole, &first, &second, &divider)
    }
}

} // verus!
