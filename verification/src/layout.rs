//! Where the two panes and the divider of a split go.
//!
//! A split is laid out in two steps. First the split decides, from the room
//! it has, where the divider is, which limits each child is laid out under
//! and where each child is moved to: a [`SplitLayout`]. Then each child
//! reports the size it took under its limits, and the three regions follow.

use crate::geometry::{
    saturate, saturating, shrink_extent, shrunk, Limits, Point, Rectangle, Size, UNBOUNDED,
};
use crate::split::{Axis, Split};
use crate::style::Catalog;
use vstd::prelude::*;

verus! {

/// How a child is laid out: the limits it gets and the position it is moved to.
#[derive(Clone, Copy, Debug, PartialEq, Eq, Structural)]
pub struct Placement {
    pub limits: Limits,
    pub position: Point,
}

/// The layout of a split before its children have reported their sizes.
#[derive(Clone, Copy, Debug, PartialEq, Eq, Structural)]
pub struct SplitLayout {
    /// The size of the split itself: all of the room it was given.
    pub size: Size,
    /// How the first child is laid out.
    pub first: Placement,
    /// The region of the divider.
    pub divider: Rectangle,
    /// How the second child is laid out.
    pub second: Placement,
}

/// The extent of `size` along the axis of the split: the width where the
/// panes are side by side, the height where one is above the other.
pub open spec fn spec_extent_along(axis: Axis, size: Size) -> u32 {
    match axis {
        Axis::Horizontal => size.height,
        Axis::Vertical => size.width,
    }
}

/// The extent of `size` along the axis of the split.
#[verifier::when_used_as_spec(spec_extent_along)]
pub fn extent_along(axis: Axis, size: Size) -> (extent: u32)
    ensures
        extent == spec_extent_along(axis, size),
{
    match axis {
        Axis::Horizontal => size.height,
        Axis::Vertical => size.width,
    }
}

/// There is no room to divide when the extent cannot hold the divider and the
/// least size of both panes.
pub open spec fn is_degenerate(extent: u32, spacing: u16, min_first: u16, min_second: u16) -> bool {
    extent < spacing + min_first + min_second
}

/// The coordinate the divider is asked to be at: the configured one, or half
/// of the extent, which is at most the largest coordinate there is.
pub open spec fn requested_coordinate(divider_position: Option<u16>, extent: u32) -> int {
    match divider_position {
        Some(position) => position as int,
        None => if extent / 2 > u16::MAX {
            u16::MAX as int
        } else {
            extent as int / 2
        },
    }
}

/// The coordinate of the divider where there is room to divide.
///
/// The requested coordinate is the middle of the divider. It is first raised
/// to half of the spacing, rounded up; then half of the spacing, rounded
/// down, is taken off, which gives the near edge of the divider. That edge is
/// brought to `min_first` if it is below it, and to
/// `extent - min_second - spacing` if it is above it.
pub open spec fn divider_coordinate(
    divider_position: Option<u16>,
    extent: u32,
    spacing: u16,
    min_first: u16,
    min_second: u16,
) -> int {
    let requested = requested_coordinate(divider_position, extent);
    let guarded = if requested < (spacing + 1) / 2 {
        (spacing + 1) / 2
    } else {
        requested
    };
    let edge = guarded - spacing / 2;
    if edge < min_first {
        min_first as int
    } else if edge > extent - min_second - spacing {
        extent - min_second - spacing
    } else {
        edge
    }
}

/// The coordinate of the divider lies between the least size of the first
/// pane and what the least size of the second pane and the divider leave,
/// wherever the divider was asked to be.
pub proof fn lemma_divider_coordinate_in_bounds(
    divider_position: Option<u16>,
    extent: u32,
    spacing: u16,
    min_first: u16,
    min_second: u16,
)
    requires
        !is_degenerate(extent, spacing, min_first, min_second),
    ensures
        min_first <= divider_coordinate(divider_position, extent, spacing, min_first, min_second)
            <= extent - min_second - spacing,
        divider_coordinate(divider_position, extent, spacing, min_first, min_second) <= u16::MAX,
{
}

/// Finds the coordinate of the divider: `None` where there is no room to
/// divide, else [`divider_coordinate`].
pub fn resolve_divider(
    divider_position: Option<u16>,
    extent: u32,
    spacing: u16,
    min_first: u16,
    min_second: u16,
) -> (coordinate: Option<u16>)
    ensures
        coordinate is None <==> is_degenerate(extent, spacing, min_first, min_second),
        coordinate matches Some(c) ==> c == divider_coordinate(
            divider_position,
            extent,
            spacing,
            min_first,
            min_second,
        ),
        coordinate matches Some(c) ==> min_first <= c <= extent - min_second - spacing,
{
    let needed: u32 = spacing as u32 + min_first as u32 + min_second as u32;
    if extent < needed {
        return None;
    }
    let requested: u32 = match divider_position {
        Some(position) => position as u32,
        None => if extent / 2 > 65535 {
            65535
        } else {
            extent / 2
        },
    };
    let half_up: u32 = (spacing as u32 + 1) / 2;
    let half_down: u32 = spacing as u32 / 2;
    let guarded: u32 = if requested < half_up {
        half_up
    } else {
        requested
    };
    let edge: u32 = guarded - half_down;
    let highest: u32 = extent - min_second as u32 - spacing as u32;
    let clamped: u32 = if edge < min_first as u32 {
        min_first as u32
    } else if edge > highest {
        highest
    } else {
        edge
    };
    Some(clamped as u16)
}

/// The layout where there is no room to divide: both children get the limits
/// of the split itself and stay at the origin, each as if it were alone, and
/// the divider keeps its place in the order of the regions as a line without
/// thickness that spans the split across the axis.
pub open spec fn degenerate_layout(axis: Axis, limits: Limits, space: Rectangle) -> SplitLayout {
    SplitLayout {
        size: space.spec_size(),
        first: Placement { limits, position: Point::spec_origin() },
        divider: match axis {
            Axis::Horizontal => Rectangle { x: 0, y: 0, width: space.width, height: 0 },
            Axis::Vertical => Rectangle { x: 0, y: 0, width: 0, height: space.height },
        },
        second: Placement { limits, position: Point::spec_origin() },
    }
}

/// The amount that limits are shrunk by to take `amount` off along the axis
/// and nothing across it.
pub open spec fn along_axis(axis: Axis, amount: u32) -> Size {
    match axis {
        Axis::Horizontal => Size { width: 0, height: amount },
        Axis::Vertical => Size { width: amount, height: 0 },
    }
}

/// What lies from the divider on: the extent of the room without what lies
/// before `coordinate`, which is without bound where the room is.
pub open spec fn beyond_divider(extent: u32, coordinate: u16) -> u32 {
    shrunk(extent, coordinate as u32)
}

/// The layout with the near edge of the divider at `coordinate`.
///
/// The first child gets the limits without what lies from the divider on,
/// and without the padding; it goes to the corner of the split, inside the
/// padding. In a room without bound that leaves the first child no room
/// along the axis. The divider is as thick as the spacing and spans the split across
/// the axis. The second child gets the limits without what lies up to the far
/// edge of the divider, and without the padding; it goes behind the divider,
/// inside the padding.
pub open spec fn divided_layout(
    axis: Axis,
    limits: Limits,
    space: Rectangle,
    coordinate: u16,
    spacing: u16,
    padding: u16,
) -> SplitLayout {
    let extent = spec_extent_along(axis, space.spec_size());
    let before = beyond_divider(extent, coordinate);
    let after = (coordinate + spacing) as u32;
    SplitLayout {
        size: space.spec_size(),
        first: Placement {
            limits: limits.spec_shrink(along_axis(axis, before)).spec_pad(padding),
            position: Point { x: saturate(space.x + padding), y: saturate(space.y + padding) },
        },
        divider: match axis {
            Axis::Horizontal => Rectangle {
                x: space.x,
                y: coordinate as i32,
                width: space.width,
                height: spacing as u32,
            },
            Axis::Vertical => Rectangle {
                x: coordinate as i32,
                y: space.y,
                width: spacing as u32,
                height: space.height,
            },
        },
        second: Placement {
            limits: limits.spec_shrink(along_axis(axis, after)).spec_pad(padding),
            position: match axis {
                Axis::Horizontal => Point {
                    x: saturate(space.x + padding),
                    y: saturate(space.y + coordinate + spacing + padding),
                },
                Axis::Vertical => Point {
                    x: saturate(space.x + coordinate + spacing + padding),
                    y: saturate(space.y + padding),
                },
            },
        },
    }
}

/// The layout of a split in the room `space` under `limits`.
pub open spec fn split_layout(
    axis: Axis,
    divider_position: Option<u16>,
    padding: u16,
    spacing: u16,
    min_first: u16,
    min_second: u16,
    limits: Limits,
    space: Rectangle,
) -> SplitLayout {
    let extent = spec_extent_along(axis, space.spec_size());
    if is_degenerate(extent, spacing, min_first, min_second) {
        degenerate_layout(axis, limits, space)
    } else {
        divided_layout(
            axis,
            limits,
            space,
            divider_coordinate(divider_position, extent, spacing, min_first, min_second) as u16,
            spacing,
            padding,
        )
    }
}

/// Lays out a split whose panes are one above the other.
pub fn horizontal_split<A, B, F, T: Catalog>(
    split: &Split<A, B, F, T>,
    limits: &Limits,
    space: &Rectangle,
) -> (layout: SplitLayout)
    ensures
        layout == split_layout(
            Axis::Horizontal,
            split.divider_position,
            split.padding,
            split.spacing,
            split.min_size_first,
            split.min_size_second,
            *limits,
            *space,
        ),
{
    let resolved = resolve_divider(
        split.divider_position,
        space.height,
        split.spacing,
        split.min_size_first,
        split.min_size_second,
    );
    let coordinate: u16 = match resolved {
        Some(coordinate) => coordinate,
        None => {
            return SplitLayout {
                size: space.size(),
                first: Placement { limits: *limits, position: Point::origin() },
                divider: Rectangle { x: 0, y: 0, width: space.width, height: 0 },
                second: Placement { limits: *limits, position: Point::origin() },
            };
        },
    };
    let padding: i64 = split.padding as i64;
    let behind: i64 = coordinate as i64 + split.spacing as i64;
    let first_limits = limits.shrink(
        Size { width: 0, height: shrink_extent(space.height, coordinate as u32) },
    ).pad(split.padding);
    let second_limits = limits.shrink(
        Size { width: 0, height: coordinate as u32 + split.spacing as u32 },
    ).pad(split.padding);
    SplitLayout {
        size: space.size(),
        first: Placement {
            limits: first_limits,
            position: Point {
                x: saturating(space.x as i64 + padding),
                y: saturating(space.y as i64 + padding),
            },
        },
        divider: Rectangle {
            x: space.x,
            y: coordinate as i32,
            width: space.width,
            height: split.spacing as u32,
        },
        second: Placement {
            limits: second_limits,
            position: Point {
                x: saturating(space.x as i64 + padding),
                y: saturating(space.y as i64 + behind + padding),
            },
        },
    }
}

/// Lays out a split whose panes are side by side.
pub fn vertical_split<A, B, F, T: Catalog>(
    split: &Split<A, B, F, T>,
    limits: &Limits,
    space: &Rectangle,
) -> (layout: SplitLayout)
    ensures
        layout == split_layout(
            Axis::Vertical,
            split.divider_position,
            split.padding,
            split.spacing,
            split.min_size_first,
            split.min_size_second,
            *limits,
            *space,
        ),
{
    let resolved = resolve_divider(
        split.divider_position,
        space.width,
        split.spacing,
        split.min_size_first,
        split.min_size_second,
    );
    let coordinate: u16 = match resolved {
        Some(coordinate) => coordinate,
        None => {
            return SplitLayout {
                size: space.size(),
                first: Placement { limits: *limits, position: Point::origin() },
                divider: Rectangle { x: 0, y: 0, width: 0, height: space.height },
                second: Placement { limits: *limits, position: Point::origin() },
            };
        },
    };
    let padding: i64 = split.padding as i64;
    let behind: i64 = coordinate as i64 + split.spacing as i64;
    let first_limits = limits.shrink(
        Size { width: shrink_extent(space.width, coordinate as u32), height: 0 },
    ).pad(split.padding);
    let second_limits = limits.shrink(
        Size { width: coordinate as u32 + split.spacing as u32, height: 0 },
    ).pad(split.padding);
    SplitLayout {
        size: space.size(),
        first: Placement {
            limits: first_limits,
            position: Point {
                x: saturating(space.x as i64 + padding),
                y: saturating(space.y as i64 + padding),
            },
        },
        divider: Rectangle {
            x: coordinate as i32,
            y: space.y,
            width: split.spacing as u32,
            height: space.height,
        },
        second: Placement {
            limits: second_limits,
            position: Point {
                x: saturating(space.x as i64 + behind + padding),
                y: saturating(space.y as i64 + padding),
            },
        },
    }
}

impl<A, B, F, T: Catalog> Split<A, B, F, T> {
    /// The layout of this split in the room `space` under `limits`.
    pub open spec fn spec_layout(&self, limits: Limits, space: Rectangle) -> SplitLayout {
        split_layout(
            self.axis,
            self.divider_position,
            self.padding,
            self.spacing,
            self.min_size_first,
            self.min_size_second,
            limits,
            space,
        )
    }

    /// Lays out the split in the room `space`, which is what a container
    /// that fills `limits` in both directions takes.
    pub fn layout(&self, limits: &Limits, space: &Rectangle) -> (layout: SplitLayout)
        ensures
            layout == self.spec_layout(*limits, *space),
    {
        match self.axis {
            Axis::Horizontal => horizontal_split(self, limits, space),
            Axis::Vertical => vertical_split(self, limits, space),
        }
    }
}

/// The three regions of a laid-out split, in the order in which the split
/// hands them on: first pane, divider, second pane.
#[derive(Clone, Copy, Debug, PartialEq, Eq, Structural)]
pub struct Regions {
    pub first: Rectangle,
    pub divider: Rectangle,
    pub second: Rectangle,
}

impl SplitLayout {
    /// The regions of the split once the first child has taken the size
    /// `first` and the second child the size `second`: each child where it
    /// was moved to, and the divider where the layout put it.
    pub open spec fn spec_regions(&self, first: Size, second: Size) -> Regions {
        Regions {
            first: Rectangle {
                x: self.first.position.x,
                y: self.first.position.y,
                width: first.width,
                height: first.height,
            },
            divider: self.divider,
            second: Rectangle {
                x: self.second.position.x,
                y: self.second.position.y,
                width: second.width,
                height: second.height,
            },
        }
    }

    /// The regions of the split, given the sizes its children took.
    #[verifier::when_used_as_spec(spec_regions)]
    pub fn regions(&self, first: Size, second: Size) -> (regions: Regions)
        ensures
            regions == self.spec_regions(first, second),
    {
        Regions {
            first: Rectangle::new(self.first.position, first),
            divider: self.divider,
            second: Rectangle::new(self.second.position, second),
        }
    }
}

impl Regions {
    /// The regions as a sequence: always three, first pane, divider, second
    /// pane.
    pub open spec fn view(&self) -> Seq<Rectangle> {
        seq![self.first, self.divider, self.second]
    }

    /// The regions as the children of the split's layout node.
    pub fn children(&self) -> (children: Vec<Rectangle>)
        ensures
            children@ == self@,
            children@.len() == 3,
    {
        let mut children: Vec<Rectangle> = Vec::new();
        children.push(self.first);
        children.push(self.divider);
        children.push(self.second);
        assert(children@ =~= self@);
        children
    }

    /// Reads the regions back from the children of a layout node: the first
    /// three, in order. A node with fewer children is not the layout of a
    /// split, and gives `None`.
    pub fn from_children(children: &Vec<Rectangle>) -> (regions: Option<Regions>)
        ensures
            regions is Some <==> children@.len() >= 3,
            regions matches Some(r) ==> r@ == children@.subrange(0, 3),
    {
        if children.len() < 3 {
            return None;
        }
        let regions = Regions { first: children[0], divider: children[1], second: children[2] };
        assert(regions@ =~= children@.subrange(0, 3));
        Some(regions)
    }
}

/// Where there is no room to divide, the divider has no length along the axis
/// of the split, and the split still has its three regions.
pub proof fn lemma_degenerate_divider_is_flat(
    axis: Axis,
    divider_position: Option<u16>,
    padding: u16,
    spacing: u16,
    min_first: u16,
    min_second: u16,
    limits: Limits,
    space: Rectangle,
    first: Size,
    second: Size,
)
    requires
        is_degenerate(spec_extent_along(axis, space.spec_size()), spacing, min_first, min_second),
    ensures
        ({
            let layout = split_layout(
                axis,
                divider_position,
                padding,
                spacing,
                min_first,
                min_second,
                limits,
                space,
            );
            &&& spec_extent_along(axis, layout.divider.spec_size()) == 0
            &&& layout.spec_regions(first, second)@.len() == 3
            &&& layout.spec_regions(first, second).divider == layout.divider
        }),
{
}

/// Where there is room to divide, the divider lies at its coordinate along
/// the axis, is as thick as the spacing, and its coordinate leaves each pane
/// its least size.
pub proof fn lemma_divider_region(
    axis: Axis,
    divider_position: Option<u16>,
    padding: u16,
    spacing: u16,
    min_first: u16,
    min_second: u16,
    limits: Limits,
    space: Rectangle,
)
    requires
        !is_degenerate(spec_extent_along(axis, space.spec_size()), spacing, min_first, min_second),
    ensures
        ({
            let extent = spec_extent_along(axis, space.spec_size());
            let layout = split_layout(
                axis,
                divider_position,
                padding,
                spacing,
                min_first,
                min_second,
                limits,
                space,
            );
            let coordinate = match axis {
                Axis::Horizontal => layout.divider.y,
                Axis::Vertical => layout.divider.x,
            };
            &&& coordinate == divider_coordinate(
                divider_position,
                extent,
                spacing,
                min_first,
                min_second,
            )
            &&& min_first <= coordinate <= extent - min_second - spacing
            &&& spec_extent_along(axis, layout.divider.spec_size()) == spacing
        }),
{
}

/// Laying out twice gives the same geometry: the layout of a split depends
/// on nothing but its axis, its divider position, its padding, its spacing,
/// its two least sizes, the limits and the room, and the regions on nothing
/// but that layout and the sizes the children took.
pub proof fn lemma_layout_is_repeatable<A, B, F, T: Catalog>(
    one: Split<A, B, F, T>,
    other: Split<A, B, F, T>,
    limits: Limits,
    space: Rectangle,
    first: Size,
    second: Size,
)
    requires
        one.axis == other.axis,
        one.divider_position == other.divider_position,
        one.padding == other.padding,
        one.spacing == other.spacing,
        one.min_size_first == other.min_size_first,
        one.min_size_second == other.min_size_second,
    ensures
        one.spec_layout(limits, space) == other.spec_layout(limits, space),
        one.spec_layout(limits, space).spec_regions(first, second) == other.spec_layout(
            limits,
            space,
        ).spec_regions(first, second),
{
}

/// Where a rectangle begins along the axis of the split.
pub open spec fn near_edge(axis: Axis, bounds: Rectangle) -> int {
    match axis {
        Axis::Horizontal => bounds.y as int,
        Axis::Vertical => bounds.x as int,
    }
}

/// Where a rectangle ends along the axis of the split.
pub open spec fn far_edge(axis: Axis, bounds: Rectangle) -> int {
    near_edge(axis, bounds) + spec_extent_along(axis, bounds.spec_size())
}

/// Where the limits allow no more than the room holds, the two children
/// and the divider share the room: the first child may take no more than
/// what lies before the divider, in a room without bound nothing at all, and
/// in a room with a bound the most that both children may take and the
/// divider fit the room together.
pub proof fn lemma_budgets_fit_the_room(
    axis: Axis,
    divider_position: Option<u16>,
    padding: u16,
    spacing: u16,
    min_first: u16,
    min_second: u16,
    limits: Limits,
    space: Rectangle,
)
    requires
        !is_degenerate(spec_extent_along(axis, space.spec_size()), spacing, min_first, min_second),
        spec_extent_along(axis, limits.max) <= spec_extent_along(axis, space.spec_size()),
    ensures
        ({
            let extent = spec_extent_along(axis, space.spec_size());
            let coordinate = divider_coordinate(
                divider_position,
                extent,
                spacing,
                min_first,
                min_second,
            );
            let layout = split_layout(
                axis,
                divider_position,
                padding,
                spacing,
                min_first,
                min_second,
                limits,
                space,
            );
            let first = spec_extent_along(axis, layout.first.limits.max);
            let second = spec_extent_along(axis, layout.second.limits.max);
            &&& first <= coordinate
            &&& extent == UNBOUNDED ==> first == 0
            &&& extent < UNBOUNDED ==> second <= extent - coordinate - spacing
            &&& extent < UNBOUNDED ==> first + spacing + second <= extent
        }),
{
}

/// In a room at the origin that is at least as large as the limits allow,
/// the regions follow each other along the axis without overlap: a first
/// child that keeps to its limits ends before the divider begins, the second
/// child begins after the divider ends, and in a room with a bound a second
/// child that keeps to its limits ends within the room. A child that was left
/// no room at all has no extent and overlaps nothing.
pub proof fn lemma_regions_do_not_overlap(
    axis: Axis,
    divider_position: Option<u16>,
    padding: u16,
    spacing: u16,
    min_first: u16,
    min_second: u16,
    limits: Limits,
    space: Rectangle,
    first: Size,
    second: Size,
)
    requires
        space.x == 0,
        space.y == 0,
        !is_degenerate(spec_extent_along(axis, space.spec_size()), spacing, min_first, min_second),
        spec_extent_along(axis, limits.max) <= spec_extent_along(axis, space.spec_size()),
        ({
            let layout = split_layout(
                axis,
                divider_position,
                padding,
                spacing,
                min_first,
                min_second,
                limits,
                space,
            );
            &&& spec_extent_along(axis, first) <= spec_extent_along(axis, layout.first.limits.max)
            &&& spec_extent_along(axis, second) <= spec_extent_along(axis, layout.second.limits.max)
        }),
    ensures
        ({
            let extent = spec_extent_along(axis, space.spec_size());
            let regions = split_layout(
                axis,
                divider_position,
                padding,
                spacing,
                min_first,
                min_second,
                limits,
                space,
            ).spec_regions(first, second);
            &&& 0 <= near_edge(axis, regions.first)
            &&& (spec_extent_along(axis, first) == 0 || far_edge(axis, regions.first) <= near_edge(
                axis,
                regions.divider,
            ))
            &&& far_edge(axis, regions.divider) <= near_edge(axis, regions.second)
            &&& (extent == UNBOUNDED || spec_extent_along(axis, second) == 0 || far_edge(
                axis,
                regions.second,
            ) <= extent)
        }),
{
}

} // verus!
