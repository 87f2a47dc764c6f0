//! The configuration of a split: its two children, where its divider should
//! be, and how much room each part asks for.

use crate::style::Catalog;
use vstd::prelude::*;

verus! {

/// The axis to split at.
#[derive(Clone, Copy, Debug, PartialEq, Eq, Structural)]
pub enum Axis {
    /// One pane above the other: the divider moves up and down.
    Horizontal,
    /// One pane beside the other: the divider moves left and right.
    Vertical,
}

impl Default for Axis {
    fn default() -> (axis: Self)
        ensures
            axis == Axis::Vertical,
    {
        Axis::Vertical
    }
}

/// How a split asks for room in one direction.
#[derive(Clone, Copy, Debug, PartialEq, Eq, Structural)]
pub enum Length {
    /// All the room there is.
    Fill,
    /// A share of the room there is, in proportion to the other shares.
    FillPortion(u16),
    /// As little room as the content needs.
    Shrink,
    /// A fixed number of units.
    Fixed(u32),
}

/// What a split asks for in both directions.
#[derive(Clone, Copy, Debug, PartialEq, Eq, Structural)]
pub struct Sizing {
    pub width: Length,
    pub height: Length,
}

/// The thickness of a divider unless the split is given another.
pub const DEFAULT_SPACING: u16 = 5;

/// The least room each pane gets unless the split is given another.
pub const DEFAULT_MIN_SIZE: u16 = 5;

/// A split divides the room it gets between two children and puts a divider
/// between them that the user can drag.
///
/// The split only carries `first` and `second`; it never looks into them.
/// `on_resize` turns the coordinate that a drag reports into a message.
pub struct Split<A, B, F, T: Catalog> {
    /// The first child: the left or the upper one.
    pub first: A,
    /// The second child: the right or the lower one.
    pub second: B,
    /// Where the divider should be; `None` asks for the middle.
    pub divider_position: Option<u16>,
    /// The axis to split at.
    pub axis: Axis,
    /// The padding around each child.
    pub padding: u16,
    /// The room between the children, which is the thickness of the divider.
    pub spacing: u16,
    /// The width the split asks for.
    pub width: Length,
    /// The height the split asks for.
    pub height: Length,
    /// The least room for the first child along the axis.
    pub min_size_first: u16,
    /// The least room for the second child along the axis.
    pub min_size_second: u16,
    /// The message for a new divider coordinate.
    pub on_resize: F,
    /// The style class.
    pub class: T::Class,
}

impl<A, B, F, T: Catalog> Split<A, B, F, T> {
    /// Creates a split of `first` and `second` at `axis`, with the divider at
    /// `divider_position` or, if that is `None`, in the middle. Dragging the
    /// divider sends what `on_resize` makes of the new coordinate.
    ///
    /// The split starts without padding, with a spacing of
    /// [`DEFAULT_SPACING`], filling the room it gets, with a least size of
    /// [`DEFAULT_MIN_SIZE`] for each child, and with the default class of `T`.
    pub fn new(first: A, second: B, divider_position: Option<u16>, axis: Axis, on_resize: F) -> (split: Self)
        ensures
            split.first == first,
            split.second == second,
            split.divider_position == divider_position,
            split.axis == axis,
            split.padding == 0,
            split.spacing == DEFAULT_SPACING,
            split.width == Length::Fill,
            split.height == Length::Fill,
            split.min_size_first == DEFAULT_MIN_SIZE,
            split.min_size_second == DEFAULT_MIN_SIZE,
            split.on_resize == on_resize,
            call_ensures(T::default, (), split.class),
    {
        Split {
            first,
            second,
            divider_position,
            axis,
            padding: 0,
            spacing: DEFAULT_SPACING,
            width: Length::Fill,
            height: Length::Fill,
            min_size_first: DEFAULT_MIN_SIZE,
            min_size_second: DEFAULT_MIN_SIZE,
            on_resize,
            class: T::default(),
        }
    }

    /// Sets the padding around the children.
    #[must_use]
    pub fn padding(self, padding: u16) -> (split: Self)
        ensures
            split == (Split { padding, ..self }),
    {
        Split { padding, ..self }
    }

    /// Sets the spacing between the children, which is the thickness of the
    /// divider.
    #[must_use]
    pub fn spacing(self, spacing: u16) -> (split: Self)
        ensures
            split == (Split { spacing, ..self }),
    {
        Split { spacing, ..self }
    }

    /// Sets the width of the split.
    #[must_use]
    pub fn width(self, width: Length) -> (split: Self)
        ensures
            split == (Split { width, ..self }),
    {
        Split { width, ..self }
    }

    /// Sets the height of the split.
    #[must_use]
    pub fn height(self, height: Length) -> (split: Self)
        ensures
            split == (Split { height, ..self }),
    {
        Split { height, ..self }
    }

    /// Sets the least size of the first child along the axis.
    #[must_use]
    pub fn min_size_first(self, size: u16) -> (split: Self)
        ensures
            split == (Split { min_size_first: size, ..self }),
    {
        Split { min_size_first: size, ..self }
    }

    /// Sets the least size of the second child along the axis.
    #[must_use]
    pub fn min_size_second(self, size: u16) -> (split: Self)
        ensures
            split == (Split { min_size_second: size, ..self }),
    {
        Split { min_size_second: size, ..self }
    }

    /// Sets the style of the split: the class that `T` makes of `style`.
    #[must_use]
    pub fn style<S>(self, style: S) -> (split: Self) where T::Class: From<S>
        ensures
            split == (Split { class: split.class, ..self }),
            call_ensures(<T::Class as From<S>>::from, (style,), split.class),
    {
        Split { class: <T::Class as From<S>>::from(style), ..self }
    }

    /// Sets the style class of the split.
    #[must_use]
    pub fn class(self, class: T::Class) -> (split: Self)
        ensures
            split == (Split { class, ..self }),
    {
        Split { class, ..self }
    }

    /// What the split asks for in both directions.
    pub fn size(&self) -> (sizing: Sizing)
        ensures
            sizing == (Sizing { width: self.width, height: self.height }),
    {
        Sizing { width: self.width, height: self.height }
    }
}

} // verus!
