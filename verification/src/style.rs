//! How a split looks: the interaction status of a region and the style that
//! a status selects.

use vstd::prelude::*;

verus! {

/// The interaction status of a split, or of one of its regions.
#[derive(Clone, Copy, Debug, PartialEq, Eq, Structural)]
pub enum Status {
    /// The split can be dragged.
    Active,
    /// The split can be dragged and the pointer is over it.
    Hovered,
    /// The split is being dragged.
    Dragging,
    /// The split cannot be dragged.
    Disabled,
}

/// A colour as four channels of eight bits; `a` is the opacity.
#[derive(Clone, Copy, Debug, PartialEq, Eq, Structural)]
pub struct Color {
    pub r: u8,
    pub g: u8,
    pub b: u8,
    pub a: u8,
}

impl Color {
    /// The colour that shows nothing: every channel zero.
    pub open spec fn spec_transparent() -> Color {
        Color { r: 0, g: 0, b: 0, a: 0 }
    }

    /// The fully transparent colour.
    #[verifier::when_used_as_spec(spec_transparent)]
    pub fn transparent() -> (c: Self)
        ensures
            c == Self::spec_transparent(),
    {
        Color { r: 0, g: 0, b: 0, a: 0 }
    }

    /// The colour made of the four channels in the order red, green, blue,
    /// opacity.
    pub open spec fn spec_from_rgba8(channels: [u8; 4]) -> Color {
        Color { r: channels[0], g: channels[1], b: channels[2], a: channels[3] }
    }

    /// Builds a colour from its four channels.
    #[verifier::when_used_as_spec(spec_from_rgba8)]
    pub fn from_rgba8(channels: [u8; 4]) -> (c: Self)
        ensures
            c == Self::spec_from_rgba8(channels),
    {
        Color { r: channels[0], g: channels[1], b: channels[2], a: channels[3] }
    }

    /// This colour with its opacity taken to `percent` hundredths, rounded
    /// toward zero and never above full opacity.
    pub open spec fn spec_scale_alpha(self, percent: u8) -> Color {
        Color {
            a: if self.a * percent / 100 > u8::MAX {
                u8::MAX
            } else {
                (self.a * percent / 100) as u8
            },
            ..self
        }
    }

    /// Scales the opacity to `percent` hundredths of what it was.
    #[verifier::when_used_as_spec(spec_scale_alpha)]
    pub fn scale_alpha(self, percent: u8) -> (c: Self)
        ensures
            c == self.spec_scale_alpha(percent),
    {
        assert(0 <= self.a * percent <= 255 * 255) by (nonlinear_arith)
            requires
                0 <= self.a <= 255,
                0 <= percent <= 255,
        ;
        let scaled: u32 = (self.a as u32) * (percent as u32) / 100;
        let a: u8 = if scaled > 255 {
            255
        } else {
            scaled as u8
        };
        Color { r: self.r, g: self.g, b: self.b, a }
    }
}

/// What a region is filled with. A split is filled with solid colours only:
/// there is no gradient here.
#[derive(Clone, Copy, Debug, PartialEq, Eq, Structural)]
pub enum Background {
    /// A solid colour.
    Color(Color),
}

impl Background {
    /// The colour of the fill.
    pub open spec fn spec_color(self) -> Color {
        match self {
            Background::Color(color) => color,
        }
    }

    /// The colour of the fill.
    #[verifier::when_used_as_spec(spec_color)]
    pub fn color(self) -> (c: Color)
        ensures
            c == self.spec_color(),
    {
        match self {
            Background::Color(color) => color,
        }
    }

    /// This fill with its opacity taken to `percent` hundredths.
    pub open spec fn spec_scale_alpha(self, percent: u8) -> Background {
        Background::Color(self.spec_color().spec_scale_alpha(percent))
    }

    /// Scales the opacity of the fill.
    #[verifier::when_used_as_spec(spec_scale_alpha)]
    pub fn scale_alpha(self, percent: u8) -> (b: Self)
        ensures
            b == self.spec_scale_alpha(percent),
    {
        Background::Color(self.color().scale_alpha(percent))
    }
}

/// The radii of the four corners of a border.
#[derive(Clone, Copy, Debug, PartialEq, Eq, Structural)]
pub struct Radius {
    pub top_left: u16,
    pub top_right: u16,
    pub bottom_right: u16,
    pub bottom_left: u16,
}

/// The line around a region.
#[derive(Clone, Copy, Debug, PartialEq, Eq, Structural)]
pub struct Border {
    pub color: Color,
    pub width: u16,
    pub radius: Radius,
}

impl Border {
    /// A border with no width, a transparent colour and the same `radius`
    /// at every corner.
    pub open spec fn spec_rounded(radius: u16) -> Border {
        Border {
            color: Color::spec_transparent(),
            width: 0,
            radius: Radius {
                top_left: radius,
                top_right: radius,
                bottom_right: radius,
                bottom_left: radius,
            },
        }
    }

    /// A border that only rounds the corners.
    #[verifier::when_used_as_spec(spec_rounded)]
    pub fn rounded(radius: u16) -> (b: Self)
        ensures
            b == Self::spec_rounded(radius),
    {
        Border {
            color: Color::transparent(),
            width: 0,
            radius: Radius {
                top_left: radius,
                top_right: radius,
                bottom_right: radius,
                bottom_left: radius,
            },
        }
    }

    /// The border that draws nothing: [`Border::rounded`] with radius zero.
    pub open spec fn spec_none() -> Border {
        Self::spec_rounded(0)
    }

    /// The border that draws nothing.
    #[verifier::when_used_as_spec(spec_none)]
    pub fn none() -> (b: Self)
        ensures
            b == Self::spec_none(),
    {
        Border::rounded(0)
    }
}

/// The style of a split: a fill and a border for the whole split, for each of
/// its two panes, and for the divider. Only the divider must have a fill.
#[derive(Clone, Copy, Debug, PartialEq, Eq, Structural)]
pub struct Style {
    /// The fill of the whole split, if any.
    pub background: Option<Background>,
    /// The fill of the first pane, if any.
    pub first_background: Option<Background>,
    /// The fill of the second pane, if any.
    pub second_background: Option<Background>,
    /// The border of the whole split.
    pub border: Border,
    /// The border of the first pane.
    pub first_border: Border,
    /// The border of the second pane.
    pub second_border: Border,
    /// The fill of the divider.
    pub divider_background: Background,
    /// The border of the divider.
    pub divider_border: Border,
}

/// The theme catalog of a split: the classes of style a theme offers and the
/// style each class gives in each status.
pub trait Catalog {
    /// The class of a split.
    type Class;

    /// The class a split has unless it is given another.
    fn default() -> Self::Class;

    /// The style of a class in the given status.
    fn style(&self, class: &Self::Class, status: Status) -> Style;
}

/// The style that [`Style::default`] gives: no fill and no border anywhere,
/// and a transparent divider.
pub open spec fn default_style() -> Style {
    Style {
        background: None,
        first_background: None,
        second_background: None,
        border: Border::spec_none(),
        first_border: Border::spec_none(),
        second_border: Border::spec_none(),
        divider_background: Background::Color(Color::spec_transparent()),
        divider_border: Border::spec_none(),
    }
}

impl Default for Style {
    fn default() -> (style: Self)
        ensures
            style == default_style(),
    {
        Style {
            background: None,
            first_background: None,
            second_background: None,
            border: Border::none(),
            first_border: Border::none(),
            second_border: Border::none(),
            divider_background: Background::Color(Color::transparent()),
            divider_border: Border::none(),
        }
    }
}

impl Style {
    /// This style with `background` as the fill of the whole split.
    pub fn with_background(self, background: Background) -> (style: Self)
        ensures
            style == (Style { background: Some(background), ..self }),
    {
        Style { background: Some(background), ..self }
    }
}

/// How much of its opacity the fill of a disabled split keeps, in hundredths.
pub const DISABLED_ALPHA: u8 = 50;

/// The radius of the corners of a split in the built-in style.
pub const CORNER_RADIUS: u16 = 2;

/// The style of a split filled with `color`: the default style with that fill
/// for the whole split and corners rounded by [`CORNER_RADIUS`].
pub open spec fn styled(color: Color) -> Style {
    Style {
        background: Some(Background::Color(color)),
        border: Border::spec_rounded(CORNER_RADIUS),
        ..default_style()
    }
}

/// The style of a split that cannot be dragged: `style` with the fill of the
/// whole split, if it has one, at [`DISABLED_ALPHA`] hundredths of its
/// opacity.
pub open spec fn disabled(style: Style) -> Style {
    Style {
        background: match style.background {
            Some(background) => Some(background.spec_scale_alpha(DISABLED_ALPHA)),
            None => None,
        },
        ..style
    }
}

/// The three shades of a theme's primary colour that the built-in style of a
/// split is made of.
#[derive(Clone, Copy, Debug, PartialEq, Eq, Structural)]
pub struct Primary {
    pub strong: Color,
    pub base: Color,
    pub weak: Color,
}

/// The built-in style table.
///
/// An active split is filled with the strong shade and has a transparent
/// divider. A hovered split is filled with the base shade and its divider
/// with the strong one. A dragged split is filled with the weak shade and its
/// divider with the base one. A disabled split is the active one, faded.
pub open spec fn style_table(primary: Primary, status: Status) -> Style {
    let active = styled(primary.strong);
    match status {
        Status::Active => active,
        Status::Hovered => Style {
            background: Some(Background::Color(primary.base)),
            divider_background: Background::Color(primary.strong),
            ..active
        },
        Status::Dragging => Style {
            background: Some(Background::Color(primary.weak)),
            divider_background: Background::Color(primary.base),
            ..active
        },
        Status::Disabled => disabled(active),
    }
}

fn make_styled(color: Color) -> (style: Style)
    ensures
        style == styled(color),
{
    Style {
        background: Some(Background::Color(color)),
        border: Border::rounded(CORNER_RADIUS),
        ..Style::default()
    }
}

fn make_disabled(style: Style) -> (faded: Style)
    ensures
        faded == disabled(style),
{
    Style {
        background: match style.background {
            Some(background) => Some(background.scale_alpha(DISABLED_ALPHA)),
            None => None,
        },
        ..style
    }
}

impl Primary {
    /// The built-in style of a split in the given status.
    pub fn style(&self, status: Status) -> (style: Style)
        ensures
            style == style_table(*self, status),
    {
        let active = make_styled(self.strong);
        match status {
            Status::Active => active,
            Status::Hovered => Style {
                background: Some(Background::Color(self.base)),
                divider_background: Background::Color(self.strong),
                ..active
            },
            Status::Dragging => Style {
                background: Some(Background::Color(self.weak)),
                divider_background: Background::Color(self.base),
                ..active
            },
            Status::Disabled => make_disabled(active),
        }
    }
}

/// `iced::Theme`: a built-in or a custom theme. Nothing in it is looked at
/// here but through [`primary_shades`].
#[verifier::external_type_specification]
#[verifier::external_body]
pub struct ExTheme(iced::Theme);

/// The strong, the base and the weak shade of the primary colour of `theme`,
/// in that order, each as the four channels red, green, blue and opacity.
/// A theme has one palette, so the shades depend on the theme alone.
pub uninterp spec fn theme_shades(theme: iced::Theme) -> [[u8; 4]; 3];

/// `iced::Theme::extended_palette` and `iced::Color::into_rgba8`: the three
/// shades of the theme's primary colour, which are [`theme_shades`]. Which
/// colours a theme has is the theme's business: nothing more is claimed of
/// them.
#[verifier::external_body]
fn primary_shades(theme: &iced::Theme) -> (shades: [[u8; 4]; 3])
    ensures
        shades == theme_shades(*theme),
{
    let primary = theme.extended_palette().primary;
    [
        primary.strong.color.into_rgba8(),
        primary.base.color.into_rgba8(),
        primary.weak.color.into_rgba8(),
    ]
}

/// The primary colour made of three shades given by their channels: the
/// strong one first, then the base one, then the weak one.
pub open spec fn primary_of(shades: [[u8; 4]; 3]) -> Primary {
    Primary {
        strong: Color::spec_from_rgba8(shades[0]),
        base: Color::spec_from_rgba8(shades[1]),
        weak: Color::spec_from_rgba8(shades[2]),
    }
}

/// The primary colour of `theme`.
pub open spec fn theme_primary(theme: iced::Theme) -> Primary {
    primary_of(theme_shades(theme))
}

/// The built-in style of a split under `theme`: the style table of the
/// theme's primary colour.
pub fn base(theme: &iced::Theme, status: Status) -> (style: Style)
    ensures
        style == style_table(theme_primary(*theme), status),
{
    let shades = primary_shades(theme);
    let primary = Primary {
        strong: Color::from_rgba8(shades[0]),
        base: Color::from_rgba8(shades[1]),
        weak: Color::from_rgba8(shades[2]),
    };
    primary.style(status)
}

/// A style for each status: a style function written out.
#[derive(Clone, Copy, Debug, PartialEq, Eq, Structural)]
pub struct StyleTable {
    /// The style of a split that can be dragged.
    pub active: Style,
    /// The style of a split under the pointer.
    pub hovered: Style,
    /// The style of a split that is being dragged.
    pub dragging: Style,
    /// The style of a split that cannot be dragged.
    pub disabled: Style,
}

impl StyleTable {
    /// The entry of the table for `status`.
    pub open spec fn spec_style(&self, status: Status) -> Style {
        match status {
            Status::Active => self.active,
            Status::Hovered => self.hovered,
            Status::Dragging => self.dragging,
            Status::Disabled => self.disabled,
        }
    }

    /// The entry of the table for `status`.
    #[verifier::when_used_as_spec(spec_style)]
    pub fn style(&self, status: Status) -> (style: Style)
        ensures
            style == self.spec_style(status),
    {
        match status {
            Status::Active => self.active,
            Status::Hovered => self.hovered,
            Status::Dragging => self.dragging,
            Status::Disabled => self.disabled,
        }
    }
}

/// The style of a split of class `class` under `theme`: the entry of the
/// class's own table if it has one, else the built-in style of the theme.
pub open spec fn theme_style(theme: iced::Theme, class: Option<StyleTable>, status: Status) -> Style {
    match class {
        Some(table) => table.spec_style(status),
        None => style_table(theme_primary(theme), status),
    }
}

impl Catalog for iced::Theme {
    /// A split under a built-in theme has the theme's own style, `None`, or
    /// a table of its own.
    type Class = Option<StyleTable>;

    fn default() -> Self::Class
        returns
            None::<StyleTable>,
    {
        None
    }

    fn style(&self, class: &Self::Class, status: Status) -> (style: Style)
        ensures
            style == theme_style(*self, *class, status),
    {
        match class {
            Some(table) => table.style(status),
            None => base(self, status),
        }
    }
}

} // verus!
