use split_pane::draw::{fill, margin_of, primitives, status, Pane, Primitive, Region};
use split_pane::geometry::{Point, Rectangle};
use split_pane::layout::Regions;
use split_pane::pointer::{Button, Cursor, Event, MouseEvent};
use split_pane::split::{Axis, Split};
use split_pane::state::State;
use split_pane::style::{Background, Border, Catalog, Color, Status, Style};
use std::cell::RefCell;

const BOUNDS: Rectangle = Rectangle { x: 0, y: 0, width: 600, height: 400 };

const REGIONS: Regions = Regions {
    first: Rectangle { x: 0, y: 0, width: 298, height: 400 },
    divider: Rectangle { x: 298, y: 0, width: 5, height: 400 },
    second: Rectangle { x: 303, y: 0, width: 297, height: 400 },
};

/// A theme that remembers what it was asked and answers with a style whose
/// every colour tells the status it was asked for.
struct Recorder {
    asked: RefCell<Vec<Status>>,
}

fn shade(status: Status) -> u8 {
    match status {
        Status::Active => 1,
        Status::Hovered => 2,
        Status::Dragging => 3,
        Status::Disabled => 4,
    }
}

fn color(status: Status, part: u8) -> Color {
    Color { r: shade(status), g: part, b: 0, a: 255 }
}

fn border(status: Status, part: u8) -> Border {
    Border { color: color(status, part), width: 1, ..Border::none() }
}

fn style_of(status: Status) -> Style {
    Style {
        background: Some(Background::Color(color(status, 10))),
        first_background: Some(Background::Color(color(status, 11))),
        second_background: None,
        border: border(status, 20),
        first_border: border(status, 21),
        second_border: border(status, 22),
        divider_background: Background::Color(color(status, 13)),
        divider_border: border(status, 23),
    }
}

impl Catalog for Recorder {
    type Class = u8;

    fn default() -> u8 {
        7
    }

    fn style(&self, class: &u8, status: Status) -> Style {
        assert_eq!(*class, 7);
        self.asked.borrow_mut().push(status);
        style_of(status)
    }
}

fn report(coordinate: u16) -> u16 {
    coordinate
}

fn split() -> Split<(), (), fn(u16) -> u16, Recorder> {
    Split::new((), (), None, Axis::Vertical, report as fn(u16) -> u16)
}

fn dragging() -> State {
    let mut state = State::new();
    let press = Event::Mouse(MouseEvent::ButtonPressed(Button::Left));
    state.on_event(&press, REGIONS.divider, Cursor::Available(Point::new(300, 10)), Axis::Vertical);
    assert!(state.is_dragging());
    state
}

fn quad(bounds: Rectangle, border: Border, background: Background) -> Primitive {
    Primitive::Quad { bounds, border, background }
}

#[test]
fn only_the_divider_has_a_margin() {
    assert_eq!(margin_of(Region::Whole), 0);
    assert_eq!(margin_of(Region::First), 0);
    assert_eq!(margin_of(Region::Second), 0);
    assert_eq!(margin_of(Region::Divider), 5);
}

#[test]
fn pointer_on_the_margin_of_the_divider() {
    let on_margin = Cursor::Available(Point::new(298 - 5, -5));
    assert_eq!(status(Region::Divider, REGIONS.divider, on_margin, false), Status::Hovered);
    assert_eq!(status(Region::Divider, REGIONS.divider, on_margin, true), Status::Dragging);
    let last_inside = Cursor::Available(Point::new(298 + 5 + 4, 404));
    assert_eq!(status(Region::Divider, REGIONS.divider, last_inside, false), Status::Hovered);
    let beyond = Cursor::Available(Point::new(298 - 6, -5));
    assert_eq!(status(Region::Divider, REGIONS.divider, beyond, false), Status::Active);
    assert_eq!(status(Region::Divider, REGIONS.divider, beyond, true), Status::Active);
    let past = Cursor::Available(Point::new(298 + 5 + 5, 10));
    assert_eq!(status(Region::Divider, REGIONS.divider, past, true), Status::Active);
}

#[test]
fn each_region_has_its_own_status() {
    // on the margin of the divider, above the split: over no other region
    let on_margin = Cursor::Available(Point::new(298 - 5, -5));
    assert_eq!(status(Region::Whole, BOUNDS, on_margin, false), Status::Active);
    assert_eq!(status(Region::First, REGIONS.first, on_margin, true), Status::Active);
    assert_eq!(status(Region::Second, REGIONS.second, on_margin, true), Status::Active);
    // in the first pane, within the margin of the divider
    let near = Cursor::Available(Point::new(295, 10));
    assert_eq!(status(Region::Whole, BOUNDS, near, false), Status::Hovered);
    assert_eq!(status(Region::First, REGIONS.first, near, false), Status::Hovered);
    assert_eq!(status(Region::Second, REGIONS.second, near, false), Status::Active);
    assert_eq!(status(Region::Divider, REGIONS.divider, near, false), Status::Hovered);
    assert_eq!(status(Region::First, REGIONS.first, near, true), Status::Dragging);
    assert_eq!(status(Region::Second, REGIONS.second, near, true), Status::Active);
}

#[test]
fn without_a_cursor_every_region_is_active() {
    let at_origin = Rectangle { x: -1, y: -1, width: 3, height: 3 };
    for region in [Region::Whole, Region::First, Region::Second, Region::Divider] {
        assert_eq!(status(region, at_origin, Cursor::Unavailable, false), Status::Active);
        assert_eq!(status(region, at_origin, Cursor::Unavailable, true), Status::Active);
    }
}

#[test]
fn a_region_without_a_fill_is_transparent() {
    assert_eq!(fill(None), Background::Color(Color::transparent()));
    let solid = Background::Color(Color { r: 1, g: 2, b: 3, a: 4 });
    assert_eq!(fill(Some(solid)), solid);
}

#[test]
fn six_steps_in_order() {
    let list = primitives(
        BOUNDS,
        &REGIONS,
        &style_of(Status::Active),
        &style_of(Status::Hovered),
        &style_of(Status::Dragging),
        &style_of(Status::Disabled),
    );
    assert_eq!(
        list,
        vec![
            quad(BOUNDS, border(Status::Active, 20), Background::Color(color(Status::Active, 10))),
            quad(
                REGIONS.first,
                border(Status::Hovered, 21),
                Background::Color(color(Status::Hovered, 11))
            ),
            Primitive::Child { pane: Pane::First, bounds: REGIONS.first },
            quad(
                REGIONS.second,
                border(Status::Dragging, 22),
                Background::Color(Color::transparent())
            ),
            Primitive::Child { pane: Pane::Second, bounds: REGIONS.second },
            quad(
                REGIONS.divider,
                border(Status::Disabled, 23),
                Background::Color(color(Status::Disabled, 13))
            ),
        ]
    );
}

#[test]
fn draw_asks_the_theme_once_for_each_region() {
    let theme = Recorder { asked: RefCell::new(Vec::new()) };
    // in the second pane, away from the divider
    let cursor = Cursor::Available(Point::new(500, 100));
    let list = split().draw(&theme, &State::new(), BOUNDS, &REGIONS, cursor);
    assert_eq!(
        *theme.asked.borrow(),
        vec![Status::Hovered, Status::Active, Status::Hovered, Status::Active]
    );
    assert_eq!(
        list,
        primitives(
            BOUNDS,
            &REGIONS,
            &style_of(Status::Hovered),
            &style_of(Status::Active),
            &style_of(Status::Hovered),
            &style_of(Status::Active),
        )
    );
    assert_eq!(list.len(), 6);
    assert_eq!(list[2], Primitive::Child { pane: Pane::First, bounds: REGIONS.first });
    assert_eq!(list[4], Primitive::Child { pane: Pane::Second, bounds: REGIONS.second });
    assert_eq!(
        list[5],
        quad(
            REGIONS.divider,
            border(Status::Active, 23),
            Background::Color(color(Status::Active, 13))
        )
    );
}

#[test]
fn draw_while_dragging() {
    let theme = Recorder { asked: RefCell::new(Vec::new()) };
    let cursor = Cursor::Available(Point::new(296, 100));
    let list = split().draw(&theme, &dragging(), BOUNDS, &REGIONS, cursor);
    assert_eq!(
        *theme.asked.borrow(),
        vec![Status::Dragging, Status::Dragging, Status::Active, Status::Dragging]
    );
    assert_eq!(
        list,
        primitives(
            BOUNDS,
            &REGIONS,
            &style_of(Status::Dragging),
            &style_of(Status::Dragging),
            &style_of(Status::Active),
            &style_of(Status::Dragging),
        )
    );
}

#[test]
fn draw_with_a_built_in_theme() {
    let split: Split<(), (), fn(u16) -> u16, iced::Theme> =
        Split::new((), (), None, Axis::Vertical, report as fn(u16) -> u16);
    let theme = iced::Theme::Ferra;
    let list = split.draw(&theme, &State::new(), BOUNDS, &REGIONS, Cursor::Unavailable);
    let active = split_pane::style::base(&theme, Status::Active);
    assert_eq!(list, primitives(BOUNDS, &REGIONS, &active, &active, &active, &active));
}
