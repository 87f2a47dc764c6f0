use iced::advanced::Shell;
use split_pane::geometry::{Point, Rectangle};
use split_pane::pointer::{
    along, coordinate_of, Button, Cursor, Event, MouseEvent, TouchEvent, HIT_MARGIN,
};
use split_pane::split::{Axis, Split};
use split_pane::state::State;

#[derive(Debug, Clone, PartialEq)]
enum Message {
    Resized(u16),
}

const DIVIDER: Rectangle = Rectangle { x: 298, y: 0, width: 5, height: 400 };

const PRESS: Event = Event::Mouse(MouseEvent::ButtonPressed(Button::Left));

const RELEASE: Event = Event::Mouse(MouseEvent::ButtonReleased(Button::Left));

fn at(x: i32, y: i32) -> Cursor {
    Cursor::Available(Point::new(x, y))
}

fn moved(x: i32, y: i32) -> Event {
    Event::Mouse(MouseEvent::CursorMoved { position: Point::new(x, y) })
}

fn split(axis: Axis) -> Split<(), (), fn(u16) -> Message, iced::Theme> {
    Split::new((), (), None, axis, Message::Resized as fn(u16) -> Message)
}

#[test]
fn a_new_state_is_idle() {
    assert!(!State::new().is_dragging());
    assert!(!State::default().is_dragging());
}

#[test]
fn the_margin_is_five_units() {
    assert_eq!(HIT_MARGIN, 5);
}

#[test]
fn drag_reports_each_motion_in_order() {
    let split = split(Axis::Vertical);
    let mut state = State::new();
    let mut messages = Vec::new();
    let mut shell = Shell::new(&mut messages);
    assert_eq!(split.on_event(&mut state, &PRESS, DIVIDER, at(300, 10), &mut shell), None);
    assert!(state.is_dragging());
    assert_eq!(
        split.on_event(&mut state, &moved(120, 77), DIVIDER, at(120, 77), &mut shell),
        Some(120)
    );
    assert_eq!(
        split.on_event(&mut state, &moved(450, 3), DIVIDER, at(450, 3), &mut shell),
        Some(450)
    );
    assert_eq!(split.on_event(&mut state, &RELEASE, DIVIDER, at(450, 3), &mut shell), None);
    assert!(!state.is_dragging());
    assert!(!shell.is_empty());
    assert_eq!(messages, vec![Message::Resized(120), Message::Resized(450)]);
}

#[test]
fn drag_along_a_horizontal_split_reports_y() {
    let split = split(Axis::Horizontal);
    let divider = Rectangle { x: 0, y: 198, width: 500, height: 5 };
    let mut state = State::new();
    let mut messages = Vec::new();
    let mut shell = Shell::new(&mut messages);
    split.on_event(&mut state, &PRESS, divider, at(40, 200), &mut shell);
    split.on_event(&mut state, &moved(120, 77), divider, at(120, 77), &mut shell);
    assert_eq!(messages, vec![Message::Resized(77)]);
}

#[test]
fn press_outside_the_margin_starts_nothing() {
    let split = split(Axis::Vertical);
    for cursor in [at(292, 10), at(298 + 5 + 5, 10), at(300, -6), at(300, 405), at(298 + 5 + 6, 10)] {
        let mut state = State::new();
        let mut messages = Vec::new();
        let mut shell = Shell::new(&mut messages);
        assert_eq!(split.on_event(&mut state, &PRESS, DIVIDER, cursor, &mut shell), None);
        assert!(!state.is_dragging(), "{cursor:?}");
        assert_eq!(
            split.on_event(&mut state, &moved(120, 77), DIVIDER, at(120, 77), &mut shell),
            None
        );
        assert!(shell.is_empty());
        assert_eq!(messages, vec![]);
    }
}

#[test]
fn press_on_the_edge_of_the_margin_takes_hold() {
    for cursor in [at(293, -5), at(307, 404), at(293, 404), at(307, -5)] {
        let mut state = State::new();
        assert_eq!(state.on_event(&PRESS, DIVIDER, cursor, Axis::Vertical), None);
        assert!(state.is_dragging(), "{cursor:?}");
    }
}

#[test]
fn press_without_a_cursor_is_a_press_at_the_origin() {
    let mut state = State::new();
    state.on_event(&PRESS, DIVIDER, Cursor::Unavailable, Axis::Vertical);
    assert!(!state.is_dragging());
    let corner = Rectangle { x: 3, y: 5, width: 5, height: 400 };
    state.on_event(&PRESS, corner, Cursor::Unavailable, Axis::Vertical);
    assert!(state.is_dragging());
}

#[test]
fn touch_drags_as_the_mouse_does() {
    let mut state = State::new();
    let down = Event::Touch(TouchEvent::FingerPressed { position: Point::new(300, 10) });
    let slide = Event::Touch(TouchEvent::FingerMoved { position: Point::new(200, 10) });
    let up = Event::Touch(TouchEvent::FingerLifted { position: Point::new(200, 10) });
    assert_eq!(state.on_event(&down, DIVIDER, at(300, 10), Axis::Vertical), None);
    assert!(state.is_dragging());
    assert_eq!(state.on_event(&slide, DIVIDER, at(200, 10), Axis::Vertical), Some(200));
    assert_eq!(state.on_event(&up, DIVIDER, at(200, 10), Axis::Vertical), None);
    assert!(!state.is_dragging());
}

#[test]
fn release_ends_a_drag_anywhere() {
    let mut state = State::new();
    state.on_event(&PRESS, DIVIDER, at(300, 10), Axis::Vertical);
    state.on_event(&RELEASE, DIVIDER, at(-1000, 9000), Axis::Vertical);
    assert!(!state.is_dragging());
    state.on_event(&PRESS, DIVIDER, at(300, 10), Axis::Vertical);
    state.on_event(&RELEASE, DIVIDER, Cursor::Unavailable, Axis::Vertical);
    assert!(!state.is_dragging());
    state.on_event(&RELEASE, DIVIDER, at(300, 10), Axis::Vertical);
    assert!(!state.is_dragging());
}

#[test]
fn other_events_change_nothing() {
    let others = [
        Event::Keyboard,
        Event::Window,
        Event::Mouse(MouseEvent::CursorEntered),
        Event::Mouse(MouseEvent::CursorLeft),
        Event::Mouse(MouseEvent::WheelScrolled),
        Event::Mouse(MouseEvent::ButtonPressed(Button::Right)),
        Event::Mouse(MouseEvent::ButtonPressed(Button::Middle)),
        Event::Mouse(MouseEvent::ButtonPressed(Button::Other(7))),
        Event::Mouse(MouseEvent::ButtonReleased(Button::Right)),
        Event::Mouse(MouseEvent::ButtonReleased(Button::Back)),
        Event::Mouse(MouseEvent::ButtonReleased(Button::Forward)),
        Event::Touch(TouchEvent::FingerLost { position: Point::new(300, 10) }),
    ];
    for event in others {
        let mut idle = State::new();
        assert_eq!(idle.on_event(&event, DIVIDER, at(300, 10), Axis::Vertical), None);
        assert!(!idle.is_dragging(), "{event:?}");
        let mut held = State::new();
        held.on_event(&PRESS, DIVIDER, at(300, 10), Axis::Vertical);
        assert_eq!(held.on_event(&event, DIVIDER, at(300, 10), Axis::Vertical), None);
        assert!(held.is_dragging(), "{event:?}");
    }
}

#[test]
fn a_second_press_elsewhere_keeps_the_drag() {
    let mut state = State::new();
    state.on_event(&PRESS, DIVIDER, at(300, 10), Axis::Vertical);
    state.on_event(&PRESS, DIVIDER, at(0, 0), Axis::Vertical);
    assert!(state.is_dragging());
}

#[test]
fn motion_is_not_clamped_to_the_layout() {
    let mut state = State::new();
    state.on_event(&PRESS, DIVIDER, at(300, 10), Axis::Vertical);
    assert_eq!(state.on_event(&moved(0, 0), DIVIDER, at(0, 0), Axis::Vertical), Some(0));
    assert_eq!(state.on_event(&moved(60000, 0), DIVIDER, at(0, 0), Axis::Vertical), Some(60000));
}

#[test]
fn coordinates_stop_at_the_ends_of_their_range() {
    assert_eq!(coordinate_of(0), 0);
    assert_eq!(coordinate_of(-1), 0);
    assert_eq!(coordinate_of(i32::MIN), 0);
    assert_eq!(coordinate_of(65535), 65535);
    assert_eq!(coordinate_of(65536), 65535);
    assert_eq!(coordinate_of(i32::MAX), 65535);
    assert_eq!(coordinate_of(1234), 1234);
    for v in [-7.9f32, -0.2, 0.0, 0.9, 299.6, 65535.0, 65535.9, 70000.0] {
        assert_eq!(coordinate_of(v as i32), v as u16);
    }
}

#[test]
fn position_along_the_axis() {
    assert_eq!(along(Axis::Vertical, Point::new(3, 4)), 3);
    assert_eq!(along(Axis::Horizontal, Point::new(3, 4)), 4);
}

#[test]
fn cursor_positions() {
    assert_eq!(at(3, 4).position(), Some(Point::new(3, 4)));
    assert_eq!(Cursor::Unavailable.position(), None);
    assert_eq!(at(3, 4).position_or_origin(), Point::new(3, 4));
    assert_eq!(Cursor::Unavailable.position_or_origin(), Point::new(0, 0));
    let around_origin = Rectangle { x: -1, y: -1, width: 2, height: 2 };
    assert!(at(0, 0).is_over(around_origin, 0));
    assert!(!Cursor::Unavailable.is_over(around_origin, 0));
    assert!(!Cursor::Unavailable.is_over(around_origin, 5));
    assert!(at(5, 5).is_over(around_origin, 5));
    assert!(!at(6, 5).is_over(around_origin, 5));
}

#[test]
fn resize_message_is_what_the_callback_makes() {
    let split = split(Axis::Vertical);
    let mut state = State::new();
    assert_eq!(split.resize_message(&mut state, &PRESS, DIVIDER, at(300, 10)), None);
    assert_eq!(
        split.resize_message(&mut state, &moved(42, 0), DIVIDER, at(42, 0)),
        Some(Message::Resized(42))
    );
    assert_eq!(split.resize_message(&mut state, &RELEASE, DIVIDER, at(42, 0)), None);
    assert_eq!(split.resize_message(&mut state, &moved(43, 0), DIVIDER, at(43, 0)), None);
}
