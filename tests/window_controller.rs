use hotkey_overlay::controller::{Action, Event, Notification, Overlay, Transition};
use hotkey_overlay::geometry::{offset, shifted, MoveDirection, Position};
use hotkey_overlay::lookup::{KeyLookup, Slot};

const CLOSE: u32 = 35;
const RIGHT: u32 = 0x0008_0027;
const LEFT: u32 = 0x0008_0025;
const UP: u32 = 0x0008_0026;
const DOWN: u32 = 0x0008_0028;

fn table() -> KeyLookup {
    let mut t = KeyLookup::new();
    assert!(t.bind(Slot::Close, CLOSE));
    assert!(t.bind(Slot::MoveRight, RIGHT));
    assert!(t.bind(Slot::MoveLeft, LEFT));
    assert!(t.bind(Slot::MoveUp, UP));
    assert!(t.bind(Slot::MoveDown, DOWN));
    t
}

fn key(id: u32) -> Event<u8> {
    Event::Hotkey(Notification { id, transition: Transition::Pressed })
}

fn released(id: u32) -> Event<u8> {
    Event::Hotkey(Notification { id, transition: Transition::Released })
}

fn opened_at(x: i32, y: i32) -> Overlay<u8> {
    let mut o: Overlay<u8> = Overlay::new(table());
    let a = o.update(Event::Opened(1, Some(Position { x, y })));
    assert!(matches!(a, Action::RequestNativeHandle(1)));
    o
}

#[test]
fn offsets_are_fixed_steps() {
    assert_eq!(offset(MoveDirection::Left), (-40, 0));
    assert_eq!(offset(MoveDirection::Right), (40, 0));
    assert_eq!(offset(MoveDirection::Up), (0, -40));
    assert_eq!(offset(MoveDirection::Down), (0, 40));
}

#[test]
fn left_then_right_cancels() {
    let (lx, ly) = offset(MoveDirection::Left);
    let (rx, ry) = offset(MoveDirection::Right);
    assert_eq!((lx + rx, ly + ry), (0, 0));
    let p = Position { x: -7, y: 12 };
    let there = shifted(p, MoveDirection::Left).unwrap();
    assert_eq!(there, Position { x: -47, y: 12 });
    assert_eq!(shifted(there, MoveDirection::Right), Some(p));
}

#[test]
fn shift_past_the_range_is_refused() {
    assert_eq!(shifted(Position { x: i32::MAX - 39, y: 0 }, MoveDirection::Right), None);
    assert_eq!(shifted(Position { x: 0, y: i32::MIN + 39 }, MoveDirection::Up), None);
    assert_eq!(
        shifted(Position { x: i32::MAX - 40, y: 0 }, MoveDirection::Right),
        Some(Position { x: i32::MAX, y: 0 })
    );
}

#[test]
fn right_then_down_from_one_hundred() {
    let mut o = opened_at(100, 100);
    let a = o.update(key(RIGHT));
    assert!(matches!(a, Action::MoveTo(1, Position { x: 140, y: 100 })));
    let a = o.update(key(DOWN));
    assert!(matches!(a, Action::MoveTo(1, Position { x: 140, y: 140 })));
    assert_eq!(o.position(), Some(Position { x: 140, y: 140 }));
}

#[test]
fn close_before_open_exits() {
    let mut o: Overlay<u8> = Overlay::new(table());
    let a = o.update(key(CLOSE));
    assert!(matches!(a, Action::Exit));
    assert!(o.is_closing());
    assert!(matches!(o.update(key(RIGHT)), Action::Nothing));
    assert!(matches!(o.update(Event::Opened(1, Some(Position { x: 0, y: 0 }))), Action::Nothing));
}

#[test]
fn move_before_open_is_noop() {
    let mut o: Overlay<u8> = Overlay::new(table());
    assert!(matches!(o.update(key(LEFT)), Action::Nothing));
    assert!(matches!(o.update(Event::Move(MoveDirection::Down)), Action::Nothing));
    assert_eq!(o.position(), None);
    assert!(!o.is_closing());
}

#[test]
fn move_without_reported_position_is_noop() {
    let mut o: Overlay<u8> = Overlay::new(table());
    assert!(matches!(o.update(Event::Opened(4, None)), Action::RequestNativeHandle(4)));
    assert!(matches!(o.update(key(UP)), Action::Nothing));
    assert_eq!(o.position(), None);
}

#[test]
fn moves_accumulate_among_other_messages() {
    let mut o = opened_at(10, -20);
    let events = vec![
        key(RIGHT),
        Event::Other,
        released(LEFT),
        key(RIGHT),
        key(0x1234),
        Event::NativeHandle(77),
        key(UP),
        Event::Move(MoveDirection::Left),
        Event::Opened(9, Some(Position { x: 0, y: 0 })),
        key(UP),
        key(DOWN),
    ];
    for e in events {
        let _ = o.update(e);
    }
    assert_eq!(o.position(), Some(Position { x: 10 + 40, y: -20 - 40 }));
}

#[test]
fn move_at_the_edge_is_dropped() {
    let mut o = opened_at(i32::MAX - 10, 0);
    assert!(matches!(o.update(key(RIGHT)), Action::Nothing));
    assert_eq!(o.position(), Some(Position { x: i32::MAX - 10, y: 0 }));
    assert!(matches!(o.update(key(LEFT)), Action::MoveTo(1, Position { x: 2147483597, y: 0 })));
}

#[test]
fn overlay_style_requested_once() {
    let mut o: Overlay<u8> = Overlay::new(table());
    assert!(matches!(o.update(Event::NativeHandle(5)), Action::Nothing));
    let _ = o.update(Event::Opened(1, Some(Position { x: 0, y: 0 })));
    assert!(matches!(o.update(Event::NativeHandle(0xABCD)), Action::ApplyOverlayStyle(0xABCD)));
    assert!(matches!(o.update(Event::NativeHandle(0xABCD)), Action::Nothing));
}

#[test]
fn second_open_is_ignored() {
    let mut o = opened_at(100, 100);
    assert!(matches!(o.update(Event::Opened(2, Some(Position { x: 5, y: 5 }))), Action::Nothing));
    assert!(matches!(o.update(key(LEFT)), Action::MoveTo(1, Position { x: 60, y: 100 })));
}
