use hotkey_overlay::controller::{Command, Notification, Overlay, Transition};
use hotkey_overlay::geometry::MoveDirection;
use hotkey_overlay::lookup::{KeyLookup, Slot};

fn full_table() -> KeyLookup {
    let mut t = KeyLookup::new();
    assert!(t.bind(Slot::Close, 35));
    assert!(t.bind(Slot::MoveRight, 0x0008_0027));
    assert!(t.bind(Slot::MoveLeft, 0x0008_0025));
    assert!(t.bind(Slot::MoveUp, 0x0008_0026));
    assert!(t.bind(Slot::MoveDown, 0x0008_0028));
    t
}

fn pressed(id: u32) -> Notification {
    Notification { id, transition: Transition::Pressed }
}

#[test]
fn every_bound_slot_decodes_back() {
    let t = full_table();
    for s in [Slot::Close, Slot::MoveLeft, Slot::MoveRight, Slot::MoveUp, Slot::MoveDown] {
        let id = t.id_for(s).unwrap();
        assert_eq!(t.slot_for(id), Some(s));
    }
}

#[test]
fn foreign_identifiers_are_unrecognized() {
    let t = full_table();
    for id in [0u32, 1, 36, 0x0008_0029, u32::MAX] {
        assert_eq!(t.slot_for(id), None);
    }
    assert_eq!(KeyLookup::new().slot_for(35), None);
}

#[test]
fn an_identifier_cannot_serve_two_slots() {
    let mut t = KeyLookup::new();
    assert!(t.bind(Slot::MoveLeft, 9));
    assert!(!t.bind(Slot::MoveRight, 9));
    assert_eq!(t.id_for(Slot::MoveRight), None);
    assert_eq!(t.slot_for(9), Some(Slot::MoveLeft));
    assert!(t.bind(Slot::MoveLeft, 9));
    assert!(t.bind(Slot::MoveLeft, 10));
    assert_eq!(t.slot_for(9), None);
    assert_eq!(t.slot_for(10), Some(Slot::MoveLeft));
}

#[test]
fn failed_registration_leaves_slot_inert() {
    let mut t = KeyLookup::new();
    assert!(t.bind(Slot::Close, 35));
    assert!(t.bind(Slot::MoveRight, 0x0008_0027));
    assert!(t.bind(Slot::MoveLeft, 0x0008_0025));
    assert!(t.bind(Slot::MoveDown, 0x0008_0028));
    let o: Overlay<u8> = Overlay::new(t);
    assert_eq!(o.decode(pressed(0x0008_0026)), None);
    assert_eq!(o.decode(pressed(35)), Some(Command::Close));
    assert_eq!(o.decode(pressed(0x0008_0027)), Some(Command::Move(MoveDirection::Right)));
    assert_eq!(o.decode(pressed(0x0008_0025)), Some(Command::Move(MoveDirection::Left)));
    assert_eq!(o.decode(pressed(0x0008_0028)), Some(Command::Move(MoveDirection::Down)));
}

#[test]
fn releases_carry_no_command() {
    let o: Overlay<u8> = Overlay::new(full_table());
    let n = Notification { id: 35, transition: Transition::Released };
    assert_eq!(o.decode(n), None);
    assert_eq!(o.decode(pressed(0x0008_0026)), Some(Command::Move(MoveDirection::Up)));
}
