use gloryctl::macros::{Event, EventType, Macro, State};
use gloryctl::{CodecError, Modifier, MouseButton};

#[test]
fn event_decode() {
    let e = Event::parse(&[0xe1, 0x23, 0x02]).unwrap();
    assert_eq!(e.state, State::Up);
    assert_eq!(e.evtype, EventType::Modifier(Modifier::from_bits(2).unwrap()));
    assert_eq!(e.duration, 0x123);
    let e = Event::parse(&[0x50, 0x05, 0x04]).unwrap();
    assert_eq!(e.state, State::Down);
    assert_eq!(e.evtype, EventType::Keyboard(4));
    assert_eq!(e.duration, 5);
    let e = Event::parse(&[0x1f, 0xff, 0x01]).unwrap();
    assert_eq!(e.evtype, EventType::Mouse(MouseButton::from_bits(1).unwrap()));
    assert_eq!(e.duration, 4095);
}

#[test]
fn event_errors() {
    assert_eq!(Event::parse(&[0x50, 0x05]).unwrap_err(), CodecError::Truncated);
    assert_eq!(Event::parse(&[0x20, 0x00, 0x00]).unwrap_err(), CodecError::UnknownActionTag);
    assert_eq!(Event::parse(&[0x60, 0x00, 0x10]).unwrap_err(), CodecError::UnknownActionTag);
}

#[test]
fn event_encode_round_trip() {
    let e = Event { state: State::Up, evtype: EventType::Keyboard(0x2c), duration: 0xabc };
    let mut out = Vec::new();
    e.put(&mut out);
    assert_eq!(out, vec![0xda, 0xbc, 0x2c]);
    assert_eq!(Event::parse(&out).unwrap(), e);
}

#[test]
fn macro_bank_decode() {
    let mut b = vec![0u8; 8];
    b.extend_from_slice(&[2, 0, 2, 0x50, 0x10, 0x04, 0xd0, 0x20, 0x04]);
    let m = Macro::parse(&b).unwrap();
    assert_eq!(m.bank_number, 2);
    assert_eq!(m.events.len(), 2);
    assert_eq!(m.events[1].state, State::Up);
    assert_eq!(m.events[1].duration, 0x20);
    assert_eq!(Macro::parse(&b[..16]).unwrap_err(), CodecError::Truncated);
    assert_eq!(Macro::parse(&b[..10]).unwrap_err(), CodecError::Truncated);
}
