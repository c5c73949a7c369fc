use gloryctl::buttonmap::{DpiSwitch, MacroMode};
use gloryctl::text::{parse_button_assignment, ParseError};
use gloryctl::{ButtonAction, Color, MediaButton, Modifier, MouseButton};

fn mouse(bits: u8) -> MouseButton {
    MouseButton::from_bits(bits).unwrap()
}

#[test]
fn parse_simple_actions() {
    assert_eq!(ButtonAction::from_str("disable"), Ok(ButtonAction::Disabled));
    assert_eq!(ButtonAction::from_str("mouse:left"), Ok(ButtonAction::MouseButton(mouse(1))));
    assert_eq!(ButtonAction::from_str("mouse:forward"), Ok(ButtonAction::MouseButton(mouse(0x10))));
    assert_eq!(ButtonAction::from_str("scroll:up"), Ok(ButtonAction::Scroll(1)));
    assert_eq!(ButtonAction::from_str("scroll:down"), Ok(ButtonAction::Scroll(-1)));
    assert_eq!(ButtonAction::from_str("scroll:-128"), Ok(ButtonAction::Scroll(-128)));
    assert_eq!(ButtonAction::from_str("scroll:+7"), Ok(ButtonAction::Scroll(7)));
    assert_eq!(ButtonAction::from_str("dpi:loop"), Ok(ButtonAction::DpiSwitch(DpiSwitch::Cycle)));
    assert_eq!(ButtonAction::from_str("dpi:up"), Ok(ButtonAction::DpiSwitch(DpiSwitch::Up)));
    assert_eq!(ButtonAction::from_str("dpi-lock:1600"), Ok(ButtonAction::DpiLock(1600)));
    assert_eq!(
        ButtonAction::from_str("media:play-pause"),
        Ok(ButtonAction::MediaButton(MediaButton::from_bits(MediaButton::PLAY_PAUSE).unwrap()))
    );
    assert_eq!(ButtonAction::from_str("macro:3"), Ok(ButtonAction::Macro(3, MacroMode::Burst(1))));
}

#[test]
fn parse_repeat_and_keyboard() {
    assert_eq!(
        ButtonAction::from_str("repeat:left:5"),
        Ok(ButtonAction::RepeatButton { which: mouse(1), count: 5, interval: 50 })
    );
    assert_eq!(
        ButtonAction::from_str("repeat:right:2:10"),
        Ok(ButtonAction::RepeatButton { which: mouse(2), count: 2, interval: 10 })
    );
    assert_eq!(ButtonAction::from_str("repeat:left"), Err(ParseError::WrongParameterCount));
    assert_eq!(ButtonAction::from_str("repeat:left:1:2:3"), Err(ParseError::WrongParameterCount));
    assert_eq!(ButtonAction::from_str("repeat:nose:1"), Err(ParseError::InvalidMouseButton));
    assert_eq!(ButtonAction::from_str("repeat:left:256"), Err(ParseError::InvalidNumber));
    assert_eq!(
        ButtonAction::from_str("keyboard:ctrl+shift:4"),
        Ok(ButtonAction::KeyboardShortcut { modifiers: Modifier::from_bits(3).unwrap(), key: 4 })
    );
    assert_eq!(
        ButtonAction::from_str("keyboard:win:40"),
        Ok(ButtonAction::KeyboardShortcut { modifiers: Modifier::from_bits(8).unwrap(), key: 40 })
    );
    assert_eq!(ButtonAction::from_str("keyboard:ctrl"), Err(ParseError::WrongParameterCount));
    assert_eq!(ButtonAction::from_str("keyboard:ctrl:1:2"), Err(ParseError::WrongParameterCount));
    assert_eq!(ButtonAction::from_str("keyboard:meta:1"), Err(ParseError::UnknownModifier));
}

#[test]
fn parse_action_errors() {
    assert_eq!(ButtonAction::from_str("mouse"), Err(ParseError::MissingParameters));
    assert_eq!(ButtonAction::from_str("disable:1"), Err(ParseError::UnexpectedParameter));
    assert_eq!(ButtonAction::from_str("jump:1"), Err(ParseError::UnknownActionType));
    assert_eq!(ButtonAction::from_str("mouse:thumb"), Err(ParseError::InvalidMouseButton));
    assert_eq!(ButtonAction::from_str("scroll:200"), Err(ParseError::InvalidNumber));
    assert_eq!(ButtonAction::from_str("scroll:-129"), Err(ParseError::InvalidNumber));
    assert_eq!(ButtonAction::from_str("scroll:-"), Err(ParseError::InvalidNumber));
    assert_eq!(ButtonAction::from_str("dpi:sideways"), Err(ParseError::InvalidDpiSwitch));
    assert_eq!(ButtonAction::from_str("dpi-lock:70000"), Err(ParseError::InvalidNumber));
    assert_eq!(ButtonAction::from_str("media:eject"), Err(ParseError::InvalidMediaButton));
    assert_eq!(ButtonAction::from_str("macro:x"), Err(ParseError::InvalidNumber));
}

#[test]
fn parse_names() {
    assert_eq!(MouseButton::from_str("middle"), Ok(mouse(4)));
    assert_eq!(MouseButton::from_str("Left"), Err(ParseError::InvalidMouseButton));
    assert_eq!(DpiSwitch::from_str("down"), Ok(DpiSwitch::Down));
    assert_eq!(MediaButton::from_str("vol-down").unwrap().bits(), MediaButton::VOLUME_DOWN);
    assert_eq!(MediaButton::from_str("home").unwrap().bits(), 0x2);
    assert_eq!(Modifier::from_str("alt+super").unwrap().bits(), 0x0c);
    assert_eq!(Modifier::from_str("ctrl+"), Err(ParseError::UnknownModifier));
    assert_eq!(Modifier::from_str(""), Err(ParseError::UnknownModifier));
}

#[test]
fn parse_hex_colors() {
    assert_eq!(Color::from_str("ff8000"), Ok(Color { r: 0xff, g: 0x80, b: 0x00 }));
    assert_eq!(Color::from_str("0A0b0C"), Ok(Color { r: 0x0a, g: 0x0b, b: 0x0c }));
    assert_eq!(Color::from_str("ff80"), Err(ParseError::InvalidColor));
    assert_eq!(Color::from_str("ff800g"), Err(ParseError::InvalidColor));
    assert_eq!(Color::from_str("ff80000"), Err(ParseError::InvalidColor));
}

#[test]
fn parse_assignments() {
    assert_eq!(parse_button_assignment("6:dpi:up"), Ok((6, ButtonAction::DpiSwitch(DpiSwitch::Up))));
    assert_eq!(parse_button_assignment("1:disable"), Ok((1, ButtonAction::Disabled)));
    assert_eq!(parse_button_assignment("9:mouse:left"), Ok((9, ButtonAction::MouseButton(mouse(1)))));
    assert_eq!(parse_button_assignment("disable"), Err(ParseError::MissingParameters));
    assert_eq!(parse_button_assignment("x:disable"), Err(ParseError::InvalidNumber));
    assert_eq!(parse_button_assignment("2:mouse:up"), Err(ParseError::InvalidMouseButton));
}
