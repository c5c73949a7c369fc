use vstd::prelude::*;

use crate::device::{is_valid_dpi, MediaButton, Modifier, MouseButton};

verus! {

/// What a DPI button does.
#[derive(Debug, Clone, Copy, PartialEq, Eq, Structural)]
pub enum DpiSwitch {
    Cycle,
    Up,
    Down,
}

/// How a macro button replays its bank.
#[derive(Debug, Clone, Copy, PartialEq, Eq, Structural)]
pub enum MacroMode {
    /// Replays the bank the given number of times.
    Burst(u8),
    RepeatUntilRelease,
    RepeatUntilAnotherPress,
}

/// The action bound to one button.
#[derive(Debug, Clone, Copy, PartialEq, Eq, Structural)]
pub enum ButtonAction {
    MouseButton(MouseButton),
    Scroll(i8),
    RepeatButton { which: MouseButton, interval: u8, count: u8 },
    DpiSwitch(DpiSwitch),
    /// Locks the DPI at the given actual value.
    DpiLock(u16),
    MediaButton(MediaButton),
    KeyboardShortcut { modifiers: Modifier, key: u8 },
    Disabled,
    /// Plays macro bank `.0` in mode `.1`.
    Macro(u8, MacroMode),
}

/// The actions of the six buttons.
pub type ButtonMapping = [ButtonAction; 6];

/// The wire code of a DPI switch mode.
pub open spec fn dpi_switch_code(s: DpiSwitch) -> u8 {
    match s {
        DpiSwitch::Cycle => 0,
        DpiSwitch::Up => 1,
        DpiSwitch::Down => 2,
    }
}

impl ButtonAction {
    /// Only defined bits in its bitmasks, and a DPI value the device can hold.
    pub open spec fn is_valid(self) -> bool {
        match self {
            ButtonAction::MouseButton(m) => m.is_valid(),
            ButtonAction::RepeatButton { which, .. } => which.is_valid(),
            ButtonAction::DpiLock(v) => is_valid_dpi(v),
            ButtonAction::MediaButton(m) => m.is_valid(),
            ButtonAction::KeyboardShortcut { modifiers, .. } => modifiers.is_valid(),
            _ => true,
        }
    }
}

/// The factory mapping: left, right, middle, back, forward, and DPI cycling.
pub open spec fn factory_map() -> Seq<ButtonAction> {
    seq![
        ButtonAction::MouseButton(MouseButton { bits: MouseButton::LEFT }),
        ButtonAction::MouseButton(MouseButton { bits: MouseButton::RIGHT }),
        ButtonAction::MouseButton(MouseButton { bits: MouseButton::MIDDLE }),
        ButtonAction::MouseButton(MouseButton { bits: MouseButton::BACK }),
        ButtonAction::MouseButton(MouseButton { bits: MouseButton::FORWARD }),
        ButtonAction::DpiSwitch(DpiSwitch::Cycle),
    ]
}

/// The factory mapping.
pub fn default_map() -> (r: ButtonMapping)
    ensures
        r@ == factory_map(),
{
    let r = [
        ButtonAction::MouseButton(MouseButton { bits: MouseButton::LEFT }),
        ButtonAction::MouseButton(MouseButton { bits: MouseButton::RIGHT }),
        ButtonAction::MouseButton(MouseButton { bits: MouseButton::MIDDLE }),
        ButtonAction::MouseButton(MouseButton { bits: MouseButton::BACK }),
        ButtonAction::MouseButton(MouseButton { bits: MouseButton::FORWARD }),
        ButtonAction::DpiSwitch(DpiSwitch::Cycle),
    ];
    assert(r@ =~= seq![
        ButtonAction::MouseButton(MouseButton { bits: MouseButton::LEFT }),
        ButtonAction::MouseButton(MouseButton { bits: MouseButton::RIGHT }),
        ButtonAction::MouseButton(MouseButton { bits: MouseButton::MIDDLE }),
        ButtonAction::MouseButton(MouseButton { bits: MouseButton::BACK }),
        ButtonAction::MouseButton(MouseButton { bits: MouseButton::FORWARD }),
        ButtonAction::DpiSwitch(DpiSwitch::Cycle),
    ]);
    r
}

} // verus!
