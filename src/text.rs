use vstd::prelude::*;
use vstd::string::StringSliceAdditionalSpecFns;

use hex::FromHex;

use crate::buttonmap::{ButtonAction, DpiSwitch, MacroMode};
use crate::device::{Color, MediaButton, Modifier, MouseButton};

verus! {

/// Why a textual setting was refused.
#[derive(Debug, Clone, Copy, PartialEq, Eq, Structural)]
pub enum ParseError {
    /// An action other than `disable` without `:` and parameters.
    MissingParameters,
    /// `disable` followed by parameters.
    UnexpectedParameter,
    UnknownActionType,
    /// A parameter list with too few or too many parts.
    WrongParameterCount,
    InvalidMouseButton,
    InvalidDpiSwitch,
    InvalidMediaButton,
    UnknownModifier,
    InvalidNumber,
    InvalidColor,
}

/// The index of the first `c` in `s`, or `s.len()` where there is none.
pub open spec fn index_of(s: Seq<u8>, c: u8) -> int
    decreases s.len(),
{
    if s.len() == 0 {
        0
    } else if s[0] == c {
        0
    } else {
        1 + index_of(s.skip(1), c)
    }
}

/// The parts before and after the first `c`, if `s` holds one.
pub open spec fn split_once(s: Seq<u8>, c: u8) -> Option<(Seq<u8>, Seq<u8>)> {
    let i = index_of(s, c);
    if i < s.len() {
        Some((s.take(i), s.skip(i + 1)))
    } else {
        None
    }
}

proof fn lemma_index_of(s: Seq<u8>, c: u8, i: int)
    requires
        0 <= i <= s.len(),
        forall|k: int| 0 <= k < i ==> s[k] != c,
        i == s.len() || s[i] == c,
    ensures
        index_of(s, c) == i,
    decreases s.len(),
{
    if s.len() > 0 && i > 0 {
        lemma_index_of(s.skip(1), c, i - 1);
    }
}

fn find_byte(s: &[u8], c: u8) -> (r: usize)
    ensures
        r as int == index_of(s@, c),
        r <= s@.len(),
{
    let mut i: usize = 0;
    while i < s.len()
        invariant
            i <= s@.len(),
            forall|k: int| 0 <= k < i ==> s@[k] != c,
        decreases s@.len() - i,
    {
        if s[i] == c {
            proof {
                lemma_index_of(s@, c, i as int);
            }
            return i;
        }
        i = i + 1;
    }
    proof {
        lemma_index_of(s@, c, i as int);
    }
    i
}

fn slice_of(s: &[u8], from: usize, to: usize) -> (r: Vec<u8>)
    requires
        from <= to <= s@.len(),
    ensures
        r@ == s@.subrange(from as int, to as int),
{
    let mut out: Vec<u8> = Vec::new();
    let mut i: usize = from;
    while i < to
        invariant
            from <= i <= to <= s@.len(),
            out@ == s@.subrange(from as int, i as int),
        decreases to - i,
    {
        out.push(s[i]);
        i = i + 1;
        assert(out@ =~= s@.subrange(from as int, i as int));
    }
    out
}

fn split_once_exec(s: &[u8], c: u8) -> (r: Option<(Vec<u8>, Vec<u8>)>)
    ensures
        match r {
            Some((a, b)) => split_once(s@, c) == Some((a@, b@)),
            None => split_once(s@, c) is None,
        },
{
    let i = find_byte(s, c);
    if i < s.len() {
        let a = slice_of(s, 0, i);
        let b = slice_of(s, i + 1, s.len());
        assert(a@ =~= s@.take(i as int));
        assert(b@ =~= s@.skip(i + 1));
        Some((a, b))
    } else {
        None
    }
}

/// Whether the bytes spell the given word.
fn is_word(s: &[u8], word: &str) -> (r: bool)
    ensures
        r == (s@ == word.spec_bytes()),
{
    let w = word.as_bytes();
    if s.len() != w.len() {
        return false;
    }
    let mut i: usize = 0;
    while i < s.len()
        invariant
            i <= s@.len(),
            s@.len() == w@.len(),
            w@ == word.spec_bytes(),
            forall|k: int| 0 <= k < i ==> s@[k] == w@[k],
        decreases s@.len() - i,
    {
        if s[i] != w[i] {
            return false;
        }
        i = i + 1;
    }
    assert(s@ =~= w@);
    true
}

/// A decimal digit's value, or -1 for any other byte.
pub open spec fn digit_value(c: u8) -> int {
    if 48 <= c <= 57 {
        c - 48
    } else {
        -1
    }
}

/// Every byte is a decimal digit.
pub open spec fn all_digits(d: Seq<u8>) -> bool {
    forall|i: int| 0 <= i < d.len() ==> digit_value(#[trigger] d[i]) >= 0
}

/// The value of a string of decimal digits.
pub open spec fn decimal_value(d: Seq<u8>) -> int
    decreases d.len(),
{
    if d.len() == 0 {
        0
    } else {
        10 * decimal_value(d.drop_last()) + digit_value(d.last())
    }
}

/// An unsigned decimal: an optional `+`, then at least one digit, with a value at most `max`.
pub open spec fn unsigned_of(s: Seq<u8>, max: int) -> Option<int> {
    let d = if s.len() > 0 && s[0] == 43u8 { s.skip(1) } else { s };
    if d.len() > 0 && all_digits(d) && decimal_value(d) <= max {
        Some(decimal_value(d))
    } else {
        None
    }
}

/// A signed byte in decimal: `-` and digits for a value down to -128, else as unsigned up to 127.
pub open spec fn i8_of(s: Seq<u8>) -> Option<i8> {
    if s.len() > 0 && s[0] == 45u8 {
        let d = s.skip(1);
        if d.len() > 0 && all_digits(d) && decimal_value(d) <= 128 {
            Some((0 - decimal_value(d)) as i8)
        } else {
            None
        }
    } else {
        match unsigned_of(s, 127) {
            Some(v) => Some(v as i8),
            None => None,
        }
    }
}

proof fn lemma_decimal_nonneg(d: Seq<u8>)
    requires
        all_digits(d),
    ensures
        decimal_value(d) >= 0,
    decreases d.len(),
{
    if d.len() > 0 {
        assert(all_digits(d.drop_last())) by {
            assert forall|i: int| 0 <= i < d.drop_last().len() implies digit_value(
                #[trigger] d.drop_last()[i],
            ) >= 0 by {
                assert(d.drop_last()[i] == d[i]);
            }
        }
        lemma_decimal_nonneg(d.drop_last());
        assert(digit_value(d[d.len() - 1]) >= 0);
    }
}

/// Reads the digits of `s` from `from` on; `None` unless all are digits and the value is at most `max`.
fn digits_value(s: &[u8], from: usize, max: u32) -> (r: Option<u32>)
    requires
        from <= s@.len(),
        max < 0x10000,
    ensures
        ({
            let d = s@.skip(from as int);
            match r {
                Some(v) => all_digits(d) && decimal_value(d) <= max && v == decimal_value(d),
                None => !(all_digits(d) && decimal_value(d) <= max),
            }
        }),
{
    let mut acc: u32 = 0;
    let mut over = false;
    let mut i: usize = from;
    while i < s.len()
        invariant
            from <= i <= s@.len(),
            max < 0x10000,
            all_digits(s@.subrange(from as int, i as int)),
            !over ==> acc == decimal_value(s@.subrange(from as int, i as int)) && acc <= max,
            over ==> decimal_value(s@.subrange(from as int, i as int)) > max,
        decreases s@.len() - i,
    {
        let c = s[i];
        if c < 48 || c > 57 {
            proof {
                let d = s@.skip(from as int);
                assert(d[i - from] == c);
                assert(!all_digits(d));
            }
            return None;
        }
        let ghost prev = s@.subrange(from as int, i as int);
        let ghost next = s@.subrange(from as int, i + 1);
        assert(next.drop_last() =~= prev);
        assert(all_digits(next)) by {
            assert forall|k: int| 0 <= k < next.len() implies digit_value(#[trigger] next[k]) >= 0 by {
                if k < prev.len() {
                    assert(next[k] == prev[k]);
                }
            }
        }
        proof {
            lemma_decimal_nonneg(prev);
        }
        if !over {
            let v = acc * 10 + (c - 48) as u32;
            if v > max {
                over = true;
            } else {
                acc = v;
            }
        }
        i = i + 1;
    }
    assert(s@.subrange(from as int, i as int) =~= s@.skip(from as int));
    if over {
        None
    } else {
        Some(acc)
    }
}

/// Reads an unsigned decimal of at most `max`.
fn parse_unsigned(s: &[u8], max: u32) -> (r: Option<u32>)
    requires
        max < 0x10000,
    ensures
        match r {
            Some(v) => unsigned_of(s@, max as int) == Some(v as int),
            None => unsigned_of(s@, max as int) is None,
        },
{
    let from: usize = if s.len() > 0 && s[0] == 43u8 {
        1
    } else {
        0
    };
    if from >= s.len() {
        return None;
    }
    assert(s@.skip(0) =~= s@);
    digits_value(s, from, max)
}

fn parse_u8(s: &[u8]) -> (r: Option<u8>)
    ensures
        match r {
            Some(v) => unsigned_of(s@, 255) == Some(v as int),
            None => unsigned_of(s@, 255) is None,
        },
{
    match parse_unsigned(s, 255) {
        Some(v) => Some(v as u8),
        None => None,
    }
}

fn parse_u16(s: &[u8]) -> (r: Option<u16>)
    ensures
        match r {
            Some(v) => unsigned_of(s@, 65535) == Some(v as int),
            None => unsigned_of(s@, 65535) is None,
        },
{
    match parse_unsigned(s, 65535) {
        Some(v) => Some(v as u16),
        None => None,
    }
}

fn parse_i8(s: &[u8]) -> (r: Option<i8>)
    ensures
        r == i8_of(s@),
{
    if s.len() > 0 && s[0] == 45u8 {
        if s.len() < 2 {
            return None;
        }
        match digits_value(s, 1, 128) {
            Some(v) => Some((0 - (v as i16)) as i8),
            None => None,
        }
    } else {
        match parse_unsigned(s, 127) {
            Some(v) => Some(v as i8),
            None => None,
        }
    }
}

/// The mouse button a word names.
pub open spec fn mouse_button_named(w: Seq<u8>) -> Option<MouseButton> {
    if w == "left".spec_bytes() {
        Some(MouseButton { bits: MouseButton::LEFT })
    } else if w == "right".spec_bytes() {
        Some(MouseButton { bits: MouseButton::RIGHT })
    } else if w == "middle".spec_bytes() {
        Some(MouseButton { bits: MouseButton::MIDDLE })
    } else if w == "back".spec_bytes() {
        Some(MouseButton { bits: MouseButton::BACK })
    } else if w == "forward".spec_bytes() {
        Some(MouseButton { bits: MouseButton::FORWARD })
    } else {
        None
    }
}

/// The DPI switch mode a word names.
pub open spec fn dpi_switch_named(w: Seq<u8>) -> Option<DpiSwitch> {
    if w == "cycle".spec_bytes() || w == "loop".spec_bytes() {
        Some(DpiSwitch::Cycle)
    } else if w == "up".spec_bytes() {
        Some(DpiSwitch::Up)
    } else if w == "down".spec_bytes() {
        Some(DpiSwitch::Down)
    } else {
        None
    }
}

/// The media key a word names.
pub open spec fn media_key_named(w: Seq<u8>) -> Option<u32> {
    if w == "home".spec_bytes() || w == "home-page".spec_bytes() {
        Some(MediaButton::HOME_PAGE)
    } else if w == "player".spec_bytes() || w == "media-player".spec_bytes() {
        Some(MediaButton::MEDIA_PLAYER)
    } else if w == "explorer".spec_bytes() {
        Some(MediaButton::EXPLORER)
    } else if w == "mail".spec_bytes() || w == "email".spec_bytes() {
        Some(MediaButton::EMAIL)
    } else if w == "calc".spec_bytes() || w == "calculator".spec_bytes() {
        Some(MediaButton::CALCULATOR)
    } else if w == "next".spec_bytes() {
        Some(MediaButton::NEXT)
    } else if w == "prev".spec_bytes() || w == "previous".spec_bytes() {
        Some(MediaButton::PREVIOUS)
    } else if w == "stop".spec_bytes() {
        Some(MediaButton::STOP)
    } else if w == "playpause".spec_bytes() || w == "play-pause".spec_bytes() {
        Some(MediaButton::PLAY_PAUSE)
    } else if w == "mute".spec_bytes() || w == "toggle-mute".spec_bytes() {
        Some(MediaButton::MUTE)
    } else if w == "vol-up".spec_bytes() || w == "volume-up".spec_bytes() {
        Some(MediaButton::VOLUME_UP)
    } else if w == "vol-down".spec_bytes() || w == "volume-down".spec_bytes() {
        Some(MediaButton::VOLUME_DOWN)
    } else {
        None
    }
}

/// The modifier bit a word names.
pub open spec fn modifier_named(w: Seq<u8>) -> Option<u8> {
    if w == "ctrl".spec_bytes() {
        Some(Modifier::CTRL)
    } else if w == "shift".spec_bytes() {
        Some(Modifier::SHIFT)
    } else if w == "alt".spec_bytes() {
        Some(Modifier::ALT)
    } else if w == "super".spec_bytes() || w == "win".spec_bytes() {
        Some(Modifier::SUPER)
    } else {
        None
    }
}

/// Reads the rest `s` of a `+`-separated modifier list whose current word so far is
/// `word`, with the bits of the finished words in `acc`; `None` where a word names no
/// modifier.
pub open spec fn modifiers_from(s: Seq<u8>, word: Seq<u8>, acc: u8) -> Option<u8>
    decreases s.len(),
{
    if s.len() == 0 {
        match modifier_named(word) {
            Some(m) => Some(acc | m),
            None => None,
        }
    } else if s[0] == 43u8 {
        match modifier_named(word) {
            Some(m) => modifiers_from(s.skip(1), Seq::empty(), acc | m),
            None => None,
        }
    } else {
        modifiers_from(s.skip(1), word.push(s[0]), acc)
    }
}

/// The modifiers a `+`-separated list of names stands for.
pub open spec fn modifiers_named(s: Seq<u8>) -> Option<u8> {
    modifiers_from(s, Seq::empty(), 0)
}

fn mouse_button_word(w: &[u8]) -> (r: Option<MouseButton>)
    ensures
        r == mouse_button_named(w@),
{
    if is_word(w, "left") {
        Some(MouseButton { bits: MouseButton::LEFT })
    } else if is_word(w, "right") {
        Some(MouseButton { bits: MouseButton::RIGHT })
    } else if is_word(w, "middle") {
        Some(MouseButton { bits: MouseButton::MIDDLE })
    } else if is_word(w, "back") {
        Some(MouseButton { bits: MouseButton::BACK })
    } else if is_word(w, "forward") {
        Some(MouseButton { bits: MouseButton::FORWARD })
    } else {
        None
    }
}

fn dpi_switch_word(w: &[u8]) -> (r: Option<DpiSwitch>)
    ensures
        r == dpi_switch_named(w@),
{
    if is_word(w, "cycle") || is_word(w, "loop") {
        Some(DpiSwitch::Cycle)
    } else if is_word(w, "up") {
        Some(DpiSwitch::Up)
    } else if is_word(w, "down") {
        Some(DpiSwitch::Down)
    } else {
        None
    }
}

fn media_key_word(w: &[u8]) -> (r: Option<u32>)
    ensures
        r == media_key_named(w@),
{
    if is_word(w, "home") || is_word(w, "home-page") {
        Some(MediaButton::HOME_PAGE)
    } else if is_word(w, "player") || is_word(w, "media-player") {
        Some(MediaButton::MEDIA_PLAYER)
    } else if is_word(w, "explorer") {
        Some(MediaButton::EXPLORER)
    } else if is_word(w, "mail") || is_word(w, "email") {
        Some(MediaButton::EMAIL)
    } else if is_word(w, "calc") || is_word(w, "calculator") {
        Some(MediaButton::CALCULATOR)
    } else if is_word(w, "next") {
        Some(MediaButton::NEXT)
    } else if is_word(w, "prev") || is_word(w, "previous") {
        Some(MediaButton::PREVIOUS)
    } else if is_word(w, "stop") {
        Some(MediaButton::STOP)
    } else if is_word(w, "playpause") || is_word(w, "play-pause") {
        Some(MediaButton::PLAY_PAUSE)
    } else if is_word(w, "mute") || is_word(w, "toggle-mute") {
        Some(MediaButton::MUTE)
    } else if is_word(w, "vol-up") || is_word(w, "volume-up") {
        Some(MediaButton::VOLUME_UP)
    } else if is_word(w, "vol-down") || is_word(w, "volume-down") {
        Some(MediaButton::VOLUME_DOWN)
    } else {
        None
    }
}

fn modifier_word(w: &[u8]) -> (r: Option<u8>)
    ensures
        r == modifier_named(w@),
{
    if is_word(w, "ctrl") {
        Some(Modifier::CTRL)
    } else if is_word(w, "shift") {
        Some(Modifier::SHIFT)
    } else if is_word(w, "alt") {
        Some(Modifier::ALT)
    } else if is_word(w, "super") || is_word(w, "win") {
        Some(Modifier::SUPER)
    } else {
        None
    }
}

fn modifiers_word(s: &[u8]) -> (r: Option<u8>)
    ensures
        r == modifiers_named(s@),
{
    let mut word: Vec<u8> = Vec::new();
    let mut acc: u8 = 0;
    let mut i: usize = 0;
    assert(s@.skip(0) =~= s@);
    assert(word@ =~= Seq::<u8>::empty());
    while i < s.len()
        invariant
            i <= s@.len(),
            modifiers_from(s@.skip(i as int), word@, acc) == modifiers_named(s@),
        decreases s@.len() - i,
    {
        assert(s@.skip(i as int).skip(1) =~= s@.skip(i + 1));
        if s[i] == 43u8 {
            match modifier_word(word.as_slice()) {
                Some(m) => {
                    acc = acc | m;
                    word = Vec::new();
                    assert(word@ =~= Seq::<u8>::empty());
                },
                None => {
                    return None;
                },
            }
        } else {
            word.push(s[i]);
        }
        i = i + 1;
    }
    assert(s@.skip(i as int) =~= Seq::<u8>::empty());
    match modifier_word(word.as_slice()) {
        Some(m) => Some(acc | m),
        None => None,
    }
}

/// The number of parts of a `:`-separated parameter list, up to 3 (3 standing for more).
pub open spec fn colon_parts(s: Seq<u8>) -> Seq<Seq<u8>> {
    match split_once(s, 58u8) {
        None => seq![s],
        Some((a, rest)) => match split_once(rest, 58u8) {
            None => seq![a, rest],
            Some((b, c)) => if index_of(c, 58u8) < c.len() {
                seq![a, b, c, Seq::empty()]
            } else {
                seq![a, b, c]
            },
        },
    }
}

/// A scroll amount: `up` (1), `down` (-1) or a signed byte.
pub open spec fn scroll_named(data: Seq<u8>) -> Result<ButtonAction, ParseError> {
    if data == "up".spec_bytes() {
        Ok(ButtonAction::Scroll(1))
    } else if data == "down".spec_bytes() {
        Ok(ButtonAction::Scroll(-1i8))
    } else {
        match i8_of(data) {
            Some(v) => Ok(ButtonAction::Scroll(v)),
            None => Err(ParseError::InvalidNumber),
        }
    }
}

/// `button:count[:interval]`, the interval being 50 where it is left out.
pub open spec fn repeat_named(data: Seq<u8>) -> Result<ButtonAction, ParseError> {
    let parts = colon_parts(data);
    if parts.len() < 2 || parts.len() > 3 {
        Err(ParseError::WrongParameterCount)
    } else {
        match mouse_button_named(parts[0]) {
            None => Err(ParseError::InvalidMouseButton),
            Some(which) => match unsigned_of(parts[1], 255) {
                None => Err(ParseError::InvalidNumber),
                Some(count) => if parts.len() > 2 {
                    match unsigned_of(parts[2], 255) {
                        None => Err(ParseError::InvalidNumber),
                        Some(interval) => Ok(
                            ButtonAction::RepeatButton {
                                which,
                                count: count as u8,
                                interval: interval as u8,
                            },
                        ),
                    }
                } else {
                    Ok(ButtonAction::RepeatButton { which, count: count as u8, interval: 50 })
                },
            },
        }
    }
}

/// `modifiers:key`, the key being a key code.
pub open spec fn keyboard_named(data: Seq<u8>) -> Result<ButtonAction, ParseError> {
    let parts = colon_parts(data);
    if parts.len() != 2 {
        Err(ParseError::WrongParameterCount)
    } else {
        match modifiers_named(parts[0]) {
            None => Err(ParseError::UnknownModifier),
            Some(m) => match unsigned_of(parts[1], 255) {
                None => Err(ParseError::InvalidNumber),
                Some(key) => Ok(
                    ButtonAction::KeyboardShortcut { modifiers: Modifier { bits: m }, key: key as u8 },
                ),
            },
        }
    }
}

/// The action that a textual setting describes, or why it is refused.
pub open spec fn action_named(s: Seq<u8>) -> Result<ButtonAction, ParseError> {
    if s == "disable".spec_bytes() {
        Ok(ButtonAction::Disabled)
    } else {
        match split_once(s, 58u8) {
            None => Err(ParseError::MissingParameters),
            Some((branch, data)) => if branch == "mouse".spec_bytes() {
                match mouse_button_named(data) {
                    Some(m) => Ok(ButtonAction::MouseButton(m)),
                    None => Err(ParseError::InvalidMouseButton),
                }
            } else if branch == "scroll".spec_bytes() {
                scroll_named(data)
            } else if branch == "repeat".spec_bytes() {
                repeat_named(data)
            } else if branch == "dpi".spec_bytes() {
                match dpi_switch_named(data) {
                    Some(d) => Ok(ButtonAction::DpiSwitch(d)),
                    None => Err(ParseError::InvalidDpiSwitch),
                }
            } else if branch == "dpi-lock".spec_bytes() {
                match unsigned_of(data, 65535) {
                    Some(v) => Ok(ButtonAction::DpiLock(v as u16)),
                    None => Err(ParseError::InvalidNumber),
                }
            } else if branch == "media".spec_bytes() {
                match media_key_named(data) {
                    Some(bits) => Ok(ButtonAction::MediaButton(MediaButton { bits })),
                    None => Err(ParseError::InvalidMediaButton),
                }
            } else if branch == "macro".spec_bytes() {
                match unsigned_of(data, 255) {
                    Some(bank) => Ok(ButtonAction::Macro(bank as u8, MacroMode::Burst(1))),
                    None => Err(ParseError::InvalidNumber),
                }
            } else if branch == "keyboard".spec_bytes() {
                keyboard_named(data)
            } else if branch == "disable".spec_bytes() {
                Err(ParseError::UnexpectedParameter)
            } else {
                Err(ParseError::UnknownActionType)
            },
        }
    }
}

impl MouseButton {
    /// Reads a mouse button name: `left`, `right`, `middle`, `back` or `forward`.
    pub fn from_str(s: &str) -> (r: Result<MouseButton, ParseError>)
        ensures
            r == match mouse_button_named(s.spec_bytes()) {
                Some(m) => Ok(m),
                None => Err(ParseError::InvalidMouseButton),
            },
    {
        match mouse_button_word(s.as_bytes()) {
            Some(m) => Ok(m),
            None => Err(ParseError::InvalidMouseButton),
        }
    }
}

impl DpiSwitch {
    /// Reads a DPI switch mode: `cycle` (or `loop`), `up` or `down`.
    pub fn from_str(s: &str) -> (r: Result<DpiSwitch, ParseError>)
        ensures
            r == match dpi_switch_named(s.spec_bytes()) {
                Some(d) => Ok(d),
                None => Err(ParseError::InvalidDpiSwitch),
            },
    {
        match dpi_switch_word(s.as_bytes()) {
            Some(d) => Ok(d),
            None => Err(ParseError::InvalidDpiSwitch),
        }
    }
}

impl MediaButton {
    /// Reads a media key name, such as `play-pause` or `vol-up`.
    pub fn from_str(s: &str) -> (r: Result<MediaButton, ParseError>)
        ensures
            r == match media_key_named(s.spec_bytes()) {
                Some(bits) => Ok(MediaButton { bits }),
                None => Err(ParseError::InvalidMediaButton),
            },
    {
        match media_key_word(s.as_bytes()) {
            Some(bits) => Ok(MediaButton { bits }),
            None => Err(ParseError::InvalidMediaButton),
        }
    }
}

impl Modifier {
    /// Reads a `+`-separated list of modifier names, such as `ctrl+shift`.
    pub fn from_str(s: &str) -> (r: Result<Modifier, ParseError>)
        ensures
            r == match modifiers_named(s.spec_bytes()) {
                Some(bits) => Ok(Modifier { bits }),
                None => Err(ParseError::UnknownModifier),
            },
    {
        match modifiers_word(s.as_bytes()) {
            Some(bits) => Ok(Modifier { bits }),
            None => Err(ParseError::UnknownModifier),
        }
    }
}

fn scroll_action(data: &[u8]) -> (r: Result<ButtonAction, ParseError>)
    ensures
        r == scroll_named(data@),
{
    if is_word(data, "up") {
        Ok(ButtonAction::Scroll(1))
    } else if is_word(data, "down") {
        Ok(ButtonAction::Scroll(-1))
    } else {
        match parse_i8(data) {
            Some(v) => Ok(ButtonAction::Scroll(v)),
            None => Err(ParseError::InvalidNumber),
        }
    }
}

fn repeat_action(data: &[u8]) -> (r: Result<ButtonAction, ParseError>)
    ensures
        r == repeat_named(data@),
{
    let (first, rest) = match split_once_exec(data, 58u8) {
        Some(p) => p,
        None => return Err(ParseError::WrongParameterCount),
    };
    let which = match mouse_button_word(first.as_slice()) {
        Some(m) => m,
        None => {
            match split_once_exec(rest.as_slice(), 58u8) {
                Some((_, third)) => {
                    if find_byte(third.as_slice(), 58u8) < third.len() {
                        return Err(ParseError::WrongParameterCount);
                    }
                },
                None => {},
            }
            return Err(ParseError::InvalidMouseButton);
        },
    };
    match split_once_exec(rest.as_slice(), 58u8) {
        None => match parse_u8(rest.as_slice()) {
            Some(count) => Ok(ButtonAction::RepeatButton { which, count, interval: 50 }),
            None => Err(ParseError::InvalidNumber),
        },
        Some((second, third)) => {
            if find_byte(third.as_slice(), 58u8) < third.len() {
                return Err(ParseError::WrongParameterCount);
            }
            let count = match parse_u8(second.as_slice()) {
                Some(c) => c,
                None => return Err(ParseError::InvalidNumber),
            };
            match parse_u8(third.as_slice()) {
                Some(interval) => Ok(ButtonAction::RepeatButton { which, count, interval }),
                None => Err(ParseError::InvalidNumber),
            }
        },
    }
}

fn keyboard_action(data: &[u8]) -> (r: Result<ButtonAction, ParseError>)
    ensures
        r == keyboard_named(data@),
{
    let (first, rest) = match split_once_exec(data, 58u8) {
        Some(p) => p,
        None => return Err(ParseError::WrongParameterCount),
    };
    if find_byte(rest.as_slice(), 58u8) < rest.len() {
        return Err(ParseError::WrongParameterCount);
    }
    let modifiers = match modifiers_word(first.as_slice()) {
        Some(m) => Modifier { bits: m },
        None => return Err(ParseError::UnknownModifier),
    };
    match parse_u8(rest.as_slice()) {
        Some(key) => Ok(ButtonAction::KeyboardShortcut { modifiers, key }),
        None => Err(ParseError::InvalidNumber),
    }
}

impl ButtonAction {
    /// Reads a textual action: `disable`, `mouse:<button>`, `scroll:<up|down|amount>`,
    /// `repeat:<button>:<count>[:<interval>]`, `dpi:<cycle|up|down>`, `dpi-lock:<value>`,
    /// `media:<key>`, `macro:<bank>` or `keyboard:<modifiers>:<key>`.
    pub fn from_str(s: &str) -> (r: Result<ButtonAction, ParseError>)
        ensures
            r == action_named(s.spec_bytes()),
    {
        action_from_bytes(s.as_bytes())
    }
}

fn action_from_bytes(b: &[u8]) -> (r: Result<ButtonAction, ParseError>)
    ensures
        r == action_named(b@),
{
    if is_word(b, "disable") {
        return Ok(ButtonAction::Disabled);
    }
    let (branch, data) = match split_once_exec(b, 58u8) {
        Some(p) => p,
        None => return Err(ParseError::MissingParameters),
    };
    let br = branch.as_slice();
    let d = data.as_slice();
    if is_word(br, "mouse") {
        match mouse_button_word(d) {
            Some(m) => Ok(ButtonAction::MouseButton(m)),
            None => Err(ParseError::InvalidMouseButton),
        }
    } else if is_word(br, "scroll") {
        scroll_action(d)
    } else if is_word(br, "repeat") {
        repeat_action(d)
    } else if is_word(br, "dpi") {
        match dpi_switch_word(d) {
            Some(sw) => Ok(ButtonAction::DpiSwitch(sw)),
            None => Err(ParseError::InvalidDpiSwitch),
        }
    } else if is_word(br, "dpi-lock") {
        match parse_u16(d) {
            Some(v) => Ok(ButtonAction::DpiLock(v)),
            None => Err(ParseError::InvalidNumber),
        }
    } else if is_word(br, "media") {
        match media_key_word(d) {
            Some(bits) => Ok(ButtonAction::MediaButton(MediaButton { bits })),
            None => Err(ParseError::InvalidMediaButton),
        }
    } else if is_word(br, "macro") {
        match parse_u8(d) {
            Some(bank) => Ok(ButtonAction::Macro(bank, MacroMode::Burst(1))),
            None => Err(ParseError::InvalidNumber),
        }
    } else if is_word(br, "keyboard") {
        keyboard_action(d)
    } else if is_word(br, "disable") {
        Err(ParseError::UnexpectedParameter)
    } else {
        Err(ParseError::UnknownActionType)
    }
}

/// A hexadecimal digit's value (either case), or -1 for any other byte.
pub open spec fn hex_digit_value(c: u8) -> int {
    if 48 <= c <= 57 {
        c - 48
    } else if 97 <= c <= 102 {
        c - 87
    } else if 65 <= c <= 70 {
        c - 55
    } else {
        -1
    }
}

/// The three bytes that six hexadecimal digits spell, high digit first; `None` for any
/// other text.
pub open spec fn hex_triple_of(s: Seq<u8>) -> Option<Seq<u8>> {
    if s.len() == 6 && forall|i: int| 0 <= i < 6 ==> hex_digit_value(#[trigger] s[i]) >= 0 {
        Some(
            Seq::new(
                3,
                |i: int| (16 * hex_digit_value(s[2 * i]) + hex_digit_value(s[2 * i + 1])) as u8,
            ),
        )
    } else {
        None
    }
}

/// Relies on `<[u8; 3] as hex::FromHex>::from_hex`: it accepts exactly six hexadecimal
/// digits of either case and gives one byte per pair, high digit first.
#[verifier::external_body]
fn decode_hex_triple(s: &str) -> (r: Option<[u8; 3]>)
    ensures
        match r {
            Some(b) => hex_triple_of(s.spec_bytes()) == Some(b@),
            None => hex_triple_of(s.spec_bytes()) is None,
        },
{
    <[u8; 3]>::from_hex(s).ok()
}

impl Color {
    /// Reads a color written as six hexadecimal digits `RRGGBB`.
    pub fn from_str(s: &str) -> (r: Result<Color, ParseError>)
        ensures
            match hex_triple_of(s.spec_bytes()) {
                Some(b) => r == Ok::<Color, ParseError>(Color { r: b[0], g: b[1], b: b[2] }),
                None => r == Err::<Color, ParseError>(ParseError::InvalidColor),
            },
    {
        match decode_hex_triple(s) {
            Some(b) => Ok(Color { r: b[0], g: b[1], b: b[2] }),
            None => Err(ParseError::InvalidColor),
        }
    }
}

/// A button assignment `<button number>:<action>`, or why it is refused.
pub open spec fn assignment_named(s: Seq<u8>) -> Result<(usize, ButtonAction), ParseError> {
    match split_once(s, 58u8) {
        None => Err(ParseError::MissingParameters),
        Some((btn, act)) => match unsigned_of(btn, 65535) {
            None => Err(ParseError::InvalidNumber),
            Some(which) => match action_named(act) {
                Ok(a) => Ok((which as usize, a)),
                Err(e) => Err(e),
            },
        },
    }
}

/// Reads a button assignment `<button number>:<action>`, such as `6:dpi:up`; the
/// number is checked against the buttons where the assignment is applied.
pub fn parse_button_assignment(s: &str) -> (r: Result<(usize, ButtonAction), ParseError>)
    ensures
        r == assignment_named(s.spec_bytes()),
{
    let b = s.as_bytes();
    let i = find_byte(b, 58u8);
    if i >= b.len() {
        return Err(ParseError::MissingParameters);
    }
    let btn = slice_of(b, 0, i);
    assert(btn@ =~= b@.take(i as int));
    let which = match parse_unsigned(btn.as_slice(), 65535) {
        Some(v) => v as usize,
        None => return Err(ParseError::InvalidNumber),
    };
    let act = slice_of(b, i + 1, b.len());
    assert(act@ =~= b@.skip(i + 1));
    match action_from_bytes(act.as_slice()) {
        Ok(a) => Ok((which, a)),
        Err(e) => Err(e),
    }
}

} // verus!
