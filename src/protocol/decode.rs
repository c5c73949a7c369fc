use vstd::prelude::*;

use crate::buttonmap::{ButtonAction, ButtonMapping, DpiSwitch, MacroMode};
use crate::device::{
    dpi_decode, dpi_from_raw, polling_rate_of, Color, Config, ConfigView, DpiProfile, DpiValue,
    MediaButton, Modifier, MouseButton, PollingRate, MEDIA_UNDEFINED,
};
use crate::error::CodecError;
use crate::rgb::{
    effect_of, Breathing, BreathingView, ConstantRgb, ConstantRgbView, Effect, EffectParameters,
    EffectParametersView, Glorious, Rave, RaveView, Random, SeamlessBreathing, SingleBreathing,
    SingleColor, Tail, Wave,
};

verus! {

/// Number of bytes of a report that the configuration record occupies.
pub const CONFIG_LEN: usize = 131;

/// The high nibble of a byte.
pub open spec fn hi_nibble(b: u8) -> u8 {
    b >> 4u8
}

/// The low nibble of a byte.
pub open spec fn lo_nibble(b: u8) -> u8 {
    b & 0x0fu8
}

/// A profile color, stored in R,G,B order.
pub open spec fn color_rgb_at(b: Seq<u8>, at: int) -> Color {
    Color { r: b[at], g: b[at + 1], b: b[at + 2] }
}

/// An effect color, stored in R,B,G order.
pub open spec fn color_rbg_at(b: Seq<u8>, at: int) -> Color {
    Color { r: b[at], g: b[at + 2], b: b[at + 1] }
}

/// `n` consecutive effect colors.
pub open spec fn colors_rbg_at(b: Seq<u8>, at: int, n: nat) -> Seq<Color> {
    Seq::new(n, |i: int| color_rbg_at(b, at + 3 * i))
}

pub open spec fn glorious_at(b: Seq<u8>, at: int) -> Glorious {
    Glorious { speed: lo_nibble(b[at]), direction: b[at + 1] }
}

pub open spec fn single_color_at(b: Seq<u8>, at: int) -> SingleColor {
    SingleColor { brightness: hi_nibble(b[at]), color: color_rbg_at(b, at + 1) }
}

pub open spec fn breathing_at(b: Seq<u8>, at: int) -> BreathingView {
    BreathingView { speed: lo_nibble(b[at]), count: b[at + 1], colors: colors_rbg_at(b, at + 2, 7) }
}

pub open spec fn tail_at(b: Seq<u8>, at: int) -> Tail {
    Tail { speed: lo_nibble(b[at]), brightness: hi_nibble(b[at]) }
}

pub open spec fn seamless_breathing_at(b: Seq<u8>, at: int) -> SeamlessBreathing {
    SeamlessBreathing { speed: lo_nibble(b[at]) }
}

pub open spec fn constant_rgb_at(b: Seq<u8>, at: int) -> ConstantRgbView {
    ConstantRgbView { colors: colors_rbg_at(b, at + 1, 6) }
}

pub open spec fn rave_at(b: Seq<u8>, at: int) -> RaveView {
    RaveView {
        speed: lo_nibble(b[at]),
        brightness: hi_nibble(b[at]),
        colors: colors_rbg_at(b, at + 1, 2),
    }
}

pub open spec fn random_at(b: Seq<u8>, at: int) -> Random {
    Random { speed: lo_nibble(b[at]) }
}

pub open spec fn wave_at(b: Seq<u8>, at: int) -> Wave {
    Wave { speed: lo_nibble(b[at]), brightness: hi_nibble(b[at]) }
}

pub open spec fn single_breathing_at(b: Seq<u8>, at: int) -> SingleBreathing {
    SingleBreathing { speed: lo_nibble(b[at]), color: color_rbg_at(b, at + 1) }
}

/// The ten parameter blocks, with the opaque block between constant-RGB and rave skipped.
pub open spec fn effect_parameters_at(b: Seq<u8>) -> EffectParametersView {
    EffectParametersView {
        glorious: glorious_at(b, 54),
        single_color: single_color_at(b, 56),
        breathing: breathing_at(b, 60),
        tail: tail_at(b, 83),
        seamless_breathing: seamless_breathing_at(b, 84),
        constant_rgb: constant_rgb_at(b, 85),
        rave: rave_at(b, 116),
        random: random_at(b, 123),
        wave: wave_at(b, 124),
        single_breathing: single_breathing_at(b, 125),
    }
}

/// Bit `i` of the enable mask is set: profile `i` is disabled.
pub open spec fn mask_bit_set(mask: u8, i: int) -> bool {
    (mask >> (i as u8)) & 1u8 == 1u8
}

/// Profile `i`: its DPI from the magnitude bytes, enabled where its mask bit is clear.
pub open spec fn profile_at(b: Seq<u8>, indep: bool, mask: u8, i: int) -> DpiProfile {
    DpiProfile {
        enabled: !mask_bit_set(mask, i),
        value: if indep {
            DpiValue::Double(dpi_from_raw(b[13 + 2 * i]), dpi_from_raw(b[14 + 2 * i]))
        } else {
            DpiValue::Single(dpi_from_raw(b[13 + i]))
        },
        color: color_rgb_at(b, 29 + 3 * i),
    }
}

/// The configuration that a report holds, or the first error met in reading it.
pub open spec fn spec_config_report(b: Seq<u8>) -> Result<ConfigView, CodecError> {
    if b.len() < CONFIG_LEN {
        Err(CodecError::Truncated)
    } else if polling_rate_of(lo_nibble(b[10])) is None {
        Err(CodecError::UnknownPollingRate)
    } else if effect_of(b[53]) is None {
        Err(CodecError::UnknownEffect)
    } else {
        let indep = hi_nibble(b[10]) > 0;
        Ok(
            ConfigView {
                header: b.subrange(0, 9),
                sensor_id: b[9],
                dpi_axes_independent: indep,
                polling_rate: polling_rate_of(lo_nibble(b[10]))->Some_0,
                dpi_current_profile: hi_nibble(b[11]),
                dpi_profile_count: lo_nibble(b[11]),
                dpi_profiles: Seq::new(8, |i: int| profile_at(b, indep, b[12], i)),
                rgb_current_effect: effect_of(b[53])->Some_0,
                rgb_effect_parameters: effect_parameters_at(b),
                unknown: (b.subrange(104, 116), b[130]),
                lod: b[129],
            },
        )
    }
}

/// Reads a profile color (R,G,B).
pub fn color_rgb(inp: &[u8], at: usize) -> (r: Color)
    requires
        at + 3 <= inp@.len(),
    ensures
        r == color_rgb_at(inp@, at as int),
{
    Color { r: inp[at], g: inp[at + 1], b: inp[at + 2] }
}

/// Reads an effect color (R,B,G).
pub fn color_rbg(inp: &[u8], at: usize) -> (r: Color)
    requires
        at + 3 <= inp@.len(),
    ensures
        r == color_rbg_at(inp@, at as int),
{
    Color { r: inp[at], g: inp[at + 2], b: inp[at + 1] }
}

fn colors_rbg(inp: &[u8], at: usize, n: usize) -> (r: Vec<Color>)
    requires
        at + 3 * n <= inp@.len(),
    ensures
        r@ == colors_rbg_at(inp@, at as int, n as nat),
{
    let mut out: Vec<Color> = Vec::new();
    let mut i: usize = 0;
    assert(inp.len() == inp@.len());
    while i < n
        invariant
            i <= n,
            inp.len() == inp@.len(),
            at + 3 * n <= inp@.len(),
            out@ == colors_rbg_at(inp@, at as int, i as nat),
        decreases n - i,
    {
        out.push(color_rbg(inp, at + 3 * i));
        i = i + 1;
        assert(out@ =~= colors_rbg_at(inp@, at as int, i as nat));
    }
    out
}

fn hi(b: u8) -> (r: u8)
    ensures
        r == hi_nibble(b),
{
    b >> 4u8
}

fn lo(b: u8) -> (r: u8)
    ensures
        r == lo_nibble(b),
{
    b & 0x0fu8
}

impl Effect {
    /// Reads the effect selector byte.
    pub fn parse(inp: &[u8], at: usize) -> (r: Result<Effect, CodecError>)
        requires
            at < inp@.len(),
        ensures
            r == (match effect_of(inp@[at as int]) {
                Some(e) => Ok(e),
                None => Err(CodecError::UnknownEffect),
            }),
    {
        match Effect::from_code(inp[at]) {
            Some(e) => Ok(e),
            None => Err(CodecError::UnknownEffect),
        }
    }
}

impl Glorious {
    pub fn parse(inp: &[u8], at: usize) -> (r: Glorious)
        requires
            at + 2 <= inp@.len(),
        ensures
            r == glorious_at(inp@, at as int),
    {
        Glorious { speed: lo(inp[at]), direction: inp[at + 1] }
    }
}

impl SingleColor {
    pub fn parse(inp: &[u8], at: usize) -> (r: SingleColor)
        requires
            at + 4 <= inp@.len(),
        ensures
            r == single_color_at(inp@, at as int),
    {
        SingleColor { brightness: hi(inp[at]), color: color_rbg(inp, at + 1) }
    }
}

impl Breathing {
    pub fn parse(inp: &[u8], at: usize) -> (r: Breathing)
        requires
            at + 23 <= inp@.len(),
        ensures
            r@ == breathing_at(inp@, at as int),
    {
        Breathing { speed: lo(inp[at]), count: inp[at + 1], colors: colors_rbg(inp, at + 2, 7) }
    }
}

impl Tail {
    pub fn parse(inp: &[u8], at: usize) -> (r: Tail)
        requires
            at < inp@.len(),
        ensures
            r == tail_at(inp@, at as int),
    {
        Tail { speed: lo(inp[at]), brightness: hi(inp[at]) }
    }
}

impl SeamlessBreathing {
    pub fn parse(inp: &[u8], at: usize) -> (r: SeamlessBreathing)
        requires
            at < inp@.len(),
        ensures
            r == seamless_breathing_at(inp@, at as int),
    {
        SeamlessBreathing { speed: lo(inp[at]) }
    }
}

impl ConstantRgb {
    pub fn parse(inp: &[u8], at: usize) -> (r: ConstantRgb)
        requires
            at + 19 <= inp@.len(),
        ensures
            r@ == constant_rgb_at(inp@, at as int),
    {
        assert(inp.len() == inp@.len());
        ConstantRgb { colors: colors_rbg(inp, at + 1, 6) }
    }
}

impl Rave {
    pub fn parse(inp: &[u8], at: usize) -> (r: Rave)
        requires
            at + 7 <= inp@.len(),
        ensures
            r@ == rave_at(inp@, at as int),
    {
        Rave { speed: lo(inp[at]), brightness: hi(inp[at]), colors: colors_rbg(inp, at + 1, 2) }
    }
}

impl Random {
    pub fn parse(inp: &[u8], at: usize) -> (r: Random)
        requires
            at < inp@.len(),
        ensures
            r == random_at(inp@, at as int),
    {
        Random { speed: lo(inp[at]) }
    }
}

impl Wave {
    pub fn parse(inp: &[u8], at: usize) -> (r: Wave)
        requires
            at < inp@.len(),
        ensures
            r == wave_at(inp@, at as int),
    {
        Wave { speed: lo(inp[at]), brightness: hi(inp[at]) }
    }
}

impl SingleBreathing {
    pub fn parse(inp: &[u8], at: usize) -> (r: SingleBreathing)
        requires
            at + 4 <= inp@.len(),
        ensures
            r == single_breathing_at(inp@, at as int),
    {
        SingleBreathing { speed: lo(inp[at]), color: color_rbg(inp, at + 1) }
    }
}

/// Reads the polling-rate nibble.
fn polling_rate(b: u8) -> (r: Result<PollingRate, CodecError>)
    ensures
        r == (match polling_rate_of(lo_nibble(b)) {
            Some(p) => Ok(p),
            None => Err(CodecError::UnknownPollingRate),
        }),
{
    match PollingRate::from_code(lo(b)) {
        Some(p) => Ok(p),
        None => Err(CodecError::UnknownPollingRate),
    }
}

fn dpi_profile_from_raw(indep: bool, mask: u8, inp: &[u8], i: u8) -> (r: DpiProfile)
    requires
        inp@.len() >= CONFIG_LEN,
        i < 8,
    ensures
        r == profile_at(inp@, indep, mask, i as int),
{
    let k = i as usize;
    let value = if indep {
        DpiValue::Double(dpi_decode(inp[13 + 2 * k]), dpi_decode(inp[14 + 2 * k]))
    } else {
        DpiValue::Single(dpi_decode(inp[13 + k]))
    };
    DpiProfile {
        enabled: (mask >> i) & 1u8 != 1u8,
        value,
        color: color_rgb(inp, 29 + 3 * k),
    }
}

fn dpi_profiles_from_raw(indep: bool, mask: u8, inp: &[u8]) -> (r: [DpiProfile; 8])
    requires
        inp@.len() >= CONFIG_LEN,
    ensures
        r@ == Seq::new(8, |i: int| profile_at(inp@, indep, mask, i)),
{
    let r = [
        dpi_profile_from_raw(indep, mask, inp, 0),
        dpi_profile_from_raw(indep, mask, inp, 1),
        dpi_profile_from_raw(indep, mask, inp, 2),
        dpi_profile_from_raw(indep, mask, inp, 3),
        dpi_profile_from_raw(indep, mask, inp, 4),
        dpi_profile_from_raw(indep, mask, inp, 5),
        dpi_profile_from_raw(indep, mask, inp, 6),
        dpi_profile_from_raw(indep, mask, inp, 7),
    ];
    assert(r@ =~= Seq::new(8, |i: int| profile_at(inp@, indep, mask, i)));
    r
}

/// Decodes the configuration record at the start of a report.
pub fn config_report(inp: &[u8]) -> (r: Result<Config, CodecError>)
    ensures
        match r {
            Ok(c) => spec_config_report(inp@) == Ok::<ConfigView, CodecError>(c@),
            Err(e) => spec_config_report(inp@) == Err::<ConfigView, CodecError>(e),
        },
{
    if inp.len() < CONFIG_LEN {
        return Err(CodecError::Truncated);
    }
    let header = [inp[0], inp[1], inp[2], inp[3], inp[4], inp[5], inp[6], inp[7], inp[8]];
    let sensor_id = inp[9];
    let polling_rate = match polling_rate(inp[10]) {
        Ok(p) => p,
        Err(e) => return Err(e),
    };
    let indep = hi(inp[10]) > 0;
    let dpi_current_profile = hi(inp[11]);
    let dpi_profile_count = lo(inp[11]);
    let mask = inp[12];
    let dpi_profiles = dpi_profiles_from_raw(indep, mask, inp);
    let rgb_current_effect = match Effect::parse(inp, 53) {
        Ok(e) => e,
        Err(e) => return Err(e),
    };
    let rgb_effect_parameters = EffectParameters {
        glorious: Glorious::parse(inp, 54),
        single_color: SingleColor::parse(inp, 56),
        breathing: Breathing::parse(inp, 60),
        tail: Tail::parse(inp, 83),
        seamless_breathing: SeamlessBreathing::parse(inp, 84),
        constant_rgb: ConstantRgb::parse(inp, 85),
        rave: Rave::parse(inp, 116),
        random: Random::parse(inp, 123),
        wave: Wave::parse(inp, 124),
        single_breathing: SingleBreathing::parse(inp, 125),
    };
    let unknown_block = [
        inp[104], inp[105], inp[106], inp[107], inp[108], inp[109],
        inp[110], inp[111], inp[112], inp[113], inp[114], inp[115],
    ];
    let c = Config {
        header,
        sensor_id,
        dpi_axes_independent: indep,
        polling_rate,
        dpi_current_profile,
        dpi_profile_count,
        dpi_profiles,
        rgb_current_effect,
        rgb_effect_parameters,
        unknown: (unknown_block, inp[130]),
        lod: inp[129],
    };
    assert(c@.header =~= inp@.subrange(0, 9));
    assert(c@.unknown.0 =~= inp@.subrange(104, 116));
    assert(c@.rgb_effect_parameters == effect_parameters_at(inp@));
    Ok(c)
}

/// Number of bytes of a report that the button-map record occupies: a header and six slots.
pub const BUTTONMAP_LEN: usize = 32;

/// The three bytes after a media tag, read as one big-endian 24-bit mask.
pub open spec fn media_bits(x: u8, y: u8, z: u8) -> u32 {
    ((x as u32) << 16u32) | ((y as u32) << 8u32) | (z as u32)
}

/// The action in the 4-byte slot at `at`, or why the slot is refused.
pub open spec fn action_at(b: Seq<u8>, at: int) -> Result<ButtonAction, CodecError> {
    let tag = b[at];
    let x = b[at + 1];
    let y = b[at + 2];
    let z = b[at + 3];
    if tag == 0x11 {
        if x < 32 {
            Ok(ButtonAction::MouseButton(MouseButton { bits: x }))
        } else {
            Err(CodecError::UnknownActionTag)
        }
    } else if tag == 0x12 {
        Ok(ButtonAction::Scroll(x as i8))
    } else if tag == 0x31 {
        if x < 32 {
            Ok(ButtonAction::RepeatButton { which: MouseButton { bits: x }, interval: y, count: z })
        } else {
            Err(CodecError::UnknownActionTag)
        }
    } else if tag == 0x41 {
        if x == 0 {
            Ok(ButtonAction::DpiSwitch(DpiSwitch::Cycle))
        } else if x == 1 {
            Ok(ButtonAction::DpiSwitch(DpiSwitch::Up))
        } else if x == 2 {
            Ok(ButtonAction::DpiSwitch(DpiSwitch::Down))
        } else {
            Err(CodecError::UnknownActionTag)
        }
    } else if tag == 0x42 {
        Ok(ButtonAction::DpiLock(dpi_from_raw(x)))
    } else if tag == 0x22 {
        if media_bits(x, y, z) & MEDIA_UNDEFINED == 0 {
            Ok(ButtonAction::MediaButton(MediaButton { bits: media_bits(x, y, z) }))
        } else {
            Err(CodecError::UnknownMediaBitmask)
        }
    } else if tag == 0x21 {
        if x < 16 {
            Ok(ButtonAction::KeyboardShortcut { modifiers: Modifier { bits: x }, key: y })
        } else {
            Err(CodecError::UnknownActionTag)
        }
    } else if tag == 0x50 {
        Ok(ButtonAction::Disabled)
    } else if tag == 0x70 {
        if y == 1 {
            Ok(ButtonAction::Macro(x, MacroMode::Burst(z)))
        } else if y == 2 {
            Ok(ButtonAction::Macro(x, MacroMode::RepeatUntilAnotherPress))
        } else if y == 4 {
            Ok(ButtonAction::Macro(x, MacroMode::RepeatUntilRelease))
        } else {
            Err(CodecError::UnknownActionTag)
        }
    } else {
        Err(CodecError::UnknownActionTag)
    }
}

/// The actions of the first `n` slots after the 8-byte header, or the first slot's error.
pub open spec fn actions_at(b: Seq<u8>, n: nat) -> Result<Seq<ButtonAction>, CodecError>
    decreases n,
{
    if n == 0 {
        Ok(Seq::empty())
    } else {
        match actions_at(b, (n - 1) as nat) {
            Err(e) => Err(e),
            Ok(s) => match action_at(b, 8 + 4 * (n - 1)) {
                Ok(a) => Ok(s.push(a)),
                Err(e) => Err(e),
            },
        }
    }
}

/// The six actions that a button-map report holds, or the first error met in reading it.
pub open spec fn spec_buttonmap(b: Seq<u8>) -> Result<Seq<ButtonAction>, CodecError> {
    if b.len() < BUTTONMAP_LEN {
        Err(CodecError::Truncated)
    } else {
        actions_at(b, 6)
    }
}

/// Reads the action in the slot at `at`.
fn button_action(inp: &[u8], at: usize) -> (r: Result<ButtonAction, CodecError>)
    requires
        at + 4 <= inp@.len(),
    ensures
        r == action_at(inp@, at as int),
{
    let tag = inp[at];
    let x = inp[at + 1];
    let y = inp[at + 2];
    let z = inp[at + 3];
    if tag == 0x11 {
        match MouseButton::from_bits(x) {
            Some(m) => Ok(ButtonAction::MouseButton(m)),
            None => Err(CodecError::UnknownActionTag),
        }
    } else if tag == 0x12 {
        Ok(ButtonAction::Scroll(x as i8))
    } else if tag == 0x31 {
        match MouseButton::from_bits(x) {
            Some(m) => Ok(ButtonAction::RepeatButton { which: m, interval: y, count: z }),
            None => Err(CodecError::UnknownActionTag),
        }
    } else if tag == 0x41 {
        if x == 0 {
            Ok(ButtonAction::DpiSwitch(DpiSwitch::Cycle))
        } else if x == 1 {
            Ok(ButtonAction::DpiSwitch(DpiSwitch::Up))
        } else if x == 2 {
            Ok(ButtonAction::DpiSwitch(DpiSwitch::Down))
        } else {
            Err(CodecError::UnknownActionTag)
        }
    } else if tag == 0x42 {
        Ok(ButtonAction::DpiLock(dpi_decode(x)))
    } else if tag == 0x22 {
        MediaButton::parse_3b(x, y, z)
    } else if tag == 0x21 {
        match Modifier::from_bits(x) {
            Some(m) => Ok(ButtonAction::KeyboardShortcut { modifiers: m, key: y }),
            None => Err(CodecError::UnknownActionTag),
        }
    } else if tag == 0x50 {
        Ok(ButtonAction::Disabled)
    } else if tag == 0x70 {
        if y == 1 {
            Ok(ButtonAction::Macro(x, MacroMode::Burst(z)))
        } else if y == 2 {
            Ok(ButtonAction::Macro(x, MacroMode::RepeatUntilAnotherPress))
        } else if y == 4 {
            Ok(ButtonAction::Macro(x, MacroMode::RepeatUntilRelease))
        } else {
            Err(CodecError::UnknownActionTag)
        }
    } else {
        Err(CodecError::UnknownActionTag)
    }
}

impl MediaButton {
    /// Reads a media-key action from the three bytes after its tag.
    fn parse_3b(x: u8, y: u8, z: u8) -> (r: Result<ButtonAction, CodecError>)
        ensures
            r == (if media_bits(x, y, z) & MEDIA_UNDEFINED == 0 {
                Ok(ButtonAction::MediaButton(MediaButton { bits: media_bits(x, y, z) }))
            } else {
                Err(CodecError::UnknownMediaBitmask)
            }),
    {
        let val = ((x as u32) << 16u32) | ((y as u32) << 8u32) | (z as u32);
        if val & MEDIA_UNDEFINED == 0 {
            Ok(ButtonAction::MediaButton(MediaButton { bits: val }))
        } else {
            Err(CodecError::UnknownMediaBitmask)
        }
    }
}

/// Decodes the six button actions of a button-map report.
pub fn buttonmap(inp: &[u8]) -> (r: Result<ButtonMapping, CodecError>)
    ensures
        match r {
            Ok(m) => spec_buttonmap(inp@) == Ok::<Seq<ButtonAction>, CodecError>(m@),
            Err(e) => spec_buttonmap(inp@) == Err::<Seq<ButtonAction>, CodecError>(e),
        },
{
    if inp.len() < BUTTONMAP_LEN {
        return Err(CodecError::Truncated);
    }
    let ghost b = inp@;
    reveal_with_fuel(actions_at, 7);
    let a0 = match button_action(inp, 8) {
        Ok(a) => a,
        Err(e) => return Err(e),
    };
    assert(actions_at(b, 1) is Ok);
    let a1 = match button_action(inp, 12) {
        Ok(a) => a,
        Err(e) => return Err(e),
    };
    assert(actions_at(b, 2) is Ok);
    let a2 = match button_action(inp, 16) {
        Ok(a) => a,
        Err(e) => return Err(e),
    };
    assert(actions_at(b, 3) is Ok);
    let a3 = match button_action(inp, 20) {
        Ok(a) => a,
        Err(e) => return Err(e),
    };
    assert(actions_at(b, 4) is Ok);
    let a4 = match button_action(inp, 24) {
        Ok(a) => a,
        Err(e) => return Err(e),
    };
    assert(actions_at(b, 5) is Ok);
    let a5 = match button_action(inp, 28) {
        Ok(a) => a,
        Err(e) => return Err(e),
    };
    let m = [a0, a1, a2, a3, a4, a5];
    assert(m@ =~= seq![a0, a1, a2, a3, a4, a5]);
    assert(actions_at(b, 1)->Ok_0 =~= seq![a0]);
    assert(actions_at(b, 2)->Ok_0 =~= seq![a0, a1]);
    assert(actions_at(b, 3)->Ok_0 =~= seq![a0, a1, a2]);
    assert(actions_at(b, 4)->Ok_0 =~= seq![a0, a1, a2, a3]);
    assert(actions_at(b, 5)->Ok_0 =~= seq![a0, a1, a2, a3, a4]);
    assert(actions_at(b, 6)->Ok_0 =~= seq![a0, a1, a2, a3, a4, a5]);
    Ok(m)
}

} // verus!
