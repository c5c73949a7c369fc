use vstd::prelude::*;

use crate::error::CodecError;
use crate::protocol::decode::{self, spec_config_report};
use crate::protocol::encode::{self, config_image, over_capacity, padded_report};
use crate::rgb::{Effect, EffectParameters, EffectParametersView};



verus! {

/// One fixed-size feature report, as exchanged with the device.
pub type DataReport = [u8; 520];

/// Number of bytes in every report.
pub const REPORT_LEN: usize = 520;

/// An RGB color; its order on the wire depends on where it is stored.
#[derive(Debug, Clone, Copy, PartialEq, Eq, Structural)]
pub struct Color {
    pub r: u8,
    pub g: u8,
    pub b: u8,
}

/// The DPI setting of a profile, in actual dots per inch.
#[derive(Debug, Clone, Copy, PartialEq, Eq, Structural)]
pub enum DpiValue {
    /// Independent settings for the X and the Y axis.
    Double(u16, u16),
    /// One setting shared by both axes.
    Single(u16),
}

/// One of the eight DPI profiles; disabled profiles still keep their value and color.
#[derive(Debug, Clone, Copy, PartialEq, Eq, Structural)]
pub struct DpiProfile {
    pub enabled: bool,
    pub value: DpiValue,
    pub color: Color,
}

/// The rates at which the mouse reports its position.
#[derive(Debug, Clone, Copy, PartialEq, Eq, Structural)]
pub enum PollingRate {
    Hz125,
    Hz250,
    Hz500,
    Hz1000,
}

/// The wire code of a polling rate.
pub open spec fn polling_rate_code(p: PollingRate) -> u8 {
    match p {
        PollingRate::Hz125 => 1,
        PollingRate::Hz250 => 2,
        PollingRate::Hz500 => 3,
        PollingRate::Hz1000 => 4,
    }
}

/// The polling rate that a wire code stands for, if any.
pub open spec fn polling_rate_of(code: u8) -> Option<PollingRate> {
    if code == 1 {
        Some(PollingRate::Hz125)
    } else if code == 2 {
        Some(PollingRate::Hz250)
    } else if code == 3 {
        Some(PollingRate::Hz500)
    } else if code == 4 {
        Some(PollingRate::Hz1000)
    } else {
        None
    }
}

impl PollingRate {
    pub fn code(&self) -> (r: u8)
        ensures
            r == polling_rate_code(*self),
    {
        match self {
            PollingRate::Hz125 => 1,
            PollingRate::Hz250 => 2,
            PollingRate::Hz500 => 3,
            PollingRate::Hz1000 => 4,
        }
    }

    pub fn from_code(code: u8) -> (r: Option<PollingRate>)
        ensures
            r == polling_rate_of(code),
    {
        if code == 1 {
            Some(PollingRate::Hz125)
        } else if code == 2 {
            Some(PollingRate::Hz250)
        } else if code == 3 {
            Some(PollingRate::Hz500)
        } else if code == 4 {
            Some(PollingRate::Hz1000)
        } else {
            None
        }
    }

}

/// A DPI value the device can hold: a multiple of 100 in 100..=25600.
pub open spec fn is_valid_dpi(v: u16) -> bool {
    100 <= v <= 25600 && v % 100 == 0
}

/// The actual DPI that a raw magnitude byte stands for.
pub open spec fn dpi_from_raw(raw: u8) -> u16 {
    ((raw + 1) * 100) as u16
}

/// The raw magnitude byte of an actual DPI value; values out of range go to the nearest end.
pub open spec fn dpi_to_raw(v: u16) -> u8 {
    if v < 100 {
        0
    } else if v > 25600 {
        255
    } else {
        (v / 100 - 1) as u8
    }
}

/// Converts a raw magnitude byte to actual DPI.
pub fn dpi_decode(dpiv: u8) -> (r: u16)
    ensures
        r == dpi_from_raw(dpiv),
        r as int == (dpiv + 1) * 100,
        is_valid_dpi(r),
{
    ((dpiv as u16) + 1) * 100
}

/// Converts an actual DPI value to its raw magnitude byte.
pub fn dpi_encode(v: u16) -> (r: u8)
    ensures
        r == dpi_to_raw(v),
        is_valid_dpi(v) ==> dpi_from_raw(r) == v,
{
    if v < 100 {
        0
    } else if v > 25600 {
        255
    } else {
        (v / 100 - 1) as u8
    }
}

/// Converting a raw magnitude to actual DPI and back gives the same byte.
pub proof fn lemma_dpi_inverse(b: u8)
    ensures
        dpi_to_raw(dpi_from_raw(b)) == b,
        is_valid_dpi(dpi_from_raw(b)),
{
}

/// Converting a valid DPI value to its raw byte and back gives the same value.
pub proof fn lemma_dpi_valid_inverse(v: u16)
    requires
        is_valid_dpi(v),
    ensures
        dpi_from_raw(dpi_to_raw(v)) == v,
{
}

/// A set of keyboard modifiers: ctrl 0x01, shift 0x02, alt 0x04, super 0x08.
#[derive(Debug, Clone, Copy, PartialEq, Eq, Structural)]
pub struct Modifier {
    pub bits: u8,
}

/// A set of mouse buttons: left 0x01, right 0x02, middle 0x04, back 0x08, forward 0x10.
#[derive(Debug, Clone, Copy, PartialEq, Eq, Structural)]
pub struct MouseButton {
    pub bits: u8,
}

/// A set of media keys, as a 24-bit mask of the keys named below.
#[derive(Debug, Clone, Copy, PartialEq, Eq, Structural)]
pub struct MediaButton {
    pub bits: u32,
}

/// The bits of a 24-bit mask that no media key uses.
pub const MEDIA_UNDEFINED: u32 = 0x20CCFD;

impl Modifier {
    pub const CTRL: u8 = 0x01;
    pub const SHIFT: u8 = 0x02;
    pub const ALT: u8 = 0x04;
    pub const SUPER: u8 = 0x08;

    /// Only defined modifier bits are set.
    pub open spec fn is_valid(self) -> bool {
        self.bits < 16
    }

    pub fn from_bits(bits: u8) -> (r: Option<Modifier>)
        ensures
            r == (if bits < 16 { Some(Modifier { bits }) } else { None::<Modifier> }),
    {
        if bits < 16 {
            Some(Modifier { bits })
        } else {
            None
        }
    }

    pub fn bits(&self) -> (r: u8)
        ensures
            r == self.bits,
    {
        self.bits
    }
}

impl MouseButton {
    pub const LEFT: u8 = 0x01;
    pub const RIGHT: u8 = 0x02;
    pub const MIDDLE: u8 = 0x04;
    pub const BACK: u8 = 0x08;
    pub const FORWARD: u8 = 0x10;

    /// Only defined button bits are set.
    pub open spec fn is_valid(self) -> bool {
        self.bits < 32
    }

    pub fn from_bits(bits: u8) -> (r: Option<MouseButton>)
        ensures
            r == (if bits < 32 { Some(MouseButton { bits }) } else { None::<MouseButton> }),
    {
        if bits < 32 {
            Some(MouseButton { bits })
        } else {
            None
        }
    }

    pub fn bits(&self) -> (r: u8)
        ensures
            r == self.bits,
    {
        self.bits
    }
}

impl MediaButton {
    pub const HOME_PAGE: u32 = 0x000002;
    pub const MEDIA_PLAYER: u32 = 0x000100;
    pub const EXPLORER: u32 = 0x000200;
    pub const EMAIL: u32 = 0x001000;
    pub const CALCULATOR: u32 = 0x002000;
    pub const NEXT: u32 = 0x010000;
    pub const PREVIOUS: u32 = 0x020000;
    pub const STOP: u32 = 0x040000;
    pub const PLAY_PAUSE: u32 = 0x080000;
    pub const MUTE: u32 = 0x100000;
    pub const VOLUME_UP: u32 = 0x400000;
    pub const VOLUME_DOWN: u32 = 0x800000;

    /// Only defined media-key bits are set.
    pub open spec fn is_valid(self) -> bool {
        self.bits < 0x1000000 && self.bits & MEDIA_UNDEFINED == 0
    }

    pub fn from_bits(bits: u32) -> (r: Option<MediaButton>)
        ensures
            r == (if bits < 0x1000000 && bits & MEDIA_UNDEFINED == 0 {
                Some(MediaButton { bits })
            } else {
                None::<MediaButton>
            }),
    {
        if bits < 0x1000000 && bits & MEDIA_UNDEFINED == 0 {
            Some(MediaButton { bits })
        } else {
            None
        }
    }

    pub fn bits(&self) -> (r: u32)
        ensures
            r == self.bits,
    {
        self.bits
    }
}

} // verus!

verus! {

/// The device's full configuration, as read from and written to one report.
#[derive(Debug)]
pub struct Config {
    /// Opaque report header, passed through.
    pub header: [u8; 9],
    pub sensor_id: u8,
    /// Derived: whether any profile sets the two axes independently.
    pub dpi_axes_independent: bool,
    pub polling_rate: PollingRate,
    /// Index of the active profile, 0 to 7.
    pub dpi_current_profile: u8,
    /// Derived: the number of enabled profiles.
    pub dpi_profile_count: u8,
    pub dpi_profiles: [DpiProfile; 8],
    pub rgb_current_effect: Effect,
    pub rgb_effect_parameters: EffectParameters,
    /// Opaque bytes: a block among the effect parameters, and the last byte of the record.
    pub unknown: ([u8; 12], u8),
    /// Lift-off distance.
    pub lod: u8,
}

/// What a configuration holds, with every array and list as a sequence.
pub struct ConfigView {
    pub header: Seq<u8>,
    pub sensor_id: u8,
    pub dpi_axes_independent: bool,
    pub polling_rate: PollingRate,
    pub dpi_current_profile: u8,
    pub dpi_profile_count: u8,
    pub dpi_profiles: Seq<DpiProfile>,
    pub rgb_current_effect: Effect,
    pub rgb_effect_parameters: EffectParametersView,
    pub unknown: (Seq<u8>, u8),
    pub lod: u8,
}

impl View for Config {
    type V = ConfigView;

    open spec fn view(&self) -> ConfigView {
        ConfigView {
            header: self.header@,
            sensor_id: self.sensor_id,
            dpi_axes_independent: self.dpi_axes_independent,
            polling_rate: self.polling_rate,
            dpi_current_profile: self.dpi_current_profile,
            dpi_profile_count: self.dpi_profile_count,
            dpi_profiles: self.dpi_profiles@,
            rgb_current_effect: self.rgb_current_effect,
            rgb_effect_parameters: self.rgb_effect_parameters@,
            unknown: (self.unknown.0@, self.unknown.1),
            lod: self.lod,
        }
    }
}

/// The number of enabled profiles among the first `n`.
pub open spec fn count_enabled(ps: Seq<DpiProfile>, n: int) -> int
    decreases n,
{
    if n <= 0 {
        0
    } else {
        count_enabled(ps, n - 1) + if ps[n - 1].enabled { 1int } else { 0int }
    }
}

/// Whether any profile sets the two axes independently.
pub open spec fn any_double(ps: Seq<DpiProfile>) -> bool {
    exists|i: int| 0 <= i < ps.len() && (#[trigger] ps[i]).value is Double
}

pub proof fn lemma_count_enabled_bounds(ps: Seq<DpiProfile>, n: int)
    requires
        0 <= n,
    ensures
        0 <= count_enabled(ps, n) <= n,
    decreases n,
{
    if n > 0 {
        lemma_count_enabled_bounds(ps, n - 1);
    }
}

/// A profile's DPI values are values the device can hold.
pub open spec fn profile_is_valid(p: DpiProfile) -> bool {
    match p.value {
        DpiValue::Single(x) => is_valid_dpi(x),
        DpiValue::Double(x, y) => is_valid_dpi(x) && is_valid_dpi(y),
    }
}

impl ConfigView {
    /// Every field holds a value its place on the wire can carry: fixed sizes, DPI values
    /// the device accepts, an active profile among the eight, 4-bit speeds and brightnesses,
    /// and full color lists.
    pub open spec fn is_valid(self) -> bool {
        &&& self.header.len() == 9
        &&& self.unknown.0.len() == 12
        &&& self.dpi_profiles.len() == 8
        &&& self.dpi_current_profile < 8
        &&& forall|i: int| 0 <= i < 8 ==> profile_is_valid(#[trigger] self.dpi_profiles[i])
        &&& self.rgb_effect_parameters.is_valid()
    }

    /// Either every profile sets its axes independently or none does.
    pub open spec fn has_uniform_axes(self) -> bool {
        any_double(self.dpi_profiles) ==> forall|i: int|
            0 <= i < self.dpi_profiles.len() ==> (#[trigger] self.dpi_profiles[i]).value is Double
    }

    /// The derived fields agree with the profile list.
    pub open spec fn is_normalized(self) -> bool {
        &&& self.dpi_profile_count == count_enabled(self.dpi_profiles, 8)
        &&& self.dpi_axes_independent == any_double(self.dpi_profiles)
    }
}

/// The number of enabled profiles and whether any profile sets its axes independently.
pub fn dpi_metadata(ps: &[DpiProfile; 8]) -> (r: (u8, bool))
    ensures
        r.0 as int == count_enabled(ps@, 8),
        r.1 == any_double(ps@),
{
    let mut count: u8 = 0;
    let mut indep = false;
    let mut i: usize = 0;
    while i < 8
        invariant
            0 <= i <= 8,
            count as int == count_enabled(ps@, i as int),
            indep == exists|j: int| 0 <= j < i && (#[trigger] ps@[j]).value is Double,
        decreases 8 - i,
    {
        proof {
            lemma_count_enabled_bounds(ps@, i as int);
        }
        if ps[i].enabled {
            count = count + 1;
        }
        if let DpiValue::Double(_, _) = ps[i].value {
            indep = true;
        }
        i = i + 1;
    }
    (count, indep)
}

impl Config {
    /// Recomputes the profile count and the axis-independence flag from the profiles.
    pub fn fixup_dpi_metadata(&mut self)
        ensures
            final(self)@.is_normalized(),
            final(self)@ == (ConfigView {
                dpi_profile_count: final(self).dpi_profile_count,
                dpi_axes_independent: final(self).dpi_axes_independent,
                ..old(self)@
            }),
    {
        let (count, indep) = dpi_metadata(&self.dpi_profiles);
        self.dpi_profile_count = count;
        self.dpi_axes_independent = indep;
    }

    /// Decodes the configuration held in a report.
    pub fn from_raw(raw: &DataReport) -> (r: Result<Config, CodecError>)
        ensures
            match r {
                Ok(c) => spec_config_report(raw@) == Ok::<ConfigView, CodecError>(c@),
                Err(e) => spec_config_report(raw@) == Err::<ConfigView, CodecError>(e),
            },
    {
        decode::config_report(raw.as_slice())
    }

    /// Encodes this configuration as a report, recomputing its derived fields.
    pub fn to_raw(&self) -> (r: Result<DataReport, CodecError>)
        ensures
            match r {
                Ok(raw) => !over_capacity(self@.rgb_effect_parameters) && raw@ == padded_report(
                    config_image(self@),
                ),
                Err(e) => over_capacity(self@.rgb_effect_parameters) && e
                    == CodecError::CapacityExceeded,
            },
    {
        encode::config_report(self)
    }
}

} // verus!
