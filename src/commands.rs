use vstd::prelude::*;

use crate::buttonmap::{default_map, factory_map, ButtonAction, ButtonMapping};
use crate::device::{Color, Config, ConfigView, DpiProfile, DpiValue};
use crate::error::CodecError;
use crate::rgb::{
    BreathingView, Brightness, ConstantRgbView, Direction, Effect, EffectParametersView, Glorious,
    Random, RaveView, SeamlessBreathing, SingleBreathing, SingleColor, Speed, Tail, Wave,
    BREATHING_COLORS, CONSTANT_RGB_COLORS, RAVE_COLORS,
};

verus! {

/// A lighting change: the effect to activate and the parameters to set for it.
/// `None` leaves a parameter as the device has it.
#[derive(Debug)]
pub enum RgbCommand {
    Off,
    Glorious { direction: Option<Direction>, speed: Option<Speed> },
    Single { color: Option<Color>, brightness: Option<Brightness> },
    Breathing { speed: Option<Speed>, colors: Vec<Color> },
    Tail { brightness: Option<Brightness>, speed: Option<Speed> },
    SeamlessBreathing { speed: Option<Speed> },
    ConstantRgb { colors: Vec<Color> },
    Rave { brightness: Option<Brightness>, speed: Option<Speed>, colors: Vec<Color> },
    Random { speed: Option<Speed> },
    Wave { brightness: Option<Brightness>, speed: Option<Speed> },
    SingleBreathing { speed: Option<Speed>, color: Option<Color> },
}

/// The given value, or the current one where none is given.
pub open spec fn or_keep<T>(given: Option<T>, current: T) -> T {
    match given {
        Some(v) => v,
        None => current,
    }
}

/// The new colors over the first slots of a list, the old ones kept after them.
pub open spec fn overlay(old: Seq<Color>, new: Seq<Color>) -> Seq<Color> {
    if new.len() >= old.len() {
        new
    } else {
        new + old.skip(new.len() as int)
    }
}

/// The configuration after a lighting change, or `None` where a color list is too long.
pub open spec fn rgb_applied(c: ConfigView, cmd: RgbCommand) -> Option<ConfigView> {
    let p = c.rgb_effect_parameters;
    match cmd {
        RgbCommand::Off => Some(ConfigView { rgb_current_effect: Effect::Off, ..c }),
        RgbCommand::Glorious { direction, speed } => Some(
            ConfigView {
                rgb_current_effect: Effect::Glorious,
                rgb_effect_parameters: EffectParametersView {
                    glorious: Glorious {
                        direction: or_keep(direction, p.glorious.direction),
                        speed: or_keep(speed, p.glorious.speed),
                    },
                    ..p
                },
                ..c
            },
        ),
        RgbCommand::Single { color, brightness } => Some(
            ConfigView {
                rgb_current_effect: Effect::SingleColor,
                rgb_effect_parameters: EffectParametersView {
                    single_color: SingleColor {
                        color: or_keep(color, p.single_color.color),
                        brightness: or_keep(brightness, p.single_color.brightness),
                    },
                    ..p
                },
                ..c
            },
        ),
        RgbCommand::Breathing { speed, colors } => if colors@.len() > BREATHING_COLORS {
            None
        } else {
            Some(
                ConfigView {
                    rgb_current_effect: Effect::Breathing,
                    rgb_effect_parameters: EffectParametersView {
                        breathing: BreathingView {
                            speed: or_keep(speed, p.breathing.speed),
                            count: if colors@.len() > 0 {
                                colors@.len() as u8
                            } else {
                                p.breathing.count
                            },
                            colors: overlay(p.breathing.colors, colors@),
                        },
                        ..p
                    },
                    ..c
                },
            )
        },
        RgbCommand::Tail { brightness, speed } => Some(
            ConfigView {
                rgb_current_effect: Effect::Tail,
                rgb_effect_parameters: EffectParametersView {
                    tail: Tail {
                        brightness: or_keep(brightness, p.tail.brightness),
                        speed: or_keep(speed, p.tail.speed),
                    },
                    ..p
                },
                ..c
            },
        ),
        RgbCommand::SeamlessBreathing { speed } => Some(
            ConfigView {
                rgb_current_effect: Effect::SeamlessBreathing,
                rgb_effect_parameters: EffectParametersView {
                    seamless_breathing: SeamlessBreathing {
                        speed: or_keep(speed, p.seamless_breathing.speed),
                    },
                    ..p
                },
                ..c
            },
        ),
        RgbCommand::ConstantRgb { colors } => if colors@.len() > CONSTANT_RGB_COLORS {
            None
        } else {
            Some(
                ConfigView {
                    rgb_current_effect: Effect::ConstantRgb,
                    rgb_effect_parameters: EffectParametersView {
                        constant_rgb: ConstantRgbView {
                            colors: overlay(p.constant_rgb.colors, colors@),
                        },
                        ..p
                    },
                    ..c
                },
            )
        },
        RgbCommand::Rave { brightness, speed, colors } => if colors@.len() > RAVE_COLORS {
            None
        } else {
            Some(
                ConfigView {
                    rgb_current_effect: Effect::Rave,
                    rgb_effect_parameters: EffectParametersView {
                        rave: RaveView {
                            brightness: or_keep(brightness, p.rave.brightness),
                            speed: or_keep(speed, p.rave.speed),
                            colors: overlay(p.rave.colors, colors@),
                        },
                        ..p
                    },
                    ..c
                },
            )
        },
        RgbCommand::Random { speed } => Some(
            ConfigView {
                rgb_current_effect: Effect::Random,
                rgb_effect_parameters: EffectParametersView {
                    random: Random {
                        // A speed of 0 is never a usable setting: start from 1.
                        speed: or_keep(
                            speed,
                            if p.random.speed == 0 {
                                1
                            } else {
                                p.random.speed
                            },
                        ),
                    },
                    ..p
                },
                ..c
            },
        ),
        RgbCommand::Wave { brightness, speed } => Some(
            ConfigView {
                rgb_current_effect: Effect::Wave,
                rgb_effect_parameters: EffectParametersView {
                    wave: Wave {
                        brightness: or_keep(brightness, p.wave.brightness),
                        speed: or_keep(speed, p.wave.speed),
                    },
                    ..p
                },
                ..c
            },
        ),
        RgbCommand::SingleBreathing { speed, color } => Some(
            ConfigView {
                rgb_current_effect: Effect::SingleBreathing,
                rgb_effect_parameters: EffectParametersView {
                    single_breathing: SingleBreathing {
                        speed: or_keep(speed, p.single_breathing.speed),
                        color: or_keep(color, p.single_breathing.color),
                    },
                    ..p
                },
                ..c
            },
        ),
    }
}

/// Writes the new colors over the first slots of a list.
fn overlay_colors(dst: &mut Vec<Color>, src: &Vec<Color>)
    ensures
        final(dst)@ == overlay(old(dst)@, src@),
{
    let mut i: usize = 0;
    while i < src.len()
        invariant
            i <= src@.len(),
            dst@.len() == if i <= old(dst)@.len() { old(dst)@.len() } else { i as nat },
            forall|k: int| 0 <= k < i ==> dst@[k] == src@[k],
            forall|k: int| i <= k < old(dst)@.len() ==> dst@[k] == old(dst)@[k],
        decreases src@.len() - i,
    {
        if i < dst.len() {
            dst.set(i, src[i]);
        } else {
            dst.push(src[i]);
        }
        i = i + 1;
    }
    assert(dst@ =~= overlay(old(dst)@, src@));
}

fn pick<T: Copy>(given: Option<T>, current: T) -> (r: T)
    ensures
        r == or_keep(given, current),
{
    match given {
        Some(v) => v,
        None => current,
    }
}

impl Config {
    /// Activates a lighting effect and sets the parameters given for it.
    ///
    /// Fails with `CapacityExceeded`, leaving the configuration as it was, where a color
    /// list is longer than its effect's slots.
    pub fn apply_rgb(&mut self, cmd: &RgbCommand) -> (r: Result<(), CodecError>)
        ensures
            match r {
                Ok(()) => rgb_applied(old(self)@, *cmd) == Some(final(self)@),
                Err(e) => e == CodecError::CapacityExceeded && rgb_applied(old(self)@, *cmd) is None
                    && final(self)@ == old(self)@,
            },
    {
        let p = &mut self.rgb_effect_parameters;
        match cmd {
            RgbCommand::Off => {
                self.rgb_current_effect = Effect::Off;
            },
            RgbCommand::Glorious { direction, speed } => {
                self.rgb_current_effect = Effect::Glorious;
                p.glorious.direction = pick(*direction, p.glorious.direction);
                p.glorious.speed = pick(*speed, p.glorious.speed);
            },
            RgbCommand::Single { color, brightness } => {
                self.rgb_current_effect = Effect::SingleColor;
                p.single_color.color = pick(*color, p.single_color.color);
                p.single_color.brightness = pick(*brightness, p.single_color.brightness);
            },
            RgbCommand::Breathing { speed, colors } => {
                if colors.len() > BREATHING_COLORS {
                    return Err(CodecError::CapacityExceeded);
                }
                self.rgb_current_effect = Effect::Breathing;
                p.breathing.speed = pick(*speed, p.breathing.speed);
                if colors.len() > 0 {
                    p.breathing.count = colors.len() as u8;
                    overlay_colors(&mut p.breathing.colors, colors);
                } else {
                    assert(overlay(p.breathing.colors@, colors@) =~= p.breathing.colors@);
                }
            },
            RgbCommand::Tail { brightness, speed } => {
                self.rgb_current_effect = Effect::Tail;
                p.tail.brightness = pick(*brightness, p.tail.brightness);
                p.tail.speed = pick(*speed, p.tail.speed);
            },
            RgbCommand::SeamlessBreathing { speed } => {
                self.rgb_current_effect = Effect::SeamlessBreathing;
                p.seamless_breathing.speed = pick(*speed, p.seamless_breathing.speed);
            },
            RgbCommand::ConstantRgb { colors } => {
                if colors.len() > CONSTANT_RGB_COLORS {
                    return Err(CodecError::CapacityExceeded);
                }
                self.rgb_current_effect = Effect::ConstantRgb;
                overlay_colors(&mut p.constant_rgb.colors, colors);
            },
            RgbCommand::Rave { brightness, speed, colors } => {
                if colors.len() > RAVE_COLORS {
                    return Err(CodecError::CapacityExceeded);
                }
                self.rgb_current_effect = Effect::Rave;
                p.rave.brightness = pick(*brightness, p.rave.brightness);
                p.rave.speed = pick(*speed, p.rave.speed);
                overlay_colors(&mut p.rave.colors, colors);
            },
            RgbCommand::Random { speed } => {
                self.rgb_current_effect = Effect::Random;
                if p.random.speed == 0 {
                    p.random.speed = 1;
                }
                p.random.speed = pick(*speed, p.random.speed);
            },
            RgbCommand::Wave { brightness, speed } => {
                self.rgb_current_effect = Effect::Wave;
                p.wave.brightness = pick(*brightness, p.wave.brightness);
                p.wave.speed = pick(*speed, p.wave.speed);
            },
            RgbCommand::SingleBreathing { speed, color } => {
                self.rgb_current_effect = Effect::SingleBreathing;
                p.single_breathing.speed = pick(*speed, p.single_breathing.speed);
                p.single_breathing.color = pick(*color, p.single_breathing.color);
            },
        }
        Ok(())
    }
}

/// The profile after a DPI change: a new color and a new shared DPI value where given.
pub open spec fn profile_changed(p: DpiProfile, color: Option<Color>, dpi: Option<u16>) -> DpiProfile {
    DpiProfile {
        color: or_keep(color, p.color),
        value: match dpi {
            Some(d) => DpiValue::Single(d),
            None => p.value,
        },
        ..p
    }
}

impl Config {
    /// Changes the color and the DPI of profile `which` (1 to 8), then recomputes the
    /// derived fields. A new DPI value is shared by both axes.
    pub fn set_dpi_profile(&mut self, which: usize, color: Option<Color>, dpi: Option<u16>)
        requires
            1 <= which <= 8,
        ensures
            final(self)@.is_normalized(),
            final(self)@ == (ConfigView {
                dpi_profiles: old(self)@.dpi_profiles.update(
                    which - 1,
                    profile_changed(old(self)@.dpi_profiles[which - 1], color, dpi),
                ),
                dpi_profile_count: final(self).dpi_profile_count,
                dpi_axes_independent: final(self).dpi_axes_independent,
                ..old(self)@
            }),
    {
        let i = which - 1;
        let mut prof = self.dpi_profiles[i];
        prof.color = pick(color, prof.color);
        if let Some(d) = dpi {
            prof.value = DpiValue::Single(d);
        }
        self.dpi_profiles[i] = prof;
        assert(self.dpi_profiles@ =~= old(self)@.dpi_profiles.update(
            which - 1,
            profile_changed(old(self)@.dpi_profiles[which - 1], color, dpi),
        ));
        self.fixup_dpi_metadata();
    }
}

/// Why a set of button assignments was refused.
#[derive(Debug, Clone, Copy, PartialEq, Eq, Structural)]
pub enum MappingError {
    /// A button number outside 1 to 6.
    InvalidButtonNumber(usize),
}

/// The first `n` assignments applied in order over `m`, or the first bad button number.
pub open spec fn assignments_applied(
    m: Seq<ButtonAction>,
    assignments: Seq<(usize, ButtonAction)>,
    n: nat,
) -> Result<Seq<ButtonAction>, MappingError>
    decreases n,
{
    if n == 0 {
        Ok(m)
    } else {
        match assignments_applied(m, assignments, (n - 1) as nat) {
            Err(e) => Err(e),
            Ok(prev) => {
                let (which, action) = assignments[n - 1];
                if 1 <= which <= 6 {
                    Ok(prev.update(which - 1, action))
                } else {
                    Err(MappingError::InvalidButtonNumber(which))
                }
            },
        }
    }
}

proof fn lemma_assignments_error_persists(
    m: Seq<ButtonAction>,
    assignments: Seq<(usize, ButtonAction)>,
    k: nat,
    n: nat,
)
    requires
        k <= n,
        assignments_applied(m, assignments, k) is Err,
    ensures
        assignments_applied(m, assignments, n) == assignments_applied(m, assignments, k),
    decreases n,
{
    if n > k {
        lemma_assignments_error_persists(m, assignments, k, (n - 1) as nat);
    }
}

/// Applies button assignments `(button number 1 to 6, action)` in order over the
/// factory mapping; a later assignment to the same button wins.
pub fn apply_button_mappings(assignments: &Vec<(usize, ButtonAction)>) -> (r: Result<
    ButtonMapping,
    MappingError,
>)
    ensures
        match r {
            Ok(m) => assignments_applied(factory_map(), assignments@, assignments@.len())
                == Ok::<Seq<ButtonAction>, MappingError>(m@),
            Err(e) => assignments_applied(factory_map(), assignments@, assignments@.len())
                == Err::<Seq<ButtonAction>, MappingError>(e),
        },
{
    let mut map = default_map();
    let ghost start = map@;
    let mut i: usize = 0;
    while i < assignments.len()
        invariant
            i <= assignments@.len(),
            start == factory_map(),
            assignments_applied(start, assignments@, i as nat) == Ok::<
                Seq<ButtonAction>,
                MappingError,
            >(map@),
        decreases assignments@.len() - i,
    {
        let (which, action) = assignments[i];
        if which < 1 || which > 6 {
            proof {
                lemma_assignments_error_persists(
                    start,
                    assignments@,
                    (i + 1) as nat,
                    assignments@.len(),
                );
            }
            return Err(MappingError::InvalidButtonNumber(which));
        }
        map[which - 1] = action;
        i = i + 1;
        assert(map@ =~= assignments_applied(start, assignments@, i as nat)->Ok_0);
    }
    Ok(map)
}

} // verus!
