use vstd::prelude::*;

use crate::device::Color;

verus! {

/// The lighting effects, wire-encoded 0 to 10 in this order.
#[derive(Debug, Clone, Copy, PartialEq, Eq, Structural)]
pub enum Effect {
    Off,
    Glorious,
    SingleColor,
    Breathing,
    Tail,
    SeamlessBreathing,
    ConstantRgb,
    Rave,
    Random,
    Wave,
    SingleBreathing,
}

/// The wire code of an effect.
pub open spec fn effect_code(e: Effect) -> u8 {
    match e {
        Effect::Off => 0,
        Effect::Glorious => 1,
        Effect::SingleColor => 2,
        Effect::Breathing => 3,
        Effect::Tail => 4,
        Effect::SeamlessBreathing => 5,
        Effect::ConstantRgb => 6,
        Effect::Rave => 7,
        Effect::Random => 8,
        Effect::Wave => 9,
        Effect::SingleBreathing => 10,
    }
}

/// The effect that a wire code stands for, if any.
pub open spec fn effect_of(code: u8) -> Option<Effect> {
    if code == 0 {
        Some(Effect::Off)
    } else if code == 1 {
        Some(Effect::Glorious)
    } else if code == 2 {
        Some(Effect::SingleColor)
    } else if code == 3 {
        Some(Effect::Breathing)
    } else if code == 4 {
        Some(Effect::Tail)
    } else if code == 5 {
        Some(Effect::SeamlessBreathing)
    } else if code == 6 {
        Some(Effect::ConstantRgb)
    } else if code == 7 {
        Some(Effect::Rave)
    } else if code == 8 {
        Some(Effect::Random)
    } else if code == 9 {
        Some(Effect::Wave)
    } else if code == 10 {
        Some(Effect::SingleBreathing)
    } else {
        None
    }
}

impl Effect {
    pub fn code(&self) -> (r: u8)
        ensures
            r == effect_code(*self),
    {
        match self {
            Effect::Off => 0,
            Effect::Glorious => 1,
            Effect::SingleColor => 2,
            Effect::Breathing => 3,
            Effect::Tail => 4,
            Effect::SeamlessBreathing => 5,
            Effect::ConstantRgb => 6,
            Effect::Rave => 7,
            Effect::Random => 8,
            Effect::Wave => 9,
            Effect::SingleBreathing => 10,
        }
    }

    pub fn from_code(code: u8) -> (r: Option<Effect>)
        ensures
            r == effect_of(code),
    {
        if code == 0 {
            Some(Effect::Off)
        } else if code == 1 {
            Some(Effect::Glorious)
        } else if code == 2 {
            Some(Effect::SingleColor)
        } else if code == 3 {
            Some(Effect::Breathing)
        } else if code == 4 {
            Some(Effect::Tail)
        } else if code == 5 {
            Some(Effect::SeamlessBreathing)
        } else if code == 6 {
            Some(Effect::ConstantRgb)
        } else if code == 7 {
            Some(Effect::Rave)
        } else if code == 8 {
            Some(Effect::Random)
        } else if code == 9 {
            Some(Effect::Wave)
        } else if code == 10 {
            Some(Effect::SingleBreathing)
        } else {
            None
        }
    }
}

/// Effect direction (0 or 1 on the device).
pub type Direction = u8;

/// Effect speed, a 4-bit value.
pub type Speed = u8;

/// Effect brightness, a 4-bit value.
pub type Brightness = u8;

/// Number of colors in a breathing block.
pub const BREATHING_COLORS: usize = 7;

/// Number of colors in a constant-RGB block.
pub const CONSTANT_RGB_COLORS: usize = 6;

/// Number of colors in a rave block.
pub const RAVE_COLORS: usize = 2;

#[derive(Debug, Clone, Copy, PartialEq, Eq, Structural)]
pub struct Glorious {
    pub speed: Speed,
    pub direction: Direction,
}

#[derive(Debug, Clone, Copy, PartialEq, Eq, Structural)]
pub struct SingleColor {
    pub brightness: Brightness,
    pub color: Color,
}

#[derive(Debug, Clone)]
pub struct Breathing {
    pub speed: Speed,
    pub count: u8,
    pub colors: Vec<Color>,
}

#[derive(Debug, Clone, Copy, PartialEq, Eq, Structural)]
pub struct Tail {
    pub speed: Speed,
    pub brightness: Brightness,
}

#[derive(Debug, Clone, Copy, PartialEq, Eq, Structural)]
pub struct SeamlessBreathing {
    pub speed: Speed,
}

#[derive(Debug, Clone)]
pub struct ConstantRgb {
    pub colors: Vec<Color>,
}

#[derive(Debug, Clone)]
pub struct Rave {
    pub speed: Speed,
    pub brightness: Brightness,
    pub colors: Vec<Color>,
}

#[derive(Debug, Clone, Copy, PartialEq, Eq, Structural)]
pub struct Random {
    pub speed: Speed,
}

#[derive(Debug, Clone, Copy, PartialEq, Eq, Structural)]
pub struct Wave {
    pub speed: Speed,
    pub brightness: Brightness,
}

#[derive(Debug, Clone, Copy, PartialEq, Eq, Structural)]
pub struct SingleBreathing {
    pub speed: Speed,
    pub color: Color,
}

/// The parameters of every effect, all kept whichever effect is active.
#[derive(Debug, Clone)]
pub struct EffectParameters {
    pub glorious: Glorious,
    pub single_color: SingleColor,
    pub breathing: Breathing,
    pub tail: Tail,
    pub seamless_breathing: SeamlessBreathing,
    pub constant_rgb: ConstantRgb,
    pub rave: Rave,
    pub random: Random,
    pub wave: Wave,
    pub single_breathing: SingleBreathing,
}

/// What a breathing block holds, with its colors as a sequence.
pub struct BreathingView {
    pub speed: Speed,
    pub count: u8,
    pub colors: Seq<Color>,
}

/// What a constant-RGB block holds, with its colors as a sequence.
pub struct ConstantRgbView {
    pub colors: Seq<Color>,
}

/// What a rave block holds, with its colors as a sequence.
pub struct RaveView {
    pub speed: Speed,
    pub brightness: Brightness,
    pub colors: Seq<Color>,
}

/// What the parameter record holds, with every color list as a sequence.
pub struct EffectParametersView {
    pub glorious: Glorious,
    pub single_color: SingleColor,
    pub breathing: BreathingView,
    pub tail: Tail,
    pub seamless_breathing: SeamlessBreathing,
    pub constant_rgb: ConstantRgbView,
    pub rave: RaveView,
    pub random: Random,
    pub wave: Wave,
    pub single_breathing: SingleBreathing,
}

impl View for Breathing {
    type V = BreathingView;

    open spec fn view(&self) -> BreathingView {
        BreathingView { speed: self.speed, count: self.count, colors: self.colors@ }
    }
}

impl View for ConstantRgb {
    type V = ConstantRgbView;

    open spec fn view(&self) -> ConstantRgbView {
        ConstantRgbView { colors: self.colors@ }
    }
}

impl View for Rave {
    type V = RaveView;

    open spec fn view(&self) -> RaveView {
        RaveView { speed: self.speed, brightness: self.brightness, colors: self.colors@ }
    }
}

impl View for EffectParameters {
    type V = EffectParametersView;

    open spec fn view(&self) -> EffectParametersView {
        EffectParametersView {
            glorious: self.glorious,
            single_color: self.single_color,
            breathing: self.breathing@,
            tail: self.tail,
            seamless_breathing: self.seamless_breathing,
            constant_rgb: self.constant_rgb@,
            rave: self.rave@,
            random: self.random,
            wave: self.wave,
            single_breathing: self.single_breathing,
        }
    }
}

impl EffectParametersView {
    /// 4-bit speeds and brightnesses, and every color list filling its slots.
    pub open spec fn is_valid(self) -> bool {
        &&& self.glorious.speed < 16
        &&& self.single_color.brightness < 16
        &&& self.breathing.speed < 16
        &&& self.breathing.colors.len() == BREATHING_COLORS
        &&& self.tail.speed < 16
        &&& self.tail.brightness < 16
        &&& self.seamless_breathing.speed < 16
        &&& self.constant_rgb.colors.len() == CONSTANT_RGB_COLORS
        &&& self.rave.speed < 16
        &&& self.rave.brightness < 16
        &&& self.rave.colors.len() == RAVE_COLORS
        &&& self.random.speed < 16
        &&& self.wave.speed < 16
        &&& self.wave.brightness < 16
        &&& self.single_breathing.speed < 16
    }
}

/// The parameters of one effect, tagged by the effect.
#[derive(Debug)]
pub enum ActiveEffect {
    Off,
    Glorious(Glorious),
    SingleColor(SingleColor),
    Breathing(Breathing),
    Tail(Tail),
    SeamlessBreathing(SeamlessBreathing),
    ConstantRgb(ConstantRgb),
    Rave(Rave),
    Random(Random),
    Wave(Wave),
    SingleBreathing(SingleBreathing),
}

fn copy_colors(v: &Vec<Color>) -> (r: Vec<Color>)
    ensures
        r@ == v@,
{
    let mut out: Vec<Color> = Vec::new();
    let mut i: usize = 0;
    while i < v.len()
        invariant
            i <= v@.len(),
            out@ == v@.subrange(0, i as int),
        decreases v@.len() - i,
    {
        out.push(v[i]);
        i = i + 1;
        assert(out@ =~= v@.subrange(0, i as int));
    }
    assert(v@.subrange(0, v@.len() as int) =~= v@);
    out
}

impl EffectParameters {
    /// The parameters of the given effect alone.
    pub fn active(&self, effect: Effect) -> (r: ActiveEffect)
        ensures
            match effect {
                Effect::Off => r is Off,
                Effect::Glorious => r == ActiveEffect::Glorious(self.glorious),
                Effect::SingleColor => r == ActiveEffect::SingleColor(self.single_color),
                Effect::Breathing => r is Breathing && r->Breathing_0@ == self.breathing@,
                Effect::Tail => r == ActiveEffect::Tail(self.tail),
                Effect::SeamlessBreathing => r == ActiveEffect::SeamlessBreathing(
                    self.seamless_breathing,
                ),
                Effect::ConstantRgb => r is ConstantRgb && r->ConstantRgb_0@ == self.constant_rgb@,
                Effect::Rave => r is Rave && r->Rave_0@ == self.rave@,
                Effect::Random => r == ActiveEffect::Random(self.random),
                Effect::Wave => r == ActiveEffect::Wave(self.wave),
                Effect::SingleBreathing => r == ActiveEffect::SingleBreathing(self.single_breathing),
            },
    {
        match effect {
            Effect::Off => ActiveEffect::Off,
            Effect::Glorious => ActiveEffect::Glorious(self.glorious),
            Effect::SingleColor => ActiveEffect::SingleColor(self.single_color),
            Effect::Breathing => ActiveEffect::Breathing(
                Breathing {
                    speed: self.breathing.speed,
                    count: self.breathing.count,
                    colors: copy_colors(&self.breathing.colors),
                },
            ),
            Effect::Tail => ActiveEffect::Tail(self.tail),
            Effect::SeamlessBreathing => ActiveEffect::SeamlessBreathing(self.seamless_breathing),
            Effect::ConstantRgb => ActiveEffect::ConstantRgb(
                ConstantRgb { colors: copy_colors(&self.constant_rgb.colors) },
            ),
            Effect::Rave => ActiveEffect::Rave(
                Rave {
                    speed: self.rave.speed,
                    brightness: self.rave.brightness,
                    colors: copy_colors(&self.rave.colors),
                },
            ),
            Effect::Random => ActiveEffect::Random(self.random),
            Effect::Wave => ActiveEffect::Wave(self.wave),
            Effect::SingleBreathing => ActiveEffect::SingleBreathing(self.single_breathing),
        }
    }
}

} // verus!
