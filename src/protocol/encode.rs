use vstd::prelude::*;

use crate::buttonmap::{dpi_switch_code, ButtonAction, ButtonMapping, DpiSwitch, MacroMode};
use crate::device::{
    any_double, count_enabled, dpi_encode, dpi_metadata, dpi_to_raw, polling_rate_code, Color, Config,
    ConfigView, DataReport, DpiProfile, DpiValue, REPORT_LEN,
};
use crate::error::CodecError;
use crate::protocol::decode::{lo_nibble, CONFIG_LEN};
use crate::rgb::{
    effect_code, Breathing, EffectParameters, BreathingView, ConstantRgb, ConstantRgbView, EffectParametersView,
    Glorious, Rave, RaveView, Random, SeamlessBreathing, SingleBreathing, SingleColor, Tail,
    Wave, BREATHING_COLORS, CONSTANT_RGB_COLORS, RAVE_COLORS,
};

verus! {

/// `n` zero bytes.
pub open spec fn zeros(n: nat) -> Seq<u8> {
    Seq::new(n, |i: int| 0u8)
}

/// A full report: the given content followed by zero bytes.
pub open spec fn padded_report(content: Seq<u8>) -> Seq<u8> {
    content + zeros((REPORT_LEN - content.len()) as nat)
}

/// A profile color in R,G,B order.
pub open spec fn rgb_bytes(c: Color) -> Seq<u8> {
    seq![c.r, c.g, c.b]
}

/// An effect color in R,B,G order.
pub open spec fn rbg_bytes(c: Color) -> Seq<u8> {
    seq![c.r, c.b, c.g]
}

/// Color slot `i` of a list: the color in R,B,G order, or three zero bytes past its end.
pub open spec fn color_slot_bytes(cs: Seq<Color>, i: int) -> Seq<u8> {
    if i < cs.len() {
        rbg_bytes(cs[i])
    } else {
        seq![0u8, 0u8, 0u8]
    }
}

/// The first `n` color slots of a list.
pub open spec fn colors_rbg_bytes(cs: Seq<Color>, n: nat) -> Seq<u8>
    decreases n,
{
    if n == 0 {
        Seq::empty()
    } else {
        colors_rbg_bytes(cs, (n - 1) as nat) + color_slot_bytes(cs, n - 1)
    }
}

/// A control byte with a speed in the low nibble and a fixed pattern in the high one.
pub open spec fn speed_byte(speed: u8, high: u8) -> u8 {
    lo_nibble(speed) | high
}

/// A control byte with a speed in the low nibble and a brightness in the high one.
pub open spec fn speed_brightness_byte(speed: u8, brightness: u8) -> u8 {
    lo_nibble(speed) | (lo_nibble(brightness) << 4u8)
}

/// The control pattern written where an effect has no brightness.
pub const IGNORED_BRIGHTNESS: u8 = 0x40;

pub open spec fn glorious_bytes(g: Glorious) -> Seq<u8> {
    seq![speed_byte(g.speed, IGNORED_BRIGHTNESS), g.direction]
}

pub open spec fn single_color_bytes(s: SingleColor) -> Seq<u8> {
    seq![lo_nibble(s.brightness) << 4u8] + rbg_bytes(s.color)
}

pub open spec fn breathing_bytes(b: BreathingView) -> Seq<u8> {
    seq![speed_byte(b.speed, IGNORED_BRIGHTNESS), b.count] + colors_rbg_bytes(b.colors, 7)
}

pub open spec fn tail_bytes(t: Tail) -> Seq<u8> {
    seq![speed_brightness_byte(t.speed, t.brightness)]
}

pub open spec fn seamless_breathing_bytes(s: SeamlessBreathing) -> Seq<u8> {
    seq![speed_byte(s.speed, IGNORED_BRIGHTNESS)]
}

pub open spec fn constant_rgb_bytes(c: ConstantRgbView) -> Seq<u8> {
    seq![0u8] + colors_rbg_bytes(c.colors, 6)
}

pub open spec fn rave_bytes(r: RaveView) -> Seq<u8> {
    seq![speed_brightness_byte(r.speed, r.brightness)] + colors_rbg_bytes(r.colors, 2)
}

pub open spec fn random_bytes(r: Random) -> Seq<u8> {
    seq![speed_byte(r.speed, 0)]
}

pub open spec fn wave_bytes(w: Wave) -> Seq<u8> {
    seq![speed_brightness_byte(w.speed, w.brightness)]
}

pub open spec fn single_breathing_bytes(s: SingleBreathing) -> Seq<u8> {
    seq![speed_byte(s.speed, 0)] + rbg_bytes(s.color)
}

/// Some color list holds more colors than its block has slots.
pub open spec fn over_capacity(p: EffectParametersView) -> bool {
    ||| p.breathing.colors.len() > BREATHING_COLORS
    ||| p.constant_rgb.colors.len() > CONSTANT_RGB_COLORS
    ||| p.rave.colors.len() > RAVE_COLORS
}

/// The ten parameter blocks in wire order, with the opaque block before the rave block.
pub open spec fn effect_parameters_bytes(p: EffectParametersView, opaque: Seq<u8>) -> Seq<u8> {
    glorious_bytes(p.glorious) + single_color_bytes(p.single_color) + breathing_bytes(p.breathing)
        + tail_bytes(p.tail) + seamless_breathing_bytes(p.seamless_breathing) + constant_rgb_bytes(
        p.constant_rgb,
    ) + opaque + rave_bytes(p.rave) + random_bytes(p.random) + wave_bytes(p.wave)
        + single_breathing_bytes(p.single_breathing)
}

/// The raw magnitude written for the X axis (or the only axis) of a profile.
pub open spec fn first_raw(p: DpiProfile) -> u8 {
    match p.value {
        DpiValue::Single(x) => dpi_to_raw(x),
        DpiValue::Double(x, _) => dpi_to_raw(x),
    }
}

/// The raw magnitude written for the Y axis of a profile; a single value serves both axes.
pub open spec fn second_raw(p: DpiProfile) -> u8 {
    match p.value {
        DpiValue::Single(x) => dpi_to_raw(x),
        DpiValue::Double(_, y) => dpi_to_raw(y),
    }
}

/// Two magnitudes for each of the first `n` profiles.
pub open spec fn dpi_pairs_bytes(ps: Seq<DpiProfile>, n: nat) -> Seq<u8>
    decreases n,
{
    if n == 0 {
        Seq::empty()
    } else {
        dpi_pairs_bytes(ps, (n - 1) as nat) + seq![first_raw(ps[n - 1]), second_raw(ps[n - 1])]
    }
}

/// One magnitude for each of the first `n` profiles.
pub open spec fn dpi_singles_bytes(ps: Seq<DpiProfile>, n: nat) -> Seq<u8>
    decreases n,
{
    if n == 0 {
        Seq::empty()
    } else {
        dpi_singles_bytes(ps, (n - 1) as nat) + seq![first_raw(ps[n - 1])]
    }
}

/// The 16 magnitude bytes: pairs when the axes are independent, else singles then zeros.
pub open spec fn dpi_bytes(ps: Seq<DpiProfile>, indep: bool) -> Seq<u8> {
    if indep {
        dpi_pairs_bytes(ps, 8)
    } else {
        dpi_singles_bytes(ps, 8) + zeros(8)
    }
}

/// The colors of the first `n` profiles, in R,G,B order.
pub open spec fn profile_colors_bytes(ps: Seq<DpiProfile>, n: nat) -> Seq<u8>
    decreases n,
{
    if n == 0 {
        Seq::empty()
    } else {
        profile_colors_bytes(ps, (n - 1) as nat) + rgb_bytes(ps[n - 1].color)
    }
}

/// 1 where a profile is disabled, 0 where it is enabled.
pub open spec fn disabled_bit(p: DpiProfile) -> u8 {
    if p.enabled {
        0
    } else {
        1
    }
}

/// The enable mask: bit `i` set where profile `i` is disabled.
pub open spec fn enable_mask(ps: Seq<DpiProfile>) -> u8 {
    disabled_bit(ps[0]) | (disabled_bit(ps[1]) << 1u8) | (disabled_bit(ps[2]) << 2u8) | (
    disabled_bit(ps[3]) << 3u8) | (disabled_bit(ps[4]) << 4u8) | (disabled_bit(ps[5]) << 5u8) | (
    disabled_bit(ps[6]) << 6u8) | (disabled_bit(ps[7]) << 7u8)
}

/// The byte holding the axis-independence flag (high nibble) and the rate code (low nibble).
pub open spec fn axes_rate_byte(indep: bool, rate_code: u8) -> u8 {
    ((if indep { 1u8 } else { 0u8 }) << 4u8) | rate_code
}

/// The byte holding the current profile (high nibble) and the profile count (low nibble).
pub open spec fn profile_byte(current: u8, count: u8) -> u8 {
    (lo_nibble(current) << 4u8) | lo_nibble(count)
}

/// The configuration record, with the profile count and the axis flag recomputed.
pub open spec fn config_image(c: ConfigView) -> Seq<u8> {
    let ps = c.dpi_profiles;
    let indep = any_double(ps);
    c.header + seq![
        c.sensor_id,
        axes_rate_byte(indep, polling_rate_code(c.polling_rate)),
        profile_byte(c.dpi_current_profile, count_enabled(ps, 8) as u8),
        enable_mask(ps),
    ] + dpi_bytes(ps, indep) + profile_colors_bytes(ps, 8) + seq![effect_code(c.rgb_current_effect)]
        + effect_parameters_bytes(c.rgb_effect_parameters, c.unknown.0) + seq![c.lod, c.unknown.1]
}

pub proof fn lemma_colors_rbg_bytes_len(cs: Seq<Color>, n: nat)
    ensures
        colors_rbg_bytes(cs, n).len() == 3 * n,
    decreases n,
{
    if n > 0 {
        lemma_colors_rbg_bytes_len(cs, (n - 1) as nat);
    }
}

pub proof fn lemma_dpi_bytes_len(ps: Seq<DpiProfile>, n: nat)
    ensures
        dpi_pairs_bytes(ps, n).len() == 2 * n,
        dpi_singles_bytes(ps, n).len() == n,
        profile_colors_bytes(ps, n).len() == 3 * n,
    decreases n,
{
    if n > 0 {
        lemma_dpi_bytes_len(ps, (n - 1) as nat);
    }
}

/// The length of each piece of the configuration record.
pub proof fn lemma_config_image_len(c: ConfigView)
    requires
        c.header.len() == 9,
        c.unknown.0.len() == 12,
    ensures
        dpi_bytes(c.dpi_profiles, any_double(c.dpi_profiles)).len() == 16,
        profile_colors_bytes(c.dpi_profiles, 8).len() == 24,
        effect_parameters_bytes(c.rgb_effect_parameters, c.unknown.0).len() == 75,
        config_image(c).len() == CONFIG_LEN,
{
    lemma_dpi_bytes_len(c.dpi_profiles, 8);
    lemma_colors_rbg_bytes_len(c.rgb_effect_parameters.breathing.colors, 7);
    lemma_colors_rbg_bytes_len(c.rgb_effect_parameters.constant_rgb.colors, 6);
    lemma_colors_rbg_bytes_len(c.rgb_effect_parameters.rave.colors, 2);
}

/// A growing report body.
struct ByteBuffer {
    buf: Vec<u8>,
}

impl ByteBuffer {
    fn with_capacity(cap: usize) -> (r: ByteBuffer)
        ensures
            r.buf@ == Seq::<u8>::empty(),
    {
        ByteBuffer { buf: Vec::with_capacity(cap) }
    }

    fn put_byte(&mut self, b: u8)
        ensures
            final(self).buf@ == old(self).buf@.push(b),
    {
        self.buf.push(b);
    }

    fn put_bytes(&mut self, bs: &[u8])
        ensures
            final(self).buf@ == old(self).buf@ + bs@,
    {
        let mut i: usize = 0;
        while i < bs.len()
            invariant
                i <= bs@.len(),
                self.buf@ == old(self).buf@ + bs@.subrange(0, i as int),
            decreases bs@.len() - i,
        {
            self.buf.push(bs[i]);
            i = i + 1;
            assert(self.buf@ =~= old(self).buf@ + bs@.subrange(0, i as int));
        }
        assert(bs@.subrange(0, bs@.len() as int) =~= bs@);
    }

    /// The report: the content written so far, then zero bytes up to the report size.
    fn to_raw_config(&self) -> (r: DataReport)
        requires
            self.buf@.len() <= REPORT_LEN,
        ensures
            r@ == padded_report(self.buf@),
    {
        let mut raw: DataReport = [0u8; 520];
        let len = self.buf.len();
        let mut i: usize = 0;
        while i < len
            invariant
                i <= len,
                len == self.buf@.len(),
                len <= REPORT_LEN,
                raw@.len() == REPORT_LEN,
                forall|k: int| 0 <= k < i ==> raw@[k] == self.buf@[k],
                forall|k: int| i <= k < REPORT_LEN ==> raw@[k] == 0u8,
            decreases len - i,
        {
            raw[i] = self.buf[i];
            i = i + 1;
        }
        assert(raw@ =~= padded_report(self.buf@));
        raw
    }
}

impl Color {
    fn put_rgb(&self, out: &mut ByteBuffer)
        ensures
            final(out).buf@ == old(out).buf@ + rgb_bytes(*self),
    {
        out.put_byte(self.r);
        out.put_byte(self.g);
        out.put_byte(self.b);
        assert(out.buf@ =~= old(out).buf@ + rgb_bytes(*self));
    }

    fn put_rbg(&self, out: &mut ByteBuffer)
        ensures
            final(out).buf@ == old(out).buf@ + rbg_bytes(*self),
    {
        out.put_byte(self.r);
        out.put_byte(self.b);
        out.put_byte(self.g);
        assert(out.buf@ =~= old(out).buf@ + rbg_bytes(*self));
    }
}

fn nibble(b: u8) -> (r: u8)
    ensures
        r == lo_nibble(b),
{
    b & 0x0fu8
}

/// Writes `n` color slots: the listed colors, then zero slots.
fn put_colors_rbg(out: &mut ByteBuffer, cs: &Vec<Color>, n: usize)
    requires
        cs@.len() <= n,
    ensures
        final(out).buf@ == old(out).buf@ + colors_rbg_bytes(cs@, n as nat),
{
    let mut i: usize = 0;
    while i < n
        invariant
            i <= n,
            cs@.len() <= n,
            out.buf@ == old(out).buf@ + colors_rbg_bytes(cs@, i as nat),
        decreases n - i,
    {
        if i < cs.len() {
            cs[i].put_rbg(out);
        } else {
            out.put_byte(0);
            out.put_byte(0);
            out.put_byte(0);
        }
        i = i + 1;
        assert(out.buf@ =~= old(out).buf@ + colors_rbg_bytes(cs@, i as nat));
    }
}

impl Glorious {
    fn put(&self, out: &mut ByteBuffer)
        ensures
            final(out).buf@ == old(out).buf@ + glorious_bytes(*self),
    {
        out.put_byte(nibble(self.speed) | IGNORED_BRIGHTNESS);
        out.put_byte(self.direction);
        assert(out.buf@ =~= old(out).buf@ + glorious_bytes(*self));
    }
}

impl SingleColor {
    fn put(&self, out: &mut ByteBuffer)
        ensures
            final(out).buf@ == old(out).buf@ + single_color_bytes(*self),
    {
        out.put_byte(nibble(self.brightness) << 4u8);
        self.color.put_rbg(out);
        assert(out.buf@ =~= old(out).buf@ + single_color_bytes(*self));
    }
}

impl Breathing {
    fn put(&self, out: &mut ByteBuffer)
        requires
            self.colors@.len() <= BREATHING_COLORS,
        ensures
            final(out).buf@ == old(out).buf@ + breathing_bytes(self@),
    {
        out.put_byte(nibble(self.speed) | IGNORED_BRIGHTNESS);
        out.put_byte(self.count);
        put_colors_rbg(out, &self.colors, BREATHING_COLORS);
        assert(out.buf@ =~= old(out).buf@ + breathing_bytes(self@));
    }
}

impl Tail {
    fn put(&self, out: &mut ByteBuffer)
        ensures
            final(out).buf@ == old(out).buf@ + tail_bytes(*self),
    {
        out.put_byte(nibble(self.speed) | (nibble(self.brightness) << 4u8));
        assert(out.buf@ =~= old(out).buf@ + tail_bytes(*self));
    }
}

impl SeamlessBreathing {
    fn put(&self, out: &mut ByteBuffer)
        ensures
            final(out).buf@ == old(out).buf@ + seamless_breathing_bytes(*self),
    {
        out.put_byte(nibble(self.speed) | IGNORED_BRIGHTNESS);
        assert(out.buf@ =~= old(out).buf@ + seamless_breathing_bytes(*self));
    }
}

impl ConstantRgb {
    fn put(&self, out: &mut ByteBuffer)
        requires
            self.colors@.len() <= CONSTANT_RGB_COLORS,
        ensures
            final(out).buf@ == old(out).buf@ + constant_rgb_bytes(self@),
    {
        out.put_byte(0);
        put_colors_rbg(out, &self.colors, CONSTANT_RGB_COLORS);
        assert(out.buf@ =~= old(out).buf@ + constant_rgb_bytes(self@));
    }
}

impl Rave {
    fn put(&self, out: &mut ByteBuffer)
        requires
            self.colors@.len() <= RAVE_COLORS,
        ensures
            final(out).buf@ == old(out).buf@ + rave_bytes(self@),
    {
        out.put_byte(nibble(self.speed) | (nibble(self.brightness) << 4u8));
        put_colors_rbg(out, &self.colors, RAVE_COLORS);
        assert(out.buf@ =~= old(out).buf@ + rave_bytes(self@));
    }
}

impl Random {
    fn put(&self, out: &mut ByteBuffer)
        ensures
            final(out).buf@ == old(out).buf@ + random_bytes(*self),
    {
        out.put_byte(nibble(self.speed) | 0u8);
        assert(out.buf@ =~= old(out).buf@ + random_bytes(*self));
    }
}

impl Wave {
    fn put(&self, out: &mut ByteBuffer)
        ensures
            final(out).buf@ == old(out).buf@ + wave_bytes(*self),
    {
        out.put_byte(nibble(self.speed) | (nibble(self.brightness) << 4u8));
        assert(out.buf@ =~= old(out).buf@ + wave_bytes(*self));
    }
}

impl SingleBreathing {
    fn put(&self, out: &mut ByteBuffer)
        ensures
            final(out).buf@ == old(out).buf@ + single_breathing_bytes(*self),
    {
        out.put_byte(nibble(self.speed) | 0u8);
        self.color.put_rbg(out);
        assert(out.buf@ =~= old(out).buf@ + single_breathing_bytes(*self));
    }
}

fn disabled(p: &DpiProfile) -> (r: u8)
    ensures
        r == disabled_bit(*p),
{
    if p.enabled {
        0
    } else {
        1
    }
}

fn first_raw_of(p: &DpiProfile) -> (r: u8)
    ensures
        r == first_raw(*p),
{
    match p.value {
        DpiValue::Single(x) => dpi_encode(x),
        DpiValue::Double(x, _) => dpi_encode(x),
    }
}

fn second_raw_of(p: &DpiProfile) -> (r: u8)
    ensures
        r == second_raw(*p),
{
    match p.value {
        DpiValue::Single(x) => dpi_encode(x),
        DpiValue::Double(_, y) => dpi_encode(y),
    }
}

fn put_dpi_values(out: &mut ByteBuffer, ps: &[DpiProfile; 8], indep: bool)
    ensures
        final(out).buf@ == old(out).buf@ + dpi_bytes(ps@, indep),
{
    let mut i: usize = 0;
    while i < 8
        invariant
            i <= 8,
            indep ==> out.buf@ == old(out).buf@ + dpi_pairs_bytes(ps@, i as nat),
            !indep ==> out.buf@ == old(out).buf@ + dpi_singles_bytes(ps@, i as nat),
        decreases 8 - i,
    {
        out.put_byte(first_raw_of(&ps[i]));
        if indep {
            out.put_byte(second_raw_of(&ps[i]));
        }
        i = i + 1;
        assert(indep ==> out.buf@ =~= old(out).buf@ + dpi_pairs_bytes(ps@, i as nat));
        assert(!indep ==> out.buf@ =~= old(out).buf@ + dpi_singles_bytes(ps@, i as nat));
    }
    if !indep {
        let pad: [u8; 8] = [0u8; 8];
        out.put_bytes(&pad);
    }
    assert(out.buf@ =~= old(out).buf@ + dpi_bytes(ps@, indep));
}

fn put_profile_colors(out: &mut ByteBuffer, ps: &[DpiProfile; 8])
    ensures
        final(out).buf@ == old(out).buf@ + profile_colors_bytes(ps@, 8),
{
    let mut i: usize = 0;
    while i < 8
        invariant
            i <= 8,
            out.buf@ == old(out).buf@ + profile_colors_bytes(ps@, i as nat),
        decreases 8 - i,
    {
        ps[i].color.put_rgb(out);
        i = i + 1;
        assert(out.buf@ =~= old(out).buf@ + profile_colors_bytes(ps@, i as nat));
    }
}

/// Writes the ten parameter blocks, with the opaque block before the rave block.
fn put_effect_parameters(out: &mut ByteBuffer, p: &EffectParameters, opaque: &[u8; 12])
    requires
        !over_capacity(p@),
    ensures
        final(out).buf@ == old(out).buf@ + effect_parameters_bytes(p@, opaque@),
{
    let ghost start = out.buf@;
    p.glorious.put(out);
    let ghost acc = glorious_bytes(p.glorious);
    p.single_color.put(out);
    proof {
        acc = acc + single_color_bytes(p.single_color);
        assert(out.buf@ =~= start + acc);
    }
    p.breathing.put(out);
    proof {
        acc = acc + breathing_bytes(p.breathing@);
        assert(out.buf@ =~= start + acc);
    }
    p.tail.put(out);
    proof {
        acc = acc + tail_bytes(p.tail);
        assert(out.buf@ =~= start + acc);
    }
    p.seamless_breathing.put(out);
    proof {
        acc = acc + seamless_breathing_bytes(p.seamless_breathing);
        assert(out.buf@ =~= start + acc);
    }
    p.constant_rgb.put(out);
    proof {
        acc = acc + constant_rgb_bytes(p.constant_rgb@);
        assert(out.buf@ =~= start + acc);
    }
    out.put_bytes(opaque);
    proof {
        acc = acc + opaque@;
        assert(out.buf@ =~= start + acc);
    }
    p.rave.put(out);
    proof {
        acc = acc + rave_bytes(p.rave@);
        assert(out.buf@ =~= start + acc);
    }
    p.random.put(out);
    proof {
        acc = acc + random_bytes(p.random);
        assert(out.buf@ =~= start + acc);
    }
    p.wave.put(out);
    proof {
        acc = acc + wave_bytes(p.wave);
        assert(out.buf@ =~= start + acc);
    }
    p.single_breathing.put(out);
    proof {
        acc = acc + single_breathing_bytes(p.single_breathing);
        assert(out.buf@ =~= start + acc);
    }
}

/// Encodes a configuration as a report.
///
/// The profile count and the axis-independence flag are recomputed from the profiles.
/// Fails, before writing anything, when a color list exceeds its slot count; shorter
/// lists leave their remaining slots zero.
pub fn config_report(cfg: &Config) -> (r: Result<DataReport, CodecError>)
    ensures
        match r {
            Ok(raw) => !over_capacity(cfg@.rgb_effect_parameters) && raw@ == padded_report(
                config_image(cfg@),
            ),
            Err(e) => over_capacity(cfg@.rgb_effect_parameters) && e == CodecError::CapacityExceeded,
        },
{
    let params = &cfg.rgb_effect_parameters;
    if params.breathing.colors.len() > BREATHING_COLORS || params.constant_rgb.colors.len()
        > CONSTANT_RGB_COLORS || params.rave.colors.len() > RAVE_COLORS {
        return Err(CodecError::CapacityExceeded);
    }
    let (count, indep) = dpi_metadata(&cfg.dpi_profiles);
    let ps = &cfg.dpi_profiles;
    let mut buf = ByteBuffer::with_capacity(REPORT_LEN);
    buf.put_bytes(&cfg.header);
    buf.put_byte(cfg.sensor_id);
    buf.put_byte(((if indep { 1u8 } else { 0u8 }) << 4u8) | cfg.polling_rate.code());
    buf.put_byte((nibble(cfg.dpi_current_profile) << 4u8) | nibble(count));
    let mask = disabled(&ps[0]) | (disabled(&ps[1]) << 1u8) | (disabled(&ps[2]) << 2u8) | (
    disabled(&ps[3]) << 3u8) | (disabled(&ps[4]) << 4u8) | (disabled(&ps[5]) << 5u8) | (
    disabled(&ps[6]) << 6u8) | (disabled(&ps[7]) << 7u8);
    buf.put_byte(mask);
    let ghost c = cfg@;
    let ghost acc = c.header + seq![
        c.sensor_id,
        axes_rate_byte(indep, polling_rate_code(c.polling_rate)),
        profile_byte(c.dpi_current_profile, count_enabled(c.dpi_profiles, 8) as u8),
        enable_mask(c.dpi_profiles),
    ];
    assert(buf.buf@ =~= acc);
    put_dpi_values(&mut buf, ps, indep);
    put_profile_colors(&mut buf, ps);
    buf.put_byte(cfg.rgb_current_effect.code());
    proof {
        acc = acc + dpi_bytes(c.dpi_profiles, indep) + profile_colors_bytes(c.dpi_profiles, 8)
            + seq![effect_code(c.rgb_current_effect)];
        assert(buf.buf@ =~= acc);
    }
    put_effect_parameters(&mut buf, params, &cfg.unknown.0);
    buf.put_byte(cfg.lod);
    buf.put_byte(cfg.unknown.1);
    proof {
        acc = acc + effect_parameters_bytes(c.rgb_effect_parameters, c.unknown.0) + seq![
            c.lod,
            c.unknown.1,
        ];
        assert(buf.buf@ =~= acc);
        assert(acc == config_image(c));
        lemma_config_image_len(c);
    }
    Ok(buf.to_raw_config())
}

/// The four bytes of one button slot.
pub open spec fn action_bytes(a: ButtonAction) -> Seq<u8> {
    match a {
        ButtonAction::MouseButton(m) => seq![0x11u8, m.bits, 0u8, 0u8],
        ButtonAction::Scroll(s) => seq![0x12u8, s as u8, 0u8, 0u8],
        ButtonAction::RepeatButton { which, interval, count } => seq![
            0x31u8,
            which.bits,
            interval,
            count,
        ],
        ButtonAction::DpiSwitch(sw) => seq![0x41u8, dpi_switch_code(sw), 0u8, 0u8],
        ButtonAction::DpiLock(v) => seq![0x42u8, dpi_to_raw(v), 0u8, 0u8],
        ButtonAction::MediaButton(m) => seq![
            0x22u8,
            (m.bits >> 16u32) as u8,
            (m.bits >> 8u32) as u8,
            m.bits as u8,
        ],
        ButtonAction::KeyboardShortcut { modifiers, key } => seq![0x21u8, modifiers.bits, key, 0u8],
        ButtonAction::Disabled => seq![0x50u8, 0x01u8, 0u8, 0u8],
        ButtonAction::Macro(bank, mode) => seq![0x70u8, bank] + match mode {
            MacroMode::Burst(c) => seq![0x01u8, c],
            MacroMode::RepeatUntilRelease => seq![0x04u8, 0x01u8],
            MacroMode::RepeatUntilAnotherPress => seq![0x02u8, 0x01u8],
        },
    }
}

/// The slots of the first `n` actions.
pub open spec fn actions_bytes(m: Seq<ButtonAction>, n: nat) -> Seq<u8>
    decreases n,
{
    if n == 0 {
        Seq::empty()
    } else {
        actions_bytes(m, (n - 1) as nat) + action_bytes(m[n - 1])
    }
}

/// The fixed header of a button-map report.
pub open spec fn buttonmap_header() -> Seq<u8> {
    seq![0x04u8, 0x12u8, 0x00u8, 0x00u8, 0x00u8, 0x00u8, 0x06u8, 0x00u8]
}

/// Number of slots the button-map record reserves.
pub const BUTTONMAP_SLOTS: usize = 20;

/// The button-map record: header, the slots of the mapping, then disabled slots up to 20.
pub open spec fn buttonmap_image(m: Seq<ButtonAction>) -> Seq<u8> {
    buttonmap_header() + actions_bytes(m, m.len()) + actions_bytes(
        Seq::new((BUTTONMAP_SLOTS - m.len()) as nat, |i: int| ButtonAction::Disabled),
        (BUTTONMAP_SLOTS - m.len()) as nat,
    )
}

impl ButtonAction {
    fn put(&self, out: &mut ByteBuffer)
        ensures
            final(out).buf@ == old(out).buf@ + action_bytes(*self),
    {
        match self {
            ButtonAction::MouseButton(b) => {
                out.put_byte(0x11);
                out.put_byte(b.bits());
                out.put_byte(0);
                out.put_byte(0);
            },
            ButtonAction::Scroll(b) => {
                out.put_byte(0x12);
                out.put_byte(*b as u8);
                out.put_byte(0);
                out.put_byte(0);
            },
            ButtonAction::RepeatButton { which, interval, count } => {
                out.put_byte(0x31);
                out.put_byte(which.bits());
                out.put_byte(*interval);
                out.put_byte(*count);
            },
            ButtonAction::DpiSwitch(sw) => {
                out.put_byte(0x41);
                match sw {
                    DpiSwitch::Cycle => out.put_byte(0x00),
                    DpiSwitch::Up => out.put_byte(0x01),
                    DpiSwitch::Down => out.put_byte(0x02),
                }
                out.put_byte(0);
                out.put_byte(0);
            },
            ButtonAction::DpiLock(v) => {
                out.put_byte(0x42);
                out.put_byte(dpi_encode(*v));
                out.put_byte(0);
                out.put_byte(0);
            },
            ButtonAction::MediaButton(x) => {
                let bits = x.bits();
                out.put_byte(0x22);
                out.put_byte((bits >> 16u32) as u8);
                out.put_byte((bits >> 8u32) as u8);
                out.put_byte(bits as u8);
            },
            ButtonAction::KeyboardShortcut { modifiers, key } => {
                out.put_byte(0x21);
                out.put_byte(modifiers.bits());
                out.put_byte(*key);
                out.put_byte(0);
            },
            ButtonAction::Disabled => {
                out.put_byte(0x50);
                out.put_byte(0x01);
                out.put_byte(0);
                out.put_byte(0);
            },
            ButtonAction::Macro(bank, mode) => {
                out.put_byte(0x70);
                out.put_byte(*bank);
                match mode {
                    MacroMode::Burst(c) => {
                        out.put_byte(0x01);
                        out.put_byte(*c);
                    },
                    MacroMode::RepeatUntilRelease => {
                        out.put_byte(0x04);
                        out.put_byte(0x01);
                    },
                    MacroMode::RepeatUntilAnotherPress => {
                        out.put_byte(0x02);
                        out.put_byte(0x01);
                    },
                }
            },
        }
        assert(out.buf@ =~= old(out).buf@ + action_bytes(*self));
    }
}

/// Encodes a button mapping as a report: the header, the six slots, then disabled
/// slots filling the 20 the record reserves.
pub fn buttonmap(mapping: &ButtonMapping) -> (r: DataReport)
    ensures
        r@ == padded_report(buttonmap_image(mapping@)),
{
    let mut buf = ByteBuffer::with_capacity(REPORT_LEN);
    let header: [u8; 8] = [0x04, 0x12, 0x00, 0x00, 0x00, 0x00, 0x06, 0x00];
    buf.put_bytes(&header);
    assert(buf.buf@ =~= buttonmap_header());
    let mut i: usize = 0;
    while i < 6
        invariant
            i <= 6,
            buf.buf@ == buttonmap_header() + actions_bytes(mapping@, i as nat),
            buf.buf@.len() == 8 + 4 * i,
        decreases 6 - i,
    {
        mapping[i].put(&mut buf);
        i = i + 1;
        assert(buf.buf@ =~= buttonmap_header() + actions_bytes(mapping@, i as nat));
    }
    let ghost pad = Seq::new(14, |k: int| ButtonAction::Disabled);
    let ghost body = buf.buf@;
    let mut j: usize = 0;
    while j < 14
        invariant
            j <= 14,
            body.len() == 32,
            pad == Seq::new(14, |k: int| ButtonAction::Disabled),
            buf.buf@ == body + actions_bytes(pad, j as nat),
            buf.buf@.len() == 32 + 4 * j,
        decreases 14 - j,
    {
        ButtonAction::Disabled.put(&mut buf);
        j = j + 1;
        assert(pad[j - 1] == ButtonAction::Disabled);
        assert(buf.buf@ =~= body + actions_bytes(pad, j as nat));
    }
    assert(pad =~= Seq::new((BUTTONMAP_SLOTS - mapping@.len()) as nat, |i: int| ButtonAction::Disabled));
    assert(buf.buf@ =~= buttonmap_image(mapping@));
    buf.to_raw_config()
}

} // verus!
