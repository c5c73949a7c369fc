use vstd::prelude::*;

use crate::buttonmap::ButtonAction;
use crate::device::{
    any_double, count_enabled, lemma_count_enabled_bounds, lemma_dpi_valid_inverse,
    polling_rate_code, polling_rate_of, profile_is_valid, Color, ConfigView, DpiProfile, DpiValue,
};
use crate::error::CodecError;
use crate::protocol::decode::{
    action_at, actions_at, colors_rbg_at, effect_parameters_at, hi_nibble, lo_nibble,
    mask_bit_set, profile_at, spec_buttonmap, spec_config_report, CONFIG_LEN,
};
use crate::protocol::encode::{
    action_bytes, actions_bytes, axes_rate_byte, breathing_bytes, buttonmap_header,
    buttonmap_image, color_slot_bytes, colors_rbg_bytes, config_image, constant_rgb_bytes,
    disabled_bit, dpi_bytes, dpi_pairs_bytes, dpi_singles_bytes, effect_parameters_bytes,
    enable_mask, first_raw, glorious_bytes, lemma_colors_rbg_bytes_len, lemma_config_image_len,
    lemma_dpi_bytes_len, padded_report, profile_byte, profile_colors_bytes, random_bytes,
    rave_bytes, seamless_breathing_bytes, second_raw, single_breathing_bytes, single_color_bytes,
    speed_brightness_byte, speed_byte, tail_bytes, wave_bytes,
};
use crate::rgb::{effect_code, effect_of, EffectParametersView};

verus! {

proof fn lemma_nibbles(h: u8, l: u8)
    by (bit_vector)
    requires
        h < 16,
        l < 16,
    ensures
        hi_nibble(axes_rate_byte(h == 1, l)) == (if h == 1 { 1u8 } else { 0u8 }),
        lo_nibble(axes_rate_byte(h == 1, l)) == l,
        hi_nibble(profile_byte(h, l)) == h,
        lo_nibble(profile_byte(h, l)) == l,
        lo_nibble(speed_byte(l, 0x40)) == l,
        lo_nibble(speed_byte(l, 0)) == l,
        hi_nibble(lo_nibble(l) << 4u8) == l,
        lo_nibble(speed_brightness_byte(l, h)) == l,
        hi_nibble(speed_brightness_byte(l, h)) == h,
{
}

proof fn lemma_mask_bits(d0: u8, d1: u8, d2: u8, d3: u8, d4: u8, d5: u8, d6: u8, d7: u8)
    by (bit_vector)
    requires
        d0 <= 1,
        d1 <= 1,
        d2 <= 1,
        d3 <= 1,
        d4 <= 1,
        d5 <= 1,
        d6 <= 1,
        d7 <= 1,
    ensures
        ({
            let m = d0 | (d1 << 1u8) | (d2 << 2u8) | (d3 << 3u8) | (d4 << 4u8) | (d5 << 5u8) | (d6
                << 6u8) | (d7 << 7u8);
            &&& (m >> 0u8) & 1u8 == d0
            &&& (m >> 1u8) & 1u8 == d1
            &&& (m >> 2u8) & 1u8 == d2
            &&& (m >> 3u8) & 1u8 == d3
            &&& (m >> 4u8) & 1u8 == d4
            &&& (m >> 5u8) & 1u8 == d5
            &&& (m >> 6u8) & 1u8 == d6
            &&& (m >> 7u8) & 1u8 == d7
        }),
{
}

proof fn lemma_colors_rbg_bytes_index(cs: Seq<Color>, n: nat, i: int)
    requires
        0 <= i < n,
    ensures
        colors_rbg_bytes(cs, n).len() == 3 * n,
        colors_rbg_bytes(cs, n)[3 * i] == color_slot_bytes(cs, i)[0],
        colors_rbg_bytes(cs, n)[3 * i + 1] == color_slot_bytes(cs, i)[1],
        colors_rbg_bytes(cs, n)[3 * i + 2] == color_slot_bytes(cs, i)[2],
    decreases n,
{
    lemma_colors_rbg_bytes_len(cs, n);
    lemma_colors_rbg_bytes_len(cs, (n - 1) as nat);
    if i < n - 1 {
        lemma_colors_rbg_bytes_index(cs, (n - 1) as nat, i);
    }
}

/// A full color list written in its slots reads back as the same list.
proof fn lemma_colors_round_trip(b: Seq<u8>, at: int, cs: Seq<Color>, n: nat)
    requires
        cs.len() == n,
        0 <= at,
        at + 3 * n <= b.len(),
        forall|k: int| 0 <= k < 3 * n ==> b[at + k] == #[trigger] colors_rbg_bytes(cs, n)[k],
    ensures
        colors_rbg_at(b, at, n) == cs,
{
    assert forall|i: int| 0 <= i < n implies colors_rbg_at(b, at, n)[i] == cs[i] by {
        lemma_colors_rbg_bytes_index(cs, n, i);
        assert(b[at + 3 * i] == colors_rbg_bytes(cs, n)[3 * i]);
        assert(b[at + (3 * i + 1)] == colors_rbg_bytes(cs, n)[3 * i + 1]);
        assert(b[at + (3 * i + 2)] == colors_rbg_bytes(cs, n)[3 * i + 2]);
    }
    assert(colors_rbg_at(b, at, n) =~= cs);
}

proof fn lemma_dpi_bytes_index(ps: Seq<DpiProfile>, n: nat, i: int)
    requires
        0 <= i < n,
    ensures
        dpi_pairs_bytes(ps, n)[2 * i] == first_raw(ps[i]),
        dpi_pairs_bytes(ps, n)[2 * i + 1] == second_raw(ps[i]),
        dpi_singles_bytes(ps, n)[i] == first_raw(ps[i]),
        profile_colors_bytes(ps, n)[3 * i] == ps[i].color.r,
        profile_colors_bytes(ps, n)[3 * i + 1] == ps[i].color.g,
        profile_colors_bytes(ps, n)[3 * i + 2] == ps[i].color.b,
    decreases n,
{
    lemma_dpi_bytes_len(ps, n);
    lemma_dpi_bytes_len(ps, (n - 1) as nat);
    if i < n - 1 {
        lemma_dpi_bytes_index(ps, (n - 1) as nat, i);
    }
}

/// Where each parameter block sits inside the encoded parameter record.
#[verifier::spinoff_prover]
#[verifier::rlimit(50)]
proof fn lemma_effect_parameters_layout(p: EffectParametersView, opaque: Seq<u8>)
    requires
        p.is_valid(),
        opaque.len() == 12,
    ensures
        ({
            let e = effect_parameters_bytes(p, opaque);
            &&& e.len() == 75
            &&& e[0] == glorious_bytes(p.glorious)[0]
            &&& e[1] == glorious_bytes(p.glorious)[1]
            &&& e[2] == single_color_bytes(p.single_color)[0]
            &&& e[3] == single_color_bytes(p.single_color)[1]
            &&& e[4] == single_color_bytes(p.single_color)[2]
            &&& e[5] == single_color_bytes(p.single_color)[3]
            &&& e[6] == breathing_bytes(p.breathing)[0]
            &&& e[7] == breathing_bytes(p.breathing)[1]
            &&& (forall|k: int| 0 <= k < 21 ==> e[8 + k] == #[trigger] colors_rbg_bytes(p.breathing.colors, 7)[k])
            &&& e[29] == tail_bytes(p.tail)[0]
            &&& e[30] == seamless_breathing_bytes(p.seamless_breathing)[0]
            &&& e[31] == 0
            &&& (forall|k: int| 0 <= k < 18 ==> e[32 + k] == #[trigger] colors_rbg_bytes(p.constant_rgb.colors, 6)[k])
            &&& (forall|k: int| 0 <= k < 12 ==> e[50 + k] == #[trigger] opaque[k])
            &&& e[62] == rave_bytes(p.rave)[0]
            &&& (forall|k: int| 0 <= k < 6 ==> e[63 + k] == #[trigger] colors_rbg_bytes(p.rave.colors, 2)[k])
            &&& e[69] == random_bytes(p.random)[0]
            &&& e[70] == wave_bytes(p.wave)[0]
            &&& e[71] == single_breathing_bytes(p.single_breathing)[0]
            &&& e[72] == p.single_breathing.color.r
            &&& e[73] == p.single_breathing.color.b
            &&& e[74] == p.single_breathing.color.g
        }),
{
    lemma_colors_rbg_bytes_len(p.breathing.colors, 7);
    lemma_colors_rbg_bytes_len(p.constant_rgb.colors, 6);
    lemma_colors_rbg_bytes_len(p.rave.colors, 2);
    let g = glorious_bytes(p.glorious);
    let sc = single_color_bytes(p.single_color);
    let br = breathing_bytes(p.breathing);
    let t = tail_bytes(p.tail);
    let sm = seamless_breathing_bytes(p.seamless_breathing);
    let cr = constant_rgb_bytes(p.constant_rgb);
    let rv = rave_bytes(p.rave);
    let rn = random_bytes(p.random);
    let w = wave_bytes(p.wave);
    let sb = single_breathing_bytes(p.single_breathing);
    let upto1 = g + sc;
    let upto2 = upto1 + br;
    let upto3 = upto2 + t;
    let upto4 = upto3 + sm;
    let upto5 = upto4 + cr;
    let upto6 = upto5 + opaque;
    let upto7 = upto6 + rv;
    let upto8 = upto7 + rn;
    let upto9 = upto8 + w;
    let e = upto9 + sb;
    assert(e == effect_parameters_bytes(p, opaque));
    assert(upto1.len() == 6 && upto2.len() == 29 && upto3.len() == 30 && upto4.len() == 31);
    assert(upto5.len() == 50 && upto6.len() == 62 && upto7.len() == 69 && upto8.len() == 70 && upto9.len() == 71);
    assert forall|k: int| 0 <= k < 21 implies e[8 + k] == #[trigger] colors_rbg_bytes(p.breathing.colors, 7)[k] by {
        assert(e[8 + k] == upto2[8 + k]);
        assert(upto2[8 + k] == br[2 + k]);
    }
    assert forall|k: int| 0 <= k < 18 implies e[32 + k] == #[trigger] colors_rbg_bytes(p.constant_rgb.colors, 6)[k] by {
        assert(e[32 + k] == upto5[32 + k]);
        assert(upto5[32 + k] == cr[1 + k]);
    }
    assert forall|k: int| 0 <= k < 12 implies e[50 + k] == #[trigger] opaque[k] by {
        assert(e[50 + k] == upto6[50 + k]);
    }
    assert forall|k: int| 0 <= k < 6 implies e[63 + k] == #[trigger] colors_rbg_bytes(p.rave.colors, 2)[k] by {
        assert(e[63 + k] == upto7[63 + k]);
        assert(upto7[63 + k] == rv[1 + k]);
    }
    assert(e[0] == upto2[0] && e[1] == upto2[1] && e[2] == upto2[2] && e[3] == upto2[3] && e[4] == upto2[4]);
    assert(e[5] == upto2[5] && e[6] == upto2[6] && e[7] == upto2[7]);
    assert(e[29] == upto4[29] && e[30] == upto4[30] && e[31] == upto5[31] && e[62] == upto7[62]);
}

#[verifier::spinoff_prover]
#[verifier::rlimit(50)]
proof fn lemma_effect_parameters_round_trip(b: Seq<u8>, p: EffectParametersView, opaque: Seq<u8>)
    requires
        p.is_valid(),
        opaque.len() == 12,
        b.len() >= CONFIG_LEN,
        forall|k: int|
            0 <= k < 75 ==> b[54 + k] == #[trigger] effect_parameters_bytes(p, opaque)[k],
    ensures
        effect_parameters_at(b) == p,
        b.subrange(104, 116) == opaque,
{
    let e = effect_parameters_bytes(p, opaque);
    lemma_effect_parameters_layout(p, opaque);
    lemma_colors_rbg_bytes_len(p.breathing.colors, 7);
    lemma_colors_rbg_bytes_len(p.constant_rgb.colors, 6);
    lemma_colors_rbg_bytes_len(p.rave.colors, 2);
    assert(b[54] == e[0] && b[55] == e[1] && b[56] == e[2] && b[57] == e[3]);
    assert(b[58] == e[4] && b[59] == e[5] && b[60] == e[6] && b[61] == e[7]);
    assert(b[83] == e[29] && b[84] == e[30] && b[116] == e[62] && b[123] == e[69]);
    assert(b[124] == e[70] && b[125] == e[71] && b[126] == e[72] && b[127] == e[73]);
    assert(b[128] == e[74]);
    assert forall|k: int| 0 <= k < 21 implies b[62 + k] == #[trigger] colors_rbg_bytes(
        p.breathing.colors,
        7,
    )[k] by {
        assert(b[54 + (8 + k)] == e[8 + k]);
    }
    lemma_colors_round_trip(b, 62, p.breathing.colors, 7);
    assert forall|k: int| 0 <= k < 18 implies b[86 + k] == #[trigger] colors_rbg_bytes(
        p.constant_rgb.colors,
        6,
    )[k] by {
        assert(b[54 + (32 + k)] == e[32 + k]);
    }
    lemma_colors_round_trip(b, 86, p.constant_rgb.colors, 6);
    assert forall|k: int| 0 <= k < 6 implies b[117 + k] == #[trigger] colors_rbg_bytes(
        p.rave.colors,
        2,
    )[k] by {
        assert(b[54 + (63 + k)] == e[63 + k]);
    }
    lemma_colors_round_trip(b, 117, p.rave.colors, 2);
    assert forall|k: int| 0 <= k < 12 implies b.subrange(104, 116)[k] == opaque[k] by {
        assert(b[54 + (50 + k)] == e[50 + k]);
    }
    assert(b.subrange(104, 116) =~= opaque);
    lemma_nibbles(0, p.glorious.speed);
    lemma_nibbles(0, p.single_color.brightness);
    lemma_nibbles(p.tail.brightness, p.tail.speed);
    lemma_nibbles(0, p.breathing.speed);
    lemma_nibbles(0, p.seamless_breathing.speed);
    lemma_nibbles(p.rave.brightness, p.rave.speed);
    lemma_nibbles(0, p.random.speed);
    lemma_nibbles(p.wave.brightness, p.wave.speed);
    lemma_nibbles(0, p.single_breathing.speed);
    let d = effect_parameters_at(b);
    assert(d.glorious == p.glorious);
    assert(d.single_color == p.single_color);
    assert(d.breathing == p.breathing);
    assert(d.tail == p.tail);
    assert(d.seamless_breathing == p.seamless_breathing);
    assert(d.constant_rgb == p.constant_rgb);
    assert(d.rave == p.rave);
    assert(d.random == p.random);
    assert(d.wave == p.wave);
    assert(d.single_breathing == p.single_breathing);
}

/// Where each field sits inside the encoded configuration record.
#[verifier::spinoff_prover]
#[verifier::rlimit(50)]
proof fn lemma_config_image_layout(c: ConfigView)
    requires
        c.is_valid(),
    ensures
        ({
            let img = config_image(c);
            let ps = c.dpi_profiles;
            let indep = any_double(ps);
            &&& img.len() == CONFIG_LEN
            &&& (forall|k: int| 0 <= k < 9 ==> img[k] == #[trigger] c.header[k])
            &&& img[9] == c.sensor_id
            &&& img[10] == axes_rate_byte(indep, polling_rate_code(c.polling_rate))
            &&& img[11] == profile_byte(c.dpi_current_profile, count_enabled(ps, 8) as u8)
            &&& img[12] == enable_mask(ps)
            &&& (forall|k: int| 0 <= k < 16 ==> img[13 + k] == #[trigger] dpi_bytes(ps, indep)[k])
            &&& (forall|k: int| 0 <= k < 24 ==> img[29 + k] == #[trigger] profile_colors_bytes(ps, 8)[k])
            &&& img[53] == effect_code(c.rgb_current_effect)
            &&& (forall|k: int|
                0 <= k < 75 ==> img[54 + k] == #[trigger] effect_parameters_bytes(
                    c.rgb_effect_parameters,
                    c.unknown.0,
                )[k])
            &&& img[129] == c.lod
            &&& img[130] == c.unknown.1
        }),
{
    lemma_config_image_len(c);
    let ps = c.dpi_profiles;
    let indep = any_double(ps);
    let prefix1 = c.header + seq![
        c.sensor_id,
        axes_rate_byte(indep, polling_rate_code(c.polling_rate)),
        profile_byte(c.dpi_current_profile, count_enabled(ps, 8) as u8),
        enable_mask(ps),
    ];
    let prefix2 = prefix1 + dpi_bytes(ps, indep);
    let prefix3 = prefix2 + profile_colors_bytes(ps, 8);
    let prefix4 = prefix3 + seq![effect_code(c.rgb_current_effect)];
    let prefix5 = prefix4 + effect_parameters_bytes(c.rgb_effect_parameters, c.unknown.0);
    let img = prefix5 + seq![c.lod, c.unknown.1];
    assert(img == config_image(c));
    assert(prefix1.len() == 13 && prefix2.len() == 29 && prefix3.len() == 53 && prefix4.len() == 54);
    assert(prefix5.len() == 129);
    assert forall|k: int| 0 <= k < 9 implies img[k] == #[trigger] c.header[k] by {
        assert(img[k] == prefix1[k]);
    }
    assert forall|k: int| 0 <= k < 16 implies img[13 + k] == #[trigger] dpi_bytes(ps, indep)[k] by {
        assert(img[13 + k] == prefix2[13 + k]);
    }
    assert forall|k: int| 0 <= k < 24 implies img[29 + k] == #[trigger] profile_colors_bytes(ps, 8)[k] by {
        assert(img[29 + k] == prefix3[29 + k]);
    }
    assert forall|k: int|
        0 <= k < 75 implies img[54 + k] == #[trigger] effect_parameters_bytes(
        c.rgb_effect_parameters,
        c.unknown.0,
    )[k] by {
        assert(img[54 + k] == prefix5[54 + k]);
    }
    assert(img[9] == prefix1[9] && img[10] == prefix1[10] && img[11] == prefix1[11] && img[12] == prefix1[12]);
    assert(img[53] == prefix4[53]);
}

#[verifier::spinoff_prover]
#[verifier::rlimit(50)]
proof fn lemma_profiles_round_trip(b: Seq<u8>, c: ConfigView)
    requires
        c.is_valid(),
        c.has_uniform_axes(),
        b.len() >= CONFIG_LEN,
        b[12] == enable_mask(c.dpi_profiles),
        forall|k: int|
            0 <= k < 16 ==> b[13 + k] == #[trigger] dpi_bytes(
                c.dpi_profiles,
                any_double(c.dpi_profiles),
            )[k],
        forall|k: int| 0 <= k < 24 ==> b[29 + k] == #[trigger] profile_colors_bytes(c.dpi_profiles, 8)[k],
    ensures
        Seq::new(8, |i: int| profile_at(b, any_double(c.dpi_profiles), b[12], i)) == c.dpi_profiles,
{
    let ps = c.dpi_profiles;
    let indep = any_double(ps);
    lemma_dpi_bytes_len(ps, 8);
    lemma_mask_bits(
        disabled_bit(ps[0]),
        disabled_bit(ps[1]),
        disabled_bit(ps[2]),
        disabled_bit(ps[3]),
        disabled_bit(ps[4]),
        disabled_bit(ps[5]),
        disabled_bit(ps[6]),
        disabled_bit(ps[7]),
    );
    assert forall|i: int| 0 <= i < 8 implies profile_at(b, indep, b[12], i) == ps[i] by {
        lemma_dpi_bytes_index(ps, 8, i);
        assert(b[29 + 3 * i] == profile_colors_bytes(ps, 8)[3 * i]);
        assert(b[29 + (3 * i + 1)] == profile_colors_bytes(ps, 8)[3 * i + 1]);
        assert(b[29 + (3 * i + 2)] == profile_colors_bytes(ps, 8)[3 * i + 2]);
        assert(mask_bit_set(b[12], i) == (disabled_bit(ps[i]) == 1u8)) by {
            if i == 0 {
            } else if i == 1 {
            } else if i == 2 {
            } else if i == 3 {
            } else if i == 4 {
            } else if i == 5 {
            } else if i == 6 {
            } else {
            }
        }
        assert(profile_is_valid(ps[i]));
        if indep {
            assert(b[13 + 2 * i] == dpi_bytes(ps, indep)[2 * i]);
            assert(b[13 + (2 * i + 1)] == dpi_bytes(ps, indep)[2 * i + 1]);
            match ps[i].value {
                DpiValue::Double(x, y) => {
                    lemma_dpi_valid_inverse(x);
                    lemma_dpi_valid_inverse(y);
                },
                DpiValue::Single(x) => {
                    assert(false);
                },
            }
        } else {
            assert(b[13 + i] == dpi_bytes(ps, indep)[i]);
            assert(dpi_bytes(ps, indep)[i] == dpi_singles_bytes(ps, 8)[i]);
            match ps[i].value {
                DpiValue::Double(x, y) => {
                    assert(any_double(ps));
                },
                DpiValue::Single(x) => {
                    lemma_dpi_valid_inverse(x);
                },
            }
        }
    }
    assert(Seq::new(8, |i: int| profile_at(b, indep, b[12], i)) =~= ps);
}

/// Decoding the report that encoding a configuration produces gives back that
/// configuration, for any valid configuration whose derived fields are normalized and
/// whose profiles all share one axis mode.
#[verifier::spinoff_prover]
#[verifier::rlimit(50)]
pub proof fn lemma_config_round_trip(c: ConfigView)
    requires
        c.is_valid(),
        c.is_normalized(),
        c.has_uniform_axes(),
    ensures
        spec_config_report(padded_report(config_image(c))) == Ok::<ConfigView, CodecError>(c),
{
    let img = config_image(c);
    let b = padded_report(img);
    let ps = c.dpi_profiles;
    let indep = any_double(ps);
    lemma_config_image_layout(c);
    assert(b.len() == 520);
    assert forall|k: int| 0 <= k < CONFIG_LEN implies b[k] == img[k] by {}
    let rate = polling_rate_code(c.polling_rate);
    lemma_count_enabled_bounds(ps, 8);
    lemma_nibbles(if indep { 1u8 } else { 0u8 }, rate);
    lemma_nibbles(c.dpi_current_profile, count_enabled(ps, 8) as u8);
    assert(b[10] == img[10] && b[11] == img[11] && b[12] == img[12] && b[53] == img[53]);
    assert(lo_nibble(b[10]) == rate);
    assert(polling_rate_of(rate) == Some(c.polling_rate));
    assert(effect_of(b[53]) == Some(c.rgb_current_effect));
    assert(hi_nibble(b[10]) > 0 <==> indep);
    assert forall|k: int| 0 <= k < 16 implies b[13 + k] == #[trigger] dpi_bytes(ps, indep)[k] by {
        assert(b[13 + k] == img[13 + k]);
    }
    assert forall|k: int| 0 <= k < 24 implies b[29 + k] == #[trigger] profile_colors_bytes(ps, 8)[k] by {
        assert(b[29 + k] == img[29 + k]);
    }
    lemma_profiles_round_trip(b, c);
    assert forall|k: int|
        0 <= k < 75 implies b[54 + k] == #[trigger] effect_parameters_bytes(
        c.rgb_effect_parameters,
        c.unknown.0,
    )[k] by {
        assert(b[54 + k] == img[54 + k]);
    }
    lemma_effect_parameters_round_trip(b, c.rgb_effect_parameters, c.unknown.0);
    assert(b.subrange(0, 9) =~= c.header);
    assert(b[9] == img[9] && b[129] == img[129] && b[130] == img[130]);
    let d = spec_config_report(b)->Ok_0;
    assert(d.header == c.header);
    assert(d.dpi_profiles == c.dpi_profiles);
    assert(d.rgb_effect_parameters == c.rgb_effect_parameters);
    assert(d.unknown == c.unknown);
    assert(d == c);
}

proof fn lemma_byte_casts(s: i8, bits: u32)
    by (bit_vector)
    requires
        bits < 0x1000000,
    ensures
        (s as u8) as i8 == s,
        ((((bits >> 16u32) as u8) as u32) << 16u32) | ((((bits >> 8u32) as u8) as u32) << 8u32) | (
        ((bits as u8) as u32)) == bits,
{
}

proof fn lemma_action_bytes_len(a: ButtonAction)
    ensures
        action_bytes(a).len() == 4,
{
}

/// A valid action written in a slot reads back as the same action.
proof fn lemma_action_round_trip(b: Seq<u8>, at: int, a: ButtonAction)
    requires
        a.is_valid(),
        0 <= at,
        at + 4 <= b.len(),
        forall|j: int| 0 <= j < 4 ==> b[at + j] == #[trigger] action_bytes(a)[j],
    ensures
        action_at(b, at) == Ok::<ButtonAction, CodecError>(a),
{
    assert(b[at] == action_bytes(a)[0]);
    assert(b[at + 1] == action_bytes(a)[1]);
    assert(b[at + 2] == action_bytes(a)[2]);
    assert(b[at + 3] == action_bytes(a)[3]);
    match a {
        ButtonAction::Scroll(s) => {
            lemma_byte_casts(s, 0);
        },
        ButtonAction::DpiLock(v) => {
            lemma_dpi_valid_inverse(v);
        },
        ButtonAction::MediaButton(m) => {
            lemma_byte_casts(0, m.bits);
        },
        _ => {},
    }
}

proof fn lemma_actions_bytes_index(m: Seq<ButtonAction>, n: nat, i: int, j: int)
    requires
        0 <= i < n,
        0 <= j < 4,
    ensures
        actions_bytes(m, n).len() == 4 * n,
        actions_bytes(m, n)[4 * i + j] == action_bytes(m[i])[j],
    decreases n,
{
    lemma_actions_bytes_len(m, n);
    lemma_actions_bytes_len(m, (n - 1) as nat);
    lemma_action_bytes_len(m[n - 1]);
    if i < n - 1 {
        lemma_actions_bytes_index(m, (n - 1) as nat, i, j);
    }
}

proof fn lemma_actions_bytes_len(m: Seq<ButtonAction>, n: nat)
    ensures
        actions_bytes(m, n).len() == 4 * n,
    decreases n,
{
    if n > 0 {
        lemma_actions_bytes_len(m, (n - 1) as nat);
        lemma_action_bytes_len(m[n - 1]);
    }
}

proof fn lemma_actions_round_trip(b: Seq<u8>, m: Seq<ButtonAction>, n: nat)
    requires
        n <= m.len(),
        8 + 4 * n <= b.len(),
        forall|i: int| 0 <= i < n ==> (#[trigger] m[i]).is_valid(),
        forall|i: int, j: int|
            0 <= i < n && 0 <= j < 4 ==> b[8 + 4 * i + j] == #[trigger] action_bytes(m[i])[j],
    ensures
        actions_at(b, n) == Ok::<Seq<ButtonAction>, CodecError>(m.take(n as int)),
    decreases n,
{
    if n > 0 {
        lemma_actions_round_trip(b, m, (n - 1) as nat);
        let i = n - 1;
        assert forall|j: int| 0 <= j < 4 implies b[8 + 4 * i + j] == #[trigger] action_bytes(m[i])[j] by {
            assert(b[8 + 4 * i + j] == action_bytes(m[i])[j]);
        }
        lemma_action_round_trip(b, 8 + 4 * i, m[i]);
        assert(m.take(i).push(m[i]) =~= m.take(n as int));
    } else {
        assert(m.take(0) =~= Seq::<ButtonAction>::empty());
    }
}

/// Decoding the report that encoding a six-slot mapping of valid actions produces
/// gives back that mapping.
#[verifier::spinoff_prover]
pub proof fn lemma_buttonmap_round_trip(m: Seq<ButtonAction>)
    requires
        m.len() == 6,
        forall|i: int| 0 <= i < 6 ==> (#[trigger] m[i]).is_valid(),
    ensures
        spec_buttonmap(padded_report(buttonmap_image(m))) == Ok::<Seq<ButtonAction>, CodecError>(m),
{
    let pad = Seq::new(14, |i: int| ButtonAction::Disabled);
    let body = buttonmap_header() + actions_bytes(m, 6);
    let img = buttonmap_image(m);
    let b = padded_report(img);
    lemma_actions_bytes_len(m, 6);
    lemma_actions_bytes_len(pad, 14);
    assert(img == body + actions_bytes(pad, 14));
    assert(img.len() == 88);
    assert forall|i: int, j: int|
        0 <= i < 6 && 0 <= j < 4 implies b[8 + 4 * i + j] == #[trigger] action_bytes(m[i])[j] by {
        lemma_actions_bytes_index(m, 6, i, j);
        assert(b[8 + 4 * i + j] == img[8 + 4 * i + j]);
        assert(img[8 + 4 * i + j] == body[8 + 4 * i + j]);
    }
    lemma_actions_round_trip(b, m, 6);
    assert(m.take(6) =~= m);
}

} // verus!
