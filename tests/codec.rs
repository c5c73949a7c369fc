use gloryctl::buttonmap::{DpiSwitch, MacroMode};
use gloryctl::protocol::{decode, encode};
use gloryctl::rgb::Effect;
use gloryctl::{ButtonAction, CodecError, Color, Config, DpiValue, MediaButton, Modifier, MouseButton, PollingRate};

fn sample_report() -> [u8; 520] {
    let mut b = [0u8; 520];
    for i in 0..9 {
        b[i] = (i as u8) + 1;
    }
    b[9] = 0x10;
    b[10] = 0x04;
    b[11] = 0x26;
    b[12] = 0b0000_0101;
    let raws = [3u8, 7, 15, 31, 0, 1, 2, 255];
    for i in 0..8 {
        b[13 + i] = raws[i];
    }
    for i in 0..24 {
        b[29 + i] = 0x80 + i as u8;
    }
    b[53] = 3;
    b[54] = 0x42;
    b[55] = 1;
    b[56] = 0x30;
    b[57] = 0x10;
    b[58] = 0x20;
    b[59] = 0x30;
    b[60] = 0x41;
    b[61] = 7;
    for i in 0..21 {
        b[62 + i] = 0x40 + i as u8;
    }
    b[83] = 0x21;
    b[84] = 0x43;
    b[85] = 0;
    for i in 0..18 {
        b[86 + i] = 0xa0 + i as u8;
    }
    for i in 0..12 {
        b[104 + i] = 0xe0 + i as u8;
    }
    b[116] = 0x32;
    for i in 0..6 {
        b[117 + i] = 0xc0 + i as u8;
    }
    b[123] = 0x01;
    b[124] = 0x23;
    b[125] = 0x02;
    b[126] = 0x11;
    b[127] = 0x22;
    b[128] = 0x33;
    b[129] = 2;
    b[130] = 0x55;
    b
}

#[test]
fn decode_sample_config() {
    let c = decode::config_report(&sample_report()).unwrap();
    assert_eq!(c.header, [1, 2, 3, 4, 5, 6, 7, 8, 9]);
    assert_eq!(c.sensor_id, 0x10);
    assert!(!c.dpi_axes_independent);
    assert_eq!(c.polling_rate, PollingRate::Hz1000);
    assert_eq!(c.dpi_current_profile, 2);
    assert_eq!(c.dpi_profile_count, 6);
    assert_eq!(c.dpi_profiles[0].value, DpiValue::Single(400));
    assert_eq!(c.dpi_profiles[1].value, DpiValue::Single(800));
    assert_eq!(c.dpi_profiles[7].value, DpiValue::Single(25600));
    assert_eq!(c.dpi_profiles[4].value, DpiValue::Single(100));
    assert_eq!(c.rgb_current_effect, Effect::Breathing);
    let p = &c.rgb_effect_parameters;
    assert_eq!(p.glorious.speed, 2);
    assert_eq!(p.glorious.direction, 1);
    assert_eq!(p.single_color.brightness, 3);
    assert_eq!(p.breathing.speed, 1);
    assert_eq!(p.breathing.count, 7);
    assert_eq!(p.breathing.colors.len(), 7);
    assert_eq!(p.tail.speed, 1);
    assert_eq!(p.tail.brightness, 2);
    assert_eq!(p.seamless_breathing.speed, 3);
    assert_eq!(p.constant_rgb.colors.len(), 6);
    assert_eq!(p.constant_rgb.colors[0], Color { r: 0xa0, g: 0xa2, b: 0xa1 });
    assert_eq!(p.rave.speed, 2);
    assert_eq!(p.rave.brightness, 3);
    assert_eq!(p.rave.colors, vec![Color { r: 0xc0, g: 0xc2, b: 0xc1 }, Color { r: 0xc3, g: 0xc5, b: 0xc4 }]);
    assert_eq!(p.random.speed, 1);
    assert_eq!(p.wave.speed, 3);
    assert_eq!(p.wave.brightness, 2);
    assert_eq!(p.single_breathing.speed, 2);
    assert_eq!(p.single_breathing.color, Color { r: 0x11, g: 0x33, b: 0x22 });
    assert_eq!(c.unknown.0, [0xe0, 0xe1, 0xe2, 0xe3, 0xe4, 0xe5, 0xe6, 0xe7, 0xe8, 0xe9, 0xea, 0xeb]);
    assert_eq!(c.unknown.1, 0x55);
    assert_eq!(c.lod, 2);
}

#[test]
fn enable_mask_inverted_sense() {
    let c = decode::config_report(&sample_report()).unwrap();
    let enabled: Vec<bool> = c.dpi_profiles.iter().map(|p| p.enabled).collect();
    assert_eq!(enabled, vec![false, true, false, true, true, true, true, true]);
}

#[test]
fn channel_order_profile_vs_effect() {
    let mut b = sample_report();
    b[29] = 0x10;
    b[30] = 0x20;
    b[31] = 0x30;
    let c = decode::config_report(&b).unwrap();
    assert_eq!(c.dpi_profiles[0].color, Color { r: 0x10, g: 0x20, b: 0x30 });
    assert_eq!(c.rgb_effect_parameters.single_color.color, Color { r: 0x10, g: 0x30, b: 0x20 });
    assert_eq!(decode::color_rgb(&[0x10, 0x20, 0x30], 0), Color { r: 0x10, g: 0x20, b: 0x30 });
    assert_eq!(decode::color_rbg(&[0x10, 0x20, 0x30], 0), Color { r: 0x10, g: 0x30, b: 0x20 });
}

#[test]
fn unknown_effect_rejected() {
    let mut b = sample_report();
    b[53] = 0xFF;
    assert_eq!(decode::config_report(&b).unwrap_err(), CodecError::UnknownEffect);
    b[53] = 11;
    assert_eq!(decode::config_report(&b).unwrap_err(), CodecError::UnknownEffect);
}

#[test]
fn unknown_polling_rate_rejected() {
    let mut b = sample_report();
    b[10] = 0x05;
    assert_eq!(decode::config_report(&b).unwrap_err(), CodecError::UnknownPollingRate);
    b[10] = 0x10;
    assert_eq!(decode::config_report(&b).unwrap_err(), CodecError::UnknownPollingRate);
}

#[test]
fn truncated_config_rejected() {
    let b = sample_report();
    assert_eq!(decode::config_report(&b[..130]).unwrap_err(), CodecError::Truncated);
    assert_eq!(decode::config_report(&[]).unwrap_err(), CodecError::Truncated);
    assert!(decode::config_report(&b[..131]).is_ok());
}

#[test]
fn config_round_trip_bytes() {
    let b = sample_report();
    let c = Config::from_raw(&b).unwrap();
    let out = c.to_raw().unwrap();
    assert_eq!(out.to_vec(), b.to_vec());
    let again = decode::config_report(&out).unwrap();
    assert_eq!(again.dpi_profiles, c.dpi_profiles);
    assert_eq!(again.rgb_effect_parameters.breathing.colors, c.rgb_effect_parameters.breathing.colors);
}

#[test]
fn independent_axes_round_trip() {
    let mut c = Config::from_raw(&sample_report()).unwrap();
    for (i, p) in c.dpi_profiles.iter_mut().enumerate() {
        p.value = DpiValue::Double(100 * (i as u16 + 1), 200 * (i as u16 + 1));
    }
    let out = c.to_raw().unwrap();
    assert_eq!(out[10], 0x14);
    assert_eq!(out[13], 0);
    assert_eq!(out[14], 1);
    let back = Config::from_raw(&out).unwrap();
    assert!(back.dpi_axes_independent);
    assert_eq!(back.dpi_profiles[3].value, DpiValue::Double(400, 800));
}

#[test]
fn encode_recomputes_derived_fields() {
    let mut c = Config::from_raw(&sample_report()).unwrap();
    c.dpi_profile_count = 1;
    c.dpi_axes_independent = true;
    c.dpi_profiles[0].enabled = true;
    let out = encode::config_report(&c).unwrap();
    assert_eq!(out[11], 0x27);
    assert_eq!(out[10], 0x04);
    assert_eq!(out[12], 0b0000_0100);
    assert!(out[131..].iter().all(|&x| x == 0));
}

#[test]
fn fixup_counts_enabled_profiles() {
    let mut c = Config::from_raw(&sample_report()).unwrap();
    c.dpi_profiles[5].enabled = false;
    c.dpi_profiles[6].value = DpiValue::Double(100, 200);
    c.fixup_dpi_metadata();
    assert_eq!(c.dpi_profile_count, 5);
    assert!(c.dpi_axes_independent);
}

#[test]
fn breathing_capacity_enforced() {
    let mut c = Config::from_raw(&sample_report()).unwrap();
    c.rgb_effect_parameters.breathing.colors = vec![Color { r: 1, g: 2, b: 3 }; 8];
    assert_eq!(encode::config_report(&c).unwrap_err(), CodecError::CapacityExceeded);
    c.rgb_effect_parameters.breathing.colors.truncate(7);
    assert!(encode::config_report(&c).is_ok());
}

#[test]
fn other_color_lists_capacity_enforced() {
    let mut c = Config::from_raw(&sample_report()).unwrap();
    c.rgb_effect_parameters.constant_rgb.colors.push(Color { r: 0, g: 0, b: 0 });
    assert_eq!(c.to_raw().unwrap_err(), CodecError::CapacityExceeded);
    let mut c = Config::from_raw(&sample_report()).unwrap();
    c.rgb_effect_parameters.rave.colors.push(Color { r: 0, g: 0, b: 0 });
    assert_eq!(c.to_raw().unwrap_err(), CodecError::CapacityExceeded);
}

#[test]
fn short_color_list_leaves_zero_slots() {
    let mut c = Config::from_raw(&sample_report()).unwrap();
    c.rgb_effect_parameters.breathing.colors = vec![Color { r: 1, g: 2, b: 3 }];
    let out = c.to_raw().unwrap();
    assert_eq!(&out[62..65], &[1, 3, 2]);
    assert!(out[65..83].iter().all(|&x| x == 0));
    assert_eq!(out[83], 0x21);
}

#[test]
fn ignored_brightness_sentinels() {
    let mut c = Config::from_raw(&sample_report()).unwrap();
    c.rgb_effect_parameters.glorious.speed = 3;
    c.rgb_effect_parameters.random.speed = 2;
    let out = c.to_raw().unwrap();
    assert_eq!(out[54], 0x43);
    assert_eq!(out[60], 0x41);
    assert_eq!(out[84], 0x43);
    assert_eq!(out[85], 0x00);
    assert_eq!(out[123], 0x02);
    assert_eq!(out[125], 0x02);
}

#[test]
fn dpi_raw_inverse() {
    for b in 0..=255u8 {
        let actual = gloryctl::device::dpi_decode(b);
        assert_eq!(actual as u32, (b as u32 + 1) * 100);
        assert_eq!(gloryctl::device::dpi_encode(actual), b);
    }
    assert_eq!(gloryctl::device::dpi_encode(50), 0);
    assert_eq!(gloryctl::device::dpi_encode(30000), 255);
}

#[test]
fn dpi_switch_slot_fidelity() {
    let mut b = [0u8; 520];
    b[8..12].copy_from_slice(&[0x41, 0x01, 0x00, 0x00]);
    for i in 1..6 {
        b[8 + 4 * i] = 0x50;
    }
    let m = decode::buttonmap(&b).unwrap();
    assert_eq!(m[0], ButtonAction::DpiSwitch(DpiSwitch::Up));
    let out = encode::buttonmap(&m);
    assert_eq!(&out[8..12], &[0x41, 0x01, 0x00, 0x00]);
}

#[test]
fn buttonmap_layout() {
    let m = gloryctl::default_map();
    let out = encode::buttonmap(&m);
    assert_eq!(&out[0..8], &[0x04, 0x12, 0x00, 0x00, 0x00, 0x00, 0x06, 0x00]);
    assert_eq!(&out[8..12], &[0x11, 0x01, 0x00, 0x00]);
    assert_eq!(&out[28..32], &[0x41, 0x00, 0x00, 0x00]);
    for slot in 6..20 {
        assert_eq!(&out[8 + 4 * slot..12 + 4 * slot], &[0x50, 0x01, 0x00, 0x00]);
    }
    assert!(out[88..].iter().all(|&x| x == 0));
}

#[test]
fn buttonmap_round_trip_all_kinds() {
    let m = [
        ButtonAction::Scroll(-3),
        ButtonAction::RepeatButton { which: MouseButton::from_bits(2).unwrap(), interval: 50, count: 4 },
        ButtonAction::DpiLock(1600),
        ButtonAction::MediaButton(MediaButton::from_bits(MediaButton::PLAY_PAUSE | MediaButton::MUTE).unwrap()),
        ButtonAction::KeyboardShortcut { modifiers: Modifier::from_bits(3).unwrap(), key: 0x04 },
        ButtonAction::Macro(2, MacroMode::RepeatUntilRelease),
    ];
    let out = encode::buttonmap(&m);
    assert_eq!(&out[8..12], &[0x12, 0xfd, 0x00, 0x00]);
    assert_eq!(&out[16..20], &[0x42, 15, 0x00, 0x00]);
    assert_eq!(&out[20..24], &[0x22, 0x18, 0x00, 0x00]);
    assert_eq!(&out[24..28], &[0x21, 0x03, 0x04, 0x00]);
    assert_eq!(&out[28..32], &[0x70, 0x02, 0x04, 0x01]);
    assert_eq!(decode::buttonmap(&out).unwrap(), m);
    let m2 = [
        ButtonAction::Disabled,
        ButtonAction::Macro(1, MacroMode::Burst(5)),
        ButtonAction::Macro(3, MacroMode::RepeatUntilAnotherPress),
        ButtonAction::DpiSwitch(DpiSwitch::Down),
        ButtonAction::DpiSwitch(DpiSwitch::Cycle),
        ButtonAction::MouseButton(MouseButton::from_bits(MouseButton::FORWARD).unwrap()),
    ];
    assert_eq!(decode::buttonmap(&encode::buttonmap(&m2)).unwrap(), m2);
}

#[test]
fn buttonmap_errors() {
    let mut b = [0u8; 40];
    for i in 0..6 {
        b[8 + 4 * i] = 0x50;
    }
    assert!(decode::buttonmap(&b).is_ok());
    assert_eq!(decode::buttonmap(&b[..31]).unwrap_err(), CodecError::Truncated);
    let mut bad = b;
    bad[12] = 0x99;
    assert_eq!(decode::buttonmap(&bad).unwrap_err(), CodecError::UnknownActionTag);
    let mut bad = b;
    bad[16..20].copy_from_slice(&[0x22, 0x00, 0x00, 0x01]);
    assert_eq!(decode::buttonmap(&bad).unwrap_err(), CodecError::UnknownMediaBitmask);
    let mut bad = b;
    bad[20..24].copy_from_slice(&[0x41, 0x03, 0x00, 0x00]);
    assert_eq!(decode::buttonmap(&bad).unwrap_err(), CodecError::UnknownActionTag);
    let mut bad = b;
    bad[20..24].copy_from_slice(&[0x11, 0x20, 0x00, 0x00]);
    assert_eq!(decode::buttonmap(&bad).unwrap_err(), CodecError::UnknownActionTag);
    let mut bad = b;
    bad[20..24].copy_from_slice(&[0x70, 0x01, 0x03, 0x00]);
    assert_eq!(decode::buttonmap(&bad).unwrap_err(), CodecError::UnknownActionTag);
}

#[test]
fn keyboard_slot_reads_key_byte() {
    let mut b = [0u8; 32];
    for i in 0..6 {
        b[8 + 4 * i] = 0x50;
    }
    b[8..12].copy_from_slice(&[0x21, 0x05, 0x1d, 0x00]);
    let m = decode::buttonmap(&b).unwrap();
    assert_eq!(m[0], ButtonAction::KeyboardShortcut { modifiers: Modifier::from_bits(5).unwrap(), key: 0x1d });
}

#[test]
fn bitmask_constructors() {
    assert!(MouseButton::from_bits(0x20).is_none());
    assert!(Modifier::from_bits(0x10).is_none());
    assert!(MediaButton::from_bits(0x000001).is_none());
    assert!(MediaButton::from_bits(0xDF3302).is_some());
    assert_eq!(PollingRate::from_code(2), Some(PollingRate::Hz250));
    assert_eq!(PollingRate::Hz500.code(), 3);
    assert_eq!(Effect::from_code(10), Some(Effect::SingleBreathing));
    assert_eq!(Effect::Wave.code(), 9);
}

#[test]
fn active_effect_parameters() {
    let c = Config::from_raw(&sample_report()).unwrap();
    let p = &c.rgb_effect_parameters;
    match p.active(c.rgb_current_effect) {
        gloryctl::rgb::ActiveEffect::Breathing(b) => {
            assert_eq!(b.speed, 1);
            assert_eq!(b.colors, p.breathing.colors);
        }
        other => panic!("unexpected {:?}", other),
    }
    assert!(matches!(p.active(Effect::Off), gloryctl::rgb::ActiveEffect::Off));
    assert!(matches!(
        p.active(Effect::Wave),
        gloryctl::rgb::ActiveEffect::Wave(w) if w.speed == 3 && w.brightness == 2
    ));
}
