use gloryctl::buttonmap::DpiSwitch;
use gloryctl::commands::{apply_button_mappings, MappingError, RgbCommand};
use gloryctl::rgb::Effect;
use gloryctl::{ButtonAction, CodecError, Color, Config, DpiValue};

fn sample_config() -> Config {
    let mut b = [0u8; 520];
    b[10] = 0x01;
    b[11] = 0x08;
    b[53] = 1;
    b[54] = 0x41;
    Config::from_raw(&b).unwrap()
}

#[test]
fn rgb_breathing_colors() {
    let mut c = sample_config();
    let red = Color { r: 255, g: 0, b: 0 };
    let cmd = RgbCommand::Breathing { speed: Some(3), colors: vec![red, red] };
    assert_eq!(c.apply_rgb(&cmd), Ok(()));
    assert_eq!(c.rgb_current_effect, Effect::Breathing);
    let p = &c.rgb_effect_parameters.breathing;
    assert_eq!(p.speed, 3);
    assert_eq!(p.count, 2);
    assert_eq!(p.colors.len(), 7);
    assert_eq!(p.colors[1], red);
    assert_eq!(p.colors[2], Color { r: 0, g: 0, b: 0 });
}

#[test]
fn rgb_too_many_colors() {
    let mut c = sample_config();
    let cmd = RgbCommand::Breathing { speed: None, colors: vec![Color { r: 1, g: 1, b: 1 }; 8] };
    assert_eq!(c.apply_rgb(&cmd), Err(CodecError::CapacityExceeded));
    assert_eq!(c.rgb_current_effect, Effect::Glorious);
    let cmd = RgbCommand::Rave { brightness: None, speed: None, colors: vec![Color { r: 1, g: 1, b: 1 }; 3] };
    assert_eq!(c.apply_rgb(&cmd), Err(CodecError::CapacityExceeded));
}

#[test]
fn rgb_keeps_unset_parameters() {
    let mut c = sample_config();
    c.rgb_effect_parameters.wave.brightness = 4;
    c.apply_rgb(&RgbCommand::Wave { brightness: None, speed: Some(2) }).unwrap();
    assert_eq!(c.rgb_effect_parameters.wave.brightness, 4);
    assert_eq!(c.rgb_effect_parameters.wave.speed, 2);
    c.apply_rgb(&RgbCommand::Random { speed: None }).unwrap();
    assert_eq!(c.rgb_effect_parameters.random.speed, 1);
    assert_eq!(c.rgb_current_effect, Effect::Random);
    c.apply_rgb(&RgbCommand::Off).unwrap();
    assert_eq!(c.rgb_current_effect, Effect::Off);
    assert_eq!(c.rgb_effect_parameters.glorious.speed, 1);
}

#[test]
fn dpi_profile_change() {
    let mut c = sample_config();
    c.dpi_profiles[2].enabled = false;
    c.set_dpi_profile(3, Some(Color { r: 0, g: 255, b: 255 }), Some(1200));
    assert_eq!(c.dpi_profiles[2].value, DpiValue::Single(1200));
    assert_eq!(c.dpi_profiles[2].color, Color { r: 0, g: 255, b: 255 });
    assert_eq!(c.dpi_profile_count, 7);
    assert!(!c.dpi_axes_independent);
}

#[test]
fn button_assignments() {
    let m = apply_button_mappings(&vec![(6, ButtonAction::Disabled), (1, ButtonAction::Scroll(2))]).unwrap();
    assert_eq!(m[5], ButtonAction::Disabled);
    assert_eq!(m[0], ButtonAction::Scroll(2));
    assert_eq!(m[2], gloryctl::default_map()[2]);
    let m = apply_button_mappings(&vec![]).unwrap();
    assert_eq!(m[5], ButtonAction::DpiSwitch(DpiSwitch::Cycle));
    assert_eq!(
        apply_button_mappings(&vec![(7, ButtonAction::Disabled)]).unwrap_err(),
        MappingError::InvalidButtonNumber(7)
    );
    assert_eq!(
        apply_button_mappings(&vec![(0, ButtonAction::Disabled)]).unwrap_err(),
        MappingError::InvalidButtonNumber(0)
    );
}
