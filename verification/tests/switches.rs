use framework_lib::chromium_ec::commands::FpLedBrightnessLevel;
use framework_tool_tui::controls::{
    fp_brightness_percentage, is_camera_enabled, is_microphone_enabled, kb_brightness_percentage,
    max_charge_limit,
};

#[test]
fn charge_limit_takes_the_maximum() {
    assert_eq!(max_charge_limit(&Some((20, 80))), Some(80));
    assert_eq!(max_charge_limit(&None), None);
}

#[test]
fn privacy_switches() {
    assert!(is_microphone_enabled(&Some((true, false))));
    assert!(!is_camera_enabled(&Some((true, false))));
    assert!(!is_microphone_enabled(&Some((false, true))));
    assert!(is_camera_enabled(&Some((false, true))));
    assert!(!is_microphone_enabled(&None));
    assert!(!is_camera_enabled(&None));
}

#[test]
fn brightness_percentages() {
    assert_eq!(fp_brightness_percentage(&Some((55, Some(FpLedBrightnessLevel::Medium)))), Some(55));
    assert_eq!(fp_brightness_percentage(&Some((100, None))), Some(100));
    assert_eq!(fp_brightness_percentage(&None), None);
    assert_eq!(kb_brightness_percentage(Some(30)), Some(30));
    assert_eq!(kb_brightness_percentage(None), None);
}
