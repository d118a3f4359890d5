use vstd::prelude::*;

use framework_lib::chromium_ec::commands::FpLedBrightnessLevel;

verus! {

/// The fingerprint LED brightness level of `framework_lib`, carried through
/// unread.
#[verifier::external_type_specification]
#[verifier::external_body]
pub struct ExFpLedBrightnessLevel(FpLedBrightnessLevel);

/// The upper charge limit, from the (minimum, maximum) charge limit pair.
pub fn max_charge_limit(charge_limit: &Option<(u8, u8)>) -> (r: Option<u8>)
    ensures
        r == (match *charge_limit {
            Some(limit) => Some(limit.1),
            None => None,
        }),
{
    match charge_limit {
        Some(limit) => Some(limit.1),
        None => None,
    }
}

/// Whether the microphone is enabled, from the (microphone, camera) privacy
/// switch pair; `false` where the switches could not be read.
pub fn is_microphone_enabled(privacy: &Option<(bool, bool)>) -> (r: bool)
    ensures
        r == (match *privacy {
            Some(switches) => switches.0,
            None => false,
        }),
{
    match privacy {
        Some(switches) => switches.0,
        None => false,
    }
}

/// Whether the camera is enabled, from the (microphone, camera) privacy
/// switch pair; `false` where the switches could not be read.
pub fn is_camera_enabled(privacy: &Option<(bool, bool)>) -> (r: bool)
    ensures
        r == (match *privacy {
            Some(switches) => switches.1,
            None => false,
        }),
{
    match privacy {
        Some(switches) => switches.1,
        None => false,
    }
}

/// The fingerprint LED brightness in percent, from the (percentage, level)
/// pair.
pub fn fp_brightness_percentage(fp_brightness: &Option<(u8, Option<FpLedBrightnessLevel>)>) -> (r:
    Option<u8>)
    ensures
        r == (match *fp_brightness {
            Some(brightness) => Some(brightness.0),
            None => None,
        }),
{
    match fp_brightness {
        Some(brightness) => Some(brightness.0),
        None => None,
    }
}

/// The keyboard backlight brightness in percent, as read.
pub fn kb_brightness_percentage(kb_brightness: Option<u8>) -> (r: Option<u8>)
    ensures
        r == kb_brightness,
{
    kb_brightness
}

} // verus!
