use vstd::prelude::*;

use framework_lib::chromium_ec::commands::FpLedBrightnessLevel;
use framework_lib::smbios::SmbiosStore;

use crate::controls::{
    fp_brightness_percentage, is_camera_enabled, is_microphone_enabled, kb_brightness_percentage,
    max_charge_limit,
};
use crate::pd_ports::{pd_ports_info, pd_ports_view, PdPortsInfo, UsbPdPowerInfo};
use crate::platform::Platform;
use crate::power::{
    ac_connected_of, charge_percentage, charge_percentage_of, charger_current, charger_current_of,
    charger_voltage, charger_voltage_of, charging_of, charging_status, charging_status_label,
    cycle_count, cycle_count_of, design_capacity, design_capacity_of, is_ac_connected, is_charging,
    last_full_charge_capacity, last_full_charge_capacity_of, PowerInfo,
};
use crate::smbios::{
    smbios_readable, smbios_release_date, smbios_text, smbios_vendor, smbios_version, text_of, BiosField,
};

verus! {

/// Everything the information screen shows of the machine.
///
/// The capacity loss figures, which are fractional, are not held here: they
/// follow from `design_capacity`, `last_full_charge_capacity` and
/// `cycle_count` (see `power::capacity_loss_figures`).
pub struct FrameworkInfo {
    pub charge_percentage: Option<u32>,
    pub charger_voltage: Option<u32>,
    pub charger_current: Option<u32>,
    pub design_capacity: Option<u32>,
    pub last_full_charge_capacity: Option<u32>,
    pub cycle_count: Option<u32>,
    pub is_charging: bool,
    pub is_ac_connected: bool,
    pub charging_status: &'static str,
    pub max_charge_limit: Option<u8>,
    pub is_microphone_enabled: bool,
    pub is_camera_enabled: bool,
    pub fp_brightness_percentage: Option<u8>,
    pub kb_brightness_percentage: Option<u8>,
    pub smbios_version: Option<String>,
    pub smbios_release_date: Option<String>,
    pub smbios_vendor: Option<String>,
    pub pd_ports: PdPortsInfo,
    pub fan_rpm: Option<Vec<u16>>,
    pub platform: Option<Platform>,
}

impl FrameworkInfo {
    /// Gathers the information screen from what was read of the machine.
    /// The SMBIOS table, where one was read, must be walked cleanly up to
    /// each BIOS string that is looked for (see `smbios::smbios_readable`).
    pub fn new(
        power: &Option<PowerInfo>,
        charge_limit: &Option<(u8, u8)>,
        privacy: &Option<(bool, bool)>,
        fp_brightness: &Option<(u8, Option<FpLedBrightnessLevel>)>,
        kb_brightness: Option<u8>,
        smbios: &Option<SmbiosStore>,
        pd_ports: Vec<Option<UsbPdPowerInfo>>,
        fan_rpm: Option<Vec<u16>>,
        platform: Option<Platform>,
    ) -> (info: Self)
        requires
            smbios_readable(*smbios, BiosField::Version),
            smbios_readable(*smbios, BiosField::ReleaseDate),
            smbios_readable(*smbios, BiosField::Vendor),
        ensures
            info.charge_percentage == charge_percentage_of(*power),
            info.charger_voltage == charger_voltage_of(*power),
            info.charger_current == charger_current_of(*power),
            info.design_capacity == design_capacity_of(*power),
            info.last_full_charge_capacity == last_full_charge_capacity_of(*power),
            info.cycle_count == cycle_count_of(*power),
            info.is_charging == charging_of(*power),
            info.is_ac_connected == ac_connected_of(*power),
            info.charging_status@ == charging_status_label(
                charging_of(*power),
                ac_connected_of(*power),
            ),
            info.max_charge_limit == (match *charge_limit {
                Some(limit) => Some(limit.1),
                None => None,
            }),
            info.is_microphone_enabled == (match *privacy {
                Some(switches) => switches.0,
                None => false,
            }),
            info.is_camera_enabled == (match *privacy {
                Some(switches) => switches.1,
                None => false,
            }),
            info.fp_brightness_percentage == (match *fp_brightness {
                Some(brightness) => Some(brightness.0),
                None => None,
            }),
            info.kb_brightness_percentage == kb_brightness,
            text_of(info.smbios_version) == smbios_text(*smbios, BiosField::Version),
            text_of(info.smbios_release_date) == smbios_text(*smbios, BiosField::ReleaseDate),
            text_of(info.smbios_vendor) == smbios_text(*smbios, BiosField::Vendor),
            info.pd_ports@ == pd_ports_view(pd_ports@, platform),
            info.fan_rpm == fan_rpm,
            info.platform == platform,
    {
        FrameworkInfo {
            charge_percentage: charge_percentage(power),
            charger_voltage: charger_voltage(power),
            charger_current: charger_current(power),
            design_capacity: design_capacity(power),
            last_full_charge_capacity: last_full_charge_capacity(power),
            cycle_count: cycle_count(power),
            is_charging: is_charging(power),
            is_ac_connected: is_ac_connected(power),
            charging_status: charging_status(power),
            max_charge_limit: max_charge_limit(charge_limit),
            is_microphone_enabled: is_microphone_enabled(privacy),
            is_camera_enabled: is_camera_enabled(privacy),
            fp_brightness_percentage: fp_brightness_percentage(fp_brightness),
            kb_brightness_percentage: kb_brightness_percentage(kb_brightness),
            smbios_version: smbios_version(smbios),
            smbios_release_date: smbios_release_date(smbios),
            smbios_vendor: smbios_vendor(smbios),
            pd_ports: pd_ports_info(pd_ports, platform),
            fan_rpm,
            platform,
        }
    }
}

impl Default for FrameworkInfo {
    /// Nothing read yet: no figures, all switches off, an empty status.
    fn default() -> (info: Self)
        ensures
            info.charge_percentage is None,
            info.charger_voltage is None,
            info.charger_current is None,
            info.design_capacity is None,
            info.last_full_charge_capacity is None,
            info.cycle_count is None,
            !info.is_charging,
            !info.is_ac_connected,
            info.charging_status@ == Seq::<char>::empty(),
            info.max_charge_limit is None,
            !info.is_microphone_enabled,
            !info.is_camera_enabled,
            info.fp_brightness_percentage is None,
            info.kb_brightness_percentage is None,
            info.smbios_version is None,
            info.smbios_release_date is None,
            info.smbios_vendor is None,
            info.pd_ports.left_back is None,
            info.pd_ports.left_front is None,
            info.pd_ports.right_back is None,
            info.pd_ports.right_front is None,
            info.fan_rpm is None,
            info.platform is None,
    {
        proof {
            reveal_strlit("");
        }
        FrameworkInfo {
            charge_percentage: None,
            charger_voltage: None,
            charger_current: None,
            design_capacity: None,
            last_full_charge_capacity: None,
            cycle_count: None,
            is_charging: false,
            is_ac_connected: false,
            charging_status: "",
            max_charge_limit: None,
            is_microphone_enabled: false,
            is_camera_enabled: false,
            fp_brightness_percentage: None,
            kb_brightness_percentage: None,
            smbios_version: None,
            smbios_release_date: None,
            smbios_vendor: None,
            pd_ports: PdPortsInfo::default(),
            fan_rpm: None,
            platform: None,
        }
    }
}

} // verus!
