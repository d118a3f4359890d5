use framework_tool_tui::info::FrameworkInfo;
use framework_tool_tui::pd_ports::{UsbChargeMeasures, UsbChargingType, UsbPdPowerInfo, UsbPowerRoles};
use framework_tool_tui::power::{BatteryInformation, PowerInfo};
use framework_tool_tui::Platform;

#[test]
fn framework_info_gathers_every_figure() {
    let power = Some(PowerInfo {
        ac_present: true,
        battery: Some(BatteryInformation {
            present_voltage: 17000,
            present_rate: 900,
            design_capacity: 4000,
            last_full_charge_capacity: 3800,
            cycle_count: 42,
            charge_percentage: 64,
            charging: true,
        }),
    });
    let port = UsbPdPowerInfo {
        role: UsbPowerRoles::Sink,
        charging_type: UsbChargingType::PD,
        dualrole: true,
        meas: UsbChargeMeasures { voltage_max: 20000, voltage_now: 20000, current_max: 3250, current_lim: 3250 },
        max_power: 65000,
    };
    let info = FrameworkInfo::new(
        &power,
        &Some((20, 90)),
        &Some((true, false)),
        &Some((40, None)),
        Some(70),
        &None,
        vec![Some(port)],
        Some(vec![2100, 0]),
        Some(Platform::IntelCoreUltra3),
    );
    assert_eq!(info.charge_percentage, Some(64));
    assert_eq!(info.charger_voltage, Some(17000));
    assert_eq!(info.charger_current, Some(900));
    assert_eq!(info.design_capacity, Some(4000));
    assert_eq!(info.last_full_charge_capacity, Some(3800));
    assert_eq!(info.cycle_count, Some(42));
    assert!(info.is_charging);
    assert!(info.is_ac_connected);
    assert_eq!(info.charging_status, "Charging");
    assert_eq!(info.max_charge_limit, Some(90));
    assert!(info.is_microphone_enabled);
    assert!(!info.is_camera_enabled);
    assert_eq!(info.fp_brightness_percentage, Some(40));
    assert_eq!(info.kb_brightness_percentage, Some(70));
    assert_eq!(info.smbios_version, None);
    assert_eq!(info.smbios_release_date, None);
    assert_eq!(info.smbios_vendor, None);
    let front = info.pd_ports.right_front.as_ref().expect("port 0 sits right front");
    assert_eq!(front.role, "Sink");
    assert_eq!(front.dualrole, "DRP");
    assert_eq!(front.charging_type, "PD");
    assert_eq!(front.max_power, 65);
    assert!(info.pd_ports.right_back.is_none());
    assert_eq!(info.fan_rpm, Some(vec![2100, 0]));
    assert_eq!(info.platform, Some(Platform::IntelCoreUltra3));
}

#[test]
fn framework_info_default_is_empty() {
    let info = FrameworkInfo::default();
    assert_eq!(info.charge_percentage, None);
    assert!(!info.is_charging);
    assert_eq!(info.charging_status, "");
    assert!(info.pd_ports.left_back.is_none());
    assert_eq!(info.platform, None);
}
