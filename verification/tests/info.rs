use framework_tool_tui::pd_ports::{
    pd_port_info, pd_ports_info, PdPortInfo, UsbChargeMeasures, UsbChargingType, UsbPdPowerInfo,
    UsbPowerRoles,
};
use framework_tool_tui::Platform;

/// Builds one `UsbPdPowerInfo` per EC port index, each tagged by its
/// `max_power` so a slot can be identified in the mapped `PdPortsInfo`.
fn pd_ports() -> Vec<Option<UsbPdPowerInfo>> {
    (0..4)
        .map(|index| {
            Some(UsbPdPowerInfo {
                role: UsbPowerRoles::Disconnected,
                charging_type: UsbChargingType::NoCharger,
                dualrole: false,
                meas: UsbChargeMeasures {
                    voltage_max: 0,
                    voltage_now: 0,
                    current_max: 0,
                    current_lim: 0,
                },
                max_power: index * 1000,
            })
        })
        .collect()
}

fn pd_port(role: UsbPowerRoles, voltage_now: u16) -> UsbPdPowerInfo {
    UsbPdPowerInfo {
        role,
        charging_type: UsbChargingType::NoCharger,
        dualrole: false,
        meas: UsbChargeMeasures {
            voltage_max: 0,
            voltage_now,
            current_max: 0,
            current_lim: 0,
        },
        max_power: 0,
    }
}

/// The present voltage in V, as the screen shows it.
fn voltage_now(info: &PdPortInfo) -> Option<f32> {
    info.voltage_now_mv.map(|mv| mv as f32 / 1000.0)
}

#[test]
fn pd_port_info_reports_unknown_voltage_for_charging_sink_without_vbus_measure() {
    let info = pd_port_info(&pd_port(UsbPowerRoles::Sink, 0));

    assert_eq!(voltage_now(&info), None);
}

#[test]
fn pd_port_info_reports_measured_voltage_now() {
    let sink = pd_port_info(&pd_port(UsbPowerRoles::Sink, 20000));
    let source = pd_port_info(&pd_port(UsbPowerRoles::Source, 5000));
    let disconnected = pd_port_info(&pd_port(UsbPowerRoles::Disconnected, 0));

    assert_eq!(voltage_now(&sink), Some(20.0));
    assert_eq!(voltage_now(&source), Some(5.0));
    assert_eq!(voltage_now(&disconnected), Some(0.0));
}

fn slot_power(pd_port: &Option<PdPortInfo>) -> u32 {
    pd_port.as_ref().expect("port is mapped").max_power
}

#[test]
fn pd_ports_info_maps_ec_index_to_physical_slot() {
    let info = pd_ports_info(pd_ports(), None);

    assert_eq!(slot_power(&info.right_back), 0);
    assert_eq!(slot_power(&info.right_front), 1);
    assert_eq!(slot_power(&info.left_front), 2);
    assert_eq!(slot_power(&info.left_back), 3);
}

#[test]
fn pd_ports_info_swaps_front_and_back_on_core_ultra_3() {
    let info = pd_ports_info(pd_ports(), Some(Platform::IntelCoreUltra3));

    assert_eq!(slot_power(&info.right_front), 0);
    assert_eq!(slot_power(&info.right_back), 1);
    assert_eq!(slot_power(&info.left_back), 2);
    assert_eq!(slot_power(&info.left_front), 3);
}
