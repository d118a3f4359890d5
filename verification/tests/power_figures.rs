use framework_tool_tui::power::{
    capacity_loss_figures, capacity_loss_per_cycle_figures, charge_percentage, charger_current,
    charger_voltage, charging_status, cycle_count, design_capacity, is_ac_connected, is_charging,
    last_full_charge_capacity, BatteryInformation, PowerInfo,
};

fn battery(charging: bool) -> BatteryInformation {
    BatteryInformation {
        present_voltage: 17200,
        present_rate: 1500,
        design_capacity: 3915,
        last_full_charge_capacity: 3600,
        cycle_count: 120,
        charge_percentage: 87,
        charging,
    }
}

fn power(ac_present: bool, battery: Option<BatteryInformation>) -> Option<PowerInfo> {
    Some(PowerInfo { ac_present, battery })
}

#[test]
fn battery_figures_are_read_from_the_battery() {
    let p = power(true, Some(battery(true)));
    assert_eq!(charge_percentage(&p), Some(87));
    assert_eq!(charger_voltage(&p), Some(17200));
    assert_eq!(charger_current(&p), Some(1500));
    assert_eq!(design_capacity(&p), Some(3915));
    assert_eq!(last_full_charge_capacity(&p), Some(3600));
    assert_eq!(cycle_count(&p), Some(120));
    assert!(is_charging(&p));
    assert!(is_ac_connected(&p));
    assert_eq!(capacity_loss_figures(&p), Some((3915, 3600)));
    assert_eq!(capacity_loss_per_cycle_figures(&p), Some((3915, 3600, 120)));
}

#[test]
fn no_battery_means_no_figures() {
    for p in [power(true, None), None] {
        assert_eq!(charge_percentage(&p), None);
        assert_eq!(charger_voltage(&p), None);
        assert_eq!(charger_current(&p), None);
        assert_eq!(design_capacity(&p), None);
        assert_eq!(last_full_charge_capacity(&p), None);
        assert_eq!(cycle_count(&p), None);
        assert!(!is_charging(&p));
        assert_eq!(capacity_loss_figures(&p), None);
        assert_eq!(capacity_loss_per_cycle_figures(&p), None);
    }
    assert!(is_ac_connected(&power(true, None)));
    assert!(!is_ac_connected(&None));
}

#[test]
fn charging_status_covers_all_flag_pairs() {
    assert_eq!(charging_status(&power(true, Some(battery(true)))), "Charging");
    assert_eq!(charging_status(&power(true, Some(battery(false)))), "Fully charged");
    assert_eq!(charging_status(&power(false, Some(battery(false)))), "Discharging");
    assert_eq!(charging_status(&power(false, Some(battery(true)))), "Unknown");
}

#[test]
fn charging_status_without_battery() {
    assert_eq!(charging_status(&power(true, None)), "Fully charged");
    assert_eq!(charging_status(&power(false, None)), "Discharging");
    assert_eq!(charging_status(&None), "Discharging");
}
