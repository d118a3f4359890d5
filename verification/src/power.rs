use vstd::prelude::*;

verus! {

/// The battery readings that the information screen uses.
/// Voltages are in mV, the rate in mA, capacities in mAh.
#[derive(Clone, Copy, Debug, PartialEq, Eq, Structural)]
pub struct BatteryInformation {
    pub present_voltage: u32,
    pub present_rate: u32,
    pub design_capacity: u32,
    pub last_full_charge_capacity: u32,
    pub cycle_count: u32,
    pub charge_percentage: u32,
    pub charging: bool,
}

/// Whether AC is connected, and the battery readings if a battery reported.
#[derive(Clone, Copy, Debug, PartialEq, Eq, Structural)]
pub struct PowerInfo {
    pub ac_present: bool,
    pub battery: Option<BatteryInformation>,
}

/// The battery readings, where power information was read and holds a battery.
pub open spec fn battery_of(power: Option<PowerInfo>) -> Option<BatteryInformation> {
    match power {
        Some(p) => p.battery,
        None => None,
    }
}

pub open spec fn charge_percentage_of(power: Option<PowerInfo>) -> Option<u32> {
    match battery_of(power) {
        Some(b) => Some(b.charge_percentage),
        None => None,
    }
}

pub open spec fn charger_voltage_of(power: Option<PowerInfo>) -> Option<u32> {
    match battery_of(power) {
        Some(b) => Some(b.present_voltage),
        None => None,
    }
}

pub open spec fn charger_current_of(power: Option<PowerInfo>) -> Option<u32> {
    match battery_of(power) {
        Some(b) => Some(b.present_rate),
        None => None,
    }
}

pub open spec fn design_capacity_of(power: Option<PowerInfo>) -> Option<u32> {
    match battery_of(power) {
        Some(b) => Some(b.design_capacity),
        None => None,
    }
}

pub open spec fn last_full_charge_capacity_of(power: Option<PowerInfo>) -> Option<u32> {
    match battery_of(power) {
        Some(b) => Some(b.last_full_charge_capacity),
        None => None,
    }
}

pub open spec fn cycle_count_of(power: Option<PowerInfo>) -> Option<u32> {
    match battery_of(power) {
        Some(b) => Some(b.cycle_count),
        None => None,
    }
}

/// The battery reports that it is charging; `false` without a battery.
pub open spec fn charging_of(power: Option<PowerInfo>) -> bool {
    match battery_of(power) {
        Some(b) => b.charging,
        None => false,
    }
}

/// AC is connected; `false` where no power information was read.
pub open spec fn ac_connected_of(power: Option<PowerInfo>) -> bool {
    match power {
        Some(p) => p.ac_present,
        None => false,
    }
}

/// The charging status shown for the two flags.
pub open spec fn charging_status_label(charging: bool, ac_connected: bool) -> Seq<char> {
    if charging && ac_connected {
        "Charging"@
    } else if !charging && ac_connected {
        "Fully charged"@
    } else if !charging && !ac_connected {
        "Discharging"@
    } else {
        "Unknown"@
    }
}

/// The capacities from which the capacity loss is figured: design capacity
/// and last full charge capacity, where both are known.
pub open spec fn capacity_loss_figures_of(power: Option<PowerInfo>) -> Option<(u32, u32)> {
    match (design_capacity_of(power), last_full_charge_capacity_of(power)) {
        (Some(design), Some(last)) => Some((design, last)),
        _ => None,
    }
}

/// The figures from which the capacity loss per cycle is figured: design
/// capacity, last full charge capacity and cycle count, where all are known.
pub open spec fn capacity_loss_per_cycle_figures_of(power: Option<PowerInfo>) -> Option<(u32, u32, u32)> {
    match (capacity_loss_figures_of(power), cycle_count_of(power)) {
        (Some((design, last)), Some(cycles)) => Some((design, last, cycles)),
        _ => None,
    }
}

/// Battery charge, in percent.
pub fn charge_percentage(power: &Option<PowerInfo>) -> (r: Option<u32>)
    ensures
        r == charge_percentage_of(*power),
        power is Some && power->0.battery is Some ==> r == Some(power->0.battery->0.charge_percentage),
        power is None || power->0.battery is None ==> r is None,
{
    match power {
        Some(p) => match &p.battery {
            Some(battery) => Some(battery.charge_percentage),
            None => None,
        },
        None => None,
    }
}

/// Present battery voltage, in mV.
pub fn charger_voltage(power: &Option<PowerInfo>) -> (r: Option<u32>)
    ensures
        r == charger_voltage_of(*power),
        power is Some && power->0.battery is Some ==> r == Some(power->0.battery->0.present_voltage),
        power is None || power->0.battery is None ==> r is None,
{
    match power {
        Some(p) => match &p.battery {
            Some(battery) => Some(battery.present_voltage),
            None => None,
        },
        None => None,
    }
}

/// Present battery rate, in mA.
pub fn charger_current(power: &Option<PowerInfo>) -> (r: Option<u32>)
    ensures
        r == charger_current_of(*power),
        power is Some && power->0.battery is Some ==> r == Some(power->0.battery->0.present_rate),
        power is None || power->0.battery is None ==> r is None,
{
    match power {
        Some(p) => match &p.battery {
            Some(battery) => Some(battery.present_rate),
            None => None,
        },
        None => None,
    }
}

/// Design capacity of the battery, in mAh.
pub fn design_capacity(power: &Option<PowerInfo>) -> (r: Option<u32>)
    ensures
        r == design_capacity_of(*power),
        power is Some && power->0.battery is Some ==> r == Some(power->0.battery->0.design_capacity),
        power is None || power->0.battery is None ==> r is None,
{
    match power {
        Some(p) => match &p.battery {
            Some(battery) => Some(battery.design_capacity),
            None => None,
        },
        None => None,
    }
}

/// Last full charge capacity of the battery, in mAh.
pub fn last_full_charge_capacity(power: &Option<PowerInfo>) -> (r: Option<u32>)
    ensures
        r == last_full_charge_capacity_of(*power),
        power is Some && power->0.battery is Some ==> r == Some(power->0.battery->0.last_full_charge_capacity),
        power is None || power->0.battery is None ==> r is None,
{
    match power {
        Some(p) => match &p.battery {
            Some(battery) => Some(battery.last_full_charge_capacity),
            None => None,
        },
        None => None,
    }
}

/// Charge cycles of the battery.
pub fn cycle_count(power: &Option<PowerInfo>) -> (r: Option<u32>)
    ensures
        r == cycle_count_of(*power),
        power is Some && power->0.battery is Some ==> r == Some(power->0.battery->0.cycle_count),
        power is None || power->0.battery is None ==> r is None,
{
    match power {
        Some(p) => match &p.battery {
            Some(battery) => Some(battery.cycle_count),
            None => None,
        },
        None => None,
    }
}

/// Whether the battery is charging.
pub fn is_charging(power: &Option<PowerInfo>) -> (r: bool)
    ensures
        r == charging_of(*power),
        power is Some && power->0.battery is Some ==> r == power->0.battery->0.charging,
        power is None || power->0.battery is None ==> !r,
{
    match power {
        Some(p) => match &p.battery {
            Some(battery) => battery.charging,
            None => false,
        },
        None => false,
    }
}

/// Whether AC is connected.
pub fn is_ac_connected(power: &Option<PowerInfo>) -> (r: bool)
    ensures
        r == ac_connected_of(*power),
        power is Some ==> r == power->0.ac_present,
        power is None ==> !r,
{
    match power {
        Some(p) => p.ac_present,
        None => false,
    }
}

/// Design capacity and last full charge capacity, where both are known:
/// the capacity loss in percent is `(design - last) / design * 100`.
pub fn capacity_loss_figures(power: &Option<PowerInfo>) -> (r: Option<(u32, u32)>)
    ensures
        r == capacity_loss_figures_of(*power),
{
    match (design_capacity(power), last_full_charge_capacity(power)) {
        (Some(design), Some(last)) => Some((design, last)),
        _ => None,
    }
}

/// Design capacity, last full charge capacity and cycle count, where all
/// are known: the capacity loss per cycle is the capacity loss in percent
/// divided by the cycle count.
pub fn capacity_loss_per_cycle_figures(power: &Option<PowerInfo>) -> (r: Option<(u32, u32, u32)>)
    ensures
        r == capacity_loss_per_cycle_figures_of(*power),
{
    match (capacity_loss_figures(power), cycle_count(power)) {
        (Some((design, last)), Some(cycles)) => Some((design, last, cycles)),
        _ => None,
    }
}

/// The charging status: "Charging" while charging on AC, "Fully charged" on
/// AC without charging, "Discharging" on battery, and "Unknown" when the
/// battery reports charging without AC.
pub fn charging_status(power: &Option<PowerInfo>) -> (r: &'static str)
    ensures
        r@ == charging_status_label(charging_of(*power), ac_connected_of(*power)),
        r@ == "Charging"@ <==> power is Some && power->0.ac_present && power->0.battery is Some
            && power->0.battery->0.charging,
        r@ == "Fully charged"@ <==> power is Some && power->0.ac_present && !(
        power->0.battery is Some && power->0.battery->0.charging),
        r@ == "Discharging"@ <==> !(power is Some && power->0.ac_present) && !(power is Some
            && power->0.battery is Some && power->0.battery->0.charging),
        r@ == "Unknown"@ <==> power is Some && !power->0.ac_present && power->0.battery is Some
            && power->0.battery->0.charging,
{
    proof {
        lemma_charging_status_reads_the_flags(*power);
    }
    let charging = is_charging(power);
    let ac_connected = is_ac_connected(power);
    if charging && ac_connected {
        "Charging"
    } else if !charging && ac_connected {
        "Fully charged"
    } else if !charging && !ac_connected {
        "Discharging"
    } else {
        "Unknown"
    }
}

/// The battery figures are all known, or none is: they are known exactly
/// when a battery reported. A charging battery is a battery that reported.
pub proof fn lemma_battery_figures_known_together(power: Option<PowerInfo>)
    ensures
        charge_percentage_of(power) is Some <==> battery_of(power) is Some,
        charger_voltage_of(power) is Some <==> battery_of(power) is Some,
        charger_current_of(power) is Some <==> battery_of(power) is Some,
        design_capacity_of(power) is Some <==> battery_of(power) is Some,
        last_full_charge_capacity_of(power) is Some <==> battery_of(power) is Some,
        cycle_count_of(power) is Some <==> battery_of(power) is Some,
        capacity_loss_figures_of(power) is Some <==> battery_of(power) is Some,
        capacity_loss_per_cycle_figures_of(power) is Some <==> battery_of(power) is Some,
        charging_of(power) ==> battery_of(power) is Some,
{
}

/// Without a battery the status is "Fully charged" on AC and "Discharging"
/// otherwise; "Unknown" needs a battery that charges without AC.
pub proof fn lemma_status_without_battery(power: Option<PowerInfo>)
    requires
        battery_of(power) is None,
    ensures
        charging_status_label(charging_of(power), ac_connected_of(power)) == if ac_connected_of(
            power,
        ) {
            "Fully charged"@
        } else {
            "Discharging"@
        },
{
}

/// Where a battery reported, every battery figure shown is that battery's own
/// reading, and the charging flag is the battery's, whatever AC and the other
/// readings are; AC is what the power information says.
pub proof fn lemma_battery_figures_are_the_readings(power: PowerInfo, battery: BatteryInformation)
    requires
        power.battery == Some(battery),
    ensures
        charge_percentage_of(Some(power)) == Some(battery.charge_percentage),
        charger_voltage_of(Some(power)) == Some(battery.present_voltage),
        charger_current_of(Some(power)) == Some(battery.present_rate),
        design_capacity_of(Some(power)) == Some(battery.design_capacity),
        last_full_charge_capacity_of(Some(power)) == Some(battery.last_full_charge_capacity),
        cycle_count_of(Some(power)) == Some(battery.cycle_count),
        capacity_loss_figures_of(Some(power)) == Some(
            (battery.design_capacity, battery.last_full_charge_capacity),
        ),
        capacity_loss_per_cycle_figures_of(Some(power)) == Some(
            (battery.design_capacity, battery.last_full_charge_capacity, battery.cycle_count),
        ),
        charging_of(Some(power)) == battery.charging,
        ac_connected_of(Some(power)) == power.ac_present,
{
}

/// The status is "Charging" exactly when AC is present and a battery reports
/// charging, "Unknown" exactly when a battery reports charging without AC,
/// "Fully charged" exactly when AC is present and no battery reports
/// charging, and "Discharging" otherwise; the four texts differ.
pub proof fn lemma_charging_status_reads_the_flags(power: Option<PowerInfo>)
    ensures
        ({
            let label = charging_status_label(charging_of(power), ac_connected_of(power));
            let ac = power is Some && power->0.ac_present;
            let charging = power is Some && power->0.battery is Some
                && power->0.battery->0.charging;
            &&& label == "Charging"@ <==> ac && charging
            &&& label == "Fully charged"@ <==> ac && !charging
            &&& label == "Discharging"@ <==> !ac && !charging
            &&& label == "Unknown"@ <==> !ac && charging
        }),
{
    reveal_strlit("Charging");
    reveal_strlit("Fully charged");
    reveal_strlit("Discharging");
    reveal_strlit("Unknown");
    assert("Charging"@[0] != "Fully charged"@[0]);
    assert("Charging"@[0] != "Discharging"@[0]);
    assert("Charging"@[0] != "Unknown"@[0]);
    assert("Fully charged"@[0] != "Discharging"@[0]);
    assert("Fully charged"@[0] != "Unknown"@[0]);
    assert("Discharging"@[0] != "Unknown"@[0]);
}

} // verus!
