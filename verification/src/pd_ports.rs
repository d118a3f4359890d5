use vstd::prelude::*;

use crate::platform::Platform;

verus! {

// ---------------------------------------------------------------------------
// What the embedded controller reports of one USB-PD port
// ---------------------------------------------------------------------------

/// Power role of a USB-PD port.
#[derive(Clone, Copy, Debug, PartialEq, Eq, Structural)]
pub enum UsbPowerRoles {
    Disconnected,
    Source,
    Sink,
    SinkNotCharging,
}

/// Kind of charger attached to a USB-PD port.
#[derive(Clone, Copy, Debug, PartialEq, Eq, Structural)]
pub enum UsbChargingType {
    NoCharger,
    PD,
    TypeC,
    Proprietary,
    Bc12Dcp,
    Bc12Cdp,
    Bc12Sdp,
    Other,
    VBus,
    Unknown,
}

/// Voltage (mV) and current (mA) measurements of a USB-PD port.
#[derive(Clone, Copy, Debug, PartialEq, Eq, Structural)]
pub struct UsbChargeMeasures {
    pub voltage_max: u16,
    pub voltage_now: u16,
    pub current_max: u16,
    pub current_lim: u16,
}

/// One USB-PD port as the embedded controller reports it.
/// `max_power` is in mW.
#[derive(Clone, Copy, Debug, PartialEq, Eq, Structural)]
pub struct UsbPdPowerInfo {
    pub role: UsbPowerRoles,
    pub charging_type: UsbChargingType,
    pub dualrole: bool,
    pub meas: UsbChargeMeasures,
    pub max_power: u32,
}

// ---------------------------------------------------------------------------
// What the information screen shows of one port
// ---------------------------------------------------------------------------

/// One USB-C port as shown to the user.
///
/// `max_power` is in W; the voltages stay in mV, and `voltage_now_mv` is
/// `None` where the reading means "unknown" rather than 0 V.
pub struct PdPortInfo {
    pub role: String,
    pub dualrole: String,
    pub charging_type: String,
    pub max_power: u32,
    pub voltage_now_mv: Option<u16>,
    pub voltage_max_mv: u16,
    pub current_limit: u16,
    pub current_max: u16,
}

impl Default for PdPortInfo {
    /// Empty texts and zero figures, with the present voltage unknown.
    fn default() -> (info: Self)
        ensures
            info.role@ == Seq::<char>::empty(),
            info.dualrole@ == Seq::<char>::empty(),
            info.charging_type@ == Seq::<char>::empty(),
            info.max_power == 0,
            info.voltage_now_mv is None,
            info.voltage_max_mv == 0,
            info.current_limit == 0,
            info.current_max == 0,
    {
        PdPortInfo {
            role: String::new(),
            dualrole: String::new(),
            charging_type: String::new(),
            max_power: 0,
            voltage_now_mv: None,
            voltage_max_mv: 0,
            current_limit: 0,
            current_max: 0,
        }
    }
}

/// The abstract content of a [`PdPortInfo`]: its texts as character sequences.
pub struct PdPortInfoView {
    pub role: Seq<char>,
    pub dualrole: Seq<char>,
    pub charging_type: Seq<char>,
    pub max_power: u32,
    pub voltage_now_mv: Option<u16>,
    pub voltage_max_mv: u16,
    pub current_limit: u16,
    pub current_max: u16,
}

impl View for PdPortInfo {
    type V = PdPortInfoView;

    open spec fn view(&self) -> PdPortInfoView {
        PdPortInfoView {
            role: self.role@,
            dualrole: self.dualrole@,
            charging_type: self.charging_type@,
            max_power: self.max_power,
            voltage_now_mv: self.voltage_now_mv,
            voltage_max_mv: self.voltage_max_mv,
            current_limit: self.current_limit,
            current_max: self.current_max,
        }
    }
}

/// The text shown for a power role.
pub open spec fn role_label(role: UsbPowerRoles) -> Seq<char> {
    match role {
        UsbPowerRoles::Disconnected => "Disconnected"@,
        UsbPowerRoles::Source => "Source"@,
        UsbPowerRoles::Sink => "Sink"@,
        UsbPowerRoles::SinkNotCharging => "Sink (Not Charging)"@,
    }
}

/// The text shown for the dual-role flag.
pub open spec fn dualrole_label(dualrole: bool) -> Seq<char> {
    if dualrole {
        "DRP"@
    } else {
        "Charger"@
    }
}

/// The text shown for a charger kind.
pub open spec fn charging_type_label(charging_type: UsbChargingType) -> Seq<char> {
    match charging_type {
        UsbChargingType::NoCharger => "None"@,
        UsbChargingType::PD => "PD"@,
        UsbChargingType::TypeC => "Type-C"@,
        UsbChargingType::Proprietary => "Proprietary"@,
        UsbChargingType::Bc12Dcp => "BC1.2 DCP"@,
        UsbChargingType::Bc12Cdp => "BC1.2 CDP"@,
        UsbChargingType::Bc12Sdp => "BC1.2 SDP"@,
        UsbChargingType::Other => "Other"@,
        UsbChargingType::VBus => "VBUS"@,
        UsbChargingType::Unknown => "Unknown"@,
    }
}

/// The present voltage shown for a port, in mV.
///
/// Mainboards without VBUS measurement report 0 mV on a charging sink port;
/// there 0 means "unknown", not "0 V".
pub open spec fn voltage_now_reading(port: UsbPdPowerInfo) -> Option<u16> {
    if port.role == UsbPowerRoles::Sink && port.meas.voltage_now == 0 {
        None
    } else {
        Some(port.meas.voltage_now)
    }
}

/// What the information screen shows of a port.
pub open spec fn port_info_view(port: UsbPdPowerInfo) -> PdPortInfoView {
    PdPortInfoView {
        role: role_label(port.role),
        dualrole: dualrole_label(port.dualrole),
        charging_type: charging_type_label(port.charging_type),
        max_power: port.max_power / 1000,
        voltage_now_mv: voltage_now_reading(port),
        voltage_max_mv: port.meas.voltage_max,
        current_limit: port.meas.current_lim,
        current_max: port.meas.current_max,
    }
}

fn role_text(role: UsbPowerRoles) -> (s: String)
    ensures
        s@ == role_label(role),
{
    match role {
        UsbPowerRoles::Disconnected => "Disconnected".to_string(),
        UsbPowerRoles::Source => "Source".to_string(),
        UsbPowerRoles::Sink => "Sink".to_string(),
        UsbPowerRoles::SinkNotCharging => "Sink (Not Charging)".to_string(),
    }
}

fn charging_type_text(charging_type: UsbChargingType) -> (s: String)
    ensures
        s@ == charging_type_label(charging_type),
{
    match charging_type {
        UsbChargingType::NoCharger => "None".to_string(),
        UsbChargingType::PD => "PD".to_string(),
        UsbChargingType::TypeC => "Type-C".to_string(),
        UsbChargingType::Proprietary => "Proprietary".to_string(),
        UsbChargingType::Bc12Dcp => "BC1.2 DCP".to_string(),
        UsbChargingType::Bc12Cdp => "BC1.2 CDP".to_string(),
        UsbChargingType::Bc12Sdp => "BC1.2 SDP".to_string(),
        UsbChargingType::Other => "Other".to_string(),
        UsbChargingType::VBus => "VBUS".to_string(),
        UsbChargingType::Unknown => "Unknown".to_string(),
    }
}

/// Describes one port for the information screen.
pub fn pd_port_info(pd_port: &UsbPdPowerInfo) -> (info: PdPortInfo)
    ensures
        info@ == port_info_view(*pd_port),
        info.max_power == pd_port.max_power / 1000,
        info.voltage_max_mv == pd_port.meas.voltage_max,
        info.current_limit == pd_port.meas.current_lim,
        info.current_max == pd_port.meas.current_max,
        info.voltage_now_mv is None <==> pd_port.role == UsbPowerRoles::Sink
            && pd_port.meas.voltage_now == 0,
        info.voltage_now_mv is Some ==> info.voltage_now_mv == Some(pd_port.meas.voltage_now),
{
    let role = role_text(pd_port.role);
    let dualrole = if pd_port.dualrole {
        "DRP".to_string()
    } else {
        "Charger".to_string()
    };
    let charging_type = charging_type_text(pd_port.charging_type);
    let max_power = pd_port.max_power / 1000;
    let voltage_now_mv = if pd_port.role == UsbPowerRoles::Sink && pd_port.meas.voltage_now == 0 {
        None
    } else {
        Some(pd_port.meas.voltage_now)
    };
    PdPortInfo {
        role,
        dualrole,
        charging_type,
        max_power,
        voltage_now_mv,
        voltage_max_mv: pd_port.meas.voltage_max,
        current_limit: pd_port.meas.current_lim,
        current_max: pd_port.meas.current_max,
    }
}

// ---------------------------------------------------------------------------
// Physical slots
// ---------------------------------------------------------------------------

/// Physical USB-C slot of an embedded-controller PD port.
#[derive(Clone, Copy, Debug, PartialEq, Eq, Structural)]
pub enum PdPortSlot {
    RightBack,
    RightFront,
    LeftFront,
    LeftBack,
}

/// The four USB-C slots of the machine, each with the port that sits there.
pub struct PdPortsInfo {
    pub left_back: Option<PdPortInfo>,
    pub left_front: Option<PdPortInfo>,
    pub right_back: Option<PdPortInfo>,
    pub right_front: Option<PdPortInfo>,
}

/// The abstract content of a [`PdPortsInfo`].
pub struct PdPortsView {
    pub left_back: Option<PdPortInfoView>,
    pub left_front: Option<PdPortInfoView>,
    pub right_back: Option<PdPortInfoView>,
    pub right_front: Option<PdPortInfoView>,
}

pub open spec fn port_view(port: Option<PdPortInfo>) -> Option<PdPortInfoView> {
    match port {
        Some(p) => Some(p@),
        None => None,
    }
}

impl View for PdPortsInfo {
    type V = PdPortsView;

    open spec fn view(&self) -> PdPortsView {
        PdPortsView {
            left_back: port_view(self.left_back),
            left_front: port_view(self.left_front),
            right_back: port_view(self.right_back),
            right_front: port_view(self.right_front),
        }
    }
}

/// The entry of one slot.
pub open spec fn slot_entry(ports: PdPortsView, slot: PdPortSlot) -> Option<PdPortInfoView> {
    match slot {
        PdPortSlot::RightBack => ports.right_back,
        PdPortSlot::RightFront => ports.right_front,
        PdPortSlot::LeftFront => ports.left_front,
        PdPortSlot::LeftBack => ports.left_back,
    }
}

impl Default for PdPortsInfo {
    /// No port in any slot.
    fn default() -> (info: Self)
        ensures
            info.left_back is None,
            info.left_front is None,
            info.right_back is None,
            info.right_front is None,
    {
        PdPortsInfo { left_back: None, left_front: None, right_back: None, right_front: None }
    }
}

/// Whether the platform has its front and back slots swapped with respect to
/// the controller's port numbering (the Laptop 13 Pro, Intel Core Ultra
/// Series 3).
pub open spec fn swaps_front_and_back(platform: Option<Platform>) -> bool {
    platform == Some(Platform::IntelCoreUltra3)
}

/// Physical slot of the controller's port `ec_index` (0..=3).
///
/// The controller numbers its ports right-back, right-front, left-front,
/// left-back; on a platform that swaps front and back the order is
/// right-front, right-back, left-back, left-front.
pub open spec fn pd_port_slot(platform: Option<Platform>, ec_index: int) -> PdPortSlot {
    if swaps_front_and_back(platform) {
        if ec_index == 0 {
            PdPortSlot::RightFront
        } else if ec_index == 1 {
            PdPortSlot::RightBack
        } else if ec_index == 2 {
            PdPortSlot::LeftBack
        } else {
            PdPortSlot::LeftFront
        }
    } else {
        if ec_index == 0 {
            PdPortSlot::RightBack
        } else if ec_index == 1 {
            PdPortSlot::RightFront
        } else if ec_index == 2 {
            PdPortSlot::LeftFront
        } else {
            PdPortSlot::LeftBack
        }
    }
}

/// The controller's port index that sits in `slot`.
pub open spec fn ec_index_of_slot(platform: Option<Platform>, slot: PdPortSlot) -> int {
    if swaps_front_and_back(platform) {
        match slot {
            PdPortSlot::RightFront => 0,
            PdPortSlot::RightBack => 1,
            PdPortSlot::LeftBack => 2,
            PdPortSlot::LeftFront => 3,
        }
    } else {
        match slot {
            PdPortSlot::RightBack => 0,
            PdPortSlot::RightFront => 1,
            PdPortSlot::LeftFront => 2,
            PdPortSlot::LeftBack => 3,
        }
    }
}

/// What a slot shows when the controller's port `ec_index` sits there: that
/// port, where the list has an entry for it and the entry is present.
pub open spec fn ec_port_entry(ports: Seq<Option<UsbPdPowerInfo>>, ec_index: int) -> Option<PdPortInfoView> {
    if 0 <= ec_index < ports.len() {
        match ports[ec_index] {
            Some(p) => Some(port_info_view(p)),
            None => None,
        }
    } else {
        None
    }
}

/// The four slots filled from the controller's port list.
pub open spec fn pd_ports_view(ports: Seq<Option<UsbPdPowerInfo>>, platform: Option<Platform>) -> PdPortsView {
    PdPortsView {
        left_back: ec_port_entry(ports, ec_index_of_slot(platform, PdPortSlot::LeftBack)),
        left_front: ec_port_entry(ports, ec_index_of_slot(platform, PdPortSlot::LeftFront)),
        right_back: ec_port_entry(ports, ec_index_of_slot(platform, PdPortSlot::RightBack)),
        right_front: ec_port_entry(ports, ec_index_of_slot(platform, PdPortSlot::RightFront)),
    }
}

/// Physical slots for the controller's ports 0..=3 on most platforms.
fn default_pd_port_order() -> (order: [PdPortSlot; 4])
    ensures
        forall|i: int| 0 <= i < 4 ==> #[trigger] order@[i] == pd_port_slot(None, i),
{
    [PdPortSlot::RightBack, PdPortSlot::RightFront, PdPortSlot::LeftFront, PdPortSlot::LeftBack]
}

/// Physical slots for the controller's ports 0..=3 on the Laptop 13 Pro
/// (Intel Core Ultra Series 3), where front and back are swapped.
fn core_ultra_3_pd_port_order() -> (order: [PdPortSlot; 4])
    ensures
        forall|i: int|
            0 <= i < 4 ==> #[trigger] order@[i] == pd_port_slot(Some(Platform::IntelCoreUltra3), i),
{
    [PdPortSlot::RightFront, PdPortSlot::RightBack, PdPortSlot::LeftBack, PdPortSlot::LeftFront]
}

/// Slot of each controller port on `platform`.
fn pd_port_order(platform: Option<Platform>) -> (order: [PdPortSlot; 4])
    ensures
        forall|i: int| 0 <= i < 4 ==> #[trigger] order@[i] == pd_port_slot(platform, i),
{
    match platform {
        Some(Platform::IntelCoreUltra3) => core_ultra_3_pd_port_order(),
        _ => default_pd_port_order(),
    }
}

/// The controller's ports 0..=3 and the four slots correspond one to one:
/// each port has exactly one slot and each slot exactly one port.
pub proof fn lemma_pd_port_order_is_bijection(platform: Option<Platform>)
    ensures
        forall|i: int|
            0 <= i < 4 ==> ec_index_of_slot(platform, #[trigger] pd_port_slot(platform, i)) == i,
        forall|slot: PdPortSlot|
            0 <= #[trigger] ec_index_of_slot(platform, slot) < 4 && pd_port_slot(
                platform,
                ec_index_of_slot(platform, slot),
            ) == slot,
{
}

/// `entry` is what a slot holds after the controller's ports below `done`
/// have been placed.
pub open spec fn slot_placed(
    entry: Option<PdPortInfoView>,
    ports: Seq<Option<UsbPdPowerInfo>>,
    platform: Option<Platform>,
    slot: PdPortSlot,
    done: int,
) -> bool {
    entry == if ec_index_of_slot(platform, slot) < done {
        ec_port_entry(ports, ec_index_of_slot(platform, slot))
    } else {
        None
    }
}

pub open spec fn slots_placed(
    info: PdPortsView,
    ports: Seq<Option<UsbPdPowerInfo>>,
    platform: Option<Platform>,
    done: int,
) -> bool {
    &&& slot_placed(info.left_back, ports, platform, PdPortSlot::LeftBack, done)
    &&& slot_placed(info.left_front, ports, platform, PdPortSlot::LeftFront, done)
    &&& slot_placed(info.right_back, ports, platform, PdPortSlot::RightBack, done)
    &&& slot_placed(info.right_front, ports, platform, PdPortSlot::RightFront, done)
}

/// Places the controller's ports 0..=3 into their physical slots. A slot
/// whose port is missing from the list, or reported as `None`, stays empty;
/// entries past the fourth are not looked at.
pub fn pd_ports_info(pd_ports: Vec<Option<UsbPdPowerInfo>>, platform: Option<Platform>) -> (info: PdPortsInfo)
    ensures
        info@ == pd_ports_view(pd_ports@, platform),
        forall|i: int|
            0 <= i < 4 && (i >= pd_ports@.len() || pd_ports@[i] is None) ==> #[trigger] slot_entry(
                info@,
                pd_port_slot(platform, i),
            ) is None,
        forall|i: int|
            0 <= i < 4 && i < pd_ports@.len() && pd_ports@[i] is Some ==> #[trigger] slot_entry(
                info@,
                pd_port_slot(platform, i),
            ) == Some(port_info_view(pd_ports@[i]->0)),
{
    proof {
        lemma_slots_hold_the_listed_ports(pd_ports@, platform);
    }
    let order = pd_port_order(platform);
    let mut info = PdPortsInfo::default();
    let mut ec_index: usize = 0;
    while ec_index < 4
        invariant
            0 <= ec_index <= 4,
            forall|i: int| 0 <= i < 4 ==> #[trigger] order@[i] == pd_port_slot(platform, i),
            slots_placed(info@, pd_ports@, platform, ec_index as int),
        decreases 4 - ec_index,
    {
        proof {
            lemma_pd_port_order_is_bijection(platform);
        }
        if ec_index < pd_ports.len() {
            match &pd_ports[ec_index] {
                Some(port) => {
                    let port_info = pd_port_info(port);
                    match order[ec_index] {
                        PdPortSlot::RightBack => info.right_back = Some(port_info),
                        PdPortSlot::RightFront => info.right_front = Some(port_info),
                        PdPortSlot::LeftFront => info.left_front = Some(port_info),
                        PdPortSlot::LeftBack => info.left_back = Some(port_info),
                    }
                },
                None => {},
            }
        }
        ec_index += 1;
    }
    info
}

/// On the Laptop 13 Pro (Intel Core Ultra Series 3) each side shows in its
/// front slot what other platforms show in the back slot, and the other way
/// round.
pub proof fn lemma_core_ultra_3_swaps_front_and_back(ports: Seq<Option<UsbPdPowerInfo>>)
    ensures
        pd_ports_view(ports, Some(Platform::IntelCoreUltra3)).right_front == pd_ports_view(
            ports,
            None,
        ).right_back,
        pd_ports_view(ports, Some(Platform::IntelCoreUltra3)).right_back == pd_ports_view(
            ports,
            None,
        ).right_front,
        pd_ports_view(ports, Some(Platform::IntelCoreUltra3)).left_front == pd_ports_view(
            ports,
            None,
        ).left_back,
        pd_ports_view(ports, Some(Platform::IntelCoreUltra3)).left_back == pd_ports_view(
            ports,
            None,
        ).left_front,
{
}

/// Every platform but the Laptop 13 Pro (Intel Core Ultra Series 3) places
/// the ports as an unknown platform does.
pub proof fn lemma_other_platforms_use_default_order(
    ports: Seq<Option<UsbPdPowerInfo>>,
    platform: Option<Platform>,
)
    requires
        platform != Some(Platform::IntelCoreUltra3),
    ensures
        pd_ports_view(ports, platform) == pd_ports_view(ports, None),
{
}

/// A port that the controller lists among its first four shows up, as
/// described by [`pd_port_info`], in the slot that the platform's order gives it.
pub proof fn lemma_listed_port_shows_in_its_slot(
    ports: Seq<Option<UsbPdPowerInfo>>,
    platform: Option<Platform>,
    ec_index: int,
)
    requires
        0 <= ec_index < 4,
        ec_index < ports.len(),
        ports[ec_index] is Some,
    ensures
        slot_entry(pd_ports_view(ports, platform), pd_port_slot(platform, ec_index)) == Some(
            port_info_view(ports[ec_index]->0),
        ),
{
    lemma_pd_port_order_is_bijection(platform);
}

/// Entries after the fourth in the controller's port list change nothing.
pub proof fn lemma_ports_after_the_fourth_are_ignored(
    ports: Seq<Option<UsbPdPowerInfo>>,
    more: Seq<Option<UsbPdPowerInfo>>,
    platform: Option<Platform>,
)
    requires
        ports.len() >= 4,
    ensures
        pd_ports_view(ports + more, platform) == pd_ports_view(ports, platform),
{
    lemma_pd_port_order_is_bijection(platform);
    assert forall|i: int| 0 <= i < 4 implies ec_port_entry(ports + more, i) == ec_port_entry(ports, i) by {
        assert((ports + more)[i] == ports[i]);
    }
}

/// A port description reads the port: the figures are the port's own
/// measurements (maximum power in whole watts), whatever its role; the
/// present voltage is the measured one, except that a charging sink reading
/// 0 mV shows it as unknown; the texts name the role, the dual-role flag and
/// the charger kind.
pub proof fn lemma_port_description_reads_the_port(port: UsbPdPowerInfo)
    ensures
        port_info_view(port).max_power == port.max_power / 1000,
        port_info_view(port).voltage_max_mv == port.meas.voltage_max,
        port_info_view(port).current_limit == port.meas.current_lim,
        port_info_view(port).current_max == port.meas.current_max,
        port.role == UsbPowerRoles::Sink && port.meas.voltage_now == 0
            ==> port_info_view(port).voltage_now_mv is None,
        !(port.role == UsbPowerRoles::Sink && port.meas.voltage_now == 0)
            ==> port_info_view(port).voltage_now_mv == Some(port.meas.voltage_now),
        port.role == UsbPowerRoles::Disconnected ==> port_info_view(port).role == "Disconnected"@,
        port.role == UsbPowerRoles::Source ==> port_info_view(port).role == "Source"@,
        port.role == UsbPowerRoles::Sink ==> port_info_view(port).role == "Sink"@,
        port.role == UsbPowerRoles::SinkNotCharging ==> port_info_view(port).role
            == "Sink (Not Charging)"@,
        port.dualrole ==> port_info_view(port).dualrole == "DRP"@,
        !port.dualrole ==> port_info_view(port).dualrole == "Charger"@,
        port.charging_type == UsbChargingType::NoCharger ==> port_info_view(port).charging_type
            == "None"@,
        port.charging_type == UsbChargingType::PD ==> port_info_view(port).charging_type == "PD"@,
        port.charging_type == UsbChargingType::TypeC ==> port_info_view(port).charging_type
            == "Type-C"@,
        port.charging_type == UsbChargingType::Proprietary ==> port_info_view(port).charging_type
            == "Proprietary"@,
        port.charging_type == UsbChargingType::Bc12Dcp ==> port_info_view(port).charging_type
            == "BC1.2 DCP"@,
        port.charging_type == UsbChargingType::Bc12Cdp ==> port_info_view(port).charging_type
            == "BC1.2 CDP"@,
        port.charging_type == UsbChargingType::Bc12Sdp ==> port_info_view(port).charging_type
            == "BC1.2 SDP"@,
        port.charging_type == UsbChargingType::Other ==> port_info_view(port).charging_type
            == "Other"@,
        port.charging_type == UsbChargingType::VBus ==> port_info_view(port).charging_type
            == "VBUS"@,
        port.charging_type == UsbChargingType::Unknown ==> port_info_view(port).charging_type
            == "Unknown"@,
{
}

/// Each slot shows the controller's port that the platform puts there, as
/// [`pd_port_info`] describes it, and stays empty where that port is missing
/// from the list or could not be read: the controller numbers its ports
/// right-back, right-front, left-front, left-back, and the Laptop 13 Pro
/// (Intel Core Ultra Series 3) swaps front and back on each side.
pub proof fn lemma_slots_hold_the_listed_ports(
    ports: Seq<Option<UsbPdPowerInfo>>,
    platform: Option<Platform>,
)
    ensures
        ({
            let view = pd_ports_view(ports, platform);
            let listed = |i: int|
                if 0 <= i < ports.len() && ports[i] is Some {
                    Some(port_info_view(ports[i]->0))
                } else {
                    None::<PdPortInfoView>
                };
            &&& platform != Some(Platform::IntelCoreUltra3) ==> {
                &&& view.right_back == listed(0)
                &&& view.right_front == listed(1)
                &&& view.left_front == listed(2)
                &&& view.left_back == listed(3)
            }
            &&& platform == Some(Platform::IntelCoreUltra3) ==> {
                &&& view.right_front == listed(0)
                &&& view.right_back == listed(1)
                &&& view.left_back == listed(2)
                &&& view.left_front == listed(3)
            }
        }),
        forall|i: int|
            0 <= i < 4 && (i >= ports.len() || ports[i] is None) ==> #[trigger] slot_entry(
                pd_ports_view(ports, platform),
                pd_port_slot(platform, i),
            ) is None,
        forall|i: int|
            0 <= i < 4 && i < ports.len() && ports[i] is Some ==> #[trigger] slot_entry(
                pd_ports_view(ports, platform),
                pd_port_slot(platform, i),
            ) == Some(port_info_view(ports[i]->0)),
{
    lemma_pd_port_order_is_bijection(platform);
}

} // verus!
