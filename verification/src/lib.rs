//! Verified model of the information screen of a Framework laptop tool:
//! battery and charger figures, privacy switches and brightness levels,
//! BIOS identification read from SMBIOS, and the mapping of the embedded
//! controller's USB-PD ports onto the physical USB-C slots.
pub mod controls;
pub mod info;
pub mod pd_ports;
pub mod platform;
pub mod power;
pub mod smbios;

pub use info::FrameworkInfo;
pub use pd_ports::{PdPortInfo, PdPortsInfo};
pub use platform::Platform;
