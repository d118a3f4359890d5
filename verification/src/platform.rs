use vstd::prelude::*;

verus! {

/// The Framework system the tool runs on.
///
/// `GenericFramework` carries the PD controller addresses and ports of a
/// system that is not known by name.
#[derive(Clone, Copy, Debug, PartialEq, Eq)]
pub enum Platform {
    /// Framework Laptop 12
    Framework12IntelGen13,
    /// Framework Laptop 12 - Intel Core 3
    Framework12IntelCore3,
    /// Framework Laptop 13 - Intel 11th Gen
    IntelGen11,
    /// Framework Laptop 13 - Intel 12th Gen
    IntelGen12,
    /// Framework Laptop 13 - Intel 13th Gen
    IntelGen13,
    /// Framework Laptop 13 - Intel Core Ultra Series 1
    IntelCoreUltra1,
    /// Framework Laptop 13 Pro - Intel Core Ultra Series 3
    IntelCoreUltra3,
    /// Framework Laptop 13 - AMD Ryzen 7080 Series
    Framework13Amd7080,
    /// Framework Laptop 13 - AMD Ryzen AI 300 Series
    Framework13AmdAi300,
    /// Framework Laptop 16 - AMD Ryzen 7080 Series
    Framework16Amd7080,
    /// Framework Laptop 16 - AMD Ryzen AI 300 Series
    Framework16AmdAi300,
    /// Framework Desktop - AMD Ryzen AI Max 300
    FrameworkDesktopAmdAiMax300,
    /// Generic Framework device: PD controller addresses, PD ports
    GenericFramework((u16, u16, u16), (u8, u8, u8)),
    /// A system that is not a known Framework device
    UnknownSystem,
}

} // verus!
