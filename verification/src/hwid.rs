//! The hardware IDs of a PCI device.
use vstd::prelude::*;

verus! {

/// The base class of a device.
#[derive(Copy, Clone, Debug, PartialEq, Eq, Structural)]
pub struct ClassCode(pub u8);

/// The subclass of a device.
#[derive(Copy, Clone, Debug, PartialEq, Eq, Structural)]
pub struct Subclass(pub u8);

/// The programming interface of a device.
#[derive(Copy, Clone, Debug, PartialEq, Eq, Structural)]
pub struct ProgrammingInterface(pub u8);

/// The hardware IDs of a device, as its configuration space shows them.
#[derive(Copy, Clone, Debug, PartialEq, Eq, Structural)]
pub struct HardwareIds {
    /// The vendor ID.
    pub vendor_id: u16,
    /// The device ID.
    pub device_id: u16,
    /// The revision ID.
    pub revision_id: u8,
    /// The programming interface.
    pub prog_if: ProgrammingInterface,
    /// The subclass.
    pub sub_class: Subclass,
    /// The base class.
    pub base_class: ClassCode,
    /// The sub-vendor ID.
    pub type0_sub_vendor_id: u16,
    /// The sub-system ID.
    pub type0_sub_system_id: u16,
}

} // verus!
