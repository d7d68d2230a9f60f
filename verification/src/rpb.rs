//! The RPB device: a virtio device that takes work and does nothing with it.
use vstd::prelude::*;

use crate::guid::Guid;

verus! {

/// A handle to an RPB controller.
#[derive(Debug, PartialEq, Eq)]
pub struct RpbControllerHandle {
    /// The instance ID of the controller.
    pub instance_id: Guid,
    /// The PCI ID of the controller.
    pub pci_id: String,
}

impl RpbControllerHandle {
    /// The ID of the resource, among the PCI devices.
    pub const ID: &'static str = "rpb";
}

/// A handle to an RPB device.
#[derive(Debug, PartialEq, Eq)]
pub struct RpbDeviceHandle {
    /// The path of the device.
    pub path: String,
}

impl RpbDeviceHandle {
    /// The ID of the resource, among the virtio devices.
    pub const ID: &'static str = "virtio-rpb";
}

/// What a virtio device tells of itself.
#[derive(Copy, Clone, Debug, Default, PartialEq, Eq, Structural)]
pub struct DeviceTraits {
    /// The virtio device type.
    pub device_id: u16,
    /// The feature bits that the device offers.
    pub device_features: u64,
    /// The number of queues.
    pub max_queues: u16,
    /// The length of the device's registers, in bytes.
    pub device_register_length: u32,
}

/// The traits of an RPB device.
pub open spec fn rpb_traits() -> DeviceTraits {
    DeviceTraits {
        device_id: 3,
        device_features: 2,
        max_queues: 2,
        device_register_length: 0,
    }
}

/// Why an RPB controller could not be resolved, with the error of the step that
/// failed.
#[derive(Debug, PartialEq, Eq)]
pub enum ResolveRpbError<V, P> {
    /// The virtio device could not be resolved.
    Virtio(V),
    /// The PCI device could not be created.
    Pci(P),
}

impl<V, P> ResolveRpbError<V, P> {
    /// What went wrong, in words.
    pub fn message(&self) -> (text: &'static str)
        ensures
            match *self {
                ResolveRpbError::Virtio(_) => text@ == "failed to resolve RPB device"@,
                ResolveRpbError::Pci(_) => text@ == "failed to create RPB device"@,
            },
    {
        match self {
            ResolveRpbError::Virtio(_) => "failed to resolve RPB device",
            ResolveRpbError::Pci(_) => "failed to create RPB device",
        }
    }
}

/// The IDs of the two resources, and what an RPB device tells of itself.
pub proof fn law_rpb_is_known_by()
    ensures
        RpbControllerHandle::ID@ == "rpb"@,
        RpbDeviceHandle::ID@ == "virtio-rpb"@,
        rpb_traits().device_id == 3,
        rpb_traits().device_features == 2,
        rpb_traits().max_queues == 2,
        rpb_traits().device_register_length == 0,
{
}

/// Resolves RPB controllers.
#[derive(Copy, Clone, Debug)]
pub struct RpbResolver;

impl RpbResolver {
    /// The device that an RPB controller is made of.
    pub fn device(&self) -> (device: RpbDevice)
        ensures
            device.spec_traits() == rpb_traits(),
            device.spec_traits().device_id == 3,
            device.spec_traits().device_features == 2,
            device.spec_traits().max_queues == 2,
            device.spec_traits().device_register_length == 0,
    {
        RpbDevice::new(
            DeviceTraits {
                device_id: 3,
                device_features: 2,
                max_queues: 2,
                device_register_length: 0,
            },
        )
    }

    /// What resolving a controller comes to, given what creating its PCI device
    /// came to.
    pub fn resolve<D, V, P>(&self, created: Result<D, P>) -> (resolved: Result<
        D,
        ResolveRpbError<V, P>,
    >)
        ensures
            match created {
                Ok(device) => resolved == Ok::<D, ResolveRpbError<V, P>>(device),
                Err(error) => resolved == Err::<D, ResolveRpbError<V, P>>(
                    ResolveRpbError::Pci(error),
                ),
            },
    {
        match created {
            Ok(device) => Ok(device),
            Err(error) => Err(ResolveRpbError::Pci(error)),
        }
    }
}

/// An RPB device.
#[derive(Copy, Clone, Debug)]
pub struct RpbDevice {
    traits: DeviceTraits,
}

impl RpbDevice {
    /// What the device tells of itself.
    pub closed spec fn spec_traits(self) -> DeviceTraits {
        self.traits
    }

    /// Makes a device that tells `traits` of itself.
    pub fn new(traits: DeviceTraits) -> (device: RpbDevice)
        ensures
            device.spec_traits() == traits,
    {
        RpbDevice { traits }
    }

    /// What the device tells of itself.
    pub fn traits(&self) -> (traits: DeviceTraits)
        ensures
            traits == self.spec_traits(),
    {
        self.traits
    }

    /// Reads a device register: each holds zero.
    pub fn read_registers_u32(&self, _offset: u16) -> (value: u32)
        ensures
            value == 0,
    {
        0
    }

    /// Writes a device register, which changes nothing.
    pub fn write_registers_u32(&mut self, _offset: u16, _val: u32)
        ensures
            *final(self) == *old(self),
    {
    }

    /// The worker of a queue.
    pub fn get_work_callback(&mut self, _index: u16) -> (work: RpbTestWork)
        ensures
            *final(self) == *old(self),
    {
        RpbTestWork {  }
    }
}

/// The worker of a queue of an RPB device.
#[derive(Copy, Clone, Debug)]
pub struct RpbTestWork {}

impl RpbTestWork {
    /// Takes a piece of work, or the error that came in its place. Returns
    /// whether the worker goes on: it does until it is handed an error.
    pub fn process_work<W, E>(&mut self, work: Result<W, E>) -> (goes_on: bool)
        ensures
            goes_on <==> work is Ok,
            *final(self) == *old(self),
    {
        match work {
            Ok(_) => true,
            Err(_) => false,
        }
    }
}

} // verus!
