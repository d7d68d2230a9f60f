use vpci_relay::guid::Guid;
use vpci_relay::rpb::{
    DeviceTraits, ResolveRpbError, RpbControllerHandle, RpbDevice, RpbDeviceHandle, RpbResolver,
};

#[test]
fn resource_ids() {
    assert_eq!(RpbControllerHandle::ID, "rpb");
    assert_eq!(RpbDeviceHandle::ID, "virtio-rpb");
}

#[test]
fn handles_carry_what_they_are_made_with() {
    let controller = RpbControllerHandle { instance_id: Guid(7), pci_id: "0000:01:00.0".to_string() };
    assert_eq!(controller.instance_id, Guid(7));
    assert_eq!(controller.pci_id, "0000:01:00.0");
    let device = RpbDeviceHandle { path: "/dev/rpb".to_string() };
    assert_eq!(device.path, "/dev/rpb");
}

#[test]
fn controller_device_traits() {
    let traits = RpbResolver.device().traits();
    assert_eq!(traits.device_id, 3);
    assert_eq!(traits.device_features, 2);
    assert_eq!(traits.max_queues, 2);
    assert_eq!(traits.device_register_length, 0);
}

#[test]
fn resolving_passes_the_device_on() {
    assert_eq!(RpbResolver.resolve::<u32, u8, String>(Ok(5)), Ok(5));
}

#[test]
fn resolving_reports_a_failed_creation() {
    let failed = RpbResolver.resolve::<u32, u8, String>(Err("no memory".to_string()));
    assert_eq!(failed, Err(ResolveRpbError::Pci("no memory".to_string())));
}

#[test]
fn resolve_error_messages() {
    let virtio: ResolveRpbError<u8, u8> = ResolveRpbError::Virtio(1);
    let pci: ResolveRpbError<u8, u8> = ResolveRpbError::Pci(1);
    assert_eq!(virtio.message(), "failed to resolve RPB device");
    assert_eq!(pci.message(), "failed to create RPB device");
}

#[test]
fn device_registers_read_as_zero() {
    let traits = DeviceTraits { device_id: 9, ..DeviceTraits::default() };
    let mut device = RpbDevice::new(traits);
    device.write_registers_u32(4, 0x1234);
    assert_eq!(device.read_registers_u32(4), 0);
    assert_eq!(device.traits(), traits);
}

#[test]
fn worker_goes_on_until_an_error() {
    let mut device = RpbResolver.device();
    let mut work = device.get_work_callback(0);
    assert!(work.process_work::<u8, String>(Ok(1)));
    assert!(!work.process_work::<u8, String>(Err("queue gone".to_string())));
}
