use vpci_relay::allowed::{any_allows, AllowedDevice};
use vpci_relay::hwid::{ClassCode, HardwareIds, ProgrammingInterface, Subclass};

fn nvme() -> HardwareIds {
    HardwareIds {
        vendor_id: 0x1414,
        device_id: 0xb111,
        revision_id: 2,
        prog_if: ProgrammingInterface(2),
        sub_class: Subclass(8),
        base_class: ClassCode(1),
        type0_sub_vendor_id: 0x10de,
        type0_sub_system_id: 0x77,
    }
}

fn anything() -> AllowedDevice {
    AllowedDevice {
        vendor_id: None,
        device_id: None,
        revision_id: None,
        prog_if: None,
        sub_class: None,
        base_class: None,
        sub_vendor_id: None,
        sub_system_id: None,
    }
}

fn exactly_nvme() -> AllowedDevice {
    AllowedDevice {
        vendor_id: Some(0x1414),
        device_id: Some(0xb111),
        revision_id: Some(2),
        prog_if: Some(ProgrammingInterface(2)),
        sub_class: Some(Subclass(8)),
        base_class: Some(ClassCode(1)),
        sub_vendor_id: Some(0x10de),
        sub_system_id: Some(0x77),
    }
}

#[test]
fn open_description_allows_every_device() {
    assert!(anything().allows(&nvme()));
}

#[test]
fn full_description_allows_its_device() {
    assert!(exactly_nvme().allows(&nvme()));
}

#[test]
fn each_field_must_match() {
    let dev = exactly_nvme();
    assert!(!dev.allows(&HardwareIds { vendor_id: 0x8086, ..nvme() }));
    assert!(!dev.allows(&HardwareIds { device_id: 1, ..nvme() }));
    assert!(!dev.allows(&HardwareIds { revision_id: 3, ..nvme() }));
    assert!(!dev.allows(&HardwareIds { prog_if: ProgrammingInterface(3), ..nvme() }));
    assert!(!dev.allows(&HardwareIds { sub_class: Subclass(9), ..nvme() }));
    assert!(!dev.allows(&HardwareIds { base_class: ClassCode(2), ..nvme() }));
    assert!(!dev.allows(&HardwareIds { type0_sub_vendor_id: 0, ..nvme() }));
    assert!(!dev.allows(&HardwareIds { type0_sub_system_id: 0, ..nvme() }));
}

#[test]
fn one_field_alone_decides() {
    let dev = AllowedDevice { base_class: Some(ClassCode(1)), ..anything() };
    assert!(dev.allows(&nvme()));
    assert!(dev.allows(&HardwareIds { vendor_id: 0x8086, device_id: 0x1572, ..nvme() }));
    assert!(!dev.allows(&HardwareIds { base_class: ClassCode(2), ..nvme() }));
}

#[test]
fn empty_list_allows_all() {
    assert!(any_allows(&[], &nvme()));
}

#[test]
fn list_allows_what_one_of_it_allows() {
    let other = AllowedDevice { vendor_id: Some(0x8086), ..anything() };
    assert!(!any_allows(&[other], &nvme()));
    assert!(any_allows(&[other, exactly_nvme()], &nvme()));
    assert!(any_allows(&[exactly_nvme(), other], &nvme()));
    assert!(any_allows(&[other, exactly_nvme()], &HardwareIds { vendor_id: 0x8086, ..nvme() }));
}

#[test]
fn all_ones_ids_are_left_open() {
    let dev = AllowedDevice {
        vendor_id: Some(!0),
        device_id: Some(!0),
        revision_id: Some(!0),
        sub_vendor_id: Some(!0),
        sub_system_id: Some(!0),
        ..exactly_nvme()
    };
    assert!(!dev.allows(&nvme()));
    let opened = dev.with_wildcards();
    assert_eq!(
        opened,
        AllowedDevice {
            prog_if: Some(ProgrammingInterface(2)),
            sub_class: Some(Subclass(8)),
            base_class: Some(ClassCode(1)),
            ..anything()
        }
    );
    assert!(opened.allows(&nvme()));
    assert!(!opened.allows(&HardwareIds { sub_class: Subclass(9), ..nvme() }));
}

#[test]
fn other_ids_are_kept() {
    assert_eq!(exactly_nvme().with_wildcards(), exactly_nvme());
    let low_byte = AllowedDevice { vendor_id: Some(0xff), ..anything() };
    assert_eq!(low_byte.with_wildcards(), low_byte);
}
