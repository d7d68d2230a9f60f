use vpci_relay::{DmarTarget, TdiRangeSizeOffset};

#[test]
fn dmar_target_of_the_first_vm() {
    assert_eq!(DmarTarget { vm_idx: 1, reserved: [0; 7] }.to_u64(), 1);
}

#[test]
fn dmar_target_is_little_endian() {
    let target = DmarTarget { vm_idx: 0x01, reserved: [0x02, 0x03, 0x04, 0x05, 0x06, 0x07, 0x08] };
    assert_eq!(target.to_u64(), 0x0807_0605_0403_0201);
    assert_eq!(DmarTarget { vm_idx: 0xff, reserved: [0xff; 7] }.to_u64(), u64::MAX);
}

#[test]
fn dmar_targets_differ_in_value() {
    let a = DmarTarget { vm_idx: 1, reserved: [0; 7] };
    let b = DmarTarget { vm_idx: 1, reserved: [0, 0, 0, 0, 0, 0, 1] };
    assert_ne!(a, b);
    assert_ne!(a.to_u64(), b.to_u64());
}

#[test]
fn records_default_to_zero() {
    assert_eq!(DmarTarget::default().to_u64(), 0);
    assert_eq!(
        TdiRangeSizeOffset::default(),
        TdiRangeSizeOffset { range_size: 0, range_offset: 0 }
    );
}
