use vpci_relay::mmio::{slot_fits, slot_gpa, MemoryRange};

const RANGE: MemoryRange = MemoryRange { start: 0x10_0000, end: 0x10_7000 };

#[test]
fn range_len_and_start() {
    assert_eq!(RANGE.len(), 0x7000);
    assert_eq!(RANGE.start(), 0x10_0000);
}

#[test]
fn windows_fit_up_to_the_end() {
    assert!(slot_fits(&RANGE, 0x2000, 0));
    assert!(slot_fits(&RANGE, 0x2000, 2));
    assert!(!slot_fits(&RANGE, 0x2000, 3));
    assert!(slot_fits(&MemoryRange { start: 0, end: 0x8000 }, 0x2000, 3));
    assert!(!slot_fits(&MemoryRange { start: 5, end: 5 }, 1, 0));
}

#[test]
fn far_slot_does_not_fit() {
    let all = MemoryRange { start: 0, end: u64::MAX };
    assert!(!slot_fits(&all, u64::MAX, 1));
    assert!(!slot_fits(&all, 0x2000, usize::MAX));
    assert!(slot_fits(&all, u64::MAX, 0));
}

#[test]
fn windows_follow_each_other() {
    assert_eq!(slot_gpa(&RANGE, 0x2000, 0), 0x10_0000);
    assert_eq!(slot_gpa(&RANGE, 0x2000, 1), 0x10_2000);
    assert_eq!(slot_gpa(&RANGE, 0x2000, 2), 0x10_4000);
}
