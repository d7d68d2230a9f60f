use vpci_relay::report::{find_private_range, report_digest, to_hex_lower, MmioRange};

#[test]
fn report_digest_of_abc() {
    assert_eq!(
        report_digest(b"abc"),
        "cb00753f45a35e8bb5a03d699ac65007272c32ab0eded1631a8b605a43ff5bed\
         8086072ba1e7cc2358baeca134c825a7"
    );
}

#[test]
fn report_digest_of_nothing() {
    assert_eq!(
        report_digest(&[]),
        "38b060a751ac96384cd9327eb1b1e36a21fdb71114be07434c0cc7bf63f6e1da\
         274edebfe76f65fbd51ad2f14898b95b"
    );
}

#[test]
fn hex_has_two_digits_a_byte() {
    assert_eq!(to_hex_lower(&[]), "");
    assert_eq!(to_hex_lower(&[0x00, 0x0f, 0xa0, 0xff]), "000fa0ff");
    assert_eq!(
        to_hex_lower(&[0x01, 0x23, 0x45, 0x67, 0x89, 0xab, 0xcd, 0xef]),
        "0123456789abcdef"
    );
}

#[test]
fn hex_tells_bytes_apart() {
    let mut seen: Vec<String> = Vec::new();
    for byte in 0..=255u8 {
        let text = to_hex_lower(&[byte]);
        assert_eq!(text, format!("{byte:02x}"));
        assert!(!seen.contains(&text));
        seen.push(text);
    }
}

#[test]
fn first_private_range_is_found() {
    let open = MmioRange { range_id: 7, non_tee_mem: true };
    let private = MmioRange { range_id: 3, non_tee_mem: false };
    let later = MmioRange { range_id: 1, non_tee_mem: false };
    assert_eq!(find_private_range(&[open, private, later]), Some(3));
    assert_eq!(find_private_range(&[later, private]), Some(1));
    assert_eq!(find_private_range(&[open, open]), None);
    assert_eq!(find_private_range(&[]), None);
    assert_eq!(
        find_private_range(&[MmioRange { range_id: u16::MAX, non_tee_mem: false }]),
        Some(0xffff)
    );
}
