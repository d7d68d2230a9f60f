use vpci_relay::mock::{check_mock_interface, DeviceInterfaceInfo, MockMismatch};

const MOCKED: DeviceInterfaceInfo = DeviceInterfaceInfo {
    guest_protocol_type: 1,
    tdisp_device_id: 99,
    supported_features: 0xdead,
};

#[test]
fn mocked_device_passes() {
    assert_eq!(check_mock_interface(&MOCKED, &MOCKED), Ok(()));
}

#[test]
fn first_difference_is_told() {
    let protocol = DeviceInterfaceInfo {
        guest_protocol_type: 0,
        tdisp_device_id: 0,
        ..MOCKED
    };
    assert_eq!(check_mock_interface(&protocol, &MOCKED), Err(MockMismatch::GuestProtocol));
    let id = DeviceInterfaceInfo { tdisp_device_id: 0, supported_features: 0, ..MOCKED };
    assert_eq!(check_mock_interface(&id, &MOCKED), Err(MockMismatch::DeviceId));
    let features = DeviceInterfaceInfo { supported_features: 0, ..MOCKED };
    assert_eq!(check_mock_interface(&features, &MOCKED), Err(MockMismatch::SupportedFeatures));
}
