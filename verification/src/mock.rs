//! The mock TDISP flow, which exercises an emulated device of a test.
use vstd::prelude::*;

verus! {

/// What a TDISP device tells of its interface.
#[derive(Copy, Clone, Debug, PartialEq, Eq, Structural)]
pub struct DeviceInterfaceInfo {
    /// The protocol that the device speaks with its guest.
    pub guest_protocol_type: i32,
    /// The ID of the device.
    pub tdisp_device_id: u64,
    /// The features that the device supports.
    pub supported_features: u64,
}

/// What of a device's interface is not as it should be.
#[derive(Copy, Clone, Debug, PartialEq, Eq, Structural)]
pub enum MockMismatch {
    /// The protocol.
    GuestProtocol,
    /// The ID of the device.
    DeviceId,
    /// The supported features.
    SupportedFeatures,
}

/// Checks that a device responds as TDISP capable and with the right mocked
/// device information.
pub fn check_mock_interface(info: &DeviceInterfaceInfo, mocked: &DeviceInterfaceInfo) -> (checked:
    Result<(), MockMismatch>)
    ensures
        match checked {
            Ok(_) => *info == *mocked,
            Err(MockMismatch::GuestProtocol) => info.guest_protocol_type
                != mocked.guest_protocol_type,
            Err(MockMismatch::DeviceId) => info.guest_protocol_type == mocked.guest_protocol_type
                && info.tdisp_device_id != mocked.tdisp_device_id,
            Err(MockMismatch::SupportedFeatures) => info.guest_protocol_type
                == mocked.guest_protocol_type && info.tdisp_device_id == mocked.tdisp_device_id
                && info.supported_features != mocked.supported_features,
        },
{
    if info.guest_protocol_type != mocked.guest_protocol_type {
        return Err(MockMismatch::GuestProtocol);
    }
    if info.tdisp_device_id != mocked.tdisp_device_id {
        return Err(MockMismatch::DeviceId);
    }
    if info.supported_features != mocked.supported_features {
        return Err(MockMismatch::SupportedFeatures);
    }
    Ok(())
}

} // verus!
