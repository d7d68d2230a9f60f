//! The list of devices that may be relayed.
use vstd::prelude::*;

use crate::hwid::{ClassCode, HardwareIds, ProgrammingInterface, Subclass};

verus! {

/// An allowed device description.
///
/// Fields that are `Some` must match the device being evaluated to be allowed.
#[derive(Copy, Clone, Debug, PartialEq, Eq)]
pub struct AllowedDevice {
    /// The vendor ID of the device.
    pub vendor_id: Option<u16>,
    /// The device ID of the device.
    pub device_id: Option<u16>,
    /// The revision ID of the device.
    pub revision_id: Option<u8>,
    /// The programming interface of the device.
    pub prog_if: Option<ProgrammingInterface>,
    /// The subclass of the device.
    pub sub_class: Option<Subclass>,
    /// The base class of the device.
    pub base_class: Option<ClassCode>,
    /// The sub-vendor ID.
    pub sub_vendor_id: Option<u16>,
    /// The sub-system ID.
    pub sub_system_id: Option<u16>,
}

/// Whether a field of a description lets a value pass.
pub open spec fn field_allows<T>(field: Option<T>, value: T) -> bool {
    field is None || field == Some(value)
}

/// Whether a description allows a device: each of its fields that is `Some`
/// matches.
pub open spec fn device_matches(dev: AllowedDevice, hw: HardwareIds) -> bool {
    &&& field_allows(dev.vendor_id, hw.vendor_id)
    &&& field_allows(dev.device_id, hw.device_id)
    &&& field_allows(dev.revision_id, hw.revision_id)
    &&& field_allows(dev.prog_if, hw.prog_if)
    &&& field_allows(dev.sub_class, hw.sub_class)
    &&& field_allows(dev.base_class, hw.base_class)
    &&& field_allows(dev.sub_vendor_id, hw.type0_sub_vendor_id)
    &&& field_allows(dev.sub_system_id, hw.type0_sub_system_id)
}

/// A 16-bit ID of a description, with `!0` for the wildcard that it stands for.
pub open spec fn id16_or_wildcard(id: Option<u16>) -> Option<u16> {
    if id == Some(0xffffu16) {
        None
    } else {
        id
    }
}

/// An 8-bit ID of a description, with `!0` for the wildcard that it stands for.
pub open spec fn id8_or_wildcard(id: Option<u8>) -> Option<u8> {
    if id == Some(0xffu8) {
        None
    } else {
        id
    }
}

/// A description, with its IDs that are `!0` left open.
pub open spec fn open_wildcards(dev: AllowedDevice) -> AllowedDevice {
    AllowedDevice {
        vendor_id: id16_or_wildcard(dev.vendor_id),
        device_id: id16_or_wildcard(dev.device_id),
        revision_id: id8_or_wildcard(dev.revision_id),
        sub_vendor_id: id16_or_wildcard(dev.sub_vendor_id),
        sub_system_id: id16_or_wildcard(dev.sub_system_id),
        ..dev
    }
}

/// Whether a list of descriptions allows a device: one of them does, or there is
/// none.
pub open spec fn list_allows(list: Seq<AllowedDevice>, hw: HardwareIds) -> bool {
    list.len() == 0 || exists|i: int|
        0 <= i < list.len() && device_matches(#[trigger] list[i], hw)
}

/// Leaves a 16-bit ID open where it is `!0`.
fn open_id16(id: Option<u16>) -> (opened: Option<u16>)
    ensures
        opened == id16_or_wildcard(id),
{
    match id {
        Some(0xffff) => None,
        _ => id,
    }
}

/// Leaves an 8-bit ID open where it is `!0`.
fn open_id8(id: Option<u8>) -> (opened: Option<u8>)
    ensures
        opened == id8_or_wildcard(id),
{
    match id {
        Some(0xff) => None,
        _ => id,
    }
}

/// Whether a 16-bit field lets a value pass.
fn allows_u16(field: Option<u16>, value: u16) -> (allowed: bool)
    ensures
        allowed == field_allows(field, value),
{
    match field {
        Some(x) => x == value,
        None => true,
    }
}

impl AllowedDevice {
    /// Whether the description allows a device.
    pub fn allows(&self, hw: &HardwareIds) -> (allowed: bool)
        ensures
            allowed == device_matches(*self, *hw),
            allowed <==> {
                &&& self.vendor_id is None || self.vendor_id == Some(hw.vendor_id)
                &&& self.device_id is None || self.device_id == Some(hw.device_id)
                &&& self.revision_id is None || self.revision_id == Some(hw.revision_id)
                &&& self.prog_if is None || self.prog_if == Some(hw.prog_if)
                &&& self.sub_class is None || self.sub_class == Some(hw.sub_class)
                &&& self.base_class is None || self.base_class == Some(hw.base_class)
                &&& self.sub_vendor_id is None || self.sub_vendor_id == Some(
                    hw.type0_sub_vendor_id,
                )
                &&& self.sub_system_id is None || self.sub_system_id == Some(
                    hw.type0_sub_system_id,
                )
            },
    {
        allows_u16(self.vendor_id, hw.vendor_id) && allows_u16(self.device_id, hw.device_id) && (
        match self.revision_id {
            Some(x) => x == hw.revision_id,
            None => true,
        }) && (match self.prog_if {
            Some(x) => x == hw.prog_if,
            None => true,
        }) && (match self.sub_class {
            Some(x) => x == hw.sub_class,
            None => true,
        }) && (match self.base_class {
            Some(x) => x == hw.base_class,
            None => true,
        }) && allows_u16(self.sub_vendor_id, hw.type0_sub_vendor_id) && allows_u16(
            self.sub_system_id,
            hw.type0_sub_system_id,
        )
    }

    /// The description, with its IDs that are `!0` left open.
    pub fn with_wildcards(self) -> (dev: AllowedDevice)
        ensures
            dev == open_wildcards(self),
    {
        AllowedDevice {
            vendor_id: open_id16(self.vendor_id),
            device_id: open_id16(self.device_id),
            revision_id: open_id8(self.revision_id),
            sub_vendor_id: open_id16(self.sub_vendor_id),
            sub_system_id: open_id16(self.sub_system_id),
            ..self
        }
    }
}

/// Whether a list of descriptions allows a device.
pub fn any_allows(list: &[AllowedDevice], hw: &HardwareIds) -> (allowed: bool)
    ensures
        allowed == list_allows(list@, *hw),
{
    if list.len() == 0 {
        return true;
    }
    for i in 0..list.len()
        invariant
            forall|j: int| 0 <= j < i ==> !device_matches(#[trigger] list@[j], *hw),
    {
        if list[i].allows(hw) {
            return true;
        }
    }
    false
}

/// An empty list allows every device.
pub proof fn law_empty_list_allows_all(hw: HardwareIds)
    ensures
        list_allows(Seq::empty(), hw),
{
}

/// With one description on the list, the devices that it matches are allowed and
/// no others.
pub proof fn law_first_description_restricts(dev: AllowedDevice, hw: HardwareIds)
    ensures
        list_allows(Seq::empty().push(dev), hw) <==> device_matches(dev, hw),
{
    let list = Seq::empty().push(dev);
    if device_matches(dev, hw) {
        assert(device_matches(list[0], hw));
    }
}

/// A description added to a list that has one already allows the devices that it
/// matches, and takes nothing away.
pub proof fn law_further_descriptions_add(
    list: Seq<AllowedDevice>,
    dev: AllowedDevice,
    hw: HardwareIds,
)
    requires
        list.len() > 0,
    ensures
        list_allows(list.push(dev), hw) <==> list_allows(list, hw) || device_matches(dev, hw),
{
    let longer = list.push(dev);
    if list_allows(list, hw) {
        let i = choose|i: int| 0 <= i < list.len() && device_matches(#[trigger] list[i], hw);
        assert(device_matches(longer[i], hw));
    }
    if device_matches(dev, hw) {
        assert(device_matches(longer[list.len() as int], hw));
    }
    if list_allows(longer, hw) {
        let i = choose|i: int| 0 <= i < longer.len() && device_matches(#[trigger] longer[i], hw);
        if i < list.len() {
            assert(device_matches(list[i], hw));
        }
    }
}

/// A description allows a device where each of its fields is open or holds the
/// device's value, and nowhere else.
pub proof fn law_description_matches(dev: AllowedDevice, hw: HardwareIds)
    ensures
        device_matches(dev, hw) <==> {
            &&& dev.vendor_id is None || dev.vendor_id == Some(hw.vendor_id)
            &&& dev.device_id is None || dev.device_id == Some(hw.device_id)
            &&& dev.revision_id is None || dev.revision_id == Some(hw.revision_id)
            &&& dev.prog_if is None || dev.prog_if == Some(hw.prog_if)
            &&& dev.sub_class is None || dev.sub_class == Some(hw.sub_class)
            &&& dev.base_class is None || dev.base_class == Some(hw.base_class)
            &&& dev.sub_vendor_id is None || dev.sub_vendor_id == Some(hw.type0_sub_vendor_id)
            &&& dev.sub_system_id is None || dev.sub_system_id == Some(hw.type0_sub_system_id)
        },
{
}

/// A description that is written after a device allows the devices with its IDs
/// and classes, and no others.
pub proof fn law_description_of_a_device(hw: HardwareIds, other: HardwareIds)
    ensures
        device_matches(
            AllowedDevice {
                vendor_id: Some(hw.vendor_id),
                device_id: Some(hw.device_id),
                revision_id: Some(hw.revision_id),
                prog_if: Some(hw.prog_if),
                sub_class: Some(hw.sub_class),
                base_class: Some(hw.base_class),
                sub_vendor_id: Some(hw.type0_sub_vendor_id),
                sub_system_id: Some(hw.type0_sub_system_id),
            },
            other,
        ) <==> other == hw,
{
}

/// A list allows a device where it is empty, or where one of its descriptions
/// allows the device.
pub proof fn law_list_allows(list: Seq<AllowedDevice>, hw: HardwareIds)
    ensures
        list.len() == 0 ==> list_allows(list, hw),
        forall|i: int|
            0 <= i < list.len() && device_matches(#[trigger] list[i], hw) ==> list_allows(
                list,
                hw,
            ),
        list.len() > 0 && (forall|i: int|
            0 <= i < list.len() ==> !device_matches(#[trigger] list[i], hw)) ==> !list_allows(
            list,
            hw,
        ),
{
}

/// Opening the wildcards of a description leaves open what is open or `!0`, of the
/// vendor, device, revision, sub-vendor and sub-system IDs, and keeps all else.
pub proof fn law_wildcards_alone_are_opened(dev: AllowedDevice)
    ensures
        ({
            let opened = open_wildcards(dev);
            &&& dev.vendor_id == Some(0xffffu16) ==> opened.vendor_id is None
            &&& dev.vendor_id != Some(0xffffu16) ==> opened.vendor_id == dev.vendor_id
            &&& dev.device_id == Some(0xffffu16) ==> opened.device_id is None
            &&& dev.device_id != Some(0xffffu16) ==> opened.device_id == dev.device_id
            &&& dev.revision_id == Some(0xffu8) ==> opened.revision_id is None
            &&& dev.revision_id != Some(0xffu8) ==> opened.revision_id == dev.revision_id
            &&& dev.sub_vendor_id == Some(0xffffu16) ==> opened.sub_vendor_id is None
            &&& dev.sub_vendor_id != Some(0xffffu16) ==> opened.sub_vendor_id == dev.sub_vendor_id
            &&& dev.sub_system_id == Some(0xffffu16) ==> opened.sub_system_id is None
            &&& dev.sub_system_id != Some(0xffffu16) ==> opened.sub_system_id == dev.sub_system_id
            &&& opened.prog_if == dev.prog_if
            &&& opened.sub_class == dev.sub_class
            &&& opened.base_class == dev.base_class
        }),
{
}

/// An ID that is `!0` is a wildcard: what the description allows does not depend
/// on the device's ID, and no device that the rest of it matches is left out.
pub proof fn law_all_ones_is_a_wildcard(dev: AllowedDevice, hw: HardwareIds)
    ensures
        device_matches(open_wildcards(dev), hw) <==> {
            &&& dev.vendor_id is None || dev.vendor_id == Some(0xffffu16) || dev.vendor_id == Some(
                hw.vendor_id,
            )
            &&& dev.device_id is None || dev.device_id == Some(0xffffu16) || dev.device_id == Some(
                hw.device_id,
            )
            &&& dev.revision_id is None || dev.revision_id == Some(0xffu8) || dev.revision_id
                == Some(hw.revision_id)
            &&& dev.prog_if is None || dev.prog_if == Some(hw.prog_if)
            &&& dev.sub_class is None || dev.sub_class == Some(hw.sub_class)
            &&& dev.base_class is None || dev.base_class == Some(hw.base_class)
            &&& dev.sub_vendor_id is None || dev.sub_vendor_id == Some(0xffffu16)
                || dev.sub_vendor_id == Some(hw.type0_sub_vendor_id)
            &&& dev.sub_system_id is None || dev.sub_system_id == Some(0xffffu16)
                || dev.sub_system_id == Some(hw.type0_sub_system_id)
        },
{
}

} // verus!
