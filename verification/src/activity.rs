//! Activity that waits for the relay: devices to give back, and buses to relay.
use vstd::prelude::*;

use crate::bus::OfferInfo;
use crate::relay::RelayState;
use crate::slots::RelayedDevice;

verus! {

/// Whether a device waits to be removed.
pub open spec fn device_ready(devices: Map<usize, RelayedDevice>, slot: usize) -> bool {
    devices.contains_key(slot) && devices[slot].ready_to_remove
}

/// Whether no device waits to be removed.
pub open spec fn no_device_ready(devices: Map<usize, RelayedDevice>) -> bool {
    forall|slot: usize| !#[trigger] device_ready(devices, slot)
}

/// Whether anything waits for the relay: a device to remove, or a bus to relay.
pub open spec fn has_activity(state: RelayState) -> bool {
    state.new_buses.len() > 0 || !no_device_ready(state.devices)
}

/// The devices that do not wait to be removed.
pub open spec fn devices_to_keep(devices: Map<usize, RelayedDevice>) -> Map<usize, RelayedDevice> {
    devices.restrict(Set::new(|slot: usize| !device_ready(devices, slot)))
}

/// Whether `slot` is the first occupied slot after `after`.
pub open spec fn is_first_after(
    devices: Map<usize, RelayedDevice>,
    after: int,
    slot: usize,
) -> bool {
    &&& devices.contains_key(slot)
    &&& after < slot
    &&& forall|other: usize| #[trigger]
        devices.contains_key(other) && after < other ==> slot <= other
}

/// Whether `slot` is the first whose device waits to be removed.
pub open spec fn is_first_ready(devices: Map<usize, RelayedDevice>, slot: usize) -> bool {
    &&& device_ready(devices, slot)
    &&& forall|other: usize| #[trigger] device_ready(devices, other) ==> slot <= other
}

/// What a poll of the relay is told.
#[derive(Debug, PartialEq, Eq)]
pub enum WaitEvent {
    /// The poll begins.
    Begin,
    /// The device in a slot was polled; `removed` tells whether the host has
    /// asked for it back.
    DevicePolled { slot: usize, removed: bool },
    /// The host was polled for a new bus, and offered it if it had one.
    BusPolled(Option<OfferInfo>),
}

/// What a poll of the relay does next.
#[derive(Copy, Clone, Debug, PartialEq, Eq, Structural)]
pub enum WaitAction {
    /// Poll whether the host asks for the device in a slot back.
    PollDevice { slot: usize },
    /// Poll whether the host offers a new bus.
    PollBus,
    /// The poll ends: there is activity to process.
    Ready,
    /// The poll ends: there is nothing to process yet.
    Pending,
}

/// Whether what a poll is told is what it asked: it asks of a device only where
/// no bus waits and neither that device nor one before it waits to be removed,
/// and of a bus only where nothing waits at all.
pub open spec fn wait_answers(state: RelayState, event: WaitEvent) -> bool {
    match event {
        WaitEvent::Begin => true,
        WaitEvent::DevicePolled { slot, .. } => {
            &&& state.new_buses.len() == 0
            &&& state.devices.contains_key(slot)
            &&& forall|other: usize| #[trigger]
                device_ready(state.devices, other) ==> slot < other
        },
        WaitEvent::BusPolled(_) => !has_activity(state),
    }
}

/// How a poll goes on behind the slot `after`: it asks of the first device there,
/// unless that one waits to be removed already, and of a bus where there is none.
pub open spec fn wait_scan(
    devices: Map<usize, RelayedDevice>,
    after: int,
    action: WaitAction,
) -> bool {
    match action {
        WaitAction::PollDevice { slot } => is_first_after(devices, after, slot)
            && !devices[slot].ready_to_remove,
        WaitAction::PollBus => forall|slot: usize| #[trigger]
            devices.contains_key(slot) ==> slot <= after,
        WaitAction::Ready => exists|slot: usize| #[trigger]
            is_first_after(devices, after, slot) && devices[slot].ready_to_remove,
        WaitAction::Pending => false,
    }
}

/// What a poll does on what it is told.
pub open spec fn wait_step(
    state: RelayState,
    event: WaitEvent,
    after: RelayState,
    action: WaitAction,
) -> bool {
    match event {
        WaitEvent::Begin => {
            &&& after == state
            &&& if state.new_buses.len() > 0 {
                action == WaitAction::Ready
            } else {
                wait_scan(state.devices, -1, action)
            }
        },
        WaitEvent::DevicePolled { slot, removed } => if removed {
            &&& action == WaitAction::Ready
            &&& after == RelayState {
                devices: state.devices.insert(
                    slot,
                    RelayedDevice { ready_to_remove: true, ..state.devices[slot] },
                ),
                ..state
            }
        } else {
            &&& after == state
            &&& wait_scan(state.devices, slot as int, action)
        },
        WaitEvent::BusPolled(Some(offer)) => {
            &&& action == WaitAction::Ready
            &&& after == RelayState { new_buses: state.new_buses.push(offer), ..state }
        },
        WaitEvent::BusPolled(None) => action == WaitAction::Pending && after == state,
    }
}

/// What processing is told.
#[derive(Copy, Clone, Debug, PartialEq, Eq, Structural)]
pub enum ProcessEvent {
    /// Processing begins.
    Begin,
    /// The device that was taken out of its slot was removed.
    DeviceRemoved,
    /// The bus that was taken off the list was relayed, or passed over.
    BusRelayed,
    /// The bus that was taken off the list could not be relayed.
    BusFailed,
}

/// What processing does next.
#[derive(Debug, PartialEq, Eq)]
pub enum ProcessAction {
    /// Remove the device that was taken out of the slot.
    RemoveDevice { slot: usize, device: RelayedDevice },
    /// Relay the bus.
    RelayBus(OfferInfo),
    /// All waiting activity is processed.
    Done,
    /// Processing ends with the failure of the last bus.
    Failed,
}

/// Whether what processing is told is what it waits for: buses are relayed only
/// where no device waits to be removed.
pub open spec fn process_answers(state: RelayState, event: ProcessEvent) -> bool {
    match event {
        ProcessEvent::Begin | ProcessEvent::DeviceRemoved => true,
        ProcessEvent::BusRelayed | ProcessEvent::BusFailed => no_device_ready(state.devices),
    }
}

/// How processing takes the next bus: the one that came last.
pub open spec fn process_next_bus(
    state: RelayState,
    after: RelayState,
    action: ProcessAction,
) -> bool {
    if state.new_buses.len() > 0 {
        &&& action == ProcessAction::RelayBus(state.new_buses.last())
        &&& after == RelayState { new_buses: state.new_buses.drop_last(), ..state }
    } else {
        &&& action == ProcessAction::Done
        &&& after == state
    }
}

/// A relay once the device in a slot is taken out.
pub open spec fn without_device(state: RelayState, slot: usize) -> RelayState {
    RelayState {
        devices: state.devices.remove(slot),
        vacated: state.vacated.push(slot),
        ..state
    }
}

/// What processing does on what it is told.
pub open spec fn process_step(
    state: RelayState,
    event: ProcessEvent,
    after: RelayState,
    action: ProcessAction,
) -> bool {
    match event {
        ProcessEvent::Begin | ProcessEvent::DeviceRemoved => if no_device_ready(state.devices) {
            process_next_bus(state, after, action)
        } else {
            match action {
                ProcessAction::RemoveDevice { slot, device } => {
                    &&& is_first_ready(state.devices, slot)
                    &&& device == state.devices[slot]
                    &&& after == without_device(state, slot)
                },
                _ => false,
            }
        },
        ProcessEvent::BusRelayed => process_next_bus(state, after, action),
        ProcessEvent::BusFailed => action == ProcessAction::Failed && after == state,
    }
}

/// Where no device up to the slot `after` waits to be removed, the same holds up
/// to and including the device that the poll asks of next. A poll that ends is
/// right to.
pub proof fn lemma_scan(devices: Map<usize, RelayedDevice>, after: int, action: WaitAction)
    requires
        wait_scan(devices, after, action),
        forall|slot: usize| #[trigger] device_ready(devices, slot) ==> after < slot,
    ensures
        match action {
            WaitAction::PollDevice { slot } => forall|other: usize| #[trigger]
                device_ready(devices, other) ==> slot < other,
            WaitAction::PollBus => no_device_ready(devices),
            WaitAction::Ready => !no_device_ready(devices),
            WaitAction::Pending => true,
        },
{
    match action {
        WaitAction::PollDevice { slot } => {
            assert forall|other: usize| #[trigger] device_ready(devices, other) implies slot
                < other by {
                assert(devices.contains_key(other) && after < other);
                assert(!device_ready(devices, slot));
            }
        },
        WaitAction::Ready => {
            let slot = choose|slot: usize| #[trigger]
                is_first_after(devices, after, slot) && devices[slot].ready_to_remove;
            assert(device_ready(devices, slot));
        },
        _ => {},
    }
}

} // verus!
