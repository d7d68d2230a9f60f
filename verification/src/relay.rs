//! The relay.
use vstd::prelude::*;

use crate::activity::{ProcessAction, ProcessEvent, WaitAction, WaitEvent};
use crate::allowed::{any_allows, AllowedDevice};
use crate::bus::{
    BusAction, BusError, BusEvent, BusFlow, BusOutcome, BusStage, OfferInfo, RING_OFFSET_IN_PAGES,
    RING_PAGES,
};
use crate::mmio::{slot_fits, slot_gpa, MemoryRange};
use crate::slots::{
    slab_get, slab_index, slab_insert, slab_keys, slab_new, slab_remove, slab_replace, slab_vacant_key,
    RelayedDevice,
};

verus! {

/// Flags for controlling optional behavior of the VPCI relay.
#[derive(Copy, Clone, Debug, Default, PartialEq, Eq, Structural)]
pub struct VpciRelayOptions {
    /// When set, the relay will exercise a mock TDISP flow for emulated TDISP
    /// devices produced by tests.
    pub test_tdisp_flow: bool,
    /// When set, the relay will attempt to run the real TDISP startup flow for
    /// TDISP-capable devices before exposing them to the guest.
    pub startup_tdisp_flow: bool,
}

/// What a relay holds.
#[verifier::ext_equal]
pub struct RelayState {
    /// The devices that are relayed, by slot.
    pub devices: Map<usize, RelayedDevice>,
    /// The slots that were given up and not used again, the last at the end.
    pub vacated: Seq<usize>,
    /// The buses that wait to be relayed.
    pub new_buses: Seq<OfferInfo>,
    /// The descriptions of the devices that are allowed.
    pub allowed_devices: Seq<AllowedDevice>,
    /// The MMIO space of the relay.
    pub mmio_range: MemoryRange,
    /// The size of the MMIO window of a slot.
    pub mmio_per_device: u64,
    /// The virtual top of memory, where there is one.
    pub vtom: Option<u64>,
    /// The options.
    pub options: VpciRelayOptions,
}

impl RelayState {
    /// The slots are in order, and every slot that was ever used has a window
    /// within the MMIO space.
    pub open spec fn wf(self) -> bool {
        &&& self.mmio_range.wf()
        &&& self.mmio_per_device > 0
        &&& crate::slots::slots_wf(self.devices, self.vacated)
        &&& crate::slots::slots_used(self.devices, self.vacated) * self.mmio_per_device
            <= self.mmio_range.end - self.mmio_range.start
    }

    /// The slot that the next device will have.
    pub open spec fn next_slot(self) -> nat {
        crate::slots::vacant_slot(self.devices, self.vacated)
    }
}

/// Virtual PCI relay.
///
/// It consumes VPCI buses from the host and relays them to the guest, filtering
/// them as needed.
pub struct VpciRelay {
    new_buses: Vec<OfferInfo>,
    devices: slab::Slab<RelayedDevice>,
    mmio_range: MemoryRange,
    mmio_per_device: u64,
    allowed_devices: Vec<AllowedDevice>,
    vtom: Option<u64>,
    options: VpciRelayOptions,
}

impl View for VpciRelay {
    type V = RelayState;

    closed spec fn view(&self) -> RelayState {
        RelayState {
            devices: crate::slots::slab_entries(self.devices),
            vacated: crate::slots::slab_vacated(self.devices),
            new_buses: self.new_buses@,
            allowed_devices: self.allowed_devices@,
            mmio_range: self.mmio_range,
            mmio_per_device: self.mmio_per_device,
            vtom: self.vtom,
            options: self.options,
        }
    }
}

impl VpciRelay {
    /// Creates a new VPCI relay.
    ///
    /// `new_buses` are the buses that the host offers to begin with, and
    /// `mmio_per_device` is the size of the MMIO region required for each device.
    pub fn new(
        new_buses: Vec<OfferInfo>,
        mmio_range: MemoryRange,
        mmio_per_device: u64,
        vtom: Option<u64>,
        options: VpciRelayOptions,
    ) -> (relay: VpciRelay)
        requires
            mmio_range.wf(),
            mmio_per_device > 0,
        ensures
            relay@.wf(),
            relay@ == (RelayState {
                devices: Map::empty(),
                vacated: Seq::empty(),
                new_buses: new_buses@,
                allowed_devices: Seq::empty(),
                mmio_range,
                mmio_per_device,
                vtom,
                options,
            }),
    {
        let relay = VpciRelay {
            new_buses,
            devices: slab_new(),
            mmio_range,
            mmio_per_device,
            allowed_devices: Vec::new(),
            vtom,
            options,
        };
        proof {
            assert(relay@.devices =~= Map::empty());
            assert(crate::slots::slots_used(relay@.devices, relay@.vacated) == 0);
            vstd::arithmetic::mul::lemma_mul_basics(mmio_per_device as int);
        }
        relay
    }

    /// Adds an allowed device to the list. If one of the hardware ID is `!0`
    /// then it is treated as a wildcard. That goes for the vendor, device,
    /// revision, sub-vendor and sub-system IDs; the programming interface and the
    /// classes are no IDs, and `!0` is a value of theirs like any other.
    ///
    /// Note that if no devices are on the list, then all devices are allowed.
    pub fn add_allowed_device(&mut self, dev: AllowedDevice)
        requires
            old(self)@.wf(),
        ensures
            final(self)@.wf(),
            final(self)@ == (RelayState {
                allowed_devices: old(self)@.allowed_devices.push(
                    crate::allowed::open_wildcards(dev),
                ),
                ..old(self)@
            }),
    {
        self.allowed_devices.push(dev.with_wildcards());
    }

    /// The descriptions of the devices that are allowed, as they were added, with
    /// wildcards left open.
    pub fn allowed_devices(&self) -> (list: &[AllowedDevice])
        ensures
            list@ == self@.allowed_devices,
    {
        self.allowed_devices.as_slice()
    }

    /// The virtual top of memory, where there is one.
    pub fn vtom(&self) -> (vtom: Option<u64>)
        ensures
            vtom == self@.vtom,
    {
        self.vtom
    }

    /// What the relay remembers of the device in a slot, where there is one.
    pub fn device(&self, slot: usize) -> (device: Option<RelayedDevice>)
        ensures
            match device {
                Some(found) => self@.devices.contains_key(slot) && found == self@.devices[slot],
                None => !self@.devices.contains_key(slot),
            },
    {
        slab_get(&self.devices, slot)
    }

    /// Begins relaying a bus: finds it a slot whose MMIO window fits, and names
    /// the first request to make.
    pub fn relay_vpci_bus(&self, offer: OfferInfo) -> (begun: Result<
        (BusFlow, BusAction),
        BusError,
    >)
        requires
            self@.wf(),
        ensures
            match begun {
                Ok((flow, action)) => {
                    &&& crate::mmio::window_fits(
                        self@.mmio_range,
                        self@.mmio_per_device,
                        self@.next_slot(),
                    )
                    &&& flow == crate::bus::bus_initial(self@, offer)
                    &&& flow.offer == offer
                    &&& flow.stage == BusStage::MemoryAccess
                    &&& flow.mmio_gpa == self@.mmio_range.start + self@.next_slot()
                        * self@.mmio_per_device
                    &&& flow.slot == self@.next_slot()
                    &&& crate::bus::bus_flow_wf(self@, flow)
                    &&& action == BusAction::CreateMemoryAccess { gpa: flow.mmio_gpa }
                },
                Err(error) => {
                    &&& !crate::mmio::window_fits(
                        self@.mmio_range,
                        self@.mmio_per_device,
                        self@.next_slot(),
                    )
                    &&& error == BusError::NoMmioSpace
                },
            },
    {
        let slot: usize = slab_vacant_key(&self.devices);
        if !slot_fits(&self.mmio_range, self.mmio_per_device, slot) {
            return Err(BusError::NoMmioSpace);
        }
        let mmio_gpa: u64 = slot_gpa(&self.mmio_range, self.mmio_per_device, slot);
        let flow = BusFlow { offer, slot, mmio_gpa, stage: BusStage::MemoryAccess };
        Ok((flow, BusAction::CreateMemoryAccess { gpa: mmio_gpa }))
    }

    /// Takes the reply to the request that relaying a bus waits for, and names
    /// the next one.
    ///
    /// A bus without a device, and one whose first device is not allowed, is
    /// passed over. The device gets its slot once both it and its bus are in the
    /// guest's chipset.
    pub fn relay_step(&mut self, flow: &mut BusFlow, event: BusEvent) -> (action: BusAction)
        requires
            old(self)@.wf(),
            crate::bus::bus_flow_wf(old(self)@, *old(flow)),
            crate::bus::bus_answers(old(flow).stage, event@),
        ensures
            final(self)@.wf(),
            crate::bus::bus_flow_wf(final(self)@, *final(flow)),
            (final(self)@, *final(flow), action@) == crate::bus::bus_next(
                old(self)@,
                *old(flow),
                event@,
            ),
    {
        match flow.stage {
            BusStage::MemoryAccess => match event {
                BusEvent::Failed => flow.fail(BusError::MemoryAccess),
                _ => {
                    let handle: u64 = flow.offer.handle;
                    flow.goto(
                        BusStage::Channel,
                        BusAction::OpenChannel {
                            handle,
                            ring_pages: RING_PAGES,
                            ring_offset_in_pages: RING_OFFSET_IN_PAGES,
                        },
                    )
                },
            },
            BusStage::Channel => match event {
                BusEvent::Failed => flow.fail(BusError::Channel),
                _ => flow.goto(BusStage::Connect, BusAction::Connect),
            },
            BusStage::Connect => match event {
                BusEvent::Connected(devices) => {
                    if devices.len() == 0 {
                        flow.end(BusOutcome::NoDevice)
                    } else if !any_allows(self.allowed_devices.as_slice(), &devices[0]) {
                        flow.end(BusOutcome::NotAllowed)
                    } else {
                        flow.goto(BusStage::Init, BusAction::InitDevice)
                    }
                },
                _ => flow.fail(BusError::Connect),
            },
            BusStage::Init => match event {
                BusEvent::Failed => flow.fail(BusError::Init),
                _ => {
                    if self.options.test_tdisp_flow {
                        flow.goto(BusStage::MockFlow, BusAction::RunMockFlow)
                    } else if self.options.startup_tdisp_flow {
                        let mmio_gpa: u64 = flow.mmio_gpa;
                        flow.goto(
                            BusStage::StartupFlow,
                            BusAction::RunStartupFlow {
                                mmio_gpa,
                                mmio_size: self.mmio_per_device,
                            },
                        )
                    } else {
                        flow.add_device()
                    }
                },
            },
            BusStage::MockFlow => flow.add_device(),
            BusStage::StartupFlow => match event {
                BusEvent::Failed => flow.fail(BusError::StartupFlow),
                _ => flow.add_device(),
            },
            BusStage::AddDevice => match event {
                BusEvent::Failed => flow.fail(BusError::AddDevice),
                _ => {
                    let name = flow.bus_name();
                    let instance_id = flow.offer.instance_id;
                    flow.goto(
                        BusStage::AddBus,
                        BusAction::AddBus { name, instance_id, vtom: self.vtom },
                    )
                },
            },
            BusStage::AddBus => match event {
                BusEvent::Failed => flow.fail(BusError::AddBus),
                _ => {
                    let device = RelayedDevice {
                        bus_instance_id: flow.offer.instance_id,
                        ready_to_remove: false,
                    };
                    proof {
                        crate::relay_laws::lemma_with_device_wf(self@, *flow);
                    }
                    let slot: usize = slab_insert(&mut self.devices, device);
                    assert(slot == flow.slot);
                    flow.goto(BusStage::StartUnits, BusAction::StartUnits)
                },
            },
            BusStage::StartUnits => {
                let slot: usize = flow.slot;
                flow.end(BusOutcome::Relayed { slot })
            },
            BusStage::Finished => flow.end(BusOutcome::NoDevice),
        }
    }

    /// Waits for activity to process: one step of a poll.
    ///
    /// A poll that begins where a bus waits is ready at once. Otherwise it asks of
    /// each device in turn whether the host wants it back, up to the first that is
    /// so, and then of a new bus.
    pub fn wait_ready(&mut self, event: WaitEvent) -> (action: WaitAction)
        requires
            old(self)@.wf(),
            crate::activity::wait_answers(old(self)@, event),
        ensures
            final(self)@.wf(),
            crate::activity::wait_step(old(self)@, event, final(self)@, action),
            match action {
                WaitAction::PollDevice { slot } => {
                    &&& crate::activity::wait_answers(
                        final(self)@,
                        (WaitEvent::DevicePolled { slot, removed: false }),
                    )
                    &&& crate::activity::wait_answers(
                        final(self)@,
                        (WaitEvent::DevicePolled { slot, removed: true }),
                    )
                },
                WaitAction::PollBus | WaitAction::Pending => !crate::activity::has_activity(
                    final(self)@,
                ),
                WaitAction::Ready => crate::activity::has_activity(final(self)@),
            },
    {
        match event {
            WaitEvent::Begin => {
                if self.new_buses.len() > 0 {
                    WaitAction::Ready
                } else {
                    let action = self.poll_after(None);
                    proof {
                        crate::activity::lemma_scan(self@.devices, -1, action);
                    }
                    action
                }
            },
            WaitEvent::DevicePolled { slot, removed } => {
                if removed {
                    let device = slab_index(&self.devices, slot);
                    let marked = RelayedDevice { ready_to_remove: true, ..device };
                    proof {
                        crate::slots::lemma_replace_keeps_slots(
                            self@.devices,
                            self@.vacated,
                            slot,
                            marked,
                        );
                    }
                    slab_replace(&mut self.devices, slot, marked);
                    assert(crate::activity::device_ready(self@.devices, slot));
                    WaitAction::Ready
                } else {
                    let action = self.poll_after(Some(slot));
                    proof {
                        crate::activity::lemma_scan(self@.devices, slot as int, action);
                    }
                    action
                }
            },
            WaitEvent::BusPolled(Some(offer)) => {
                self.new_buses.push(offer);
                WaitAction::Ready
            },
            WaitEvent::BusPolled(None) => WaitAction::Pending,
        }
    }

    /// How a poll goes on behind a slot, or from the first slot on.
    fn poll_after(&self, after: Option<usize>) -> (action: WaitAction)
        ensures
            crate::activity::wait_scan(
                self@.devices,
                match after {
                    Some(slot) => slot as int,
                    None => -1,
                },
                action,
            ),
    {
        let ghost bound: int = match after {
            Some(slot) => slot as int,
            None => -1,
        };
        let keys = slab_keys(&self.devices);
        for i in 0..keys.len()
            invariant
                bound == (match after {
                    Some(slot) => slot as int,
                    None => -1,
                }),
                forall|j: int, k: int| 0 <= j < k < keys@.len() ==> keys@[j] < keys@[k],
                forall|key: usize|
                    keys@.contains(key) <==> crate::slots::slab_entries(self.devices).contains_key(
                        key,
                    ),
                forall|j: int| 0 <= j < i ==> #[trigger] keys@[j] <= bound,
        {
            let slot: usize = keys[i];
            let behind = match after {
                Some(passed) => slot > passed,
                None => true,
            };
            if behind {
                assert(keys@.contains(slot));
                assert forall|other: usize| #[trigger]
                    self@.devices.contains_key(other) && bound < other implies slot <= other by {
                    assert(keys@.contains(other));
                    let k = choose|k: int| 0 <= k < keys@.len() && keys@[k] == other;
                    assert(k >= i);
                }
                assert(crate::activity::is_first_after(self@.devices, bound, slot));
                let device = slab_index(&self.devices, slot);
                if device.ready_to_remove {
                    return WaitAction::Ready;
                }
                return WaitAction::PollDevice { slot };
            }
        }
        assert forall|slot: usize| #[trigger] self@.devices.contains_key(slot) implies slot
            <= bound by {
            assert(keys@.contains(slot));
        }
        WaitAction::PollBus
    }

    /// Processes any waiting activity: one step of it.
    ///
    /// The devices that wait to be removed are taken out of their slots, one at a
    /// time. Then the waiting buses are taken off the list, the last first, until
    /// one cannot be relayed.
    pub fn process(&mut self, event: ProcessEvent) -> (action: ProcessAction)
        requires
            old(self)@.wf(),
            crate::activity::process_answers(old(self)@, event),
        ensures
            final(self)@.wf(),
            crate::activity::process_step(old(self)@, event, final(self)@, action),
            match action {
                ProcessAction::RemoveDevice { .. } => true,
                ProcessAction::RelayBus(_) | ProcessAction::Failed => {
                    crate::activity::no_device_ready(final(self)@.devices)
                },
                ProcessAction::Done => !crate::activity::has_activity(final(self)@),
            },
            action is Failed <==> event == ProcessEvent::BusFailed,
            event == ProcessEvent::BusFailed ==> final(self)@ == old(self)@,
            match action {
                ProcessAction::RemoveDevice { slot, device } => {
                    &&& old(self)@.devices.contains_key(slot)
                    &&& old(self)@.devices[slot].ready_to_remove
                    &&& device == old(self)@.devices[slot]
                    &&& final(self)@ == (RelayState {
                        devices: old(self)@.devices.remove(slot),
                        vacated: old(self)@.vacated.push(slot),
                        ..old(self)@
                    })
                },
                ProcessAction::RelayBus(offer) => {
                    &&& old(self)@.new_buses.len() > 0
                    &&& offer == old(self)@.new_buses.last()
                    &&& final(self)@ == (RelayState {
                        new_buses: old(self)@.new_buses.drop_last(),
                        ..old(self)@
                    })
                },
                ProcessAction::Done => old(self)@.new_buses.len() == 0 && final(self)@ == old(
                    self,
                )@,
                ProcessAction::Failed => true,
            },
    {
        match event {
            ProcessEvent::Begin | ProcessEvent::DeviceRemoved => match self.first_ready() {
                Some(slot) => {
                    proof {
                        crate::slots::lemma_remove_keeps_slots(
                            self@.devices,
                            self@.vacated,
                            slot,
                        );
                    }
                    let device = slab_remove(&mut self.devices, slot);
                    ProcessAction::RemoveDevice { slot, device }
                },
                None => self.next_bus(),
            },
            ProcessEvent::BusRelayed => self.next_bus(),
            ProcessEvent::BusFailed => ProcessAction::Failed,
        }
    }

    /// The first slot whose device waits to be removed.
    fn first_ready(&self) -> (found: Option<usize>)
        ensures
            match found {
                Some(slot) => crate::activity::is_first_ready(self@.devices, slot),
                None => crate::activity::no_device_ready(self@.devices),
            },
    {
        let keys = slab_keys(&self.devices);
        for i in 0..keys.len()
            invariant
                forall|j: int, k: int| 0 <= j < k < keys@.len() ==> keys@[j] < keys@[k],
                forall|key: usize|
                    keys@.contains(key) <==> crate::slots::slab_entries(self.devices).contains_key(
                        key,
                    ),
                forall|j: int|
                    0 <= j < i ==> !crate::slots::slab_entries(
                        self.devices,
                    )[#[trigger] keys@[j]].ready_to_remove,
        {
            let slot: usize = keys[i];
            assert(keys@.contains(slot));
            let device = slab_index(&self.devices, slot);
            if device.ready_to_remove {
                assert forall|other: usize| #[trigger]
                    crate::activity::device_ready(self@.devices, other) implies slot <= other by {
                    assert(keys@.contains(other));
                    let k = choose|k: int| 0 <= k < keys@.len() && keys@[k] == other;
                    assert(k >= i);
                }
                return Some(slot);
            }
        }
        assert forall|slot: usize| !#[trigger] crate::activity::device_ready(
            self@.devices,
            slot,
        ) by {
            if self@.devices.contains_key(slot) {
                assert(keys@.contains(slot));
            }
        }
        None
    }

    /// Takes the next bus off the list.
    fn next_bus(&mut self) -> (action: ProcessAction)
        ensures
            crate::activity::process_next_bus(old(self)@, final(self)@, action),
    {
        match self.new_buses.pop() {
            Some(offer) => ProcessAction::RelayBus(offer),
            None => ProcessAction::Done,
        }
    }
}

} // verus!
