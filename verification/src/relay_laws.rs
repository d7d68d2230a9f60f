//! What holds of a relay over several of its operations.
use vstd::prelude::*;

verus! {

use crate::activity::without_device;
use crate::allowed::{device_matches, list_allows};
use crate::bus::{
    bus_answers, bus_flow_wf, bus_name, bus_next, device_name, with_device, BusError, BusFlow,
    BusOutcome, BusReply, BusStage, BusStep, RING_OFFSET_IN_PAGES, RING_PAGES,
};
use crate::hwid::HardwareIds;
use crate::mmio::{window_fits, window_start};
use crate::relay::RelayState;
use crate::slots::slots_used;

/// The devices of a relay have MMIO windows of their own: each lies within the
/// MMIO space, and no two have an address in common.
pub proof fn law_devices_have_own_windows(state: RelayState)
    requires
        state.wf(),
    ensures
        forall|slot: usize| #[trigger]
            state.devices.contains_key(slot) ==> state.mmio_range.start <= window_start(
                state.mmio_range,
                state.mmio_per_device,
                slot as nat,
            ) && window_start(state.mmio_range, state.mmio_per_device, slot as nat)
                + state.mmio_per_device <= state.mmio_range.end,
        forall|a: usize, b: usize|
            #![trigger state.devices.contains_key(a), state.devices.contains_key(b)]
            state.devices.contains_key(a) && state.devices.contains_key(b) && a < b
                ==> window_start(state.mmio_range, state.mmio_per_device, a as nat)
                + state.mmio_per_device <= window_start(
                state.mmio_range,
                state.mmio_per_device,
                b as nat,
            ),
{
    let size = state.mmio_per_device as int;
    assert forall|slot: usize| #[trigger] state.devices.contains_key(slot) implies window_fits(
        state.mmio_range,
        state.mmio_per_device,
        slot as nat,
    ) by {
        vstd::arithmetic::mul::lemma_mul_inequality(
            slot + 1,
            slots_used(state.devices, state.vacated) as int,
            size,
        );
    }
    assert forall|slot: usize| #[trigger] state.devices.contains_key(slot) implies
        state.mmio_range.start <= window_start(
        state.mmio_range,
        state.mmio_per_device,
        slot as nat,
    ) && window_start(state.mmio_range, state.mmio_per_device, slot as nat)
        + state.mmio_per_device <= state.mmio_range.end by {
        crate::mmio::law_windows_are_inside(
            state.mmio_range,
            state.mmio_per_device,
            slot as nat,
        );
    }
    assert forall|a: usize, b: usize|
        #![trigger state.devices.contains_key(a), state.devices.contains_key(b)]
        state.devices.contains_key(a) && state.devices.contains_key(b) && a < b implies
        window_start(state.mmio_range, state.mmio_per_device, a as nat) + state.mmio_per_device
        <= window_start(state.mmio_range, state.mmio_per_device, b as nat) by {
        vstd::arithmetic::mul::lemma_mul_inequality(a + 1, b as int, size);
        vstd::arithmetic::mul::lemma_mul_is_distributive_add_other_way(size, a as int, 1);
    }
}

/// A bus is refused for want of MMIO space only where the windows of the devices
/// leave no room for another.
pub proof fn law_space_is_used_up(state: RelayState)
    requires
        state.wf(),
    ensures
        window_fits(state.mmio_range, state.mmio_per_device, state.next_slot()) <==> (
        state.devices.dom().len() + 1) * state.mmio_per_device <= state.mmio_range.end
            - state.mmio_range.start,
{
    if state.vacated.len() > 0 {
        let size = state.mmio_per_device as int;
        let used = slots_used(state.devices, state.vacated) as int;
        assert(state.vacated.contains(state.vacated.last()));
        vstd::arithmetic::mul::lemma_mul_inequality(state.next_slot() as int + 1, used, size);
        vstd::arithmetic::mul::lemma_mul_inequality(state.devices.dom().len() as int + 1, used, size);
    }
}

/// The slot of a removed device, and with it its MMIO window, is the next to be
/// used.
pub proof fn law_removed_slot_is_used_next(state: RelayState, slot: usize)
    requires
        state.devices.contains_key(slot),
    ensures
        without_device(state, slot).next_slot() == slot,
{
}

/// Removing the device that was relayed last brings back the devices and the next
/// slot that there were before, and where it had taken a vacated slot, the whole
/// relay.
pub proof fn law_removal_undoes_relaying(state: RelayState, flow: BusFlow)
    requires
        state.wf(),
        flow.slot == state.next_slot(),
    ensures
        without_device(with_device(state, flow), flow.slot).devices == state.devices,
        without_device(with_device(state, flow), flow.slot).next_slot() == state.next_slot(),
        state.vacated.len() > 0 ==> without_device(with_device(state, flow), flow.slot) == state,
{
    crate::slots::lemma_vacant_slot_is_free(state.devices, state.vacated);
    let back = without_device(with_device(state, flow), flow.slot);
    assert(back.devices =~= state.devices);
    if state.vacated.len() > 0 {
        assert(back.vacated =~= state.vacated);
    }
}

/// The device of a bus can take the next slot, where its window fits: the slots
/// stay in order, with a window for each.
pub proof fn lemma_with_device_wf(state: RelayState, flow: BusFlow)
    requires
        state.wf(),
        flow.slot == state.next_slot(),
        window_fits(state.mmio_range, state.mmio_per_device, flow.slot as nat),
    ensures
        with_device(state, flow).wf(),
{
    crate::slots::lemma_insert_keeps_slots(
        state.devices,
        state.vacated,
        flow.slot,
        with_device(state, flow).devices[flow.slot],
    );
}

/// What is replied to each request of relaying a bus, were it made. A request
/// without a result fails where its field is false.
pub struct BusReplies {
    pub memory_access: bool,
    pub channel: bool,
    pub devices: Option<Seq<HardwareIds>>,
    pub init: bool,
    pub startup_flow: bool,
    pub add_device: bool,
    pub add_bus: bool,
}

/// The reply to a request without a result.
pub open spec fn unit_reply(succeeds: bool) -> BusReply {
    if succeeds {
        BusReply::Completed
    } else {
        BusReply::Failed
    }
}

impl BusReplies {
    /// The reply to the request of a stage.
    pub open spec fn reply(self, stage: BusStage) -> BusReply {
        match stage {
            BusStage::MemoryAccess => unit_reply(self.memory_access),
            BusStage::Channel => unit_reply(self.channel),
            BusStage::Connect => match self.devices {
                Some(devices) => BusReply::Connected(devices),
                None => BusReply::Failed,
            },
            BusStage::Init => unit_reply(self.init),
            BusStage::MockFlow => BusReply::Completed,
            BusStage::StartupFlow => unit_reply(self.startup_flow),
            BusStage::AddDevice => unit_reply(self.add_device),
            BusStage::AddBus => unit_reply(self.add_bus),
            BusStage::StartUnits => BusReply::Completed,
            BusStage::Finished => BusReply::Completed,
        }
    }

    /// Whether the bus has a device, and its first one is allowed.
    pub open spec fn device_is_allowed(self, state: RelayState) -> bool {
        &&& self.devices is Some
        &&& self.devices->0.len() > 0
        &&& list_allows(state.allowed_devices, self.devices->0[0])
    }
}

/// How many requests the relaying of a bus has left at most.
pub open spec fn requests_left(stage: BusStage) -> nat {
    match stage {
        BusStage::MemoryAccess => 8,
        BusStage::Channel => 7,
        BusStage::Connect => 6,
        BusStage::Init => 5,
        BusStage::MockFlow => 4,
        BusStage::StartupFlow => 4,
        BusStage::AddDevice => 3,
        BusStage::AddBus => 2,
        BusStage::StartUnits => 1,
        BusStage::Finished => 0,
    }
}

/// Everything that relaying a bus does from `flow` on, once it has done `step`,
/// and what the relay is afterwards.
pub open spec fn bus_run(
    replies: BusReplies,
    state: RelayState,
    flow: BusFlow,
    step: BusStep,
) -> (Seq<BusStep>, RelayState)
    decreases requests_left(flow.stage),
{
    if flow.stage is Finished {
        (seq![step], state)
    } else {
        let (next_state, next_flow, next_step) = bus_next(
            state,
            flow,
            replies.reply(flow.stage),
        );
        let (steps, end) = bus_run(replies, next_state, next_flow, next_step);
        (seq![step] + steps, end)
    }
}

/// Everything that relaying a bus does, from its first request on.
pub open spec fn bus_trace(replies: BusReplies, state: RelayState, flow: BusFlow) -> (
    Seq<BusStep>,
    RelayState,
) {
    bus_run(replies, state, flow, BusStep::CreateMemoryAccess { gpa: flow.mmio_gpa })
}

/// How relaying a bus ends.
pub open spec fn bus_outcome(replies: BusReplies, state: RelayState, flow: BusFlow) -> BusOutcome {
    if !replies.memory_access {
        BusOutcome::Failed(BusError::MemoryAccess)
    } else if !replies.channel {
        BusOutcome::Failed(BusError::Channel)
    } else if replies.devices is None {
        BusOutcome::Failed(BusError::Connect)
    } else if replies.devices->0.len() == 0 {
        BusOutcome::NoDevice
    } else if !replies.device_is_allowed(state) {
        BusOutcome::NotAllowed
    } else if !replies.init {
        BusOutcome::Failed(BusError::Init)
    } else if !state.options.test_tdisp_flow && state.options.startup_tdisp_flow
        && !replies.startup_flow {
        BusOutcome::Failed(BusError::StartupFlow)
    } else if !replies.add_device {
        BusOutcome::Failed(BusError::AddDevice)
    } else if !replies.add_bus {
        BusOutcome::Failed(BusError::AddBus)
    } else {
        BusOutcome::Relayed { slot: flow.slot }
    }
}

/// The requests of relaying a bus, in their order.
pub open spec fn bus_requests(state: RelayState, flow: BusFlow) -> Seq<BusStep> {
    seq![
        BusStep::CreateMemoryAccess { gpa: flow.mmio_gpa },
        BusStep::OpenChannel {
            handle: flow.offer.handle,
            ring_pages: RING_PAGES,
            ring_offset_in_pages: RING_OFFSET_IN_PAGES,
        },
        BusStep::Connect,
        BusStep::InitDevice,
    ] + tdisp_requests(state, flow) + seq![
        BusStep::AddDevice { name: device_name(flow.offer.instance_text@) },
        BusStep::AddBus {
            name: bus_name(flow.offer.instance_text@),
            instance_id: flow.offer.instance_id,
            vtom: state.vtom,
        },
        BusStep::StartUnits,
    ]
}

/// The TDISP flow that the options ask for: the mock flow, or else the startup
/// sequence, or else none.
pub open spec fn tdisp_requests(state: RelayState, flow: BusFlow) -> Seq<BusStep> {
    if state.options.test_tdisp_flow {
        seq![BusStep::RunMockFlow]
    } else if state.options.startup_tdisp_flow {
        seq![
            BusStep::RunStartupFlow {
                mmio_gpa: flow.mmio_gpa,
                mmio_size: state.mmio_per_device,
            },
        ]
    } else {
        Seq::empty()
    }
}

/// How many requests relaying a bus has made when it ends.
pub open spec fn requests_made(state: RelayState, flow: BusFlow, outcome: BusOutcome) -> int {
    let tdisp = tdisp_requests(state, flow).len() as int;
    match outcome {
        BusOutcome::Relayed { .. } => tdisp + 7,
        BusOutcome::NoDevice | BusOutcome::NotAllowed => 3,
        BusOutcome::Failed(error) => match error {
            BusError::NoMmioSpace => 0,
            BusError::MemoryAccess => 1,
            BusError::Channel => 2,
            BusError::Connect => 3,
            BusError::Init => 4,
            BusError::StartupFlow => 5,
            BusError::AddDevice => tdisp + 5,
            BusError::AddBus => tdisp + 6,
        },
    }
}

/// The outcome of relaying a bus: the first reply that it cannot do without
/// decides, and the requests up to that one are made, each once and in their
/// order. The TDISP flow that the options ask for comes before the device is
/// shown to the guest. The relay changes only where the device is relayed, and
/// then only in that the device has its slot.
pub proof fn law_bus_outcome(replies: BusReplies, state: RelayState, flow: BusFlow)
    requires
        flow.stage is MemoryAccess,
    ensures
        bus_trace(replies, state, flow).0 == bus_requests(state, flow).take(
            requests_made(state, flow, bus_outcome(replies, state, flow)),
        ).push(BusStep::Finish(bus_outcome(replies, state, flow))),
        bus_trace(replies, state, flow).1 == if bus_outcome(replies, state, flow) is Relayed {
            with_device(state, flow)
        } else {
            state
        },
{
    reveal_with_fuel(bus_run, 9);
    assert(bus_trace(replies, state, flow).0 =~= bus_requests(state, flow).take(
        requests_made(state, flow, bus_outcome(replies, state, flow)),
    ).push(BusStep::Finish(bus_outcome(replies, state, flow))));
}

/// A device that is not allowed is left alone: it is neither initialized nor shown
/// to the guest, and the relay stays as it is.
pub proof fn law_refused_device_is_left_alone(
    replies: BusReplies,
    state: RelayState,
    flow: BusFlow,
)
    requires
        flow.stage is MemoryAccess,
        !replies.device_is_allowed(state),
    ensures
        bus_trace(replies, state, flow).1 == state,
        forall|i: int|
            0 <= i < bus_trace(replies, state, flow).0.len() ==> match #[trigger] bus_trace(
                replies,
                state,
                flow,
            ).0[i] {
                BusStep::CreateMemoryAccess { .. } | BusStep::OpenChannel { .. } | BusStep::Connect
                | BusStep::Finish(_) => true,
                _ => false,
            },
{
    reveal_with_fuel(bus_run, 5);
}

/// Whether a step is in order, given the replies.
pub open spec fn step_in_order(
    replies: BusReplies,
    state: RelayState,
    flow: BusFlow,
    step: BusStep,
) -> bool {
    match step {
        BusStep::CreateMemoryAccess { gpa } => gpa == flow.mmio_gpa,
        BusStep::OpenChannel { handle, ring_pages, ring_offset_in_pages } => {
            &&& replies.memory_access
            &&& handle == flow.offer.handle
            &&& ring_pages == RING_PAGES
            &&& ring_offset_in_pages == RING_OFFSET_IN_PAGES
        },
        BusStep::Connect => replies.channel,
        BusStep::InitDevice => replies.device_is_allowed(state),
        BusStep::RunMockFlow => replies.init && state.options.test_tdisp_flow,
        BusStep::RunStartupFlow { mmio_gpa, mmio_size } => {
            &&& replies.init
            &&& !state.options.test_tdisp_flow
            &&& state.options.startup_tdisp_flow
            &&& mmio_gpa == flow.mmio_gpa
            &&& mmio_size == state.mmio_per_device
        },
        BusStep::AddDevice { name } => {
            &&& replies.device_is_allowed(state)
            &&& replies.init
            &&& state.options.startup_tdisp_flow && !state.options.test_tdisp_flow
                ==> replies.startup_flow
            &&& name == device_name(flow.offer.instance_text@)
        },
        BusStep::AddBus { name, instance_id, vtom } => {
            &&& replies.add_device
            &&& name == bus_name(flow.offer.instance_text@)
            &&& instance_id == flow.offer.instance_id
            &&& vtom == state.vtom
        },
        BusStep::StartUnits => replies.add_bus,
        BusStep::Finish(_) => true,
    }
}

/// Every step of relaying a bus is in order: a device is initialized only where it
/// is allowed, and shown to the guest only once it is initialized and, where the
/// options ask for it, has run its startup sequence; its bus follows the device.
pub proof fn law_bus_order(replies: BusReplies, state: RelayState, flow: BusFlow)
    requires
        flow.stage is MemoryAccess,
    ensures
        forall|i: int|
            0 <= i < bus_trace(replies, state, flow).0.len() ==> step_in_order(
                replies,
                state,
                flow,
                #[trigger] bus_trace(replies, state, flow).0[i],
            ),
{
    reveal_with_fuel(bus_run, 9);
}

/// Relaying a bus is always given a reply that it accepts, and finds the slot that
/// it chose still vacant at each request.
pub proof fn law_bus_slot_stays_vacant(replies: BusReplies, state: RelayState, flow: BusFlow)
    requires
        state.wf(),
        bus_flow_wf(state, flow),
        !(flow.stage is Finished),
    ensures
        bus_answers(flow.stage, replies.reply(flow.stage)),
        bus_flow_wf(
            bus_next(state, flow, replies.reply(flow.stage)).0,
            bus_next(state, flow, replies.reply(flow.stage)).1,
        ),
        requests_left(bus_next(state, flow, replies.reply(flow.stage)).1.stage) < requests_left(
            flow.stage,
        ),
{
}

/// Relaying a bus leaves every device that is relayed already in its slot, as it
/// is.
pub proof fn law_bus_keeps_devices(replies: BusReplies, state: RelayState, flow: BusFlow)
    requires
        state.wf(),
        bus_flow_wf(state, flow),
        flow.stage is MemoryAccess,
    ensures
        state.devices.submap_of(bus_trace(replies, state, flow).1.devices),
{
    law_bus_outcome(replies, state, flow);
    crate::slots::lemma_vacant_slot_is_free(state.devices, state.vacated);
}

/// The next device has the slot that was given up last, of those not used again;
/// where there is none, it has the slot after those of all the devices.
pub proof fn law_next_slot(state: RelayState)
    ensures
        state.vacated.len() > 0 ==> state.next_slot() == state.vacated[state.vacated.len() - 1],
        state.vacated.len() == 0 ==> state.next_slot() == state.devices.dom().len(),
{
}

/// A relayed device changes a relay only in its own slot.
pub proof fn law_device_takes_its_slot(state: RelayState, flow: BusFlow)
    ensures
        with_device(state, flow).devices.contains_key(flow.slot),
        with_device(state, flow).devices[flow.slot].bus_instance_id == flow.offer.instance_id,
        !with_device(state, flow).devices[flow.slot].ready_to_remove,
        with_device(state, flow).devices.remove(flow.slot) == state.devices.remove(flow.slot),
        with_device(state, flow) == (RelayState {
            devices: with_device(state, flow).devices,
            vacated: with_device(state, flow).vacated,
            ..state
        }),
{
    assert(with_device(state, flow).devices.remove(flow.slot) =~= state.devices.remove(flow.slot));
}

/// A bus is relayed where every request that the options ask for succeeds and the
/// first device of the bus is allowed, and nowhere else. It is passed over where it
/// has no device or its first is not allowed. Otherwise the first request that
/// failed is named.
pub proof fn law_bus_ends_at_what_is_wrong(replies: BusReplies, state: RelayState, flow: BusFlow)
    requires
        flow.stage is MemoryAccess,
    ensures
        ({
            let last = bus_trace(replies, state, flow).0.last();
            let open = replies.memory_access && replies.channel;
            let found = open && replies.devices is Some && replies.devices->0.len() > 0;
            let allowed = found && (state.allowed_devices.len() == 0 || exists|i: int|
                0 <= i < state.allowed_devices.len() && device_matches(
                    #[trigger] state.allowed_devices[i],
                    replies.devices->0[0],
                ));
            let ran = allowed && replies.init && (state.options.test_tdisp_flow
                || !state.options.startup_tdisp_flow || replies.startup_flow);
            &&& last == BusStep::Finish(BusOutcome::Relayed { slot: flow.slot }) <==> ran
                && replies.add_device && replies.add_bus
            &&& last == BusStep::Finish(BusOutcome::NoDevice) <==> open && replies.devices is Some
                && replies.devices->0.len() == 0
            &&& last == BusStep::Finish(BusOutcome::NotAllowed) <==> found && !allowed
            &&& last == BusStep::Finish(BusOutcome::Failed(BusError::MemoryAccess))
                <==> !replies.memory_access
            &&& last == BusStep::Finish(BusOutcome::Failed(BusError::Channel))
                <==> replies.memory_access && !replies.channel
            &&& last == BusStep::Finish(BusOutcome::Failed(BusError::Connect)) <==> open
                && replies.devices is None
            &&& last == BusStep::Finish(BusOutcome::Failed(BusError::Init)) <==> allowed
                && !replies.init
            &&& last == BusStep::Finish(BusOutcome::Failed(BusError::StartupFlow)) <==> allowed
                && replies.init && !ran
            &&& last == BusStep::Finish(BusOutcome::Failed(BusError::AddDevice)) <==> ran
                && !replies.add_device
            &&& last == BusStep::Finish(BusOutcome::Failed(BusError::AddBus)) <==> ran
                && replies.add_device && !replies.add_bus
        }),
{
    law_bus_outcome(replies, state, flow);
}

/// Where a bus is relayed, its device is in the slot, with the instance ID of the
/// bus and not marked for removal, and every other slot is as it was. Where it is
/// not, the relay is as it was.
pub proof fn law_bus_run_changes_the_slot_alone(
    replies: BusReplies,
    state: RelayState,
    flow: BusFlow,
)
    requires
        flow.stage is MemoryAccess,
    ensures
        ({
            let (steps, end) = bus_trace(replies, state, flow);
            let relayed = steps.last() == BusStep::Finish(BusOutcome::Relayed { slot: flow.slot });
            &&& !relayed ==> end == state
            &&& relayed ==> {
                &&& end.devices.contains_key(flow.slot)
                &&& end.devices[flow.slot].bus_instance_id == flow.offer.instance_id
                &&& !end.devices[flow.slot].ready_to_remove
                &&& end.devices.remove(flow.slot) == state.devices.remove(flow.slot)
            }
        }),
{
    law_bus_outcome(replies, state, flow);
    law_device_takes_its_slot(state, flow);
}

} // verus!
