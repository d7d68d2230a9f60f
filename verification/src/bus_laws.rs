//! What each step of relaying a bus does, said of the step's own inputs and
//! results.
use vstd::prelude::*;

verus! {

use crate::bus::{
    bus_answers, bus_context, bus_initial, bus_name, bus_next, device_name, BusAction, BusError,
    BusEvent, BusFlow, BusOutcome, BusReply, BusStage, BusStep, OfferInfo,
};
use crate::hwid::HardwareIds;
use crate::relay::RelayState;
use crate::relay_laws::{bus_trace, BusReplies};

/// Relaying a bus begins with the very offer that it is for, with the next slot and
/// with the address at which that slot's window starts.
pub proof fn law_bus_begins_with_the_offer(state: RelayState, offer: OfferInfo)
    requires
        state.next_slot() <= usize::MAX,
        (state.next_slot() + 1) * state.mmio_per_device <= state.mmio_range.end
            - state.mmio_range.start,
    ensures
        bus_initial(state, offer).offer == offer,
        bus_initial(state, offer).slot == state.next_slot(),
        bus_initial(state, offer).mmio_gpa == state.mmio_range.start + state.next_slot()
            * state.mmio_per_device,
        bus_initial(state, offer).stage == BusStage::MemoryAccess,
{
    vstd::arithmetic::mul::lemma_mul_is_distributive_add_other_way(
        state.mmio_per_device as int,
        state.next_slot() as int,
        1,
    );
    vstd::arithmetic::mul::lemma_mul_nonnegative(
        state.next_slot() as int,
        state.mmio_per_device as int,
    );
}

/// No step of relaying a bus loses or exchanges the offer, the slot or the window's
/// address.
pub proof fn law_bus_carries_the_offer(state: RelayState, flow: BusFlow, reply: BusReply)
    ensures
        bus_next(state, flow, reply).1.offer == flow.offer,
        bus_next(state, flow, reply).1.slot == flow.slot,
        bus_next(state, flow, reply).1.mmio_gpa == flow.mmio_gpa,
{
}

/// The channel that relaying a bus opens is the one that was offered, with twenty
/// pages of ring buffers, ten for each. It is opened wherever the MMIO window is
/// accessible.
pub proof fn law_bus_opens_the_offered_channel(
    replies: BusReplies,
    state: RelayState,
    offer: OfferInfo,
)
    ensures
        forall|i: int|
            0 <= i < bus_trace(replies, state, bus_initial(state, offer)).0.len() ==> match (
            #[trigger] bus_trace(replies, state, bus_initial(state, offer)).0[i]) {
                BusStep::OpenChannel { handle, ring_pages, ring_offset_in_pages } => handle
                    == offer.handle && ring_pages == 20 && ring_offset_in_pages == 10,
                _ => true,
            },
        replies.memory_access ==> {
            &&& bus_trace(replies, state, bus_initial(state, offer)).0.len() > 1
            &&& bus_trace(replies, state, bus_initial(state, offer)).0[1] is OpenChannel
        },
{
    reveal_with_fuel(crate::relay_laws::bus_run, 9);
}

/// What a request of relaying a bus hands over comes from the bus that is relayed
/// and from the relay: the channel that was offered; the window of the slot; names
/// that end in the whole text of the instance ID; the instance ID; the top of
/// memory. The slot that is reported is the one that was chosen.
pub proof fn law_bus_requests_hand_over(state: RelayState, flow: BusFlow, reply: BusReply)
    ensures
        match bus_next(state, flow, reply).2 {
            BusStep::CreateMemoryAccess { .. } => false,
            BusStep::OpenChannel { handle, ring_pages, ring_offset_in_pages } => {
                &&& handle == flow.offer.handle
                &&& ring_pages == 20
                &&& ring_offset_in_pages == 10
            },
            BusStep::RunStartupFlow { mmio_gpa, mmio_size } => {
                &&& mmio_gpa == flow.mmio_gpa
                &&& mmio_size == state.mmio_per_device
            },
            BusStep::AddDevice { name } => name == "assigned_device:vpci-"@
                + flow.offer.instance_text@,
            BusStep::AddBus { name, instance_id, vtom } => {
                &&& name == "vpci:"@ + flow.offer.instance_text@
                &&& instance_id == flow.offer.instance_id
                &&& vtom == state.vtom
            },
            BusStep::Finish(BusOutcome::Relayed { slot }) => slot == flow.slot,
            _ => true,
        },
{
}

/// A request that fails ends the relaying of the bus with the error that is named
/// after it, and leaves the relay as it was.
pub proof fn law_bus_failed_request_ends(state: RelayState, flow: BusFlow)
    requires
        !(flow.stage is MockFlow),
        !(flow.stage is StartUnits),
        !(flow.stage is Finished),
    ensures
        bus_next(state, flow, BusReply::Failed).0 == state,
        bus_next(state, flow, BusReply::Failed).1.stage == BusStage::Finished,
        match flow.stage {
            BusStage::MemoryAccess => bus_next(state, flow, BusReply::Failed).2 == BusStep::Finish(
                BusOutcome::Failed(BusError::MemoryAccess),
            ),
            BusStage::Channel => bus_next(state, flow, BusReply::Failed).2 == BusStep::Finish(
                BusOutcome::Failed(BusError::Channel),
            ),
            BusStage::Connect => bus_next(state, flow, BusReply::Failed).2 == BusStep::Finish(
                BusOutcome::Failed(BusError::Connect),
            ),
            BusStage::Init => bus_next(state, flow, BusReply::Failed).2 == BusStep::Finish(
                BusOutcome::Failed(BusError::Init),
            ),
            BusStage::StartupFlow => bus_next(state, flow, BusReply::Failed).2 == BusStep::Finish(
                BusOutcome::Failed(BusError::StartupFlow),
            ),
            BusStage::AddDevice => bus_next(state, flow, BusReply::Failed).2 == BusStep::Finish(
                BusOutcome::Failed(BusError::AddDevice),
            ),
            BusStage::AddBus => bus_next(state, flow, BusReply::Failed).2 == BusStep::Finish(
                BusOutcome::Failed(BusError::AddBus),
            ),
            _ => false,
        },
{
}

/// A request that succeeds is followed by the next one: after the window come the
/// channel and the bus; after the device is initialized, its TDISP flow where the
/// options ask for one, the mock flow where they ask for both; then the device and
/// its bus are added to the guest's chipset, and both are started. Only after the
/// last is the device relayed.
pub proof fn law_bus_success_goes_on(state: RelayState, flow: BusFlow)
    requires
        !(flow.stage is Connect),
        !(flow.stage is Finished),
    ensures
        ({
            let (_, next, step) = bus_next(state, flow, BusReply::Completed);
            match flow.stage {
                BusStage::MemoryAccess => next.stage == BusStage::Channel && step is OpenChannel,
                BusStage::Channel => next.stage == BusStage::Connect && step is Connect,
                BusStage::Connect => false,
                BusStage::Init => {
                    &&& state.options.test_tdisp_flow ==> next.stage == BusStage::MockFlow
                        && step is RunMockFlow
                    &&& !state.options.test_tdisp_flow && state.options.startup_tdisp_flow
                        ==> next.stage == BusStage::StartupFlow && step is RunStartupFlow
                    &&& !state.options.test_tdisp_flow && !state.options.startup_tdisp_flow
                        ==> next.stage == BusStage::AddDevice && step is AddDevice
                },
                BusStage::MockFlow => next.stage == BusStage::AddDevice && step is AddDevice,
                BusStage::StartupFlow => next.stage == BusStage::AddDevice && step is AddDevice,
                BusStage::AddDevice => next.stage == BusStage::AddBus && step is AddBus,
                BusStage::AddBus => next.stage == BusStage::StartUnits && step is StartUnits,
                BusStage::StartUnits => next.stage == BusStage::Finished && step
                    == BusStep::Finish(BusOutcome::Relayed { slot: flow.slot }),
                BusStage::Finished => false,
            }
        }),
{
}

/// A bus is passed over where it has no device, and where there are descriptions of
/// allowed devices and each has a field that the first device does not match.
/// Otherwise the first device is initialized. No other device of the bus matters.
pub proof fn law_bus_filters_by_the_first_device(
    state: RelayState,
    flow: BusFlow,
    devices: Seq<HardwareIds>,
)
    requires
        flow.stage == BusStage::Connect,
    ensures
        ({
            let (after, next, step) = bus_next(state, flow, BusReply::Connected(devices));
            let list = state.allowed_devices;
            &&& after == state
            &&& devices.len() == 0 ==> next.stage == BusStage::Finished && step
                == BusStep::Finish(BusOutcome::NoDevice)
            &&& devices.len() > 0 && (list.len() == 0 || exists|i: int|
                #![trigger list[i]]
                0 <= i < list.len() && {
                    let (dev, hw) = (list[i], devices[0]);
                    &&& dev.vendor_id is None || dev.vendor_id == Some(hw.vendor_id)
                    &&& dev.device_id is None || dev.device_id == Some(hw.device_id)
                    &&& dev.revision_id is None || dev.revision_id == Some(hw.revision_id)
                    &&& dev.prog_if is None || dev.prog_if == Some(hw.prog_if)
                    &&& dev.sub_class is None || dev.sub_class == Some(hw.sub_class)
                    &&& dev.base_class is None || dev.base_class == Some(hw.base_class)
                    &&& dev.sub_vendor_id is None || dev.sub_vendor_id == Some(
                        hw.type0_sub_vendor_id,
                    )
                    &&& dev.sub_system_id is None || dev.sub_system_id == Some(
                        hw.type0_sub_system_id,
                    )
                }) ==> next.stage == BusStage::Init && step == BusStep::InitDevice
            &&& devices.len() > 0 && list.len() > 0 && (forall|i: int|
                #![trigger list[i]]
                0 <= i < list.len() ==> {
                    let (dev, hw) = (list[i], devices[0]);
                    ||| dev.vendor_id is Some && dev.vendor_id != Some(hw.vendor_id)
                    ||| dev.device_id is Some && dev.device_id != Some(hw.device_id)
                    ||| dev.revision_id is Some && dev.revision_id != Some(hw.revision_id)
                    ||| dev.prog_if is Some && dev.prog_if != Some(hw.prog_if)
                    ||| dev.sub_class is Some && dev.sub_class != Some(hw.sub_class)
                    ||| dev.base_class is Some && dev.base_class != Some(hw.base_class)
                    ||| dev.sub_vendor_id is Some && dev.sub_vendor_id != Some(
                        hw.type0_sub_vendor_id,
                    )
                    ||| dev.sub_system_id is Some && dev.sub_system_id != Some(
                        hw.type0_sub_system_id,
                    )
                }) ==> next.stage == BusStage::Finished && step == BusStep::Finish(
                BusOutcome::NotAllowed,
            )
        }),
{
    let list = state.allowed_devices;
    if devices.len() > 0 {
        let hw = devices[0];
        crate::allowed::law_list_allows(list, hw);
        if list.len() > 0 {
            assert forall|i: int| 0 <= i < list.len() implies crate::allowed::device_matches(
                #[trigger] list[i],
                hw,
            ) == {
                let dev = list[i];
                &&& dev.vendor_id is None || dev.vendor_id == Some(hw.vendor_id)
                &&& dev.device_id is None || dev.device_id == Some(hw.device_id)
                &&& dev.revision_id is None || dev.revision_id == Some(hw.revision_id)
                &&& dev.prog_if is None || dev.prog_if == Some(hw.prog_if)
                &&& dev.sub_class is None || dev.sub_class == Some(hw.sub_class)
                &&& dev.base_class is None || dev.base_class == Some(hw.base_class)
                &&& dev.sub_vendor_id is None || dev.sub_vendor_id == Some(
                    hw.type0_sub_vendor_id,
                )
                &&& dev.sub_system_id is None || dev.sub_system_id == Some(
                    hw.type0_sub_system_id,
                )
            } by {}
        }
    }
}

/// The relay changes only as the bus of a device is in the guest's chipset: then
/// the device is in its slot, with the instance ID of its bus and not marked for
/// removal, and that slot is vacant no more. All else stays as it is, always.
pub proof fn law_bus_changes_the_slot_alone(state: RelayState, flow: BusFlow, reply: BusReply)
    ensures
        ({
            let after = bus_next(state, flow, reply).0;
            &&& after.new_buses == state.new_buses
            &&& after.allowed_devices == state.allowed_devices
            &&& after.mmio_range == state.mmio_range
            &&& after.mmio_per_device == state.mmio_per_device
            &&& after.vtom == state.vtom
            &&& after.options == state.options
            &&& flow.stage == BusStage::AddBus && !(reply is Failed) ==> {
                &&& after.devices.dom() == state.devices.dom().insert(flow.slot)
                &&& after.devices[flow.slot].bus_instance_id == flow.offer.instance_id
                &&& !after.devices[flow.slot].ready_to_remove
                &&& forall|slot: usize|
                    slot != flow.slot && state.devices.contains_key(slot) ==> (
                    #[trigger] after.devices[slot]) == state.devices[slot]
                &&& state.vacated.len() == 0 ==> after.vacated == state.vacated
                &&& state.vacated.len() > 0 ==> after.vacated == state.vacated.drop_last()
            }
            &&& !(flow.stage == BusStage::AddBus && !(reply is Failed)) ==> after == state
        }),
{
    let after = bus_next(state, flow, reply).0;
    if flow.stage == BusStage::AddBus && !(reply is Failed) {
        assert(after.devices.dom() =~= state.devices.dom().insert(flow.slot));
    }
}

/// The names of a device and of its bus end in the whole text of the instance ID,
/// behind a prefix each of its own.
pub proof fn law_names_end_in_the_instance(instance_text: Seq<char>)
    ensures
        device_name(instance_text).len() == 21 + instance_text.len(),
        device_name(instance_text).take(21) == "assigned_device:vpci-"@,
        forall|i: int|
            0 <= i < instance_text.len() ==> device_name(instance_text)[21 + i]
                == #[trigger] instance_text[i],
        bus_name(instance_text).len() == 5 + instance_text.len(),
        bus_name(instance_text).take(5) == "vpci:"@,
        forall|i: int|
            0 <= i < instance_text.len() ==> bus_name(instance_text)[5 + i]
                == #[trigger] instance_text[i],
{
    reveal_strlit("assigned_device:vpci-");
    reveal_strlit("vpci:");
    assert(device_name(instance_text).take(21) =~= "assigned_device:vpci-"@);
    assert(bus_name(instance_text).take(5) =~= "vpci:"@);
}

/// Buses with different instance IDs get different names, and so do their devices;
/// and no device has the name of a bus.
pub proof fn law_names_are_told_apart(a: Seq<char>, b: Seq<char>)
    ensures
        device_name(a) == device_name(b) ==> a == b,
        bus_name(a) == bus_name(b) ==> a == b,
        device_name(a) != bus_name(b),
{
    reveal_strlit("assigned_device:vpci-");
    reveal_strlit("vpci:");
    law_names_end_in_the_instance(a);
    law_names_end_in_the_instance(b);
    if device_name(a) == device_name(b) {
        assert forall|i: int| 0 <= i < a.len() implies a[i] == b[i] by {
            assert(device_name(a)[21 + i] == a[i]);
            assert(device_name(b)[21 + i] == b[i]);
        }
        assert(a =~= b);
    }
    if bus_name(a) == bus_name(b) {
        assert forall|i: int| 0 <= i < a.len() implies a[i] == b[i] by {
            assert(bus_name(a)[5 + i] == a[i]);
            assert(bus_name(b)[5 + i] == b[i]);
        }
        assert(a =~= b);
    }
    assert(device_name(a).take(21)[0] == 'a');
    assert(bus_name(b).take(5)[0] == 'v');
}

/// Every request can be told that it succeeded, and each that may fail that it
/// failed; connecting succeeds with any list of devices.
pub proof fn law_bus_takes_every_reply(devices: Seq<HardwareIds>)
    ensures
        bus_answers(BusStage::MemoryAccess, BusReply::Completed),
        bus_answers(BusStage::MemoryAccess, BusReply::Failed),
        bus_answers(BusStage::Channel, BusReply::Completed),
        bus_answers(BusStage::Channel, BusReply::Failed),
        bus_answers(BusStage::Connect, BusReply::Connected(devices)),
        bus_answers(BusStage::Connect, BusReply::Failed),
        bus_answers(BusStage::Init, BusReply::Completed),
        bus_answers(BusStage::Init, BusReply::Failed),
        bus_answers(BusStage::MockFlow, BusReply::Completed),
        bus_answers(BusStage::StartupFlow, BusReply::Completed),
        bus_answers(BusStage::StartupFlow, BusReply::Failed),
        bus_answers(BusStage::AddDevice, BusReply::Completed),
        bus_answers(BusStage::AddDevice, BusReply::Failed),
        bus_answers(BusStage::AddBus, BusReply::Completed),
        bus_answers(BusStage::AddBus, BusReply::Failed),
        bus_answers(BusStage::StartUnits, BusReply::Completed),
{
}

/// A step sees a reply as it was given.
pub proof fn law_bus_event_is_seen(event: BusEvent)
    ensures
        event@ is Completed <==> event is Completed,
        event@ is Failed <==> event is Failed,
        event matches BusEvent::Connected(devices) ==> event@ == BusReply::Connected(devices@),
{
}

/// A request is the one that a step names, with the values and the texts that it
/// names.
pub proof fn law_bus_action_is_seen(action: BusAction)
    ensures
        match action {
            BusAction::CreateMemoryAccess { gpa: a } => action@ matches
                BusStep::CreateMemoryAccess { gpa: b } && a == b,
            BusAction::OpenChannel { handle: h, ring_pages: r, ring_offset_in_pages: o } => {
                action@ matches BusStep::OpenChannel { handle, ring_pages, ring_offset_in_pages }
                    && handle == h && ring_pages == r && ring_offset_in_pages == o
            },
            BusAction::Connect => action@ is Connect,
            BusAction::InitDevice => action@ is InitDevice,
            BusAction::RunMockFlow => action@ is RunMockFlow,
            BusAction::RunStartupFlow { mmio_gpa: g, mmio_size: s } => action@ matches
                BusStep::RunStartupFlow { mmio_gpa, mmio_size } && mmio_gpa == g && mmio_size == s,
            BusAction::AddDevice { name: n } => action@ matches BusStep::AddDevice { name }
                && name == n@,
            BusAction::AddBus { name: n, instance_id: d, vtom: v } => action@ matches
                BusStep::AddBus { name, instance_id, vtom } && name == n@ && instance_id == d
                && vtom == v,
            BusAction::StartUnits => action@ is StartUnits,
            BusAction::Finish(o) => action@ matches BusStep::Finish(outcome) && outcome == o,
        },
{
}

/// Only two errors of relaying a bus have a text of their own; every other passes
/// on what the failed request reported.
pub proof fn law_bus_error_texts(error: BusError)
    ensures
        error == BusError::NoMmioSpace ==> bus_context(error) == Some(
            "not enough MMIO space left"@,
        ),
        error == BusError::Init ==> bus_context(error) == Some(
            "failed to initialize vpci device"@,
        ),
        error != BusError::NoMmioSpace && error != BusError::Init ==> bus_context(error) is None,
{
}

} // verus!
