//! What holds of processing as a whole.
use vstd::prelude::*;

verus! {

use crate::activity::{
    device_ready, devices_to_keep, has_activity, is_first_ready, no_device_ready, process_answers,
    process_step, without_device, ProcessAction, ProcessEvent,
};
use crate::bus::{bus_initial, with_device, BusOutcome, BusStep, OfferInfo};
use crate::mmio::window_fits;
use crate::relay::RelayState;
use crate::relay_laws::{bus_trace, lemma_with_device_wf, BusReplies};
use crate::slots::RelayedDevice;

/// Whether processing takes the devices `removed` out of their slots, one after
/// the other, through the states `states`.
pub open spec fn removal_run(
    states: Seq<RelayState>,
    removed: Seq<(usize, RelayedDevice)>,
) -> bool {
    &&& states.len() == removed.len() + 1
    &&& forall|i: int|
        0 <= i < removed.len() ==> process_step(
            #[trigger] states[i],
            ProcessEvent::DeviceRemoved,
            states[i + 1],
            ProcessAction::RemoveDevice { slot: removed[i].0, device: removed[i].1 },
        )
}

/// Processing removes the devices that wait to be removed, all of them, in the
/// order of their slots, and no others. Nothing else of the relay changes but
/// that their slots are vacant.
pub proof fn law_process_removes_ready_devices(
    states: Seq<RelayState>,
    removed: Seq<(usize, RelayedDevice)>,
)
    requires
        removal_run(states, removed),
        no_device_ready(states.last().devices),
    ensures
        states.last() == (RelayState {
            devices: devices_to_keep(states[0].devices),
            vacated: states[0].vacated + removed.map_values(|r: (usize, RelayedDevice)| r.0),
            ..states[0]
        }),
        forall|slot: usize, device: RelayedDevice|
            removed.contains((slot, device)) <==> device_ready(states[0].devices, slot) && device
                == states[0].devices[slot],
        forall|i: int, j: int| 0 <= i < j < removed.len() ==> removed[i].0 < removed[j].0,
    decreases removed.len(),
{
    let slots = removed.map_values(|r: (usize, RelayedDevice)| r.0);
    let first = states[0];
    if removed.len() == 0 {
        assert(devices_to_keep(first.devices) =~= first.devices);
        assert(first.vacated + slots =~= first.vacated);
    } else {
        let rest = removed.drop_first();
        let later = states.drop_first();
        let (slot, device) = removed[0];
        let second = later[0];
        assert forall|i: int| 0 <= i < rest.len() implies process_step(
            #[trigger] later[i],
            ProcessEvent::DeviceRemoved,
            later[i + 1],
            ProcessAction::RemoveDevice { slot: rest[i].0, device: rest[i].1 },
        ) by {
            assert(later[i] == states[i + 1]);
        }
        law_process_removes_ready_devices(later, rest);
        assert(process_step(
            states[0],
            ProcessEvent::DeviceRemoved,
            states[1],
            ProcessAction::RemoveDevice { slot, device },
        ));
        assert(second == without_device(first, slot));
        assert(is_first_ready(first.devices, slot));
        assert forall|s: usize|
            device_ready(second.devices, s) <==> device_ready(first.devices, s) && s != slot by {}
        assert(devices_to_keep(second.devices) =~= devices_to_keep(first.devices));
        let rest_slots = rest.map_values(|r: (usize, RelayedDevice)| r.0);
        assert(slots =~= seq![slot] + rest_slots);
        assert(first.vacated + slots =~= second.vacated + rest_slots);
        assert(states.last() == later.last());
        assert forall|s: usize, d: RelayedDevice|
            removed.contains((s, d)) <==> device_ready(first.devices, s) && d
                == first.devices[s] by {
            if removed.contains((s, d)) {
                let i = choose|i: int| 0 <= i < removed.len() && removed[i] == (s, d);
                if i > 0 {
                    assert(rest[i - 1] == (s, d));
                    assert(rest.contains((s, d)));
                }
            }
            if device_ready(first.devices, s) && d == first.devices[s] {
                if s == slot {
                    assert(removed[0] == (s, d));
                } else {
                    assert(device_ready(second.devices, s));
                    assert(rest.contains((s, d)));
                    let i = choose|i: int| 0 <= i < rest.len() && rest[i] == (s, d);
                    assert(removed[i + 1] == (s, d));
                }
            }
        }
        assert forall|i: int, j: int| 0 <= i < j < removed.len() implies removed[i].0
            < removed[j].0 by {
            let (s, d) = removed[j];
            assert(rest[j - 1] == (s, d));
            assert(rest.contains((s, d)));
            if i == 0 {
                assert(device_ready(second.devices, s));
                assert(device_ready(first.devices, s));
            } else {
                assert(rest[i - 1] == removed[i]);
            }
        }
    }
}

/// What becomes of a relay as it relays a bus, and whether it succeeds.
pub open spec fn relay_offer(state: RelayState, offer: OfferInfo, replies: BusReplies) -> (
    RelayState,
    bool,
) {
    if !window_fits(state.mmio_range, state.mmio_per_device, state.next_slot()) {
        (state, false)
    } else {
        let (steps, end) = bus_trace(replies, state, bus_initial(state, offer));
        let failed = match steps.last() {
            BusStep::Finish(BusOutcome::Failed(_)) => true,
            _ => false,
        };
        (end, !failed)
    }
}

/// Relaying a bus changes a relay only in that the bus's device may be in the next
/// slot.
proof fn lemma_relay_offer(state: RelayState, offer: OfferInfo, replies: BusReplies)
    ensures
        relay_offer(state, offer, replies).0 == state || relay_offer(state, offer, replies).0
            == with_device(state, bus_initial(state, offer)) && window_fits(
            state.mmio_range,
            state.mmio_per_device,
            state.next_slot(),
        ),
{
    crate::relay_laws::law_bus_outcome(replies, state, bus_initial(state, offer));
}

/// A whole run of processing: for each step of it, the relay before, what the step
/// is told, what it does, and the relay after. `replies` is what a bus replies
/// that the step takes off the list.
pub struct ProcessRun {
    pub before: Seq<RelayState>,
    pub events: Seq<ProcessEvent>,
    pub actions: Seq<ProcessAction>,
    pub after: Seq<RelayState>,
    pub replies: Seq<BusReplies>,
}

impl ProcessRun {
    /// Each step is one of processing, from the beginning on, and what comes of
    /// its action is what the next step is told.
    pub open spec fn wf(self) -> bool {
        &&& self.events.len() > 0
        &&& self.before.len() == self.events.len()
        &&& self.actions.len() == self.events.len()
        &&& self.after.len() == self.events.len()
        &&& self.replies.len() == self.events.len()
        &&& self.events[0] == ProcessEvent::Begin
        &&& forall|i: int| 0 <= i < self.events.len() ==> #[trigger] self.step(i)
        &&& forall|i: int| 0 <= i < self.events.len() - 1 ==> #[trigger] self.handover(i)
    }

    /// The step at a place is one of processing.
    pub open spec fn step(self, i: int) -> bool {
        process_step(self.before[i], self.events[i], self.after[i], self.actions[i])
    }

    /// What comes of the action at a place is what the next step is told: a device
    /// that was taken out is removed, and a bus that was taken off the list is
    /// relayed, or is not.
    pub open spec fn handover(self, i: int) -> bool {
        match self.actions[i] {
            ProcessAction::RemoveDevice { .. } => {
                &&& self.before[i + 1] == self.after[i]
                &&& self.events[i + 1] == ProcessEvent::DeviceRemoved
            },
            ProcessAction::RelayBus(offer) => {
                let (end, relayed) = relay_offer(self.after[i], offer, self.replies[i]);
                &&& self.before[i + 1] == end
                &&& self.events[i + 1] == if relayed {
                    ProcessEvent::BusRelayed
                } else {
                    ProcessEvent::BusFailed
                }
            },
            ProcessAction::Done | ProcessAction::Failed => false,
        }
    }
}

/// The slots whose devices wait to be removed.
pub open spec fn ready_slots(devices: Map<usize, RelayedDevice>) -> Set<usize> {
    Set::new(|slot: usize| device_ready(devices, slot))
}

/// Whether a device does not wait to be removed, and came on one of the buses of a
/// list from the place `from` on.
pub open spec fn is_from_bus(buses: Seq<OfferInfo>, from: int, device: RelayedDevice) -> bool {
    !device.ready_to_remove && exists|j: int|
        from <= j < buses.len() && #[trigger] buses[j].instance_id == device.bus_instance_id
}

/// What processing has made of a relay `first`, while it is at `now`: the devices
/// to keep are there, every other device was there before or came on a bus that
/// is off the list, the buses on the list are the first ones of those there were,
/// and nothing else has changed.
pub open spec fn processed(first: RelayState, now: RelayState) -> bool {
    &&& now.wf()
    &&& devices_to_keep(first.devices).submap_of(now.devices)
    &&& forall|slot: usize| #[trigger]
        now.devices.contains_key(slot) ==> (first.devices.contains_key(slot) && first.devices[slot]
            == now.devices[slot]) || is_from_bus(
            first.new_buses,
            now.new_buses.len() as int,
            now.devices[slot],
        )
    &&& now.new_buses.len() <= first.new_buses.len()
    &&& now.new_buses == first.new_buses.take(now.new_buses.len() as int)
    &&& now == RelayState {
        devices: now.devices,
        vacated: now.vacated,
        new_buses: now.new_buses,
        ..first
    }
}

/// How much activity waits: the devices to remove and the buses to relay.
pub open spec fn activity_left(state: RelayState) -> nat {
    ready_slots(state.devices).len() + state.new_buses.len()
}

/// A step of processing that goes on leaves one piece of activity less.
proof fn lemma_process_step(
    first: RelayState,
    state: RelayState,
    event: ProcessEvent,
    after: RelayState,
    action: ProcessAction,
)
    requires
        processed(first, state),
        process_answers(state, event),
        process_step(state, event, after, action),
    ensures
        processed(first, after),
        match action {
            ProcessAction::RemoveDevice { .. } => activity_left(after) == activity_left(state) - 1,
            ProcessAction::RelayBus(offer) => {
                &&& no_device_ready(after.devices)
                &&& activity_left(after) == activity_left(state) - 1
                &&& after.new_buses.len() < first.new_buses.len()
                &&& offer == first.new_buses[after.new_buses.len() as int]
            },
            ProcessAction::Done => !has_activity(after),
            ProcessAction::Failed => no_device_ready(after.devices) && after == state,
        },
{
    match action {
        ProcessAction::RemoveDevice { slot, device } => {
            crate::slots::lemma_remove_keeps_slots(state.devices, state.vacated, slot);
            vstd::set_lib::lemma_len_subset(ready_slots(state.devices), state.devices.dom());
            assert(ready_slots(after.devices) =~= ready_slots(state.devices).remove(slot));
            let keep = devices_to_keep(first.devices);
            assert forall|s: usize| #[trigger] keep.dom().contains(s) implies
                after.devices.dom().contains(s) && keep[s] == after.devices[s] by {
                assert(!device_ready(first.devices, s));
                assert(state.devices.dom().contains(s));
                assert(keep[s] == state.devices[s]);
                assert(!device_ready(state.devices, s));
            }
            assert forall|s: usize| #[trigger] after.devices.contains_key(s) implies (
            first.devices.contains_key(s) && first.devices[s] == after.devices[s]) || is_from_bus(
                first.new_buses,
                after.new_buses.len() as int,
                after.devices[s],
            ) by {
                assert(state.devices.contains_key(s));
            }
        },
        ProcessAction::RelayBus(offer) => {
            assert(after.new_buses =~= first.new_buses.take(after.new_buses.len() as int));
            assert forall|s: usize| #[trigger] after.devices.contains_key(s) implies (
            first.devices.contains_key(s) && first.devices[s] == after.devices[s]) || is_from_bus(
                first.new_buses,
                after.new_buses.len() as int,
                after.devices[s],
            ) by {
                assert(state.devices.contains_key(s));
                if is_from_bus(
                    first.new_buses,
                    state.new_buses.len() as int,
                    state.devices[s],
                ) {
                    let j = choose|j: int|
                        state.new_buses.len() <= j < first.new_buses.len()
                            && #[trigger] first.new_buses[j].instance_id
                            == state.devices[s].bus_instance_id;
                    assert(after.new_buses.len() <= j);
                }
            }
        },
        _ => {},
    }
}

/// Relaying the bus that a step has taken off the list leaves as much activity as
/// there was.
proof fn lemma_relay_taken_bus(
    first: RelayState,
    state: RelayState,
    offer: OfferInfo,
    replies: BusReplies,
)
    requires
        processed(first, state),
        no_device_ready(state.devices),
        !window_fits(first.mmio_range, first.mmio_per_device, usize::MAX as nat + 1),
        state.new_buses.len() < first.new_buses.len(),
        offer == first.new_buses[state.new_buses.len() as int],
    ensures
        processed(first, relay_offer(state, offer, replies).0),
        no_device_ready(relay_offer(state, offer, replies).0.devices),
        relay_offer(state, offer, replies).0.new_buses == state.new_buses,
        activity_left(relay_offer(state, offer, replies).0) == activity_left(state),
{
    lemma_relay_offer(state, offer, replies);
    let flow = bus_initial(state, offer);
    let end = relay_offer(state, offer, replies).0;
    if end != state {
        if state.next_slot() > usize::MAX {
            vstd::arithmetic::mul::lemma_mul_inequality(
                usize::MAX + 2,
                state.next_slot() as int + 1,
                state.mmio_per_device as int,
            );
        }
        crate::slots::lemma_vacant_slot_is_free(state.devices, state.vacated);
        lemma_with_device_wf(state, flow);
        assert(!state.devices.contains_key(flow.slot));
        assert forall|slot: usize| !#[trigger] device_ready(end.devices, slot) by {
            assert(!device_ready(state.devices, slot));
        }
        assert(ready_slots(end.devices) =~= ready_slots(state.devices)) by {
            assert forall|slot: usize|
                ready_slots(end.devices).contains(slot) == ready_slots(state.devices).contains(
                    slot,
                ) by {
                assert(!device_ready(end.devices, slot));
                assert(!device_ready(state.devices, slot));
            }
        }
        assert forall|slot: usize| #[trigger] end.devices.contains_key(slot) implies (
        first.devices.contains_key(slot) && first.devices[slot] == end.devices[slot])
            || is_from_bus(
            first.new_buses,
            end.new_buses.len() as int,
            end.devices[slot],
        ) by {
            if slot == flow.slot {
                assert(first.new_buses[end.new_buses.len() as int].instance_id
                    == end.devices[slot].bus_instance_id);
            } else {
                assert(state.devices.contains_key(slot));
            }
        }
        let keep = devices_to_keep(first.devices);
        assert forall|slot: usize| #[trigger] keep.dom().contains(slot) implies
            end.devices.dom().contains(slot) && keep[slot] == end.devices[slot] by {
            assert(state.devices.dom().contains(slot) && keep[slot] == state.devices[slot]);
        }
    }
}

/// What holds before each step of a run.
proof fn lemma_process_run_at(run: ProcessRun, i: int)
    requires
        run.wf(),
        run.before[0].wf(),
        !window_fits(
            run.before[0].mmio_range,
            run.before[0].mmio_per_device,
            usize::MAX as nat + 1,
        ),
        0 <= i < run.events.len(),
    ensures
        processed(run.before[0], run.before[i]),
        process_answers(run.before[i], run.events[i]),
        i + activity_left(run.before[i]) == activity_left(run.before[0]),
        run.events[i] == ProcessEvent::BusFailed ==> run.before[i].new_buses.len()
            < run.before[0].new_buses.len(),
    decreases i,
{
    let first = run.before[0];
    if i == 0 {
        assert(first.new_buses =~= first.new_buses.take(first.new_buses.len() as int));
    } else {
        lemma_process_run_at(run, i - 1);
        assert(run.step(i - 1));
        assert(run.handover(i - 1));
        lemma_process_step(
            first,
            run.before[i - 1],
            run.events[i - 1],
            run.after[i - 1],
            run.actions[i - 1],
        );
        match run.actions[i - 1] {
            ProcessAction::RelayBus(offer) => {
                lemma_relay_taken_bus(first, run.after[i - 1], offer, run.replies[i - 1]);
            },
            _ => {},
        }
    }
}

/// A run of processing ends: it has no more steps than there are devices to remove
/// and buses to relay, and one more.
///
/// A slot number is a `usize`: this law and the next are on relays whose windows
/// can all be numbered so.
pub proof fn law_process_ends(run: ProcessRun)
    requires
        run.wf(),
        run.before[0].wf(),
        !window_fits(
            run.before[0].mmio_range,
            run.before[0].mmio_per_device,
            usize::MAX as nat + 1,
        ),
    ensures
        run.events.len() <= activity_left(run.before[0]) + 1,
{
    lemma_process_run_at(run, run.events.len() - 1);
}

/// A run of processing, from its beginning to its end, processes all waiting
/// activity, or ends at the first bus that cannot be relayed.
///
/// Either way no device that waited to be removed is left, and every device that
/// did not wait is still in its slot, as it was. Every other device came on a bus
/// that was taken off the list, and does not wait to be removed. Where processing
/// succeeds, no bus is left on the list; where it fails, what is left is what came
/// before the bus that failed. Nothing else of the relay changes, and it stays
/// well-formed.
pub proof fn law_process_run(run: ProcessRun)
    requires
        run.wf(),
        run.before[0].wf(),
        !window_fits(
            run.before[0].mmio_range,
            run.before[0].mmio_per_device,
            usize::MAX as nat + 1,
        ),
        run.actions.last() == ProcessAction::Done || run.actions.last() == ProcessAction::Failed,
    ensures
        processed(run.before[0], run.after.last()),
        no_device_ready(run.after.last().devices),
        forall|slot: usize| #[trigger]
            run.after.last().devices.contains_key(slot) ==> (devices_to_keep(
                run.before[0].devices,
            ).contains_key(slot) && devices_to_keep(run.before[0].devices)[slot]
                == run.after.last().devices[slot]) || is_from_bus(
                run.before[0].new_buses,
                run.after.last().new_buses.len() as int,
                run.after.last().devices[slot],
            ),
        run.actions.last() == ProcessAction::Done ==> !has_activity(run.after.last()),
        run.actions.last() == ProcessAction::Failed ==> run.after.last().new_buses.len()
            < run.before[0].new_buses.len(),
{
    let last = run.events.len() - 1;
    let first = run.before[0];
    let end = run.after.last();
    lemma_process_run_at(run, last);
    assert(run.step(last));
    lemma_process_step(first, run.before[last], run.events[last], end, run.actions[last]);
    assert forall|slot: usize| #[trigger] end.devices.contains_key(slot) implies (devices_to_keep(
        first.devices,
    ).contains_key(slot) && devices_to_keep(first.devices)[slot] == end.devices[slot])
        || is_from_bus(first.new_buses, end.new_buses.len() as int, end.devices[slot]) by {
        assert(!device_ready(end.devices, slot));
    }
}

/// Where no device waits to be removed, processing takes the bus at the end of the
/// list next, be it at its beginning or after another bus.
pub proof fn law_process_takes_last_bus(
    state: RelayState,
    event: ProcessEvent,
    after: RelayState,
    action: ProcessAction,
)
    requires
        state.new_buses.len() > 0,
        no_device_ready(state.devices),
        event != ProcessEvent::BusFailed,
        process_step(state, event, after, action),
    ensures
        action == ProcessAction::RelayBus(state.new_buses.last()),
        after == (RelayState { new_buses: state.new_buses.drop_last(), ..state }),
{
}

/// A step that is told that a bus could not be relayed ends processing with that
/// failure, whatever else waits, and changes nothing. No other step ends so.
pub proof fn law_process_failure_ends(
    state: RelayState,
    event: ProcessEvent,
    after: RelayState,
    action: ProcessAction,
)
    requires
        process_step(state, event, after, action),
    ensures
        action == ProcessAction::Failed <==> event == ProcessEvent::BusFailed,
        event == ProcessEvent::BusFailed ==> after == state,
{
}

/// Processing is done where no bus is left on the list and the last one, if there
/// was any, did not fail; and, where no bus was taken yet, no device waits to be
/// removed. Being done changes nothing.
pub proof fn law_process_is_done(
    state: RelayState,
    event: ProcessEvent,
    after: RelayState,
    action: ProcessAction,
)
    requires
        process_step(state, event, after, action),
    ensures
        action == ProcessAction::Done <==> {
            &&& event != ProcessEvent::BusFailed
            &&& state.new_buses.len() == 0
            &&& event != ProcessEvent::BusRelayed ==> forall|slot: usize| #[trigger]
                state.devices.contains_key(slot) ==> !state.devices[slot].ready_to_remove
        },
        action == ProcessAction::Done ==> after == state,
{
    if event != ProcessEvent::BusRelayed {
        if no_device_ready(state.devices) {
            assert forall|slot: usize| #[trigger] state.devices.contains_key(slot) implies
                !state.devices[slot].ready_to_remove by {
                assert(!device_ready(state.devices, slot));
            }
        }
    }
}

/// Processing takes a bus off the list only where no device waits to be removed or
/// another bus was relayed before it: the bus at the end of the list, as it was
/// offered. The other buses stay in their order, and nothing else changes.
pub proof fn law_process_takes_a_bus(
    state: RelayState,
    event: ProcessEvent,
    after: RelayState,
    action: ProcessAction,
)
    requires
        process_step(state, event, after, action),
    ensures
        action is RelayBus <==> {
            &&& event != ProcessEvent::BusFailed
            &&& state.new_buses.len() > 0
            &&& event != ProcessEvent::BusRelayed ==> forall|slot: usize| #[trigger]
                state.devices.contains_key(slot) ==> !state.devices[slot].ready_to_remove
        },
        action matches ProcessAction::RelayBus(offer) ==> {
            &&& offer == state.new_buses[state.new_buses.len() - 1]
            &&& after.new_buses.len() == state.new_buses.len() - 1
            &&& forall|i: int|
                0 <= i < after.new_buses.len() ==> (#[trigger] after.new_buses[i])
                    == state.new_buses[i]
            &&& after == RelayState { new_buses: after.new_buses, ..state }
        },
{
    if event != ProcessEvent::BusRelayed {
        if no_device_ready(state.devices) {
            assert forall|slot: usize| #[trigger] state.devices.contains_key(slot) implies
                !state.devices[slot].ready_to_remove by {
                assert(!device_ready(state.devices, slot));
            }
        }
    }
}

/// Before any bus is taken, processing removes a device wherever one waits to be
/// removed: of those the one with the lowest slot, as it was. That slot is vacant
/// then, and nothing else changes.
pub proof fn law_process_removes_a_device(
    state: RelayState,
    event: ProcessEvent,
    after: RelayState,
    action: ProcessAction,
)
    requires
        process_step(state, event, after, action),
    ensures
        action is RemoveDevice <==> {
            &&& event == ProcessEvent::Begin || event == ProcessEvent::DeviceRemoved
            &&& exists|slot: usize| #[trigger]
                state.devices.contains_key(slot) && state.devices[slot].ready_to_remove
        },
        action matches ProcessAction::RemoveDevice { slot, device } ==> {
            &&& state.devices.contains_key(slot)
            &&& state.devices[slot].ready_to_remove
            &&& forall|other: usize| #[trigger]
                state.devices.contains_key(other) && state.devices[other].ready_to_remove ==> slot
                    <= other
            &&& device == state.devices[slot]
            &&& after == RelayState {
                devices: state.devices.remove(slot),
                vacated: state.vacated.push(slot),
                ..state
            }
        },
{
    if no_device_ready(state.devices) {
        assert forall|slot: usize| #[trigger] state.devices.contains_key(slot) implies
            !state.devices[slot].ready_to_remove by {
            assert(!device_ready(state.devices, slot));
        }
    } else {
        let slot = choose|slot: usize| #[trigger] device_ready(state.devices, slot);
        assert(state.devices.contains_key(slot) && state.devices[slot].ready_to_remove);
    }
    match action {
        ProcessAction::RemoveDevice { slot, .. } => {
            assert forall|other: usize| #[trigger]
                state.devices.contains_key(other) && state.devices[other].ready_to_remove implies
                slot <= other by {
                assert(device_ready(state.devices, other));
            }
        },
        _ => {},
    }
}

/// Processing takes every event where no device waits to be removed, and may begin
/// and go on removing devices in any case.
pub proof fn law_process_takes_every_event(state: RelayState, event: ProcessEvent)
    requires
        event == ProcessEvent::BusRelayed || event == ProcessEvent::BusFailed ==> forall|
            slot: usize,
        | #[trigger]
            state.devices.contains_key(slot) ==> !state.devices[slot].ready_to_remove,
    ensures
        process_answers(state, event),
{
}

/// A run of processing that is told that a bus failed ends there and then, with
/// that failure; and it ends with a failure only so. A run that ends with all done
/// was never told of a failure.
pub proof fn law_process_run_reports_failure(run: ProcessRun)
    requires
        run.wf(),
    ensures
        forall|i: int|
            0 <= i < run.events.len() && (#[trigger] run.events[i]) == ProcessEvent::BusFailed
                ==> run.actions[i] == ProcessAction::Failed && i == run.events.len() - 1,
        forall|i: int|
            0 <= i < run.actions.len() && (#[trigger] run.actions[i]) == ProcessAction::Failed
                ==> run.events[i] == ProcessEvent::BusFailed && i == run.events.len() - 1,
        run.actions.last() == ProcessAction::Done ==> forall|i: int|
            0 <= i < run.events.len() ==> (#[trigger] run.events[i]) != ProcessEvent::BusFailed,
{
    assert forall|i: int|
        0 <= i < run.events.len() && (#[trigger] run.events[i])
            == ProcessEvent::BusFailed implies run.actions[i] == ProcessAction::Failed && i
        == run.events.len() - 1 by {
        assert(run.step(i));
        if i < run.events.len() - 1 {
            assert(run.handover(i));
        }
    }
    assert forall|i: int|
        0 <= i < run.actions.len() && (#[trigger] run.actions[i])
            == ProcessAction::Failed implies run.events[i] == ProcessEvent::BusFailed && i
        == run.events.len() - 1 by {
        assert(run.step(i));
        if i < run.events.len() - 1 {
            assert(run.handover(i));
        }
    }
}

/// A run of processing that has ended is done exactly where every bus that it took
/// off the list was relayed or passed over: each had a window, and relaying it did
/// not end in a failure.
pub proof fn law_process_run_is_done(run: ProcessRun)
    requires
        run.wf(),
        run.actions.last() == ProcessAction::Done || run.actions.last() == ProcessAction::Failed,
    ensures
        run.actions.last() == ProcessAction::Done <==> forall|i: int|
            0 <= i < run.actions.len() ==> match #[trigger] run.actions[i] {
                ProcessAction::RelayBus(offer) => {
                    let state = run.after[i];
                    let steps = bus_trace(run.replies[i], state, bus_initial(state, offer)).0;
                    &&& (state.next_slot() + 1) * state.mmio_per_device <= state.mmio_range.end
                        - state.mmio_range.start
                    &&& match steps.last() {
                        BusStep::Finish(BusOutcome::Failed(_)) => false,
                        _ => true,
                    }
                },
                _ => true,
            },
{
    let last = run.events.len() - 1;
    law_process_run_reports_failure(run);
    assert(run.step(last));
    if run.actions.last() == ProcessAction::Done {
        assert forall|i: int| 0 <= i < run.actions.len() implies match #[trigger] run.actions[i] {
            ProcessAction::RelayBus(offer) => relay_offer(
                run.after[i],
                offer,
                run.replies[i],
            ).1,
            _ => true,
        } by {
            if i < last {
                assert(run.handover(i));
                assert(run.events[i + 1] != ProcessEvent::BusFailed);
            }
        }
    } else {
        assert(run.events[last] == ProcessEvent::BusFailed);
        assert(run.handover(last - 1));
        assert(run.actions[last - 1] is RelayBus);
    }
}

} // verus!
