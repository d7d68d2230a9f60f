//! What holds of a poll as a whole.
use vstd::prelude::*;

verus! {

use crate::activity::{
    device_ready, has_activity, no_device_ready, wait_step, WaitAction, WaitEvent,
};
use crate::relay::RelayState;
use crate::slots::RelayedDevice;

/// A poll: for each step of it, what the step is told and what it does, and the
/// relay before the first step and after each.
pub struct Poll {
    pub states: Seq<RelayState>,
    pub events: Seq<WaitEvent>,
    pub actions: Seq<WaitAction>,
}

impl Poll {
    /// Each step is one of a poll, from the beginning on, and is told what the
    /// step before it asked.
    pub open spec fn wf(self) -> bool {
        &&& self.events.len() > 0
        &&& self.states.len() == self.events.len() + 1
        &&& self.actions.len() == self.events.len()
        &&& self.events[0] == WaitEvent::Begin
        &&& forall|i: int| 0 <= i < self.events.len() ==> #[trigger] self.step(i)
        &&& forall|i: int| 0 < i < self.events.len() ==> #[trigger] self.reply(i)
    }

    /// The step at a place is one of a poll.
    pub open spec fn step(self, i: int) -> bool {
        wait_step(self.states[i], self.events[i], self.states[i + 1], self.actions[i])
    }

    /// The step at a place is told what the step before it asked.
    pub open spec fn reply(self, i: int) -> bool {
        match self.actions[i - 1] {
            WaitAction::PollDevice { slot } => match self.events[i] {
                WaitEvent::DevicePolled { slot: polled, .. } => polled == slot,
                _ => false,
            },
            WaitAction::PollBus => self.events[i] is BusPolled,
            WaitAction::Ready | WaitAction::Pending => false,
        }
    }

    /// Whether the poll asked of the device in a slot, and the host did not want
    /// it back.
    pub open spec fn kept(self, slot: usize) -> bool {
        exists|i: int|
            0 <= i < self.events.len() && #[trigger] self.events[i] == (WaitEvent::DevicePolled {
                slot,
                removed: false,
            })
    }
}

/// What holds before a step of a poll: the relay is as it was at first; and unless
/// the poll just begins, no bus waits, no device up to the one asked of last waits
/// to be removed, and the poll has asked of each of those, of none twice.
proof fn lemma_poll_at(poll: Poll, i: int)
    requires
        poll.wf(),
        0 <= i < poll.events.len(),
    ensures
        poll.states[i] == poll.states[0],
        i > 0 ==> poll.states[0].new_buses.len() == 0,
        match poll.events[i] {
            WaitEvent::Begin => i == 0,
            WaitEvent::DevicePolled { slot, .. } => {
                &&& poll.states[0].devices.contains_key(slot)
                &&& forall|other: usize| #[trigger]
                    device_ready(poll.states[0].devices, other) ==> slot < other
                &&& forall|other: usize| #[trigger]
                    poll.states[0].devices.contains_key(other) && other < slot ==> poll.kept(other)
                &&& forall|j: int|
                    0 <= j < i ==> match #[trigger] poll.events[j] {
                        WaitEvent::Begin => true,
                        WaitEvent::DevicePolled { slot: earlier, removed } => earlier < slot
                            && !removed,
                        WaitEvent::BusPolled(_) => false,
                    }
            },
            WaitEvent::BusPolled(_) => {
                &&& no_device_ready(poll.states[0].devices)
                &&& forall|other: usize| #[trigger]
                    poll.states[0].devices.contains_key(other) ==> poll.kept(other)
                &&& forall|j: int|
                    0 <= j < i ==> match #[trigger] poll.events[j] {
                        WaitEvent::Begin => true,
                        WaitEvent::DevicePolled { removed, .. } => !removed,
                        WaitEvent::BusPolled(_) => false,
                    }
            },
        },
    decreases i,
{
    if i > 0 {
        lemma_poll_at(poll, i - 1);
        assert(poll.step(i - 1));
        assert(poll.reply(i));
        let devices = poll.states[0].devices;
        match poll.events[i - 1] {
            WaitEvent::Begin => {
                crate::activity::lemma_scan(devices, -1, poll.actions[i - 1]);
            },
            WaitEvent::DevicePolled { slot, removed } => {
                crate::activity::lemma_scan(devices, slot as int, poll.actions[i - 1]);
                assert(poll.kept(slot)) by {
                    assert(poll.events[i - 1] == (WaitEvent::DevicePolled {
                        slot,
                        removed: false,
                    }));
                }
            },
            WaitEvent::BusPolled(_) => {},
        }
    }
}

/// Up to its last step a poll changes nothing: a wait that is given up leaves the
/// relay as it was.
pub proof fn law_poll_changes_nothing_before_its_end(poll: Poll, i: int)
    requires
        poll.wf(),
        0 <= i < poll.events.len(),
    ensures
        poll.states[i] == poll.states[0],
{
    lemma_poll_at(poll, i);
}

/// A poll asks of devices in the order of their slots, of none twice, and of a new
/// bus only after all of them.
pub proof fn law_poll_asks_in_order(poll: Poll, i: int, j: int)
    requires
        poll.wf(),
        0 <= i < j < poll.events.len(),
    ensures
        match (poll.events[i], poll.events[j]) {
            (
                WaitEvent::DevicePolled { slot: earlier, .. },
                WaitEvent::DevicePolled { slot: later, .. },
            ) => earlier < later,
            (WaitEvent::BusPolled(_), _) => false,
            (_, WaitEvent::Begin) => false,
            _ => true,
        },
{
    lemma_poll_at(poll, i);
    lemma_poll_at(poll, j);
}

/// A poll that is pending leaves the relay as it was: nothing waits there. It has
/// asked of every device, and the host wanted none of them back; and it has asked
/// of a new bus, and the host had none.
pub proof fn law_pending_poll(poll: Poll)
    requires
        poll.wf(),
        poll.actions.last() == WaitAction::Pending,
    ensures
        poll.states.last() == poll.states[0],
        !has_activity(poll.states[0]),
        forall|slot: usize| #[trigger]
            poll.states[0].devices.contains_key(slot) ==> poll.kept(slot),
        poll.events.last() == WaitEvent::BusPolled(None),
{
    let last = poll.events.len() - 1;
    lemma_poll_at(poll, last);
    assert(poll.step(last));
}

/// Whether a poll found activity that waited already, and changed nothing.
pub open spec fn ready_already(poll: Poll) -> bool {
    &&& poll.states.last() == poll.states[0]
    &&& has_activity(poll.states[0])
}

/// Whether a poll ended with a device that the host wants back: that device alone
/// is marked, and it was not marked before. No bus waited, and neither did a device
/// before it.
pub open spec fn ready_by_device(poll: Poll, slot: usize) -> bool {
    let first = poll.states[0];
    &&& poll.events.last() == (WaitEvent::DevicePolled { slot, removed: true })
    &&& first.devices.contains_key(slot)
    &&& !first.devices[slot].ready_to_remove
    &&& first.new_buses.len() == 0
    &&& forall|other: usize| #[trigger] device_ready(first.devices, other) ==> slot < other
    &&& forall|other: usize| #[trigger]
        first.devices.contains_key(other) && other < slot ==> poll.kept(other)
    &&& poll.states.last() == RelayState {
        devices: first.devices.insert(
            slot,
            RelayedDevice { ready_to_remove: true, ..first.devices[slot] },
        ),
        ..first
    }
}

/// Whether a poll ended with a new bus: it alone is on the list. Nothing waited,
/// and the host wanted no device back.
pub open spec fn ready_by_bus(poll: Poll) -> bool {
    let first = poll.states[0];
    &&& poll.events.last() matches WaitEvent::BusPolled(Some(offer))
    &&& !has_activity(first)
    &&& forall|slot: usize| #[trigger] first.devices.contains_key(slot) ==> poll.kept(slot)
    &&& poll.states.last() == RelayState { new_buses: first.new_buses.push(offer), ..first }
}

/// A poll that is ready was so already, and changed nothing; or it marked one
/// device, one that the host wants back; or it took one bus that the host offers,
/// where no device waited to be removed and the host wanted none back. Each time
/// there is activity to process.
pub proof fn law_ready_poll(poll: Poll)
    requires
        poll.wf(),
        poll.actions.last() == WaitAction::Ready,
    ensures
        ready_already(poll) || (exists|slot: usize| #[trigger] ready_by_device(poll, slot))
            || ready_by_bus(poll),
        has_activity(poll.states.last()),
{
    let last = poll.events.len() - 1;
    let first = poll.states[0];
    lemma_poll_at(poll, last);
    assert(poll.step(last));
    match poll.events[last] {
        WaitEvent::Begin => {
            if first.new_buses.len() == 0 {
                crate::activity::lemma_scan(first.devices, -1, WaitAction::Ready);
            }
            assert(ready_already(poll));
        },
        WaitEvent::DevicePolled { slot, removed } => {
            if removed {
                assert(!device_ready(first.devices, slot));
                assert(ready_by_device(poll, slot));
                assert(device_ready(poll.states.last().devices, slot));
            } else {
                crate::activity::lemma_scan(first.devices, slot as int, WaitAction::Ready);
                assert(ready_already(poll));
            }
        },
        WaitEvent::BusPolled(_) => {
            assert(ready_by_bus(poll));
        },
    }
}

/// A poll that begins changes nothing. It is ready at once where a bus waits;
/// otherwise it turns to the device with the lowest slot, and is ready where that
/// one waits to be removed; and to the host where there is no device.
pub proof fn law_poll_begins(state: RelayState, after: RelayState, action: WaitAction)
    requires
        wait_step(state, WaitEvent::Begin, after, action),
    ensures
        after == state,
        state.new_buses.len() > 0 ==> action == WaitAction::Ready,
        state.new_buses.len() == 0 ==> match action {
            WaitAction::PollDevice { slot } => {
                &&& state.devices.contains_key(slot)
                &&& !state.devices[slot].ready_to_remove
                &&& forall|other: usize| #[trigger] state.devices.contains_key(other) ==> slot
                    <= other
            },
            WaitAction::PollBus => forall|slot: usize| !#[trigger] state.devices.contains_key(slot),
            WaitAction::Ready => exists|slot: usize|
                {
                    &&& #[trigger] state.devices.contains_key(slot)
                    &&& state.devices[slot].ready_to_remove
                    &&& forall|other: usize| #[trigger] state.devices.contains_key(other) ==> slot
                        <= other
                },
            WaitAction::Pending => false,
        },
{
    if state.new_buses.len() == 0 && action == WaitAction::Ready {
        let slot = choose|slot: usize| #[trigger]
            crate::activity::is_first_after(state.devices, -1, slot)
                && state.devices[slot].ready_to_remove;
        assert(state.devices.contains_key(slot));
    }
}

/// A poll that is told that the host wants a device back marks that device, and
/// nothing else, and is ready.
pub proof fn law_poll_marks_a_device(
    state: RelayState,
    slot: usize,
    after: RelayState,
    action: WaitAction,
)
    requires
        wait_step(state, (WaitEvent::DevicePolled { slot, removed: true }), after, action),
    ensures
        action == WaitAction::Ready,
        after.devices.dom() == state.devices.dom().insert(slot),
        after.devices[slot].ready_to_remove,
        after.devices[slot].bus_instance_id == state.devices[slot].bus_instance_id,
        forall|other: usize|
            other != slot && #[trigger] state.devices.contains_key(other) ==> after.devices[other]
                == state.devices[other],
        after == (RelayState { devices: after.devices, ..state }),
{
}

/// A poll that is told that the host does not want a device back changes nothing.
/// It turns to the device with the next slot, and is ready where that one waits to
/// be removed; and to the host where there is none.
pub proof fn law_poll_goes_on(
    state: RelayState,
    slot: usize,
    after: RelayState,
    action: WaitAction,
)
    requires
        wait_step(state, (WaitEvent::DevicePolled { slot, removed: false }), after, action),
    ensures
        after == state,
        match action {
            WaitAction::PollDevice { slot: next } => {
                &&& state.devices.contains_key(next)
                &&& slot < next
                &&& !state.devices[next].ready_to_remove
                &&& forall|other: usize| #[trigger]
                    state.devices.contains_key(other) && slot < other ==> next <= other
            },
            WaitAction::PollBus => forall|other: usize| #[trigger]
                state.devices.contains_key(other) ==> other <= slot,
            WaitAction::Ready => exists|next: usize|
                {
                    &&& #[trigger] state.devices.contains_key(next)
                    &&& slot < next
                    &&& state.devices[next].ready_to_remove
                    &&& forall|other: usize| #[trigger]
                        state.devices.contains_key(other) && slot < other ==> next <= other
                },
            WaitAction::Pending => false,
        },
{
    if action == WaitAction::Ready {
        let next = choose|next: usize| #[trigger]
            crate::activity::is_first_after(state.devices, slot as int, next)
                && state.devices[next].ready_to_remove;
        assert(state.devices.contains_key(next));
    }
}

/// A poll that is told what the host offers is ready where that is a bus, which is
/// at the end of the list then, as it was offered, behind the buses that were there;
/// and is pending where the host offers none. Nothing else changes.
pub proof fn law_poll_takes_an_offer(
    state: RelayState,
    offered: Option<crate::bus::OfferInfo>,
    after: RelayState,
    action: WaitAction,
)
    requires
        wait_step(state, WaitEvent::BusPolled(offered), after, action),
    ensures
        action == WaitAction::Ready <==> offered is Some,
        action == WaitAction::Pending <==> offered is None,
        offered is None ==> after == state,
        offered matches Some(offer) ==> {
            &&& after.new_buses.len() == state.new_buses.len() + 1
            &&& after.new_buses[after.new_buses.len() - 1] == offer
            &&& forall|i: int|
                0 <= i < state.new_buses.len() ==> after.new_buses[i]
                    == #[trigger] state.new_buses[i]
            &&& after == RelayState { new_buses: after.new_buses, ..state }
        },
{
}

/// A poll can always begin. It can be told of a device where no bus waits and
/// neither that device nor one before it waits to be removed, and of a bus where
/// nothing waits.
pub proof fn law_poll_takes_every_event(state: RelayState, event: WaitEvent)
    requires
        match event {
            WaitEvent::Begin => true,
            WaitEvent::DevicePolled { slot, .. } => {
                &&& state.new_buses.len() == 0
                &&& state.devices.contains_key(slot)
                &&& forall|other: usize| #[trigger]
                    state.devices.contains_key(other) && other <= slot
                        ==> !state.devices[other].ready_to_remove
            },
            WaitEvent::BusPolled(_) => {
                &&& state.new_buses.len() == 0
                &&& forall|other: usize| #[trigger]
                    state.devices.contains_key(other) ==> !state.devices[other].ready_to_remove
            },
        },
    ensures
        crate::activity::wait_answers(state, event),
{
    match event {
        WaitEvent::DevicePolled { slot, .. } => {
            assert forall|other: usize| #[trigger]
                device_ready(state.devices, other) implies slot < other by {
                assert(state.devices.contains_key(other));
            }
        },
        _ => {},
    }
}

/// There is activity where a bus is on the list, or some device waits to be removed.
pub proof fn law_activity(state: RelayState)
    ensures
        has_activity(state) <==> state.new_buses.len() > 0 || exists|slot: usize| #[trigger]
            state.devices.contains_key(slot) && state.devices[slot].ready_to_remove,
        no_device_ready(state.devices) <==> forall|slot: usize| #[trigger]
            state.devices.contains_key(slot) ==> !state.devices[slot].ready_to_remove,
{
    if no_device_ready(state.devices) {
        assert forall|slot: usize| #[trigger] state.devices.contains_key(slot) implies
            !state.devices[slot].ready_to_remove by {
            assert(!device_ready(state.devices, slot));
        }
    } else {
        let slot = choose|slot: usize| #[trigger] device_ready(state.devices, slot);
        assert(state.devices.contains_key(slot) && state.devices[slot].ready_to_remove);
    }
}

} // verus!
