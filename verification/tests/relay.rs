use vpci_relay::activity::{ProcessAction, ProcessEvent, WaitAction, WaitEvent};
use vpci_relay::allowed::AllowedDevice;
use vpci_relay::bus::{BusAction, BusError, BusEvent, BusOutcome, OfferInfo};
use vpci_relay::guid::Guid;
use vpci_relay::hwid::{ClassCode, HardwareIds, ProgrammingInterface, Subclass};
use vpci_relay::mmio::MemoryRange;
use vpci_relay::slots::RelayedDevice;
use vpci_relay::{VpciRelay, VpciRelayOptions};

const START: u64 = 0x8000_0000;
const SIZE: u64 = 0x2000;

fn offer(n: u64) -> OfferInfo {
    OfferInfo { instance_id: Guid(n as u128), instance_text: format!("bus-{n}"), handle: 100 + n }
}

fn hw(vendor_id: u16) -> HardwareIds {
    HardwareIds {
        vendor_id,
        device_id: 1,
        revision_id: 0,
        prog_if: ProgrammingInterface(0),
        sub_class: Subclass(0),
        base_class: ClassCode(2),
        type0_sub_vendor_id: 0,
        type0_sub_system_id: 0,
    }
}

fn vendor(vendor_id: u16) -> AllowedDevice {
    AllowedDevice {
        vendor_id: Some(vendor_id),
        device_id: None,
        revision_id: None,
        prog_if: None,
        sub_class: None,
        base_class: None,
        sub_vendor_id: None,
        sub_system_id: None,
    }
}

fn relay_with(windows: u64, options: VpciRelayOptions) -> VpciRelay {
    VpciRelay::new(
        Vec::new(),
        MemoryRange { start: START, end: START + windows * SIZE },
        SIZE,
        Some(0x4000_0000),
        options,
    )
}

/// Relays a bus with the given devices; the requests at the places `failing` fail.
fn run(
    relay: &mut VpciRelay,
    offer: OfferInfo,
    devices: Vec<HardwareIds>,
    failing: &[usize],
) -> (Vec<BusAction>, BusOutcome) {
    let (mut flow, mut action) = match relay.relay_vpci_bus(offer) {
        Ok(begun) => begun,
        Err(error) => return (Vec::new(), BusOutcome::Failed(error)),
    };
    let mut made: Vec<BusAction> = Vec::new();
    loop {
        if let BusAction::Finish(outcome) = action {
            return (made, outcome);
        }
        let event = if failing.contains(&made.len()) {
            BusEvent::Failed
        } else if action == BusAction::Connect {
            BusEvent::Connected(devices.clone())
        } else {
            BusEvent::Completed
        };
        made.push(action);
        action = relay.relay_step(&mut flow, event);
    }
}

/// Relays a bus without a hitch.
fn relay_one(relay: &mut VpciRelay, n: u64) -> usize {
    match run(relay, offer(n), vec![hw(1)], &[]).1 {
        BusOutcome::Relayed { slot } => slot,
        other => panic!("{other:?}"),
    }
}

/// Polls the relay; the host wants the devices in the slots `removed` back, and
/// offers the bus `new`. Tells which devices were asked of.
fn poll(relay: &mut VpciRelay, removed: &[usize], new: Option<OfferInfo>) -> (Vec<usize>, bool) {
    let mut new = new;
    let mut asked: Vec<usize> = Vec::new();
    let mut event = WaitEvent::Begin;
    loop {
        event = match relay.wait_ready(event) {
            WaitAction::PollDevice { slot } => {
                asked.push(slot);
                WaitEvent::DevicePolled { slot, removed: removed.contains(&slot) }
            }
            WaitAction::PollBus => WaitEvent::BusPolled(new.take()),
            WaitAction::Ready => return (asked, true),
            WaitAction::Pending => return (asked, false),
        };
    }
}

fn requests(n: u64, slot: u64) -> Vec<BusAction> {
    vec![
        BusAction::CreateMemoryAccess { gpa: START + slot * SIZE },
        BusAction::OpenChannel { handle: 100 + n, ring_pages: 20, ring_offset_in_pages: 10 },
        BusAction::Connect,
        BusAction::InitDevice,
        BusAction::AddDevice { name: format!("assigned_device:vpci-bus-{n}") },
        BusAction::AddBus {
            name: format!("vpci:bus-{n}"),
            instance_id: Guid(n as u128),
            vtom: Some(0x4000_0000),
        },
        BusAction::StartUnits,
    ]
}

#[test]
fn bus_is_relayed() {
    let mut relay = relay_with(4, VpciRelayOptions::default());
    let (made, outcome) = run(&mut relay, offer(1), vec![hw(1)], &[]);
    assert_eq!(made, requests(1, 0));
    assert_eq!(outcome, BusOutcome::Relayed { slot: 0 });
    let (made, outcome) = run(&mut relay, offer(2), vec![hw(1), hw(2)], &[]);
    assert_eq!(made, requests(2, 1));
    assert_eq!(outcome, BusOutcome::Relayed { slot: 1 });
}

#[test]
fn failed_requests_end_the_relaying() {
    let errors = [
        (0, BusError::MemoryAccess),
        (1, BusError::Channel),
        (2, BusError::Connect),
        (3, BusError::Init),
        (4, BusError::AddDevice),
        (5, BusError::AddBus),
    ];
    for (place, error) in errors {
        let mut relay = relay_with(4, VpciRelayOptions::default());
        let (made, outcome) = run(&mut relay, offer(1), vec![hw(1)], &[place]);
        assert_eq!(made[..], requests(1, 0)[..=place]);
        assert_eq!(outcome, BusOutcome::Failed(error));
        assert!(!outcome.is_ok());
        assert_eq!(relay_one(&mut relay, 2), 0);
    }
}

#[test]
fn bus_without_device_is_passed_over() {
    let mut relay = relay_with(4, VpciRelayOptions::default());
    let (made, outcome) = run(&mut relay, offer(1), Vec::new(), &[]);
    assert_eq!(made[..], requests(1, 0)[..3]);
    assert_eq!(outcome, BusOutcome::NoDevice);
    assert!(outcome.is_ok());
}

#[test]
fn only_listed_devices_are_relayed() {
    let mut relay = relay_with(4, VpciRelayOptions::default());
    relay.add_allowed_device(vendor(0x1414));
    let (made, outcome) = run(&mut relay, offer(1), vec![hw(0x8086), hw(0x1414)], &[]);
    assert_eq!(made[..], requests(1, 0)[..3]);
    assert_eq!(outcome, BusOutcome::NotAllowed);
    assert!(outcome.is_ok());
    let (_, outcome) = run(&mut relay, offer(2), vec![hw(0x1414)], &[]);
    assert_eq!(outcome, BusOutcome::Relayed { slot: 0 });
    relay.add_allowed_device(vendor(0x8086));
    let (_, outcome) = run(&mut relay, offer(3), vec![hw(0x8086)], &[]);
    assert_eq!(outcome, BusOutcome::Relayed { slot: 1 });
}

#[test]
fn all_ones_id_allows_every_device() {
    let mut relay = relay_with(4, VpciRelayOptions::default());
    relay.add_allowed_device(vendor(!0));
    assert!(run(&mut relay, offer(1), vec![hw(0x8086)], &[]).1.is_ok());
    assert_eq!(relay_one(&mut relay, 2), 1);
}

#[test]
fn mock_flow_comes_before_the_startup_flow() {
    let both = VpciRelayOptions { test_tdisp_flow: true, startup_tdisp_flow: true };
    let mut relay = relay_with(4, both);
    let (made, outcome) = run(&mut relay, offer(1), vec![hw(1)], &[]);
    assert_eq!(made[4], BusAction::RunMockFlow);
    assert_eq!(made[5..], requests(1, 0)[4..]);
    assert_eq!(outcome, BusOutcome::Relayed { slot: 0 });
}

#[test]
fn startup_flow_gets_the_window() {
    let startup = VpciRelayOptions { test_tdisp_flow: false, startup_tdisp_flow: true };
    let mut relay = relay_with(4, startup);
    assert_eq!(relay_one(&mut relay, 1), 0);
    let (made, outcome) = run(&mut relay, offer(2), vec![hw(1)], &[]);
    assert_eq!(made[4], BusAction::RunStartupFlow { mmio_gpa: START + SIZE, mmio_size: SIZE });
    assert_eq!(made[5..], requests(2, 1)[4..]);
    assert_eq!(outcome, BusOutcome::Relayed { slot: 1 });
    let (made, outcome) = run(&mut relay, offer(3), vec![hw(1)], &[4]);
    assert_eq!(made.len(), 5);
    assert_eq!(outcome, BusOutcome::Failed(BusError::StartupFlow));
}

#[test]
fn mmio_space_runs_out() {
    let mut relay = relay_with(2, VpciRelayOptions::default());
    assert_eq!(relay_one(&mut relay, 1), 0);
    assert_eq!(relay_one(&mut relay, 2), 1);
    let (made, outcome) = run(&mut relay, offer(3), vec![hw(1)], &[]);
    assert_eq!(made, Vec::new());
    assert_eq!(outcome, BusOutcome::Failed(BusError::NoMmioSpace));
}

#[test]
fn bus_error_contexts() {
    assert_eq!(BusError::NoMmioSpace.context(), Some("not enough MMIO space left"));
    assert_eq!(BusError::Init.context(), Some("failed to initialize vpci device"));
    for error in [
        BusError::MemoryAccess,
        BusError::Channel,
        BusError::Connect,
        BusError::StartupFlow,
        BusError::AddDevice,
        BusError::AddBus,
    ] {
        assert_eq!(error.context(), None);
    }
}

#[test]
fn idle_relay_is_pending() {
    let mut relay = relay_with(4, VpciRelayOptions::default());
    assert_eq!(poll(&mut relay, &[], None), (Vec::new(), false));
    relay_one(&mut relay, 1);
    relay_one(&mut relay, 2);
    assert_eq!(poll(&mut relay, &[], None), (vec![0, 1], false));
    assert_eq!(relay.process(ProcessEvent::Begin), ProcessAction::Done);
}

#[test]
fn new_bus_makes_the_relay_ready() {
    let mut relay = relay_with(4, VpciRelayOptions::default());
    relay_one(&mut relay, 1);
    assert_eq!(poll(&mut relay, &[], Some(offer(2))), (vec![0], true));
    assert_eq!(poll(&mut relay, &[], None), (Vec::new(), true));
    assert_eq!(relay.process(ProcessEvent::Begin), ProcessAction::RelayBus(offer(2)));
    assert_eq!(relay.process(ProcessEvent::BusRelayed), ProcessAction::Done);
    assert_eq!(poll(&mut relay, &[], None), (vec![0], false));
}

#[test]
fn poll_stops_at_the_first_device_to_remove() {
    let mut relay = relay_with(4, VpciRelayOptions::default());
    for n in 1..=4 {
        relay_one(&mut relay, n);
    }
    assert_eq!(poll(&mut relay, &[1, 3], None), (vec![0, 1], true));
    assert_eq!(poll(&mut relay, &[], None), (vec![0], true));
    let gone = RelayedDevice { bus_instance_id: Guid(2), ready_to_remove: true };
    assert_eq!(
        relay.process(ProcessEvent::Begin),
        ProcessAction::RemoveDevice { slot: 1, device: gone }
    );
    assert_eq!(relay.process(ProcessEvent::DeviceRemoved), ProcessAction::Done);
    assert_eq!(poll(&mut relay, &[], None), (vec![0, 2, 3], false));
}

#[test]
fn all_ready_devices_are_removed_in_order() {
    let mut relay = relay_with(4, VpciRelayOptions::default());
    for n in 1..=4 {
        relay_one(&mut relay, n);
    }
    assert_eq!(poll(&mut relay, &[2], None), (vec![0, 1, 2], true));
    assert_eq!(poll(&mut relay, &[0], None), (vec![0], true));
    assert_eq!(
        relay.process(ProcessEvent::Begin),
        ProcessAction::RemoveDevice {
            slot: 0,
            device: RelayedDevice { bus_instance_id: Guid(1), ready_to_remove: true }
        }
    );
    assert_eq!(
        relay.process(ProcessEvent::DeviceRemoved),
        ProcessAction::RemoveDevice {
            slot: 2,
            device: RelayedDevice { bus_instance_id: Guid(3), ready_to_remove: true }
        }
    );
    assert_eq!(relay.process(ProcessEvent::DeviceRemoved), ProcessAction::Done);
    assert_eq!(poll(&mut relay, &[], None), (vec![1, 3], false));
    assert_eq!(relay_one(&mut relay, 5), 2);
    assert_eq!(relay_one(&mut relay, 6), 0);
    assert_eq!(
        run(&mut relay, offer(7), vec![hw(1)], &[]).1,
        BusOutcome::Failed(BusError::NoMmioSpace)
    );
}

#[test]
fn removed_slot_is_used_next() {
    let mut relay = relay_with(4, VpciRelayOptions::default());
    relay_one(&mut relay, 1);
    relay_one(&mut relay, 2);
    assert_eq!(poll(&mut relay, &[0], None), (vec![0], true));
    relay.process(ProcessEvent::Begin);
    let (made, outcome) = run(&mut relay, offer(3), vec![hw(1)], &[]);
    assert_eq!(made, requests(3, 0));
    assert_eq!(outcome, BusOutcome::Relayed { slot: 0 });
    assert_eq!(relay_one(&mut relay, 4), 2);
}

#[test]
fn buses_are_taken_from_the_end() {
    let mut relay = VpciRelay::new(
        vec![offer(1), offer(2), offer(3)],
        MemoryRange { start: START, end: START + SIZE },
        SIZE,
        None,
        VpciRelayOptions::default(),
    );
    assert_eq!(poll(&mut relay, &[], None), (Vec::new(), true));
    assert_eq!(relay.process(ProcessEvent::Begin), ProcessAction::RelayBus(offer(3)));
    assert_eq!(relay.process(ProcessEvent::BusRelayed), ProcessAction::RelayBus(offer(2)));
    assert_eq!(relay.process(ProcessEvent::BusFailed), ProcessAction::Failed);
    assert_eq!(relay.process(ProcessEvent::Begin), ProcessAction::RelayBus(offer(1)));
    assert_eq!(relay.process(ProcessEvent::BusRelayed), ProcessAction::Done);
}

#[test]
fn devices_are_removed_before_buses_are_relayed() {
    let mut relay = relay_with(1, VpciRelayOptions::default());
    relay_one(&mut relay, 1);
    assert_eq!(poll(&mut relay, &[0], None), (vec![0], true));
    assert_eq!(relay.wait_ready(WaitEvent::Begin), WaitAction::Ready);
    assert!(matches!(
        relay.process(ProcessEvent::Begin),
        ProcessAction::RemoveDevice { slot: 0, .. }
    ));
    assert_eq!(poll(&mut relay, &[], Some(offer(2))), (Vec::new(), true));
    assert_eq!(relay.process(ProcessEvent::DeviceRemoved), ProcessAction::RelayBus(offer(2)));
    assert_eq!(relay_one(&mut relay, 2), 0);
    assert_eq!(relay.process(ProcessEvent::BusRelayed), ProcessAction::Done);
}

#[test]
fn allowed_devices_are_shown() {
    let mut relay = relay_with(1, VpciRelayOptions::default());
    assert_eq!(relay.allowed_devices(), &[]);
    relay.add_allowed_device(vendor(0x1414));
    relay.add_allowed_device(vendor(!0));
    let open = AllowedDevice { vendor_id: None, ..vendor(0) };
    assert_eq!(relay.allowed_devices(), &[vendor(0x1414), open]);
}

#[test]
fn vtom_is_shown() {
    assert_eq!(relay_with(1, VpciRelayOptions::default()).vtom(), Some(0x4000_0000));
}

#[test]
fn devices_are_shown_by_slot() {
    let mut relay = relay_with(2, VpciRelayOptions::default());
    assert_eq!(relay.device(0), None);
    relay_one(&mut relay, 7);
    let device = RelayedDevice { bus_instance_id: Guid(7), ready_to_remove: false };
    assert_eq!(relay.device(0), Some(device));
    assert_eq!(relay.device(1), None);
    assert_eq!(poll(&mut relay, &[0], None), (vec![0], true));
    assert_eq!(relay.device(0), Some(RelayedDevice { ready_to_remove: true, ..device }));
    relay.process(ProcessEvent::Begin);
    assert_eq!(relay.device(0), None);
}

#[test]
fn pending_poll_changes_nothing() {
    let mut relay = relay_with(3, VpciRelayOptions::default());
    relay_one(&mut relay, 1);
    relay_one(&mut relay, 2);
    let before = [relay.device(0), relay.device(1), relay.device(2)];
    assert_eq!(poll(&mut relay, &[], None), (vec![0, 1], false));
    assert_eq!([relay.device(0), relay.device(1), relay.device(2)], before);
    assert_eq!(relay.process(ProcessEvent::Begin), ProcessAction::Done);
}

#[test]
fn poll_marks_one_device_and_takes_no_bus() {
    let mut relay = relay_with(3, VpciRelayOptions::default());
    relay_one(&mut relay, 1);
    relay_one(&mut relay, 2);
    assert_eq!(poll(&mut relay, &[0, 1], Some(offer(3))), (vec![0], true));
    assert!(relay.device(0).unwrap().ready_to_remove);
    assert!(!relay.device(1).unwrap().ready_to_remove);
    assert!(matches!(
        relay.process(ProcessEvent::Begin),
        ProcessAction::RemoveDevice { slot: 0, .. }
    ));
    assert_eq!(relay.process(ProcessEvent::DeviceRemoved), ProcessAction::Done);
}

#[test]
fn processing_keeps_devices_and_adds_those_of_buses() {
    let mut relay = VpciRelay::new(
        vec![offer(1), offer(2)],
        MemoryRange { start: START, end: START + 2 * SIZE },
        SIZE,
        None,
        VpciRelayOptions::default(),
    );
    let mut steps = 0;
    let mut event = ProcessEvent::Begin;
    loop {
        steps += 1;
        event = match relay.process(event) {
            ProcessAction::RemoveDevice { .. } => ProcessEvent::DeviceRemoved,
            ProcessAction::RelayBus(offer) => {
                if run(&mut relay, offer, vec![hw(1)], &[]).1.is_ok() {
                    ProcessEvent::BusRelayed
                } else {
                    ProcessEvent::BusFailed
                }
            }
            ProcessAction::Done => break,
            ProcessAction::Failed => panic!("there is room for both"),
        };
    }
    assert_eq!(steps, 3);
    assert_eq!(relay.device(0).unwrap().bus_instance_id, Guid(2));
    assert_eq!(relay.device(1).unwrap().bus_instance_id, Guid(1));
}
