//! Relaying one VPCI bus: the requests to make, and the decisions on their
//! replies.
use vstd::prelude::*;

use crate::guid::Guid;
use crate::hwid::HardwareIds;
use crate::relay::RelayState;
use crate::slots::RelayedDevice;

verus! {

/// The number of pages of the ring buffers of a bus channel.
pub const RING_PAGES: u16 = 20;

/// The page at which the second ring buffer of a bus channel begins.
pub const RING_OFFSET_IN_PAGES: u16 = 10;

/// A bus that the host offers.
#[derive(Debug, PartialEq, Eq)]
pub struct OfferInfo {
    /// The instance ID of the bus.
    pub instance_id: Guid,
    /// The instance ID as text.
    pub instance_text: String,
    /// The number by which the caller knows the offer.
    pub handle: u64,
}

/// Why a bus could not be relayed.
#[derive(Copy, Clone, Debug, PartialEq, Eq, Structural)]
pub enum BusError {
    /// No MMIO window is left.
    NoMmioSpace,
    /// The MMIO window could not be accessed.
    MemoryAccess,
    /// The bus channel could not be opened.
    Channel,
    /// The bus did not answer.
    Connect,
    /// The device could not be initialized.
    Init,
    /// The startup sequence of the device failed.
    StartupFlow,
    /// The device could not be added to the guest's chipset.
    AddDevice,
    /// The bus could not be added to the guest's chipset.
    AddBus,
}

/// The text that an error adds to what the failed request itself reported.
pub open spec fn bus_context(error: BusError) -> Option<Seq<char>> {
    match error {
        BusError::NoMmioSpace => Some("not enough MMIO space left"@),
        BusError::Init => Some("failed to initialize vpci device"@),
        _ => None,
    }
}

impl BusError {
    /// The text that the error adds to what the failed request itself reported.
    pub fn context(&self) -> (text: Option<&'static str>)
        ensures
            match text {
                Some(text) => bus_context(*self) == Some(text@),
                None => bus_context(*self) is None,
            },
    {
        match self {
            BusError::NoMmioSpace => Some("not enough MMIO space left"),
            BusError::Init => Some("failed to initialize vpci device"),
            _ => None,
        }
    }
}

/// How relaying a bus ended.
#[derive(Copy, Clone, Debug, PartialEq, Eq, Structural)]
pub enum BusOutcome {
    /// The device of the bus was relayed, and has the slot.
    Relayed { slot: usize },
    /// The bus has no device.
    NoDevice,
    /// The device of the bus is not allowed.
    NotAllowed,
    /// The bus could not be relayed.
    Failed(BusError),
}

impl BusOutcome {
    /// Whether the relay can go on to the next bus.
    pub fn is_ok(&self) -> (ok: bool)
        ensures
            ok <==> !(*self is Failed),
    {
        match self {
            BusOutcome::Failed(_) => false,
            _ => true,
        }
    }
}

/// The request that relaying a bus waits for.
#[derive(Copy, Clone, Debug, PartialEq, Eq, Structural)]
pub enum BusStage {
    /// Access to the MMIO window.
    MemoryAccess,
    /// Opening the bus channel.
    Channel,
    /// Connecting to the bus.
    Connect,
    /// Initializing the device.
    Init,
    /// The mock TDISP flow.
    MockFlow,
    /// The startup sequence of the device.
    StartupFlow,
    /// Adding the device to the guest's chipset.
    AddDevice,
    /// Adding the bus to the guest's chipset.
    AddBus,
    /// Starting what was added.
    StartUnits,
    /// Nothing: relaying the bus has ended.
    Finished,
}

/// A request that relaying a bus makes, or how it ended.
#[derive(Debug, PartialEq, Eq)]
pub enum BusAction {
    /// Get access to the MMIO window at `gpa`.
    CreateMemoryAccess { gpa: u64 },
    /// Open the channel that was offered.
    OpenChannel { handle: u64, ring_pages: u16, ring_offset_in_pages: u16 },
    /// Connect to the bus, and list its devices.
    Connect,
    /// Initialize the first device of the bus.
    InitDevice,
    /// Run the mock TDISP flow on the device.
    RunMockFlow,
    /// Run the TDISP startup sequence on the device.
    RunStartupFlow { mmio_gpa: u64, mmio_size: u64 },
    /// Add the device to the guest's chipset.
    AddDevice { name: String },
    /// Add a bus with the device to the guest's chipset.
    AddBus { name: String, instance_id: Guid, vtom: Option<u64> },
    /// Start what was added.
    StartUnits,
    /// Relaying the bus has ended.
    Finish(BusOutcome),
}

/// A [`BusAction`], with sequences for its texts.
pub enum BusStep {
    CreateMemoryAccess { gpa: u64 },
    OpenChannel { handle: u64, ring_pages: u16, ring_offset_in_pages: u16 },
    Connect,
    InitDevice,
    RunMockFlow,
    RunStartupFlow { mmio_gpa: u64, mmio_size: u64 },
    AddDevice { name: Seq<char> },
    AddBus { name: Seq<char>, instance_id: Guid, vtom: Option<u64> },
    StartUnits,
    Finish(BusOutcome),
}

impl View for BusAction {
    type V = BusStep;

    open spec fn view(&self) -> BusStep {
        match *self {
            BusAction::CreateMemoryAccess { gpa } => BusStep::CreateMemoryAccess { gpa },
            BusAction::OpenChannel { handle, ring_pages, ring_offset_in_pages } => {
                BusStep::OpenChannel { handle, ring_pages, ring_offset_in_pages }
            },
            BusAction::Connect => BusStep::Connect,
            BusAction::InitDevice => BusStep::InitDevice,
            BusAction::RunMockFlow => BusStep::RunMockFlow,
            BusAction::RunStartupFlow { mmio_gpa, mmio_size } => BusStep::RunStartupFlow {
                mmio_gpa,
                mmio_size,
            },
            BusAction::AddDevice { name } => BusStep::AddDevice { name: name@ },
            BusAction::AddBus { name, instance_id, vtom } => BusStep::AddBus {
                name: name@,
                instance_id,
                vtom,
            },
            BusAction::StartUnits => BusStep::StartUnits,
            BusAction::Finish(outcome) => BusStep::Finish(outcome),
        }
    }
}

/// The reply to a request.
///
/// A mock TDISP flow that fails is no reply: its device is not fit for a test.
#[derive(Debug, PartialEq, Eq)]
pub enum BusEvent {
    /// The request succeeded.
    Completed,
    /// The request failed.
    Failed,
    /// Connecting to the bus succeeded; these are the IDs of its devices.
    Connected(Vec<HardwareIds>),
}

/// A [`BusEvent`], with a sequence for its list.
pub enum BusReply {
    Completed,
    Failed,
    Connected(Seq<HardwareIds>),
}

impl View for BusEvent {
    type V = BusReply;

    open spec fn view(&self) -> BusReply {
        match *self {
            BusEvent::Completed => BusReply::Completed,
            BusEvent::Failed => BusReply::Failed,
            BusEvent::Connected(devices) => BusReply::Connected(devices@),
        }
    }
}

/// Whether a reply is one that the request can have.
pub open spec fn bus_answers(stage: BusStage, reply: BusReply) -> bool {
    match stage {
        BusStage::MemoryAccess | BusStage::Channel | BusStage::Init | BusStage::StartupFlow
        | BusStage::AddDevice | BusStage::AddBus => reply is Completed || reply is Failed,
        BusStage::Connect => reply is Connected || reply is Failed,
        BusStage::MockFlow | BusStage::StartUnits => reply is Completed,
        BusStage::Finished => false,
    }
}

/// The relaying of a bus, under way.
#[derive(Debug, PartialEq, Eq)]
pub struct BusFlow {
    /// The offer of the bus.
    pub offer: OfferInfo,
    /// The slot that the device will have.
    pub slot: usize,
    /// The first address of the slot's MMIO window.
    pub mmio_gpa: u64,
    /// The request that relaying the bus waits for.
    pub stage: BusStage,
}

/// Whether a relay is where the relaying of the bus left it: until the device is
/// in its slot, that slot is the next to be used, and its window fits.
pub open spec fn bus_flow_wf(state: RelayState, flow: BusFlow) -> bool {
    &&& flow.mmio_gpa == crate::mmio::window_start(
        state.mmio_range,
        state.mmio_per_device,
        flow.slot as nat,
    )
    &&& crate::mmio::window_fits(state.mmio_range, state.mmio_per_device, flow.slot as nat)
    &&& !(flow.stage is StartUnits) && !(flow.stage is Finished) ==> flow.slot
        == crate::slots::vacant_slot(state.devices, state.vacated)
}

/// The relaying of a bus, at its beginning: the device will have the next slot.
pub open spec fn bus_initial(state: RelayState, offer: OfferInfo) -> BusFlow {
    BusFlow {
        offer,
        slot: state.next_slot() as usize,
        mmio_gpa: crate::mmio::window_start(
            state.mmio_range,
            state.mmio_per_device,
            state.next_slot(),
        ) as u64,
        stage: BusStage::MemoryAccess,
    }
}

/// The name under which a device is added to the guest's chipset.
pub open spec fn device_name(instance_text: Seq<char>) -> Seq<char> {
    "assigned_device:vpci-"@ + instance_text
}

/// The name under which a bus is added to the guest's chipset.
pub open spec fn bus_name(instance_text: Seq<char>) -> Seq<char> {
    "vpci:"@ + instance_text
}

/// The relaying of the bus moves on to `stage` and makes the request `step`.
pub open spec fn bus_goto(state: RelayState, flow: BusFlow, stage: BusStage, step: BusStep) -> (
    RelayState,
    BusFlow,
    BusStep,
) {
    (state, BusFlow { stage, ..flow }, step)
}

/// The relaying of the bus ends.
pub open spec fn bus_end(state: RelayState, flow: BusFlow, outcome: BusOutcome) -> (
    RelayState,
    BusFlow,
    BusStep,
) {
    bus_goto(state, flow, BusStage::Finished, BusStep::Finish(outcome))
}

/// The relaying of the bus fails.
pub open spec fn bus_fail(state: RelayState, flow: BusFlow, error: BusError) -> (
    RelayState,
    BusFlow,
    BusStep,
) {
    bus_end(state, flow, BusOutcome::Failed(error))
}

/// The relaying of the bus goes on to add its device.
pub open spec fn bus_add_device(state: RelayState, flow: BusFlow) -> (
    RelayState,
    BusFlow,
    BusStep,
) {
    bus_goto(
        state,
        flow,
        BusStage::AddDevice,
        BusStep::AddDevice { name: device_name(flow.offer.instance_text@) },
    )
}

/// A relay once the device of the bus is in its slot.
pub open spec fn with_device(state: RelayState, flow: BusFlow) -> RelayState {
    RelayState {
        devices: state.devices.insert(
            flow.slot,
            RelayedDevice {
                bus_instance_id: flow.offer.instance_id,
                ready_to_remove: false,
            },
        ),
        vacated: crate::slots::vacated_after_insert(state.vacated),
        ..state
    }
}

/// What relaying a bus does on a reply: what becomes of the relay, where the
/// relaying stands afterwards, and the request that it makes next.
pub open spec fn bus_next(state: RelayState, flow: BusFlow, reply: BusReply) -> (
    RelayState,
    BusFlow,
    BusStep,
) {
    match flow.stage {
        BusStage::MemoryAccess => if reply is Failed {
            bus_fail(state, flow, BusError::MemoryAccess)
        } else {
            bus_goto(
                state,
                flow,
                BusStage::Channel,
                BusStep::OpenChannel {
                    handle: flow.offer.handle,
                    ring_pages: RING_PAGES,
                    ring_offset_in_pages: RING_OFFSET_IN_PAGES,
                },
            )
        },
        BusStage::Channel => if reply is Failed {
            bus_fail(state, flow, BusError::Channel)
        } else {
            bus_goto(state, flow, BusStage::Connect, BusStep::Connect)
        },
        BusStage::Connect => match reply {
            BusReply::Connected(devices) => if devices.len() == 0 {
                bus_end(state, flow, BusOutcome::NoDevice)
            } else if !crate::allowed::list_allows(state.allowed_devices, devices[0]) {
                bus_end(state, flow, BusOutcome::NotAllowed)
            } else {
                bus_goto(state, flow, BusStage::Init, BusStep::InitDevice)
            },
            _ => bus_fail(state, flow, BusError::Connect),
        },
        BusStage::Init => if reply is Failed {
            bus_fail(state, flow, BusError::Init)
        } else if state.options.test_tdisp_flow {
            bus_goto(state, flow, BusStage::MockFlow, BusStep::RunMockFlow)
        } else if state.options.startup_tdisp_flow {
            bus_goto(
                state,
                flow,
                BusStage::StartupFlow,
                BusStep::RunStartupFlow {
                    mmio_gpa: flow.mmio_gpa,
                    mmio_size: state.mmio_per_device,
                },
            )
        } else {
            bus_add_device(state, flow)
        },
        BusStage::MockFlow => bus_add_device(state, flow),
        BusStage::StartupFlow => if reply is Failed {
            bus_fail(state, flow, BusError::StartupFlow)
        } else {
            bus_add_device(state, flow)
        },
        BusStage::AddDevice => if reply is Failed {
            bus_fail(state, flow, BusError::AddDevice)
        } else {
            bus_goto(
                state,
                flow,
                BusStage::AddBus,
                BusStep::AddBus {
                    name: bus_name(flow.offer.instance_text@),
                    instance_id: flow.offer.instance_id,
                    vtom: state.vtom,
                },
            )
        },
        BusStage::AddBus => if reply is Failed {
            bus_fail(state, flow, BusError::AddBus)
        } else {
            bus_goto(with_device(state, flow), flow, BusStage::StartUnits, BusStep::StartUnits)
        },
        BusStage::StartUnits => bus_end(state, flow, BusOutcome::Relayed { slot: flow.slot }),
        BusStage::Finished => bus_end(state, flow, BusOutcome::NoDevice),
    }
}

impl BusFlow {
    /// The name under which the device is added to the guest's chipset.
    pub fn device_name(&self) -> (name: String)
        ensures
            name@ == device_name(self.offer.instance_text@),
            name@ == "assigned_device:vpci-"@ + self.offer.instance_text@,
    {
        String::from_str("assigned_device:vpci-").concat(self.offer.instance_text.as_str())
    }

    /// The name under which the bus is added to the guest's chipset.
    pub fn bus_name(&self) -> (name: String)
        ensures
            name@ == bus_name(self.offer.instance_text@),
            name@ == "vpci:"@ + self.offer.instance_text@,
    {
        String::from_str("vpci:").concat(self.offer.instance_text.as_str())
    }

    /// Moves on to `stage`.
    pub(crate) fn goto(&mut self, stage: BusStage, action: BusAction) -> (made: BusAction)
        ensures
            *final(self) == (BusFlow { stage, ..*old(self) }),
            made == action,
    {
        self.stage = stage;
        action
    }

    /// Ends the relaying of the bus.
    pub(crate) fn end(&mut self, outcome: BusOutcome) -> (made: BusAction)
        ensures
            *final(self) == (BusFlow { stage: BusStage::Finished, ..*old(self) }),
            made == BusAction::Finish(outcome),
    {
        self.goto(BusStage::Finished, BusAction::Finish(outcome))
    }

    /// Fails the relaying of the bus.
    pub(crate) fn fail(&mut self, error: BusError) -> (made: BusAction)
        ensures
            *final(self) == (BusFlow { stage: BusStage::Finished, ..*old(self) }),
            made == BusAction::Finish(BusOutcome::Failed(error)),
    {
        self.end(BusOutcome::Failed(error))
    }

    /// Goes on to add the device.
    pub(crate) fn add_device(&mut self) -> (made: BusAction)
        ensures
            *final(self) == (BusFlow { stage: BusStage::AddDevice, ..*old(self) }),
            made@ == (BusStep::AddDevice { name: device_name(old(self).offer.instance_text@) }),
    {
        let name = self.device_name();
        self.goto(BusStage::AddDevice, BusAction::AddDevice { name })
    }
}

} // verus!
