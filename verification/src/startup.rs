//! The startup sequence of a TDISP-capable device.
//!
//! The sequence alternates requests to the device and to the TDX module with
//! decisions on their replies. A [`StartupFlow`] makes the decisions: it names
//! the request to make next, and is told the reply.
use vstd::prelude::*;

use crate::report::{find_private_range, report_digest, MmioRange};
use crate::tdi::{DmarTarget, TdiRangeSizeOffset};

verus! {

/// The TDG.TDI.RD field that holds the state of the interface.
pub const TDI_RD_FIELD_GET_STATE: u64 = 2;

/// The TDG.TDI.RD field that holds the hash of the interface report.
pub const TDI_RD_FIELD_REPORT_HASH: u64 = 3;

/// The TDG.TDI.RD field that holds the bind session.
pub const TDI_RD_FIELD_BIND_SESSION: u64 = 5;

/// Why a startup sequence failed.
#[derive(Copy, Clone, Debug, PartialEq, Eq, Structural)]
pub enum StartupError {
    /// The device did not tell what it supports.
    TdiSupport,
    /// The device did not tell its ID.
    DeviceId,
    /// The device did not tell the status of its interface.
    InterfaceStatus,
    /// The state of the interface could not be read.
    ReadState,
    /// The bind session could not be read.
    ReadBindSession,
    /// The device did not hand out its interface report.
    Report,
    /// The interface report is malformed.
    MalformedReport,
    /// The TDX module did not start the interface.
    Start,
    /// The MMIO size is not a whole number of pages.
    MmioUnaligned,
    /// The number of MMIO pages does not fit its field.
    MmioTooLarge,
    /// The interface report lists no private range.
    NoPrivateRange,
}

/// The text that an error adds to what the failed request itself reported.
pub open spec fn startup_context(error: StartupError) -> Option<Seq<char>> {
    match error {
        StartupError::TdiSupport => Some("failed to retrieve TDI support"@),
        StartupError::DeviceId => Some("failed to retrieve TDI device ID"@),
        StartupError::InterfaceStatus => Some("failed to retrieve TDI interface status"@),
        StartupError::ReadState => None,
        StartupError::ReadBindSession => None,
        StartupError::Report => Some("failed to retrieve TDI report"@),
        StartupError::MalformedReport => Some("failed to deserialize TDI report"@),
        StartupError::Start => Some("failed TDG.TDI.START tdcall"@),
        StartupError::MmioUnaligned => Some(
            "MMIO size is not page-aligned for TDI range size field"@,
        ),
        StartupError::MmioTooLarge => Some(
            "MMIO page count exceeds 32-bit TDI range size field"@,
        ),
        StartupError::NoPrivateRange => Some("no private MMIO range found in TDI report"@),
    }
}

impl StartupError {
    /// The text that the error adds to what the failed request itself reported.
    pub fn context(&self) -> (text: Option<&'static str>)
        ensures
            match text {
                Some(text) => startup_context(*self) == Some(text@),
                None => startup_context(*self) is None,
            },
    {
        match self {
            StartupError::TdiSupport => Some("failed to retrieve TDI support"),
            StartupError::DeviceId => Some("failed to retrieve TDI device ID"),
            StartupError::InterfaceStatus => Some("failed to retrieve TDI interface status"),
            StartupError::ReadState => None,
            StartupError::ReadBindSession => None,
            StartupError::Report => Some("failed to retrieve TDI report"),
            StartupError::MalformedReport => Some("failed to deserialize TDI report"),
            StartupError::Start => Some("failed TDG.TDI.START tdcall"),
            StartupError::MmioUnaligned => {
                Some("MMIO size is not page-aligned for TDI range size field")
            },
            StartupError::MmioTooLarge => {
                Some("MMIO page count exceeds 32-bit TDI range size field")
            },
            StartupError::NoPrivateRange => Some("no private MMIO range found in TDI report"),
        }
    }
}

/// How a startup sequence ended.
#[derive(Copy, Clone, Debug, PartialEq, Eq, Structural)]
pub enum StartupOutcome {
    /// The device does not speak TDISP, and nothing was done to it.
    NotTdisp,
    /// The sequence ran to its end.
    Completed,
    /// The sequence failed.
    Failed(StartupError),
}

/// The request that a startup sequence waits for, with what it has learned.
#[derive(Copy, Clone, Debug, PartialEq, Eq, Structural)]
pub enum StartupStage {
    /// The device's interface information.
    InterfaceInfo,
    /// What the device supports.
    TdiSupport,
    /// The device's ID.
    DeviceId,
    /// Binding the interface.
    Bind { id: u64 },
    /// The status of the interface.
    Status { id: u64 },
    /// Reading the state of the interface.
    ReadState { id: u64 },
    /// Reading the bind session.
    ReadBindSession { id: u64 },
    /// Reading the hash of the interface report.
    ReadReportHash { id: u64, session: u64 },
    /// The interface report.
    Report { id: u64, session: u64 },
    /// Deserializing the interface report.
    Deserialize { id: u64, session: u64 },
    /// Starting the interface in the TDX module.
    TdiStart { id: u64, private: Option<u32> },
    /// Starting the device.
    StartDevice { id: u64, private: Option<u32> },
    /// Accepting the device's DMA.
    DmarAccept,
    /// Nothing: the sequence has ended.
    Finished,
}

/// A request that a startup sequence makes, or how it ended.
#[derive(Debug, PartialEq, Eq)]
pub enum StartupAction {
    /// Ask the device for its interface information.
    GetInterfaceInfo,
    /// Ask the device what it supports.
    GetTdiSupport,
    /// Ask the device for its ID.
    GetTdiDeviceId,
    /// Ask the device to bind its interface.
    BindInterface,
    /// Ask the device for the status of its interface.
    GetInterfaceStatus,
    /// Make the tdcall TDG.TDI.RD.
    TdiRd { gfunction_id: u64, field: u64, out_buf: u64 },
    /// Ask the device for its interface report.
    GetDeviceReport,
    /// Deserialize the interface report. `digest` is its SHA-384 digest in
    /// hexadecimal, for the record.
    DeserializeReport { report: Vec<u8>, digest: String },
    /// Make the tdcall TDG.TDI.START.
    TdiStart { gfunction_id: u64, bind_session_id: u64 },
    /// Ask the device to start its interface.
    StartDevice,
    /// Make the tdcall TDG.DMAR.ACCEPT. `range` is the device's private MMIO
    /// range, for the record.
    DmarAccept { gfunction_id: u64, target: u64, range: TdiRangeSizeOffset },
    /// The sequence has ended.
    Finish(StartupOutcome),
}

/// A [`StartupAction`], with sequences for its buffers.
pub enum StartupStep {
    GetInterfaceInfo,
    GetTdiSupport,
    GetTdiDeviceId,
    BindInterface,
    GetInterfaceStatus,
    TdiRd { gfunction_id: u64, field: u64, out_buf: u64 },
    GetDeviceReport,
    DeserializeReport { report: Seq<u8>, digest: Seq<char> },
    TdiStart { gfunction_id: u64, bind_session_id: u64 },
    StartDevice,
    DmarAccept { gfunction_id: u64, target: u64, range: TdiRangeSizeOffset },
    Finish(StartupOutcome),
}

impl View for StartupAction {
    type V = StartupStep;

    open spec fn view(&self) -> StartupStep {
        match *self {
            StartupAction::GetInterfaceInfo => StartupStep::GetInterfaceInfo,
            StartupAction::GetTdiSupport => StartupStep::GetTdiSupport,
            StartupAction::GetTdiDeviceId => StartupStep::GetTdiDeviceId,
            StartupAction::BindInterface => StartupStep::BindInterface,
            StartupAction::GetInterfaceStatus => StartupStep::GetInterfaceStatus,
            StartupAction::TdiRd { gfunction_id, field, out_buf } => StartupStep::TdiRd {
                gfunction_id,
                field,
                out_buf,
            },
            StartupAction::GetDeviceReport => StartupStep::GetDeviceReport,
            StartupAction::DeserializeReport { report, digest } => StartupStep::DeserializeReport {
                report: report@,
                digest: digest@,
            },
            StartupAction::TdiStart { gfunction_id, bind_session_id } => StartupStep::TdiStart {
                gfunction_id,
                bind_session_id,
            },
            StartupAction::StartDevice => StartupStep::StartDevice,
            StartupAction::DmarAccept { gfunction_id, target, range } => StartupStep::DmarAccept {
                gfunction_id,
                target,
                range,
            },
            StartupAction::Finish(outcome) => StartupStep::Finish(outcome),
        }
    }
}

/// The reply to a request.
#[derive(Debug, PartialEq, Eq)]
pub enum StartupEvent {
    /// The request succeeded, and told nothing that the sequence uses.
    Completed,
    /// The request failed.
    Failed,
    /// The request succeeded and told a number.
    Value(u64),
    /// The request succeeded and told the interface report.
    Report(Vec<u8>),
    /// The request succeeded and told the MMIO ranges of the interface report.
    Ranges(Vec<MmioRange>),
}

/// A [`StartupEvent`], with sequences for its buffers.
pub enum StartupReply {
    Completed,
    Failed,
    Value(u64),
    Report(Seq<u8>),
    Ranges(Seq<MmioRange>),
}

impl View for StartupEvent {
    type V = StartupReply;

    open spec fn view(&self) -> StartupReply {
        match *self {
            StartupEvent::Completed => StartupReply::Completed,
            StartupEvent::Failed => StartupReply::Failed,
            StartupEvent::Value(value) => StartupReply::Value(value),
            StartupEvent::Report(report) => StartupReply::Report(report@),
            StartupEvent::Ranges(ranges) => StartupReply::Ranges(ranges@),
        }
    }
}

/// Whether a reply is one that the request can have.
pub open spec fn startup_answers(stage: StartupStage, reply: StartupReply) -> bool {
    match stage {
        StartupStage::InterfaceInfo | StartupStage::TdiSupport | StartupStage::Bind { .. }
        | StartupStage::Status { .. } | StartupStage::TdiStart { .. }
        | StartupStage::StartDevice { .. } | StartupStage::DmarAccept => {
            reply is Completed || reply is Failed
        },
        StartupStage::DeviceId | StartupStage::ReadState { .. }
        | StartupStage::ReadBindSession { .. } | StartupStage::ReadReportHash { .. } => {
            reply is Value || reply is Failed
        },
        StartupStage::Report { .. } => reply is Report || reply is Failed,
        StartupStage::Deserialize { .. } => reply is Ranges || reply is Failed,
        StartupStage::Finished => false,
    }
}

/// A startup sequence under way.
#[derive(Copy, Clone, Debug, PartialEq, Eq, Structural)]
pub struct StartupFlow {
    /// The size of the device's MMIO space.
    pub mmio_size: u64,
    /// The size of a page.
    pub page_size: u64,
    /// The request that the sequence waits for.
    pub stage: StartupStage,
}

/// The device's private MMIO range, as the TDX module takes it, or why it cannot
/// be told. `private` is the number of the range in the interface report.
pub open spec fn range_params(mmio_size: u64, page_size: u64, private: Option<u32>) -> Result<
    TdiRangeSizeOffset,
    StartupError,
> {
    if mmio_size % page_size != 0 {
        Err(StartupError::MmioUnaligned)
    } else if mmio_size / page_size > u32::MAX {
        Err(StartupError::MmioTooLarge)
    } else {
        match private {
            Some(range_offset) => Ok(
                TdiRangeSizeOffset {
                    range_size: (mmio_size / page_size) as u32,
                    range_offset,
                },
            ),
            None => Err(StartupError::NoPrivateRange),
        }
    }
}

/// Works out the device's private MMIO range.
pub fn mmio_range_params(mmio_size: u64, page_size: u64, private: Option<u32>) -> (params: Result<
    TdiRangeSizeOffset,
    StartupError,
>)
    requires
        page_size > 0,
    ensures
        params == range_params(mmio_size, page_size, private),
        match params {
            Ok(range) => {
                &&& mmio_size % page_size == 0
                &&& range.range_size == mmio_size / page_size
                &&& private == Some(range.range_offset)
            },
            Err(StartupError::MmioUnaligned) => mmio_size % page_size != 0,
            Err(StartupError::MmioTooLarge) => mmio_size % page_size == 0 && mmio_size / page_size
                > 0xffff_ffff,
            Err(StartupError::NoPrivateRange) => mmio_size % page_size == 0 && mmio_size / page_size
                <= 0xffff_ffff && private is None,
            Err(_) => false,
        },
{
    if mmio_size % page_size != 0 {
        return Err(StartupError::MmioUnaligned);
    }
    let pages: u64 = mmio_size / page_size;
    if pages > u32::MAX as u64 {
        return Err(StartupError::MmioTooLarge);
    }
    match private {
        Some(range_offset) => Ok(TdiRangeSizeOffset { range_size: pages as u32, range_offset }),
        None => Err(StartupError::NoPrivateRange),
    }
}

/// The sequence moves on to `stage` and makes the request `step`.
pub open spec fn startup_goto(flow: StartupFlow, stage: StartupStage, step: StartupStep) -> (
    StartupFlow,
    StartupStep,
) {
    (StartupFlow { stage, ..flow }, step)
}

/// The sequence ends.
pub open spec fn startup_end(flow: StartupFlow, outcome: StartupOutcome) -> (
    StartupFlow,
    StartupStep,
) {
    startup_goto(flow, StartupStage::Finished, StartupStep::Finish(outcome))
}

/// The sequence fails.
pub open spec fn startup_fail(flow: StartupFlow, error: StartupError) -> (
    StartupFlow,
    StartupStep,
) {
    startup_end(flow, StartupOutcome::Failed(error))
}

/// What a startup sequence does on a reply: where it stands afterwards, and the
/// request that it makes next.
pub open spec fn startup_next(flow: StartupFlow, reply: StartupReply) -> (
    StartupFlow,
    StartupStep,
) {
    match flow.stage {
        StartupStage::InterfaceInfo => if reply is Failed {
            startup_end(flow, StartupOutcome::NotTdisp)
        } else {
            startup_goto(flow, StartupStage::TdiSupport, StartupStep::GetTdiSupport)
        },
        StartupStage::TdiSupport => if reply is Failed {
            startup_fail(flow, StartupError::TdiSupport)
        } else {
            startup_goto(flow, StartupStage::DeviceId, StartupStep::GetTdiDeviceId)
        },
        StartupStage::DeviceId => match reply {
            StartupReply::Value(id) => startup_goto(
                flow,
                StartupStage::Bind { id },
                StartupStep::BindInterface,
            ),
            _ => startup_fail(flow, StartupError::DeviceId),
        },
        StartupStage::Bind { id } => startup_goto(
            flow,
            StartupStage::Status { id },
            StartupStep::GetInterfaceStatus,
        ),
        StartupStage::Status { id } => if reply is Failed {
            startup_fail(flow, StartupError::InterfaceStatus)
        } else {
            startup_goto(
                flow,
                StartupStage::ReadState { id },
                StartupStep::TdiRd {
                    gfunction_id: id,
                    field: TDI_RD_FIELD_GET_STATE,
                    out_buf: 0,
                },
            )
        },
        StartupStage::ReadState { id } => if reply is Failed {
            startup_fail(flow, StartupError::ReadState)
        } else {
            startup_goto(
                flow,
                StartupStage::ReadBindSession { id },
                StartupStep::TdiRd {
                    gfunction_id: id,
                    field: TDI_RD_FIELD_BIND_SESSION,
                    out_buf: 0,
                },
            )
        },
        StartupStage::ReadBindSession { id } => match reply {
            StartupReply::Value(session) => startup_goto(
                flow,
                StartupStage::ReadReportHash { id, session },
                StartupStep::TdiRd {
                    gfunction_id: id,
                    field: TDI_RD_FIELD_REPORT_HASH,
                    out_buf: 0,
                },
            ),
            _ => startup_fail(flow, StartupError::ReadBindSession),
        },
        StartupStage::ReadReportHash { id, session } => startup_goto(
            flow,
            StartupStage::Report { id, session },
            StartupStep::GetDeviceReport,
        ),
        StartupStage::Report { id, session } => match reply {
            StartupReply::Report(report) => startup_goto(
                flow,
                StartupStage::Deserialize { id, session },
                StartupStep::DeserializeReport {
                    report,
                    digest: crate::report::hex_lower(crate::report::sha384(report)),
                },
            ),
            _ => startup_fail(flow, StartupError::Report),
        },
        StartupStage::Deserialize { id, session } => match reply {
            StartupReply::Ranges(ranges) => startup_goto(
                flow,
                StartupStage::TdiStart { id, private: crate::report::private_range(ranges) },
                StartupStep::TdiStart { gfunction_id: id, bind_session_id: session },
            ),
            _ => startup_fail(flow, StartupError::MalformedReport),
        },
        StartupStage::TdiStart { id, private } => if reply is Failed {
            startup_fail(flow, StartupError::Start)
        } else {
            startup_goto(flow, StartupStage::StartDevice { id, private }, StartupStep::StartDevice)
        },
        StartupStage::StartDevice { id, private } => match range_params(
            flow.mmio_size,
            flow.page_size,
            private,
        ) {
            Ok(range) => startup_goto(
                flow,
                StartupStage::DmarAccept,
                StartupStep::DmarAccept { gfunction_id: id, target: 1, range },
            ),
            Err(error) => startup_fail(flow, error),
        },
        StartupStage::DmarAccept => startup_end(flow, StartupOutcome::Completed),
        StartupStage::Finished => (flow, StartupStep::Finish(StartupOutcome::Completed)),
    }
}

/// A startup sequence at its beginning.
pub open spec fn startup_initial(mmio_size: u64, page_size: u64) -> StartupFlow {
    StartupFlow { mmio_size, page_size, stage: StartupStage::InterfaceInfo }
}

impl StartupFlow {
    /// Begins the startup sequence of a device with `mmio_size` bytes of MMIO
    /// space, and names its first request.
    pub fn begin(mmio_size: u64, page_size: u64) -> (begun: (StartupFlow, StartupAction))
        requires
            page_size > 0,
        ensures
            begun.0 == startup_initial(mmio_size, page_size),
            begun.0.mmio_size == mmio_size,
            begun.0.page_size == page_size,
            begun.0.stage == StartupStage::InterfaceInfo,
            begun.1@ == StartupStep::GetInterfaceInfo,
    {
        (
            StartupFlow { mmio_size, page_size, stage: StartupStage::InterfaceInfo },
            StartupAction::GetInterfaceInfo,
        )
    }

    /// Takes the reply to the request that the sequence waits for, and names the
    /// next one.
    ///
    /// A device that does not tell its interface information is skipped. That
    /// binding the interface, reading the report's hash, starting the device or
    /// accepting its DMA fails does not end the sequence.
    pub fn step(&mut self, event: StartupEvent) -> (action: StartupAction)
        requires
            old(self).page_size > 0,
            startup_answers(old(self).stage, event@),
        ensures
            (*final(self), action@) == startup_next(*old(self), event@),
    {
        match self.stage {
            StartupStage::InterfaceInfo => match event {
                StartupEvent::Failed => self.end(StartupOutcome::NotTdisp),
                _ => {
                    self.stage = StartupStage::TdiSupport;
                    StartupAction::GetTdiSupport
                },
            },
            StartupStage::TdiSupport => match event {
                StartupEvent::Failed => self.fail(StartupError::TdiSupport),
                _ => {
                    self.stage = StartupStage::DeviceId;
                    StartupAction::GetTdiDeviceId
                },
            },
            StartupStage::DeviceId => match event {
                StartupEvent::Value(id) => {
                    self.stage = StartupStage::Bind { id };
                    StartupAction::BindInterface
                },
                _ => self.fail(StartupError::DeviceId),
            },
            StartupStage::Bind { id } => {
                self.stage = StartupStage::Status { id };
                StartupAction::GetInterfaceStatus
            },
            StartupStage::Status { id } => match event {
                StartupEvent::Failed => self.fail(StartupError::InterfaceStatus),
                _ => {
                    self.stage = StartupStage::ReadState { id };
                    StartupAction::TdiRd {
                        gfunction_id: id,
                        field: TDI_RD_FIELD_GET_STATE,
                        out_buf: 0,
                    }
                },
            },
            StartupStage::ReadState { id } => match event {
                StartupEvent::Failed => self.fail(StartupError::ReadState),
                _ => {
                    self.stage = StartupStage::ReadBindSession { id };
                    StartupAction::TdiRd {
                        gfunction_id: id,
                        field: TDI_RD_FIELD_BIND_SESSION,
                        out_buf: 0,
                    }
                },
            },
            StartupStage::ReadBindSession { id } => match event {
                StartupEvent::Value(session) => {
                    self.stage = StartupStage::ReadReportHash { id, session };
                    StartupAction::TdiRd {
                        gfunction_id: id,
                        field: TDI_RD_FIELD_REPORT_HASH,
                        out_buf: 0,
                    }
                },
                _ => self.fail(StartupError::ReadBindSession),
            },
            StartupStage::ReadReportHash { id, session } => {
                self.stage = StartupStage::Report { id, session };
                StartupAction::GetDeviceReport
            },
            StartupStage::Report { id, session } => match event {
                StartupEvent::Report(report) => {
                    let digest = report_digest(report.as_slice());
                    self.stage = StartupStage::Deserialize { id, session };
                    StartupAction::DeserializeReport { report, digest }
                },
                _ => self.fail(StartupError::Report),
            },
            StartupStage::Deserialize { id, session } => match event {
                StartupEvent::Ranges(ranges) => {
                    let private = find_private_range(ranges.as_slice());
                    self.stage = StartupStage::TdiStart { id, private };
                    StartupAction::TdiStart { gfunction_id: id, bind_session_id: session }
                },
                _ => self.fail(StartupError::MalformedReport),
            },
            StartupStage::TdiStart { id, private } => match event {
                StartupEvent::Failed => self.fail(StartupError::Start),
                _ => {
                    self.stage = StartupStage::StartDevice { id, private };
                    StartupAction::StartDevice
                },
            },
            StartupStage::StartDevice { id, private } => {
                match mmio_range_params(self.mmio_size, self.page_size, private) {
                    Ok(range) => {
                        let dmar_target = DmarTarget { vm_idx: 1, reserved: [0;7] };
                        let target: u64 = dmar_target.to_u64();
                        proof {
                            reveal_with_fuel(crate::tdi::le_value, 9);
                        }
                        self.stage = StartupStage::DmarAccept;
                        StartupAction::DmarAccept { gfunction_id: id, target, range }
                    },
                    Err(error) => self.fail(error),
                }
            },
            StartupStage::DmarAccept => self.end(StartupOutcome::Completed),
            StartupStage::Finished => StartupAction::Finish(StartupOutcome::Completed),
        }
    }

    /// Ends the sequence.
    fn end(&mut self, outcome: StartupOutcome) -> (action: StartupAction)
        ensures
            (*final(self), action@) == startup_end(*old(self), outcome),
    {
        self.stage = StartupStage::Finished;
        StartupAction::Finish(outcome)
    }

    /// Fails the sequence.
    fn fail(&mut self, error: StartupError) -> (action: StartupAction)
        ensures
            (*final(self), action@) == startup_fail(*old(self), error),
    {
        self.end(StartupOutcome::Failed(error))
    }
}

} // verus!
