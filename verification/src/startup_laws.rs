//! What holds of a startup sequence from its first request to its end.
use vstd::prelude::*;

verus! {

use crate::report::{law_private_range_is_first, private_range, MmioRange};
use crate::startup::{
    range_params, startup_answers, startup_context, startup_initial, startup_next, StartupAction,
    StartupError, StartupEvent, StartupFlow, StartupOutcome, StartupReply, StartupStage,
    StartupStep, TDI_RD_FIELD_BIND_SESSION, TDI_RD_FIELD_GET_STATE, TDI_RD_FIELD_REPORT_HASH,
};

/// What a device and the TDX module reply to each request, were it made. A
/// request without a result fails where its field is false; one with a result
/// fails where its field is `None`.
pub struct StartupReplies {
    pub interface_info: bool,
    pub tdi_support: bool,
    pub device_id: Option<u64>,
    pub bind: bool,
    pub status: bool,
    pub state: Option<u64>,
    pub bind_session: Option<u64>,
    pub report_hash: Option<u64>,
    pub report: Option<Seq<u8>>,
    pub ranges: Option<Seq<MmioRange>>,
    pub tdi_start: bool,
    pub start_device: bool,
    pub dmar: bool,
}

/// The reply to a request without a result.
pub open spec fn unit_reply(succeeds: bool) -> StartupReply {
    if succeeds {
        StartupReply::Completed
    } else {
        StartupReply::Failed
    }
}

/// The reply to a request that tells a number.
pub open spec fn value_reply(value: Option<u64>) -> StartupReply {
    match value {
        Some(value) => StartupReply::Value(value),
        None => StartupReply::Failed,
    }
}

impl StartupReplies {
    /// The reply to the request of a stage.
    pub open spec fn reply(self, stage: StartupStage) -> StartupReply {
        match stage {
            StartupStage::InterfaceInfo => unit_reply(self.interface_info),
            StartupStage::TdiSupport => unit_reply(self.tdi_support),
            StartupStage::DeviceId => value_reply(self.device_id),
            StartupStage::Bind { .. } => unit_reply(self.bind),
            StartupStage::Status { .. } => unit_reply(self.status),
            StartupStage::ReadState { .. } => value_reply(self.state),
            StartupStage::ReadBindSession { .. } => value_reply(self.bind_session),
            StartupStage::ReadReportHash { .. } => value_reply(self.report_hash),
            StartupStage::Report { .. } => match self.report {
                Some(report) => StartupReply::Report(report),
                None => StartupReply::Failed,
            },
            StartupStage::Deserialize { .. } => match self.ranges {
                Some(ranges) => StartupReply::Ranges(ranges),
                None => StartupReply::Failed,
            },
            StartupStage::TdiStart { .. } => unit_reply(self.tdi_start),
            StartupStage::StartDevice { .. } => unit_reply(self.start_device),
            StartupStage::DmarAccept => unit_reply(self.dmar),
            StartupStage::Finished => StartupReply::Completed,
        }
    }
}

/// How many requests a sequence has left at most.
pub open spec fn requests_left(stage: StartupStage) -> nat {
    match stage {
        StartupStage::InterfaceInfo => 13,
        StartupStage::TdiSupport => 12,
        StartupStage::DeviceId => 11,
        StartupStage::Bind { .. } => 10,
        StartupStage::Status { .. } => 9,
        StartupStage::ReadState { .. } => 8,
        StartupStage::ReadBindSession { .. } => 7,
        StartupStage::ReadReportHash { .. } => 6,
        StartupStage::Report { .. } => 5,
        StartupStage::Deserialize { .. } => 4,
        StartupStage::TdiStart { .. } => 3,
        StartupStage::StartDevice { .. } => 2,
        StartupStage::DmarAccept => 1,
        StartupStage::Finished => 0,
    }
}

/// Everything that a sequence does from `flow` on, once it has done `step`: each
/// request in turn, and the end.
pub open spec fn startup_run(replies: StartupReplies, flow: StartupFlow, step: StartupStep) -> Seq<
    StartupStep,
>
    decreases requests_left(flow.stage),
{
    if flow.stage is Finished {
        seq![step]
    } else {
        let (next_flow, next_step) = startup_next(flow, replies.reply(flow.stage));
        seq![step] + startup_run(replies, next_flow, next_step)
    }
}

/// Everything that the startup sequence of a device does.
pub open spec fn startup_trace(replies: StartupReplies, mmio_size: u64, page_size: u64) -> Seq<
    StartupStep,
> {
    startup_run(
        replies,
        startup_initial(mmio_size, page_size),
        StartupStep::GetInterfaceInfo,
    )
}

/// How the startup sequence of a device ends.
pub open spec fn startup_outcome(
    replies: StartupReplies,
    mmio_size: u64,
    page_size: u64,
) -> StartupOutcome {
    if !replies.interface_info {
        StartupOutcome::NotTdisp
    } else if !replies.tdi_support {
        StartupOutcome::Failed(StartupError::TdiSupport)
    } else if replies.device_id is None {
        StartupOutcome::Failed(StartupError::DeviceId)
    } else if !replies.status {
        StartupOutcome::Failed(StartupError::InterfaceStatus)
    } else if replies.state is None {
        StartupOutcome::Failed(StartupError::ReadState)
    } else if replies.bind_session is None {
        StartupOutcome::Failed(StartupError::ReadBindSession)
    } else if replies.report is None {
        StartupOutcome::Failed(StartupError::Report)
    } else if replies.ranges is None {
        StartupOutcome::Failed(StartupError::MalformedReport)
    } else if !replies.tdi_start {
        StartupOutcome::Failed(StartupError::Start)
    } else {
        match range_params(mmio_size, page_size, private_range(replies.ranges->0)) {
            Ok(_) => StartupOutcome::Completed,
            Err(error) => StartupOutcome::Failed(error),
        }
    }
}

/// The sequence is always given a reply that it accepts, whatever the device and
/// the TDX module do.
pub proof fn law_startup_replies_are_accepted(replies: StartupReplies, stage: StartupStage)
    requires
        !(stage is Finished),
    ensures
        startup_answers(stage, replies.reply(stage)),
{
}

/// Every sequence ends: it makes at most thirteen requests, and only its last
/// step is an end.
pub proof fn law_startup_ends(replies: StartupReplies, mmio_size: u64, page_size: u64)
    ensures
        2 <= startup_trace(replies, mmio_size, page_size).len() <= 14,
        forall|i: int|
            0 <= i < startup_trace(replies, mmio_size, page_size).len() ==> ((
            #[trigger] startup_trace(replies, mmio_size, page_size)[i]) is Finish <==> i
                == startup_trace(replies, mmio_size, page_size).len() - 1),
{
    let flow = startup_initial(mmio_size, page_size);
    lemma_run_ends(replies, flow, StartupStep::GetInterfaceInfo);
    assert(startup_run(replies, flow, StartupStep::GetInterfaceInfo).len() >= 2) by {
        let (next_flow, next_step) = startup_next(flow, replies.reply(flow.stage));
        lemma_run_ends(replies, next_flow, next_step);
    }
}

proof fn lemma_run_ends(replies: StartupReplies, flow: StartupFlow, step: StartupStep)
    requires
        flow.stage is Finished <==> step is Finish,
    ensures
        1 <= startup_run(replies, flow, step).len() <= requests_left(flow.stage) + 1,
        forall|i: int|
            0 <= i < startup_run(replies, flow, step).len() ==> ((
            #[trigger] startup_run(replies, flow, step)[i]) is Finish <==> i == startup_run(
                replies,
                flow,
                step,
            ).len() - 1),
    decreases requests_left(flow.stage),
{
    if !(flow.stage is Finished) {
        let (next_flow, next_step) = startup_next(flow, replies.reply(flow.stage));
        lemma_run_ends(replies, next_flow, next_step);
        let rest = startup_run(replies, next_flow, next_step);
        let run = startup_run(replies, flow, step);
        assert forall|i: int| 0 <= i < run.len() implies ((#[trigger] run[i]) is Finish <==> i
            == run.len() - 1) by {
            if i > 0 {
                assert(run[i] == rest[i - 1]);
            }
        }
    }
}

/// The requests of a startup sequence, in their order, with what they hand over
/// where the replies before them succeed.
pub open spec fn startup_requests(
    replies: StartupReplies,
    mmio_size: u64,
    page_size: u64,
) -> Seq<StartupStep> {
    let id = replies.device_id->0;
    seq![
        StartupStep::GetInterfaceInfo,
        StartupStep::GetTdiSupport,
        StartupStep::GetTdiDeviceId,
        StartupStep::BindInterface,
        StartupStep::GetInterfaceStatus,
        StartupStep::TdiRd { gfunction_id: id, field: TDI_RD_FIELD_GET_STATE, out_buf: 0 },
        StartupStep::TdiRd { gfunction_id: id, field: TDI_RD_FIELD_BIND_SESSION, out_buf: 0 },
        StartupStep::TdiRd { gfunction_id: id, field: TDI_RD_FIELD_REPORT_HASH, out_buf: 0 },
        StartupStep::GetDeviceReport,
        StartupStep::DeserializeReport {
            report: replies.report->0,
            digest: crate::report::hex_lower(crate::report::sha384(replies.report->0)),
        },
        StartupStep::TdiStart {
            gfunction_id: id,
            bind_session_id: replies.bind_session->0,
        },
        StartupStep::StartDevice,
        StartupStep::DmarAccept {
            gfunction_id: id,
            target: 1,
            range: range_params(mmio_size, page_size, private_range(replies.ranges->0))->Ok_0,
        },
    ]
}

/// How many requests a sequence has made when it ends.
pub open spec fn requests_made(outcome: StartupOutcome) -> int {
    match outcome {
        StartupOutcome::NotTdisp => 1,
        StartupOutcome::Completed => 13,
        StartupOutcome::Failed(error) => match error {
            StartupError::TdiSupport => 2,
            StartupError::DeviceId => 3,
            StartupError::InterfaceStatus => 5,
            StartupError::ReadState => 6,
            StartupError::ReadBindSession => 7,
            StartupError::Report => 9,
            StartupError::MalformedReport => 10,
            StartupError::Start => 11,
            StartupError::MmioUnaligned
            | StartupError::MmioTooLarge
            | StartupError::NoPrivateRange => 12,
        },
    }
}

/// The outcome of a sequence: the first reply that it cannot do without decides,
/// and the requests up to that one are made, each once and in their order.
/// A device that does not speak TDISP is skipped. Failures of binding the
/// interface, of reading the report's hash, of starting the device and of
/// accepting its DMA do not show in the outcome.
pub proof fn law_startup_outcome(replies: StartupReplies, mmio_size: u64, page_size: u64)
    ensures
        startup_trace(replies, mmio_size, page_size) == startup_requests(
            replies,
            mmio_size,
            page_size,
        ).take(requests_made(startup_outcome(replies, mmio_size, page_size))).push(
            StartupStep::Finish(startup_outcome(replies, mmio_size, page_size)),
        ),
{
    reveal_with_fuel(startup_run, 14);
    assert(startup_trace(replies, mmio_size, page_size) =~= startup_requests(
        replies,
        mmio_size,
        page_size,
    ).take(requests_made(startup_outcome(replies, mmio_size, page_size))).push(
        StartupStep::Finish(startup_outcome(replies, mmio_size, page_size)),
    ));
}

/// A device that does not speak TDISP is asked one question and then left alone.
pub proof fn law_startup_skips_other_devices(
    replies: StartupReplies,
    mmio_size: u64,
    page_size: u64,
)
    requires
        !replies.interface_info,
    ensures
        startup_trace(replies, mmio_size, page_size) == seq![
            StartupStep::GetInterfaceInfo,
            StartupStep::Finish(StartupOutcome::NotTdisp),
        ],
{
    reveal_with_fuel(startup_run, 2);
}

/// Whether a step is in order, given the replies.
pub open spec fn step_in_order(
    replies: StartupReplies,
    mmio_size: u64,
    page_size: u64,
    step: StartupStep,
) -> bool {
    match step {
        StartupStep::TdiRd { gfunction_id, field, out_buf } => {
            &&& replies.device_id == Some(gfunction_id)
            &&& replies.status
            &&& field == TDI_RD_FIELD_GET_STATE || field == TDI_RD_FIELD_BIND_SESSION || field
                == TDI_RD_FIELD_REPORT_HASH
            &&& out_buf == 0
        },
        StartupStep::DeserializeReport { report, digest } => {
            &&& replies.report == Some(report)
            &&& digest == crate::report::hex_lower(crate::report::sha384(report))
        },
        StartupStep::TdiStart { gfunction_id, bind_session_id } => {
            &&& replies.device_id == Some(gfunction_id)
            &&& replies.bind_session == Some(bind_session_id)
            &&& replies.report is Some
            &&& replies.ranges is Some
        },
        StartupStep::StartDevice => replies.tdi_start,
        StartupStep::DmarAccept { gfunction_id, target, range } => {
            &&& replies.device_id == Some(gfunction_id)
            &&& replies.tdi_start
            &&& replies.ranges is Some
            &&& range_params(mmio_size, page_size, private_range(replies.ranges->0)) == Ok::<
                _,
                StartupError,
            >(range)
            &&& target == 1
        },
        _ => true,
    }
}

/// Whether what a sequence has learned is what it was told.
pub open spec fn flow_remembers(replies: StartupReplies, stage: StartupStage) -> bool {
    match stage {
        StartupStage::Bind { id } | StartupStage::Status { id } => replies.device_id == Some(id),
        StartupStage::ReadState { id } | StartupStage::ReadBindSession { id } => {
            replies.device_id == Some(id) && replies.status
        },
        StartupStage::ReadReportHash { id, session } | StartupStage::Report { id, session } => {
            replies.device_id == Some(id) && replies.status && replies.bind_session == Some(
                session,
            )
        },
        StartupStage::Deserialize { id, session } => {
            replies.device_id == Some(id) && replies.bind_session == Some(session)
                && replies.report is Some
        },
        StartupStage::TdiStart { id, private } => {
            replies.device_id == Some(id) && replies.ranges is Some && private == private_range(
                replies.ranges->0,
            )
        },
        StartupStage::StartDevice { id, private } => {
            replies.device_id == Some(id) && replies.ranges is Some && private == private_range(
                replies.ranges->0,
            ) && replies.tdi_start
        },
        _ => true,
    }
}

/// Every step of a sequence is in order. The tdcalls name the device by the ID
/// that it told, and come after its interface status. The interface is started in
/// the bind session that the TDX module told, and only once the interface report
/// was had and understood; the device, only once the interface was. The device's
/// DMA is accepted only once the interface was started, and only where the
/// report lists a private range and the MMIO size is fit for it.
pub proof fn law_startup_order(replies: StartupReplies, mmio_size: u64, page_size: u64)
    ensures
        forall|i: int|
            0 <= i < startup_trace(replies, mmio_size, page_size).len() ==> step_in_order(
                replies,
                mmio_size,
                page_size,
                #[trigger] startup_trace(replies, mmio_size, page_size)[i],
            ),
{
    lemma_run_in_order(
        replies,
        startup_initial(mmio_size, page_size),
        StartupStep::GetInterfaceInfo,
    );
}

proof fn lemma_run_in_order(replies: StartupReplies, flow: StartupFlow, step: StartupStep)
    requires
        flow_remembers(replies, flow.stage),
        step_in_order(replies, flow.mmio_size, flow.page_size, step),
    ensures
        forall|i: int|
            0 <= i < startup_run(replies, flow, step).len() ==> step_in_order(
                replies,
                flow.mmio_size,
                flow.page_size,
                #[trigger] startup_run(replies, flow, step)[i],
            ),
    decreases requests_left(flow.stage),
{
    if !(flow.stage is Finished) {
        let (next_flow, next_step) = startup_next(flow, replies.reply(flow.stage));
        lemma_run_in_order(replies, next_flow, next_step);
        let rest = startup_run(replies, next_flow, next_step);
        let run = startup_run(replies, flow, step);
        assert forall|i: int| 0 <= i < run.len() implies step_in_order(
            replies,
            flow.mmio_size,
            flow.page_size,
            #[trigger] run[i],
        ) by {
            if i > 0 {
                assert(run[i] == rest[i - 1]);
            }
        }
    }
}

/// The private range of a device is told wherever its MMIO space is a whole number
/// of pages, as many as its field can hold, and there is a private range: the pages
/// make up the MMIO space, and the range is that one, whatever its number. What is
/// wrong otherwise is told, the first thing first.
pub proof fn law_range_params(mmio_size: u64, page_size: u64, private: Option<u32>)
    requires
        page_size > 0,
    ensures
        match range_params(mmio_size, page_size, private) {
            Ok(range) => {
                &&& range.range_size * page_size == mmio_size
                &&& private == Some(range.range_offset)
            },
            Err(StartupError::MmioUnaligned) => mmio_size % page_size != 0,
            Err(StartupError::MmioTooLarge) => mmio_size % page_size == 0 && mmio_size / page_size
                > 0xffff_ffff,
            Err(StartupError::NoPrivateRange) => mmio_size % page_size == 0 && mmio_size / page_size
                <= 0xffff_ffff && private is None,
            Err(_) => false,
        },
        mmio_size % page_size == 0 && mmio_size / page_size <= 0xffff_ffff && private is Some
            ==> range_params(mmio_size, page_size, private) is Ok,
{
    vstd::arithmetic::div_mod::lemma_fundamental_div_mod(mmio_size as int, page_size as int);
    vstd::arithmetic::mul::lemma_mul_is_commutative(
        page_size as int,
        mmio_size as int / page_size as int,
    );
}

/// Two devices with MMIO spaces of one size are told the same size, whichever of
/// their ranges is private; and where only the size is at fault, the number of the
/// range does not matter.
pub proof fn law_range_number_does_not_matter(
    mmio_size: u64,
    page_size: u64,
    a: u32,
    b: u32,
)
    requires
        page_size > 0,
    ensures
        match (
            range_params(mmio_size, page_size, Some(a)),
            range_params(mmio_size, page_size, Some(b)),
        ) {
            (Ok(first), Ok(second)) => {
                &&& first.range_size == second.range_size
                &&& first.range_offset == a
                &&& second.range_offset == b
            },
            (Err(first), Err(second)) => first == second,
            _ => false,
        },
{
}

/// A sequence runs to its end where the device speaks TDISP, every reply that the
/// sequence needs is given, the MMIO space is a whole number of pages that fits its
/// field, and some range of the report is private; and nowhere else. It ends for
/// want of a private range only where every range of the report is open.
pub proof fn law_startup_completes(replies: StartupReplies, mmio_size: u64, page_size: u64)
    requires
        page_size > 0,
    ensures
        startup_trace(replies, mmio_size, page_size).last() == StartupStep::Finish(
            StartupOutcome::Completed,
        ) <==> {
            &&& replies.interface_info
            &&& replies.tdi_support
            &&& replies.device_id is Some
            &&& replies.status
            &&& replies.state is Some
            &&& replies.bind_session is Some
            &&& replies.report is Some
            &&& replies.ranges is Some
            &&& replies.tdi_start
            &&& mmio_size % page_size == 0
            &&& mmio_size / page_size <= 0xffff_ffff
            &&& exists|i: int|
                0 <= i < replies.ranges->0.len() && !(
                #[trigger] replies.ranges->0[i]).non_tee_mem
        },
        startup_trace(replies, mmio_size, page_size).last() == StartupStep::Finish(
            StartupOutcome::Failed(StartupError::NoPrivateRange),
        ) ==> {
            &&& replies.ranges is Some
            &&& forall|i: int|
                0 <= i < replies.ranges->0.len() ==> (
                #[trigger] replies.ranges->0[i]).non_tee_mem
        },
{
    law_startup_outcome(replies, mmio_size, page_size);
    if replies.ranges is Some {
        law_private_range_is_first(replies.ranges->0);
    }
}

/// How a sequence ends that does not run to its end: at the first reply that it
/// cannot do without and is not given, or at the first thing that is wrong with the
/// MMIO space.
pub proof fn law_startup_ends_at_what_is_wrong(
    replies: StartupReplies,
    mmio_size: u64,
    page_size: u64,
)
    requires
        page_size > 0,
    ensures
        ({
            let last = startup_trace(replies, mmio_size, page_size).last();
            let told = replies.interface_info && replies.tdi_support && replies.device_id is Some;
            let read = told && replies.status && replies.state is Some && replies.bind_session
                is Some;
            let started = read && replies.report is Some && replies.ranges is Some
                && replies.tdi_start;
            &&& last == StartupStep::Finish(StartupOutcome::NotTdisp) <==> !replies.interface_info
            &&& last == StartupStep::Finish(StartupOutcome::Failed(StartupError::TdiSupport))
                <==> replies.interface_info && !replies.tdi_support
            &&& last == StartupStep::Finish(StartupOutcome::Failed(StartupError::DeviceId))
                <==> replies.interface_info && replies.tdi_support && replies.device_id is None
            &&& last == StartupStep::Finish(StartupOutcome::Failed(StartupError::InterfaceStatus))
                <==> told && !replies.status
            &&& last == StartupStep::Finish(StartupOutcome::Failed(StartupError::ReadState))
                <==> told && replies.status && replies.state is None
            &&& last == StartupStep::Finish(StartupOutcome::Failed(StartupError::ReadBindSession))
                <==> told && replies.status && replies.state is Some && replies.bind_session is None
            &&& last == StartupStep::Finish(StartupOutcome::Failed(StartupError::Report))
                <==> read && replies.report is None
            &&& last == StartupStep::Finish(StartupOutcome::Failed(StartupError::MalformedReport))
                <==> read && replies.report is Some && replies.ranges is None
            &&& last == StartupStep::Finish(StartupOutcome::Failed(StartupError::Start)) <==> read
                && replies.report is Some && replies.ranges is Some && !replies.tdi_start
            &&& last == StartupStep::Finish(StartupOutcome::Failed(StartupError::MmioUnaligned))
                <==> started && mmio_size % page_size != 0
            &&& last == StartupStep::Finish(StartupOutcome::Failed(StartupError::MmioTooLarge))
                <==> started && mmio_size % page_size == 0 && mmio_size / page_size > 0xffff_ffff
        }),
{
    law_startup_outcome(replies, mmio_size, page_size);
}

/// What the requests of a sequence hand over: every tdcall names the device by the
/// ID that it told; the state, the bind session and the report's hash are read from
/// their fields, in this order; the interface is started in the session that was
/// read; the report goes on as it came, with its digest in hexadecimal; and the DMA
/// of the device is accepted for the virtual machine with index one, with the first
/// private range of the report and the pages of the whole MMIO space.
pub proof fn law_startup_requests_hand_over(
    replies: StartupReplies,
    mmio_size: u64,
    page_size: u64,
)
    requires
        page_size > 0,
    ensures
        forall|i: int|
            0 <= i < startup_trace(replies, mmio_size, page_size).len() ==> match (
            #[trigger] startup_trace(replies, mmio_size, page_size)[i]) {
                StartupStep::TdiRd { gfunction_id, field, out_buf } => {
                    &&& replies.device_id == Some(gfunction_id)
                    &&& i == 5 && field == 2 || i == 6 && field == 5 || i == 7 && field == 3
                    &&& out_buf == 0
                },
                StartupStep::DeserializeReport { report, digest } => {
                    let bytes = crate::report::sha384(report);
                    &&& replies.report == Some(report)
                    &&& digest.len() == 2 * bytes.len()
                    &&& forall|k: int|
                        0 <= k < bytes.len() ==> digest[2 * k]
                            == "0123456789abcdef"@[#[trigger] bytes[k] as int / 16] && digest[2 * k
                            + 1] == "0123456789abcdef"@[bytes[k] as int % 16]
                },
                StartupStep::TdiStart { gfunction_id, bind_session_id } => {
                    &&& replies.device_id == Some(gfunction_id)
                    &&& replies.bind_session == Some(bind_session_id)
                },
                StartupStep::DmarAccept { gfunction_id, target, range } => {
                    &&& replies.device_id == Some(gfunction_id)
                    &&& target == 1
                    &&& range.range_size * page_size == mmio_size
                    &&& replies.ranges is Some
                    &&& exists|k: int|
                        0 <= k < replies.ranges->0.len() && !(
                        #[trigger] replies.ranges->0[k]).non_tee_mem
                            && replies.ranges->0[k].range_id == range.range_offset && forall|j: int|
                            0 <= j < k ==> (#[trigger] replies.ranges->0[j]).non_tee_mem
                },
                _ => true,
            },
{
    law_startup_outcome(replies, mmio_size, page_size);
    if replies.report is Some {
        crate::report::law_hex_digits(crate::report::sha384(replies.report->0));
    }
    if replies.ranges is Some {
        law_private_range_is_first(replies.ranges->0);
        law_range_params(mmio_size, page_size, private_range(replies.ranges->0));
    }
}

/// A sequence begins with the sizes that it is for, and no step changes them.
pub proof fn law_startup_keeps_the_sizes(
    mmio_size: u64,
    page_size: u64,
    flow: StartupFlow,
    reply: StartupReply,
)
    ensures
        startup_initial(mmio_size, page_size).mmio_size == mmio_size,
        startup_initial(mmio_size, page_size).page_size == page_size,
        startup_initial(mmio_size, page_size).stage == StartupStage::InterfaceInfo,
        startup_next(flow, reply).0.mmio_size == flow.mmio_size,
        startup_next(flow, reply).0.page_size == flow.page_size,
{
}

/// Where a request fails that the sequence needs, the sequence ends: a device that
/// does not tell its interface information is skipped, and any other failure is
/// named after its request.
pub proof fn law_startup_failed_request_ends(flow: StartupFlow)
    ensures
        ({
            let (next, step) = startup_next(flow, StartupReply::Failed);
            match flow.stage {
                StartupStage::InterfaceInfo => next.stage == StartupStage::Finished && step
                    == StartupStep::Finish(StartupOutcome::NotTdisp),
                StartupStage::TdiSupport => next.stage == StartupStage::Finished && step
                    == StartupStep::Finish(StartupOutcome::Failed(StartupError::TdiSupport)),
                StartupStage::DeviceId => next.stage == StartupStage::Finished && step
                    == StartupStep::Finish(StartupOutcome::Failed(StartupError::DeviceId)),
                StartupStage::Status { .. } => next.stage == StartupStage::Finished && step
                    == StartupStep::Finish(StartupOutcome::Failed(StartupError::InterfaceStatus)),
                StartupStage::ReadState { .. } => next.stage == StartupStage::Finished && step
                    == StartupStep::Finish(StartupOutcome::Failed(StartupError::ReadState)),
                StartupStage::ReadBindSession { .. } => next.stage == StartupStage::Finished && step
                    == StartupStep::Finish(StartupOutcome::Failed(StartupError::ReadBindSession)),
                StartupStage::Report { .. } => next.stage == StartupStage::Finished && step
                    == StartupStep::Finish(StartupOutcome::Failed(StartupError::Report)),
                StartupStage::Deserialize { .. } => next.stage == StartupStage::Finished && step
                    == StartupStep::Finish(StartupOutcome::Failed(StartupError::MalformedReport)),
                StartupStage::TdiStart { .. } => next.stage == StartupStage::Finished && step
                    == StartupStep::Finish(StartupOutcome::Failed(StartupError::Start)),
                _ => true,
            }
        }),
{
}

/// What comes of binding the interface, of reading the report's hash, of starting
/// the device and of accepting its DMA does not matter: the sequence goes on alike.
pub proof fn law_startup_goes_on_alike(flow: StartupFlow, a: StartupReply, b: StartupReply)
    requires
        flow.stage is Bind || flow.stage is ReadReportHash || flow.stage is StartDevice || flow.stage
            is DmarAccept,
    ensures
        startup_next(flow, a) == startup_next(flow, b),
{
}

/// Where a request succeeds, the next one is made, and what the device and the TDX
/// module have told so far is kept as they told it.
pub proof fn law_startup_success_goes_on(
    flow: StartupFlow,
    value: u64,
    report: Seq<u8>,
    ranges: Seq<MmioRange>,
)
    ensures
        ({
            let (done, done_step) = startup_next(flow, StartupReply::Completed);
            let (told, told_step) = startup_next(flow, StartupReply::Value(value));
            let (had, had_step) = startup_next(flow, StartupReply::Report(report));
            let (read, read_step) = startup_next(flow, StartupReply::Ranges(ranges));
            match flow.stage {
                StartupStage::InterfaceInfo => done.stage == StartupStage::TdiSupport && done_step
                    == StartupStep::GetTdiSupport,
                StartupStage::TdiSupport => done.stage == StartupStage::DeviceId && done_step
                    == StartupStep::GetTdiDeviceId,
                StartupStage::DeviceId => told.stage == (StartupStage::Bind { id: value })
                    && told_step == StartupStep::BindInterface,
                StartupStage::Bind { id } => done.stage == (StartupStage::Status { id })
                    && done_step == StartupStep::GetInterfaceStatus,
                StartupStage::Status { id } => done.stage == (StartupStage::ReadState { id })
                    && done_step == (StartupStep::TdiRd { gfunction_id: id, field: 2, out_buf: 0 }),
                StartupStage::ReadState { id } => told.stage == (StartupStage::ReadBindSession {
                    id,
                }) && told_step == (StartupStep::TdiRd { gfunction_id: id, field: 5, out_buf: 0 }),
                StartupStage::ReadBindSession { id } => told.stage == (
                StartupStage::ReadReportHash { id, session: value }) && told_step == (
                StartupStep::TdiRd { gfunction_id: id, field: 3, out_buf: 0 }),
                StartupStage::ReadReportHash { id, session } => told.stage == (
                StartupStage::Report { id, session }) && told_step == StartupStep::GetDeviceReport,
                StartupStage::Report { id, session } => had.stage == (StartupStage::Deserialize {
                    id,
                    session,
                }) && match had_step {
                    StartupStep::DeserializeReport { report: handed, digest } => {
                        let bytes = crate::report::sha384(report);
                        &&& handed == report
                        &&& digest.len() == 2 * bytes.len()
                        &&& forall|k: int|
                            0 <= k < bytes.len() ==> digest[2 * k]
                                == "0123456789abcdef"@[#[trigger] bytes[k] as int / 16] && digest[2
                                * k + 1] == "0123456789abcdef"@[bytes[k] as int % 16]
                    },
                    _ => false,
                },
                StartupStage::Deserialize { id, session } => {
                    &&& read_step == (StartupStep::TdiStart {
                        gfunction_id: id,
                        bind_session_id: session,
                    })
                    &&& match read.stage {
                        StartupStage::TdiStart { id: kept, private: Some(number) } => {
                            &&& kept == id
                            &&& exists|k: int|
                                0 <= k < ranges.len() && !(#[trigger] ranges[k]).non_tee_mem
                                    && ranges[k].range_id == number && forall|j: int|
                                    0 <= j < k ==> (#[trigger] ranges[j]).non_tee_mem
                        },
                        StartupStage::TdiStart { id: kept, private: None } => {
                            &&& kept == id
                            &&& forall|k: int|
                                0 <= k < ranges.len() ==> (#[trigger] ranges[k]).non_tee_mem
                        },
                        _ => false,
                    }
                },
                StartupStage::TdiStart { id, private } => done.stage == (
                StartupStage::StartDevice { id, private }) && done_step == StartupStep::StartDevice,
                _ => true,
            }
        }),
{
    crate::report::law_hex_digits(crate::report::sha384(report));
    law_private_range_is_first(ranges);
}

/// Once the device was asked to start, its DMA is accepted for the virtual machine
/// with index one, where the MMIO space is fit for it and there is a private range;
/// and once that was asked for, the sequence has run to its end.
pub proof fn law_startup_accepts_dma_last(flow: StartupFlow, reply: StartupReply)
    requires
        flow.page_size > 0,
    ensures
        ({
            let (next, step) = startup_next(flow, reply);
            match flow.stage {
                StartupStage::StartDevice { id, private } => {
                    let aligned = flow.mmio_size % flow.page_size == 0;
                    let small = flow.mmio_size / flow.page_size <= 0xffff_ffff;
                    &&& aligned && small && private is Some ==> {
                        &&& next.stage == StartupStage::DmarAccept
                        &&& step matches StartupStep::DmarAccept { gfunction_id, target, range }
                            && gfunction_id == id && target == 1 && range.range_offset == private->0
                            && range.range_size * flow.page_size == flow.mmio_size
                    }
                    &&& !(aligned && small && private is Some) ==> next.stage
                        == StartupStage::Finished
                    &&& !aligned ==> step == StartupStep::Finish(
                        StartupOutcome::Failed(StartupError::MmioUnaligned),
                    )
                    &&& aligned && !small ==> step == StartupStep::Finish(
                        StartupOutcome::Failed(StartupError::MmioTooLarge),
                    )
                    &&& aligned && small && private is None ==> step == StartupStep::Finish(
                        StartupOutcome::Failed(StartupError::NoPrivateRange),
                    )
                },
                StartupStage::DmarAccept => next.stage == StartupStage::Finished && step
                    == StartupStep::Finish(StartupOutcome::Completed),
                _ => true,
            }
        }),
{
    match flow.stage {
        StartupStage::StartDevice { private, .. } => {
            law_range_params(flow.mmio_size, flow.page_size, private);
        },
        _ => {},
    }
}

/// Every request can be told that it failed, and that it succeeded, with any result
/// where it has one.
pub proof fn law_startup_takes_every_reply(
    stage: StartupStage,
    value: u64,
    report: Seq<u8>,
    ranges: Seq<MmioRange>,
)
    requires
        !(stage is Finished),
    ensures
        startup_answers(stage, StartupReply::Failed),
        match stage {
            StartupStage::DeviceId | StartupStage::ReadState { .. }
            | StartupStage::ReadBindSession { .. } | StartupStage::ReadReportHash { .. } => {
                startup_answers(stage, StartupReply::Value(value))
            },
            StartupStage::Report { .. } => startup_answers(stage, StartupReply::Report(report)),
            StartupStage::Deserialize { .. } => startup_answers(
                stage,
                StartupReply::Ranges(ranges),
            ),
            _ => startup_answers(stage, StartupReply::Completed),
        },
{
}

/// A step sees a reply as it was given.
pub proof fn law_startup_event_is_seen(event: StartupEvent)
    ensures
        match event {
            StartupEvent::Completed => event@ is Completed,
            StartupEvent::Failed => event@ is Failed,
            StartupEvent::Value(told) => event@ matches StartupReply::Value(value) && value == told,
            StartupEvent::Report(told) => event@ matches StartupReply::Report(report) && report
                == told@,
            StartupEvent::Ranges(told) => event@ matches StartupReply::Ranges(ranges) && ranges
                == told@,
        },
{
}

/// A request is the one that a step names, with the values and the buffers that it
/// names.
pub proof fn law_startup_action_is_seen(action: StartupAction)
    ensures
        match action {
            StartupAction::GetInterfaceInfo => action@ is GetInterfaceInfo,
            StartupAction::GetTdiSupport => action@ is GetTdiSupport,
            StartupAction::GetTdiDeviceId => action@ is GetTdiDeviceId,
            StartupAction::BindInterface => action@ is BindInterface,
            StartupAction::GetInterfaceStatus => action@ is GetInterfaceStatus,
            StartupAction::TdiRd { gfunction_id: g, field: f, out_buf: o } => action@ matches
                StartupStep::TdiRd { gfunction_id, field, out_buf } && gfunction_id == g && field
                == f && out_buf == o,
            StartupAction::GetDeviceReport => action@ is GetDeviceReport,
            StartupAction::DeserializeReport { report: r, digest: d } => action@ matches
                StartupStep::DeserializeReport { report, digest } && report == r@ && digest == d@,
            StartupAction::TdiStart { gfunction_id: g, bind_session_id: b } => action@ matches
                StartupStep::TdiStart { gfunction_id, bind_session_id } && gfunction_id == g
                && bind_session_id == b,
            StartupAction::StartDevice => action@ is StartDevice,
            StartupAction::DmarAccept { gfunction_id: g, target: t, range: r } => action@ matches
                StartupStep::DmarAccept { gfunction_id, target, range } && gfunction_id == g
                && target == t && range == r,
            StartupAction::Finish(o) => action@ matches StartupStep::Finish(outcome) && outcome
                == o,
        },
{
}

/// The texts of the errors. Where the TDX module did not tell a value, the error of
/// the tdcall itself is passed on.
pub proof fn law_startup_error_texts(error: StartupError)
    ensures
        match error {
            StartupError::TdiSupport => startup_context(error) == Some(
                "failed to retrieve TDI support"@,
            ),
            StartupError::DeviceId => startup_context(error) == Some(
                "failed to retrieve TDI device ID"@,
            ),
            StartupError::InterfaceStatus => startup_context(error) == Some(
                "failed to retrieve TDI interface status"@,
            ),
            StartupError::ReadState | StartupError::ReadBindSession => startup_context(error)
                is None,
            StartupError::Report => startup_context(error) == Some(
                "failed to retrieve TDI report"@,
            ),
            StartupError::MalformedReport => startup_context(error) == Some(
                "failed to deserialize TDI report"@,
            ),
            StartupError::Start => startup_context(error) == Some("failed TDG.TDI.START tdcall"@),
            StartupError::MmioUnaligned => startup_context(error) == Some(
                "MMIO size is not page-aligned for TDI range size field"@,
            ),
            StartupError::MmioTooLarge => startup_context(error) == Some(
                "MMIO page count exceeds 32-bit TDI range size field"@,
            ),
            StartupError::NoPrivateRange => startup_context(error) == Some(
                "no private MMIO range found in TDI report"@,
            ),
        },
{
}

} // verus!
