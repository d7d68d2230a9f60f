use vpci_relay::report::MmioRange;
use vpci_relay::startup::{
    mmio_range_params, StartupAction, StartupError, StartupEvent, StartupFlow, StartupOutcome,
};
use vpci_relay::TdiRangeSizeOffset;

const ID: u64 = 0x1122;
const SESSION: u64 = 0x55;

/// The reply that lets the sequence go on.
fn good_reply(action: &StartupAction) -> StartupEvent {
    match action {
        StartupAction::GetTdiDeviceId => StartupEvent::Value(ID),
        StartupAction::TdiRd { field: 5, .. } => StartupEvent::Value(SESSION),
        StartupAction::TdiRd { .. } => StartupEvent::Value(0),
        StartupAction::GetDeviceReport => StartupEvent::Report(b"abc".to_vec()),
        StartupAction::DeserializeReport { .. } => StartupEvent::Ranges(vec![
            MmioRange { range_id: 4, non_tee_mem: true },
            MmioRange { range_id: 9, non_tee_mem: false },
        ]),
        _ => StartupEvent::Completed,
    }
}

/// Runs a sequence in which the requests at the places `failing` fail.
fn run(mmio_size: u64, failing: &[usize]) -> (Vec<StartupAction>, StartupOutcome) {
    let (mut flow, mut action) = StartupFlow::begin(mmio_size, 0x1000);
    let mut made: Vec<StartupAction> = Vec::new();
    loop {
        if let StartupAction::Finish(outcome) = action {
            return (made, outcome);
        }
        let event = if failing.contains(&made.len()) {
            StartupEvent::Failed
        } else {
            good_reply(&action)
        };
        made.push(action);
        action = flow.step(event);
    }
}

fn all_requests() -> Vec<StartupAction> {
    vec![
        StartupAction::GetInterfaceInfo,
        StartupAction::GetTdiSupport,
        StartupAction::GetTdiDeviceId,
        StartupAction::BindInterface,
        StartupAction::GetInterfaceStatus,
        StartupAction::TdiRd { gfunction_id: ID, field: 2, out_buf: 0 },
        StartupAction::TdiRd { gfunction_id: ID, field: 5, out_buf: 0 },
        StartupAction::TdiRd { gfunction_id: ID, field: 3, out_buf: 0 },
        StartupAction::GetDeviceReport,
        StartupAction::DeserializeReport {
            report: b"abc".to_vec(),
            digest: "cb00753f45a35e8bb5a03d699ac65007272c32ab0eded1631a8b605a43ff5bed\
                     8086072ba1e7cc2358baeca134c825a7"
                .to_string(),
        },
        StartupAction::TdiStart { gfunction_id: ID, bind_session_id: SESSION },
        StartupAction::StartDevice,
        StartupAction::DmarAccept {
            gfunction_id: ID,
            target: 1,
            range: TdiRangeSizeOffset { range_size: 2, range_offset: 9 },
        },
    ]
}

#[test]
fn whole_sequence() {
    let (made, outcome) = run(0x2000, &[]);
    assert_eq!(made, all_requests());
    assert_eq!(outcome, StartupOutcome::Completed);
}

#[test]
fn device_without_tdisp_is_skipped() {
    let (made, outcome) = run(0x2000, &[0]);
    assert_eq!(made, vec![StartupAction::GetInterfaceInfo]);
    assert_eq!(outcome, StartupOutcome::NotTdisp);
}

#[test]
fn needed_requests_end_the_sequence() {
    let needed = [
        (1, StartupError::TdiSupport),
        (2, StartupError::DeviceId),
        (4, StartupError::InterfaceStatus),
        (5, StartupError::ReadState),
        (6, StartupError::ReadBindSession),
        (8, StartupError::Report),
        (9, StartupError::MalformedReport),
        (10, StartupError::Start),
    ];
    for (place, error) in needed {
        let (made, outcome) = run(0x2000, &[place]);
        assert_eq!(made[..], all_requests()[..=place]);
        assert_eq!(outcome, StartupOutcome::Failed(error));
    }
}

#[test]
fn other_failures_are_passed_over() {
    let (made, outcome) = run(0x2000, &[3, 7, 11, 12]);
    assert_eq!(made, all_requests());
    assert_eq!(outcome, StartupOutcome::Completed);
}

#[test]
fn unfit_mmio_size_ends_the_sequence_after_the_start() {
    let (made, outcome) = run(0x2001, &[]);
    assert_eq!(made[..], all_requests()[..12]);
    assert_eq!(outcome, StartupOutcome::Failed(StartupError::MmioUnaligned));
}

#[test]
fn report_without_private_range_ends_the_sequence() {
    let (mut flow, mut action) = StartupFlow::begin(0x2000, 0x1000);
    loop {
        let event = match action {
            StartupAction::Finish(outcome) => {
                assert_eq!(outcome, StartupOutcome::Failed(StartupError::NoPrivateRange));
                break;
            }
            StartupAction::DeserializeReport { .. } => {
                StartupEvent::Ranges(vec![MmioRange { range_id: 4, non_tee_mem: true }])
            }
            other => {
                assert!(!matches!(other, StartupAction::DmarAccept { .. }));
                good_reply(&other)
            }
        };
        action = flow.step(event);
    }
}

#[test]
fn range_params_of_a_size() {
    assert_eq!(
        mmio_range_params(0x3000, 0x1000, Some(6)),
        Ok(TdiRangeSizeOffset { range_size: 3, range_offset: 6 })
    );
    assert_eq!(mmio_range_params(0x3000, 0x1000, None), Err(StartupError::NoPrivateRange));
    assert_eq!(mmio_range_params(0x3800, 0x1000, None), Err(StartupError::MmioUnaligned));
    assert_eq!(
        mmio_range_params(0x1000_0000_0000, 0x1000, None),
        Err(StartupError::MmioTooLarge)
    );
    assert_eq!(
        mmio_range_params(0xfff_ffff_f000, 0x1000, Some(0)),
        Ok(TdiRangeSizeOffset { range_size: u32::MAX, range_offset: 0 })
    );
    assert_eq!(
        mmio_range_params(0, 0x1000, Some(1)),
        Ok(TdiRangeSizeOffset { range_size: 0, range_offset: 1 })
    );
}

#[test]
fn startup_error_contexts() {
    let contexts = [
        (StartupError::TdiSupport, Some("failed to retrieve TDI support")),
        (StartupError::DeviceId, Some("failed to retrieve TDI device ID")),
        (StartupError::InterfaceStatus, Some("failed to retrieve TDI interface status")),
        (StartupError::ReadState, None),
        (StartupError::ReadBindSession, None),
        (StartupError::Report, Some("failed to retrieve TDI report")),
        (StartupError::MalformedReport, Some("failed to deserialize TDI report")),
        (StartupError::Start, Some("failed TDG.TDI.START tdcall")),
        (
            StartupError::MmioUnaligned,
            Some("MMIO size is not page-aligned for TDI range size field"),
        ),
        (
            StartupError::MmioTooLarge,
            Some("MMIO page count exceeds 32-bit TDI range size field"),
        ),
        (StartupError::NoPrivateRange, Some("no private MMIO range found in TDI report")),
    ];
    for (error, context) in contexts {
        assert_eq!(error.context(), context);
    }
}
