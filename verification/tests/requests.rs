use ln8000_kmdf::exchange::{Op, Reply};
use ln8000_kmdf::ioctl::{
    Ln8000ChargeRequest, Ln8000HvdcpRequest, Ln8000LimitsRequest, Ln8000ModeRequest,
    Ln8000RegRequest, Ln8000SamplesRequest, IOCTL_LN8000_GET_SAMPLES, IOCTL_LN8000_GET_SESSIONS,
    IOCTL_LN8000_GET_STATUS, IOCTL_LN8000_READ_REG, IOCTL_LN8000_RUN_HVDCP,
    IOCTL_LN8000_SET_CHARGE, IOCTL_LN8000_SET_LIMITS, IOCTL_LN8000_SET_MODE,
    IOCTL_LN8000_WRITE_REG, LN8000_STATUS_MAGIC,
};
use ln8000_kmdf::pump::{
    AdcChannel, ChipStatus, OpMode, PumpError, PumpState, SessionSummary, TelemetrySample, Tuning,
};
use ln8000_kmdf::requests::{
    evt_io_device_control, handle_set_mode, lifecycle_code, output_size, sample_capacity,
    sample_limit, Completion, Request,
};
use ln8000_kmdf::session::{Event, Session};
use ln8000_kmdf::state::DriverState;
use ln8000_kmdf::status::{
    STATUS_BUFFER_TOO_SMALL, STATUS_INVALID_DEVICE_REQUEST, STATUS_INVALID_PARAMETER,
};
use ln8000_kmdf::wire::get_u32;

fn tuning() -> Tuning {
    Tuning {
        force9v_settle_ms: 500,
        force9v_hard_cap_ms: 1_000,
        force9v_rise_uv: 6_000_000,
        qc35_detect_timeout_ms: 100,
        qc35_cap_timeout_ms: 100,
        qc35_vin_poll_ms: 10,
        qc35_prep_max_inc: 5,
        soft_reset_delay_ms: 100,
        charge_min_vin_uv: 4_500_000,
        superuser_retry_max: 2,
        superuser_retry_ms: 1_000,
        online_hold_ms: 8_000,
        charging_hold_ms: 8_000,
        sample_ring: 3,
    }
}

fn sample(ts_ms: u64) -> TelemetrySample {
    TelemetrySample {
        ts_ms,
        vbat_uv: 4_000_000,
        vbus_uv: 8_300_000,
        iin_ua: 1_000_000,
        die_temp_dc: 350,
        op_mode: OpMode::Switching,
        input_present: true,
        vbat_valid: true,
        die_temp_valid: true,
    }
}

fn calm(op: Op) -> Reply {
    match op {
        Op::Now => Reply::Millis(1_000),
        Op::PumpStatus => Reply::Chip(Some(ChipStatus {
            op_mode: OpMode::Standby,
            sys_sts: 0x24,
            fault1_sts: 1,
            fault2_sts: 2,
            safety_sts: 3,
            critical: false,
        })),
        Op::PumpRead(addr) => Reply::Register(Ok(addr.wrapping_add(1))),
        Op::PumpWrite(_, _) | Op::PumpVbatFloat(_) | Op::PumpStandby => Reply::Effect(Ok(())),
        Op::PumpCounters => Reply::Counters(5, 6),
        Op::PumpIinLimit(_) => Reply::Register(Ok(20)),
        Op::PumpDecodeIin(code) => Reply::Word(u32::from(code) * 50_000),
        Op::PumpAdc(AdcChannel::Vin) => Reply::Reading(Some(8_300_000)),
        Op::PumpAdc(AdcChannel::Vbat) => Reply::Reading(Some(4_000_000)),
        Op::PumpAdc(AdcChannel::Iin) => Reply::Reading(Some(1_000_000)),
        Op::PumpAdc(AdcChannel::DieTemp) => Reply::Reading(Some(-5)),
        Op::BypassAllowed { .. } => Reply::Flag(false),
        Op::PumpBypass => Reply::Engaged(Ok(OpMode::Bypass)),
        Op::PumpSwitching | Op::PumpCharge(_) => Reply::Engaged(Ok(OpMode::Switching)),
        Op::PumpSysSts => Reply::Register(Ok(0)),
        Op::PumpLifecycle => Reply::Lifecycle(Some(PumpState::Configured)),
        Op::PumpMode => Reply::Mode(Some(OpMode::Switching)),
        Op::TelemetryTotals => Reply::Totals(7, 8),
        Op::TelemetryLast => Reply::Sample(Some(sample(9))),
        Op::TelemetryAt(index) => {
            Reply::Sample(if index < 2 { Some(sample(index as u64)) } else { None })
        }
        Op::TelemetryCurrent(_) => Reply::Summary(Some(SessionSummary {
            duration_ms: 10,
            peak_iin_ua: 11,
            peak_die_temp_dc: 12,
            fast: true,
        })),
        Op::TelemetryFinished(_) => Reply::Summary(None),
        Op::SuOpen => Reply::Outcome(Err(-5)),
        Op::RetryWanted(_) => Reply::Flag(false),
        Op::InputPresent(_) => Reply::Flag(true),
        Op::ChargeMode { .. } => Reply::Mode(None),
        _ => Reply::Done,
    }
}

type Log = Vec<Event<Op>>;

fn serve_with(
    start: DriverState,
    request: &Request,
    answer: &dyn Fn(Op) -> Option<Reply>,
) -> (DriverState, Completion, Log) {
    let mut replies: Vec<Reply> = Vec::new();
    loop {
        let mut state = start;
        let mut io = Session::new(replies.clone());
        let done = evt_io_device_control(&mut io, &mut state, request, &tuning());
        match io.pending() {
            Some(op) => replies.push(answer(op).unwrap_or_else(|| calm(op))),
            None => return (state, done, io.log().clone()),
        }
    }
}

fn open() -> DriverState {
    DriverState { pump_open: true, device_ready: true, ..DriverState::new() }
}

fn serve(request: &Request) -> (DriverState, Completion, Log) {
    serve_with(open(), request, &|_| None)
}

fn ask(code: u32, input: Vec<u8>) -> Request {
    Request {
        code,
        input_length: input.len(),
        input: if input.is_empty() { None } else { Some(input) },
        output: Ok(4_096),
    }
}

fn did(log: &Log, wanted: &str) -> usize {
    log.iter()
        .filter(|event| match event {
            Event::Did(op) => format!("{op:?}").starts_with(wanted),
            _ => false,
        })
        .count()
}

#[test]
fn status_is_reported() {
    let (_, done, _) = serve(&ask(IOCTL_LN8000_GET_STATUS, vec![]));
    assert_eq!(done.status, 0);
    assert_eq!(done.output.len(), 64);
    assert_eq!(get_u32(&done.output, 0), LN8000_STATUS_MAGIC);
    assert_eq!(done.output[7], 2);
    assert_eq!(&done.output[8..12], &[0x24, 1, 2, 3]);
}

#[test]
fn unknown_codes_are_refused() {
    let (state, done, log) = serve(&ask(0x1234, vec![0; 64]));
    assert_eq!(done.status, STATUS_INVALID_DEVICE_REQUEST);
    assert!(done.output.is_empty());
    assert!(log.is_empty());
    assert!(state.pump_open);
}

#[test]
fn short_or_missing_blocks_are_refused() {
    let short = ask(IOCTL_LN8000_READ_REG, vec![0; 7]);
    assert_eq!(serve(&short).1.status, STATUS_BUFFER_TOO_SMALL);
    let bare = ask(IOCTL_LN8000_GET_SAMPLES, vec![]);
    assert_eq!(serve(&bare).1.status, STATUS_BUFFER_TOO_SMALL);
    let absent = Request {
        code: IOCTL_LN8000_SET_LIMITS,
        input_length: 16,
        input: None,
        output: Ok(16),
    };
    assert_eq!(serve(&absent).1.status, STATUS_INVALID_PARAMETER);
    let no_room = Request { output: Err(-77), ..ask(IOCTL_LN8000_READ_REG, vec![0; 8]) };
    let (_, done, _) = serve(&no_room);
    assert_eq!(done.status, -77);
    assert!(done.output.is_empty());
}

#[test]
fn registers_are_read_and_written() {
    let block = Ln8000RegRequest { addr: 0x10, ..Ln8000RegRequest::default() };
    let (state, done, _) = serve(&ask(IOCTL_LN8000_READ_REG, block.encode()));
    let back = Ln8000RegRequest::decode(&done.output).unwrap();
    assert_eq!((back.value, back.error_code), (0x11, 0));
    assert_eq!((state.writes, state.reads), (5, 6));
    let block = Ln8000RegRequest { addr: 0x10, value: 9, ..Ln8000RegRequest::default() };
    let (_, done, log) = serve(&ask(IOCTL_LN8000_WRITE_REG, block.encode()));
    assert_eq!(done.status, 0);
    assert_eq!(did(&log, "PumpWrite(16, 9)"), 1);
    let failing = |op: Op| match op {
        Op::PumpWrite(_, _) => Some(Reply::Effect(Err(PumpError::Bus))),
        _ => None,
    };
    let (_, done, _) =
        serve_with(open(), &ask(IOCTL_LN8000_WRITE_REG, block.encode()), &failing);
    assert_eq!(Ln8000RegRequest::decode(&done.output).unwrap().error_code, -1);
}

#[test]
fn requests_without_a_pump_fail_in_their_block() {
    let closed = DriverState::new();
    let block = Ln8000RegRequest::default().encode();
    let (_, done, log) =
        serve_with(closed, &ask(IOCTL_LN8000_READ_REG, block), &|_| None);
    assert_eq!(done.status, 0);
    assert_eq!(Ln8000RegRequest::decode(&done.output).unwrap().error_code, -1);
    assert!(log.is_empty());
    let block = Ln8000ModeRequest { mode: 1, ..Ln8000ModeRequest::default() }.encode();
    let (_, done, _) = serve_with(closed, &ask(IOCTL_LN8000_SET_MODE, block), &|_| None);
    assert_eq!(Ln8000ModeRequest::decode(&done.output).unwrap().error_code, -1);
}

#[test]
fn limits_become_the_ceiling() {
    let block = Ln8000LimitsRequest {
        iin_ua: 1_010_000,
        vbat_uv: 4_350_000,
        ..Ln8000LimitsRequest::default()
    };
    let (_, done, log) = serve(&ask(IOCTL_LN8000_SET_LIMITS, block.encode()));
    let back = Ln8000LimitsRequest::decode(&done.output).unwrap();
    assert_eq!((back.applied_iin_ua, back.error_code), (1_000_000, 0));
    assert_eq!(did(&log, "GuardCeiling(1000000)"), 1);
    assert_eq!(did(&log, "PumpVbatFloat(4350000)"), 1);
    let (_, _, log) =
        serve(&ask(IOCTL_LN8000_SET_LIMITS, Ln8000LimitsRequest::default().encode()));
    assert!(log.is_empty());
}

#[test]
fn forbidden_bypass_is_refused() {
    let block = Ln8000ModeRequest { mode: 2, ..Ln8000ModeRequest::default() };
    let (_, done, log) = serve(&ask(IOCTL_LN8000_SET_MODE, block.encode()));
    assert_eq!(Ln8000ModeRequest::decode(&done.output).unwrap().error_code, -20);
    assert_eq!(did(&log, "PumpBypass"), 0);
    let allowed = |op: Op| match op {
        Op::BypassAllowed { .. } => Some(Reply::Flag(true)),
        _ => None,
    };
    let (_, done, _) = serve_with(open(), &ask(IOCTL_LN8000_SET_MODE, block.encode()), &allowed);
    assert_eq!(Ln8000ModeRequest::decode(&done.output).unwrap().applied_mode, 2);
    let odd = Ln8000ModeRequest { mode: 4, ..Ln8000ModeRequest::default() };
    let (_, done, _) = serve(&ask(IOCTL_LN8000_SET_MODE, odd.encode()));
    assert_eq!(done.status, STATUS_INVALID_PARAMETER);
}

#[test]
fn charge_shows_the_raw_status() {
    let on = Ln8000ChargeRequest { on: 1, ..Ln8000ChargeRequest::default() };
    let (state, done, _) = serve(&ask(IOCTL_LN8000_SET_CHARGE, on.encode()));
    let back = Ln8000ChargeRequest::decode(&done.output).unwrap();
    assert_eq!((back.applied_mode, back.sys_sts, back.error_code), (3, 0x24, 0));
    assert_eq!(state.charge.last_error, 0);
    let failing = |op: Op| match op {
        Op::PumpCharge(_) => Some(Reply::Engaged(Err(PumpError::ModeNotReached))),
        _ => None,
    };
    let (state, done, _) =
        serve_with(open(), &ask(IOCTL_LN8000_SET_CHARGE, on.encode()), &failing);
    let back = Ln8000ChargeRequest::decode(&done.output).unwrap();
    assert_eq!((back.applied_mode, back.sys_sts, back.error_code), (1, 0x24, -4));
    assert_eq!(state.charge.last_error, -4);
}

#[test]
fn sessions_and_samples_are_reported() {
    let (_, done, _) = serve(&ask(IOCTL_LN8000_GET_SESSIONS, vec![]));
    assert_eq!(done.output.len(), 48);
    assert_eq!(get_u32(&done.output, 0), 7);
    assert_eq!(get_u32(&done.output, 8), 10);
    let mut wanted = Ln8000SamplesRequest::default();
    wanted.count = 100;
    let (_, done, _) = serve(&ask(IOCTL_LN8000_GET_SAMPLES, wanted.encode()));
    assert_eq!(get_u32(&done.output, 0), 3);
    assert_eq!(get_u32(&done.output, 4), 2);
    assert_eq!(done.output.len(), 40 + 32);
    assert_eq!((get_u32(&done.output, 8), get_u32(&done.output, 40)), (0, 1));
    assert_eq!(sample_limit(39, None, 64), 0);
    assert_eq!(sample_limit(40, None, 64), 1);
    assert_eq!(sample_limit(104, None, 64), 3);
    assert_eq!(sample_limit(4_096, Some(1), 64), 1);
    assert_eq!(sample_limit(4_096, None, 64), 64);
}

#[test]
fn sample_reports_fit_their_block() {
    let wanted = || {
        let mut wanted = Ln8000SamplesRequest::default();
        wanted.count = 100;
        wanted.encode()
    };
    let small = Request { output: Ok(40), ..ask(IOCTL_LN8000_GET_SAMPLES, wanted()) };
    let (_, done, _) = serve(&small);
    assert_eq!(done.output.len(), 40);
    assert_eq!((get_u32(&done.output, 0), get_u32(&done.output, 4)), (1, 1));
    let wide = Request { output: Ok(103), ..ask(IOCTL_LN8000_GET_SAMPLES, wanted()) };
    let (_, done, _) = serve(&wide);
    assert_eq!(done.output.len(), 72);
    let empty = |op: Op| match op {
        Op::TelemetryAt(_) => Some(Reply::Sample(None)),
        _ => None,
    };
    let (_, done, _) = serve_with(open(), &ask(IOCTL_LN8000_GET_SAMPLES, wanted()), &empty);
    assert_eq!(done.output.len(), 40);
    assert_eq!(get_u32(&done.output, 4), 0);
    assert_eq!(sample_capacity(39), 0);
    assert_eq!(sample_capacity(71), 1);
    assert_eq!(sample_capacity(72), 2);
}

#[test]
fn modes_outside_their_range_are_refused() {
    for mode in [0, 4, 255] {
        let mut io: Session<Op> = Session::new(Vec::new());
        let block = Ln8000ModeRequest { mode, ..Ln8000ModeRequest::default() };
        let refused = handle_set_mode(&mut io, true, block);
        assert_eq!(refused.err(), Some(STATUS_INVALID_PARAMETER));
        assert!(io.log().is_empty());
        assert!(io.pending().is_none());
    }
}

#[test]
fn negotiation_is_run_or_reported() {
    let (state, done, log) = serve(&ask(IOCTL_LN8000_RUN_HVDCP, vec![]));
    assert_eq!(done.output.len(), 20);
    assert_eq!(done.output[0], 1);
    assert_eq!(get_u32(&done.output, 16), -10i32 as u32);
    assert_eq!(did(&log, "SuOpen"), 1);
    assert!(state.edge.armed);
    let look = Ln8000HvdcpRequest::default().encode();
    let (_, done, log) = serve(&ask(IOCTL_LN8000_RUN_HVDCP, look));
    assert_eq!(get_u32(&done.output, 16), 0);
    assert_eq!(get_u32(&done.output, 8), 8_300_000);
    assert_eq!(did(&log, "SuOpen"), 0);
}

#[test]
fn output_blocks_have_a_least_size() {
    assert_eq!(output_size(IOCTL_LN8000_GET_STATUS), 64);
    assert_eq!(output_size(IOCTL_LN8000_GET_SAMPLES), 40);
    assert_eq!(output_size(0), 0);
    assert_eq!(lifecycle_code(Some(PumpState::Faulted)), 4);
    assert_eq!(lifecycle_code(None), 0);
}

#[test]
fn status_question_touches_nothing() {
    let question = Ln8000HvdcpRequest { command: 0, ..Ln8000HvdcpRequest::default() };
    let (state, done, log) = serve(&ask(IOCTL_LN8000_RUN_HVDCP, question.encode()));
    assert_eq!(done.status, 0);
    assert!(log.is_empty());
    assert_eq!(state.hvdcp.pulse_cnt, 0);
    assert!(!state.edge.armed);
    assert_eq!(get_u32(&done.output, 16), 0);
}

#[test]
fn status_question_uses_the_cell_last_seen() {
    let mut known = open();
    known.battery.last_vbat_uv = 4_200_000;
    let question = Ln8000HvdcpRequest { command: 0, ..Ln8000HvdcpRequest::default() };
    let (_, done, log) =
        serve_with(known, &ask(IOCTL_LN8000_RUN_HVDCP, question.encode()), &|_| None);
    assert!(log.is_empty());
    assert_eq!(get_u32(&done.output, 8), 8_700_000);
}

#[test]
fn status_question_repeats_the_failure() {
    let (failed, done, _) = serve(&ask(IOCTL_LN8000_RUN_HVDCP, vec![]));
    assert_eq!(get_u32(&done.output, 16), -10i32 as u32);
    let question = Ln8000HvdcpRequest { command: 0, ..Ln8000HvdcpRequest::default() };
    let (after, done, log) =
        serve_with(failed, &ask(IOCTL_LN8000_RUN_HVDCP, question.encode()), &|_| None);
    assert!(log.is_empty());
    assert_eq!(get_u32(&done.output, 16), -10i32 as u32);
    assert_eq!(after.hvdcp.last_code(), -10);
}
