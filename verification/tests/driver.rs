use ln8000_kmdf::battery::{
    gauge_percent, initialize, last_percent, last_power_state, last_soc_source,
    note_gauge_failure, query_status, query_tag, set_gauge_raw, soc_percent, unload,
    update_from_telemetry, Battery, Readings,
};
use ln8000_kmdf::charge::attempt_due;
use ln8000_kmdf::connections::{
    collect_connections, id_halves, select_i2c_connection, select_usbin_connection, Connection,
};
use ln8000_kmdf::device_add::{driver_entry, evt_device_add, uptime_word};
use ln8000_kmdf::exchange::{
    AttachReply, Descriptor, Key, Op, Reply, SuperuserApsdProbe, Transfer,
};
use ln8000_kmdf::fcc::{
    buck_due, buck_tick, policy_step, raw_for, raw_of_steps, BuckInputs, FccStep,
};
use ln8000_kmdf::gauge::{poll_due, read_gauge_if_due, GaugePoll};
use ln8000_kmdf::guard::{action_word, apply_guard};
use ln8000_kmdf::landing::{
    por_delay_ms, recover_ln_shutdown, run_hvdcp_and_land, schedule_or_clear_superuser_retry,
};
use ln8000_kmdf::observe::{adc_power, evidence_word, iin_window, observe};
use ln8000_kmdf::params::{read_parameters, telemetry_period};
use ln8000_kmdf::pmic::{
    decode_ibatt, decode_vbatt, read_batt_soc_raw, write_fcc_raw, SPMI_REG_CHGR_FCC,
};
use ln8000_kmdf::prepare::{evt_prepare_hardware, evt_release_hardware, probe_usbin_spmi};
use ln8000_kmdf::pump::{
    AdcChannel, ApsdElevate, BypassResolution, ChipStatus, Force9vWait, GuardAction, OpMode,
    PumpError, PumpState, Qc35AuthGate, Tuning,
};
use ln8000_kmdf::session::{Event, Session};
use ln8000_kmdf::state::{
    lock_acquired, AdcPower, ChargeLoop, DriverState, FccPolicy, IinWindow, ReElevate, RetrySlot,
    WindowLoop,
};
use ln8000_kmdf::status::nt_ok;
use ln8000_kmdf::steer::{correction_due, lacks_elevation, mode_settled};
use ln8000_kmdf::sysreq::{acquire, release};
use ln8000_kmdf::tick::{evt_telemetry_timer, next_backoff_ms, reelevate_step, temperature_word};
use std::cell::RefCell;

fn tuning() -> Tuning {
    Tuning {
        force9v_settle_ms: 500,
        force9v_hard_cap_ms: 1_000,
        force9v_rise_uv: 6_000_000,
        qc35_detect_timeout_ms: 100,
        qc35_cap_timeout_ms: 100,
        qc35_vin_poll_ms: 10,
        qc35_prep_max_inc: 5,
        soft_reset_delay_ms: 100,
        charge_min_vin_uv: 4_500_000,
        superuser_retry_max: 2,
        superuser_retry_ms: 1_000,
        online_hold_ms: 8_000,
        charging_hold_ms: 8_000,
        sample_ring: 64,
    }
}

fn chip(op_mode: OpMode) -> ChipStatus {
    ChipStatus { op_mode, sys_sts: 0, fault1_sts: 0, fault2_sts: 0, safety_sts: 0, critical: false }
}

/// A machine on which everything works: a cell of 4.0 V, an input of 8.3 V, 1 A.
fn calm(op: Op) -> Reply {
    match op {
        Op::Now => Reply::Millis(100_000),
        Op::SuOpen | Op::SuGrant(_) => Reply::Outcome(Ok(())),
        Op::SuRead { reg: 0x4005, .. } => Reply::Byte(Some(0x10)),
        Op::SuRead { .. } => Reply::Byte(Some(0x01)),
        Op::SuReadPair { .. } => Reply::Pair(Some((128, 128))),
        Op::SuWrite { .. } => Reply::Flag(true),
        Op::UsbinOpen(_) => Reply::Flag(true),
        Op::UsbinRead { .. } | Op::UsbinWrite { .. } => Reply::Byte(Some(1)),
        Op::UsbinTransfer { .. } => Reply::Transfer(Transfer { value: Some(1), status: 0 }),
        Op::PumpOpen { .. } | Op::PumpConfigure | Op::PumpStandby | Op::PumpAdcMode(_) => {
            Reply::Effect(Ok(()))
        }
        Op::PumpWrite(_, _) | Op::PumpVbatFloat(_) => Reply::Effect(Ok(())),
        Op::PumpBypass => Reply::Engaged(Ok(OpMode::Bypass)),
        Op::PumpSwitching | Op::PumpCharge(_) => Reply::Engaged(Ok(OpMode::Switching)),
        Op::PumpStatus => Reply::Chip(Some(chip(OpMode::Switching))),
        Op::PumpAdc(AdcChannel::Vbat) => Reply::Reading(Some(4_000_000)),
        Op::PumpAdc(AdcChannel::Vin) | Op::SampleVin => Reply::Reading(Some(8_300_000)),
        Op::PumpAdc(AdcChannel::Iin) => Reply::Reading(Some(1_000_000)),
        Op::PumpAdc(AdcChannel::DieTemp) => Reply::Reading(Some(350)),
        Op::PumpSysSts | Op::PumpFault1 => Reply::Register(Ok(0)),
        Op::PumpRead(_) => Reply::Register(Ok(0x42)),
        Op::PumpIinLimit(_) => Reply::Register(Ok(20)),
        Op::PumpDecodeIin(_) => Reply::Word(1_000_000),
        Op::PumpVoltQual(_) => Reply::Flag(true),
        Op::PumpBypassStage => Reply::Word(0),
        Op::PumpPorSpent => Reply::Flag(false),
        Op::PumpCounters => Reply::Counters(3, 4),
        Op::PumpLifecycle => Reply::Lifecycle(Some(PumpState::Configured)),
        Op::PumpMode => Reply::Mode(Some(OpMode::Switching)),
        Op::PromoteQc { result, .. } => Reply::Byte(Some(result)),
        Op::ElevatePath { .. } => Reply::Elevate(ApsdElevate::Qc3Pulse),
        Op::AuthGate(_) => Reply::Gate(Qc35AuthGate::SkipVinTooHigh),
        Op::DetectWindow(_) | Op::CapWindow(_) => Reply::Flag(false),
        Op::PowerLimit(_) => Reply::Number(None),
        Op::IclForPower(_) => Reply::Byte(Some(54)),
        Op::Force9vStep { .. } => Reply::Force9v(Force9vWait::Stop),
        Op::Force9vExtend(ms) => Reply::Word(ms),
        Op::ChargeMode { .. } => Reply::Mode(Some(OpMode::Switching)),
        Op::BypassAllowed { .. } => Reply::Flag(false),
        Op::VinDoubled { .. } => Reply::Flag(false),
        Op::VinInWindow { .. } | Op::InputPresent(_) => Reply::Flag(true),
        Op::RenegotiateOnEdge { .. } | Op::RetryDue { .. } | Op::RetryWanted(_) => Reply::Flag(false),
        Op::AdcWake { .. } => Reply::Verdict(Some(true)),
        Op::OnlineRaw { .. } => Reply::Verdict(Some(true)),
        Op::UnplugRelease { .. } => Reply::Unplug(false, 0),
        Op::OnlineExpire { .. } => Reply::Flag(false),
        Op::OnlineEvidence { .. } | Op::ChargingRaw { .. } | Op::ChargingHold { .. } => {
            Reply::Flag(true)
        }
        Op::SocTrend { now_ms, .. } => Reply::Trend(true, now_ms),
        Op::StrikesExpired(_) => Reply::Flag(false),
        Op::Guard { .. } => Reply::Guard(GuardAction::Keep, false),
        Op::ResolveBypass { .. } => Reply::Bypass(BypassResolution::Stop),
        Op::TelemetryTotals => Reply::Totals(1, 2),
        Op::TelemetryLast | Op::TelemetryAt(_) => Reply::Sample(None),
        Op::TelemetryCurrent(_) | Op::TelemetryFinished(_) => Reply::Summary(None),
        Op::DeviceObjects | Op::FunctionObject => Reply::Flag(true),
        Op::BatteryAttach
        | Op::WmiRegister
        | Op::PowerRequestCreate(_)
        | Op::PowerRequestSet => Reply::Status(0),
        Op::GaugeArmed | Op::GaugeClaim { .. } => Reply::Flag(true),
        Op::GaugeLast => Reply::Millis(0),
        Op::Descriptor(index) => Reply::Descriptor(match index {
            0 => Some(Descriptor { connection: false, class: 0, kind: 0, id_low: 9, id_high: 9 }),
            1 => Some(Descriptor { connection: true, class: 2, kind: 1, id_low: 5, id_high: 0 }),
            2 => Some(Descriptor { connection: true, class: 2, kind: 0xC1, id_low: 6, id_high: 1 }),
            _ => None,
        }),
        Op::LineOpen { .. } => Reply::Flag(true),
        Op::LineTransfer { .. } => Reply::Transfer(Transfer { value: Some(0x42), status: 0 }),
        Op::LineAttach(_) => {
            Reply::Attach(AttachReply { status: 0, word0: 1, word1: 2, word2: 3, word3: 4 })
        }
        Op::LineLock(_) | Op::LineIoctl(_, _) | Op::NamedTarget { .. } => Reply::Status(0),
        Op::ParentAttach | Op::ParentSequence(_) => Reply::Status(0),
        Op::ApsdProbe => Reply::Apsd(SuperuserApsdProbe {
            open_status: 0,
            grant_status: 0,
            read_status: 0,
            value: 1,
        }),
        Op::KeyOpen(_) => Reply::Status(0),
        Op::KeyQuery(_) => Reply::Number(None),
        Op::ProfileApply(_, _) | Op::LimitsValid => Reply::Flag(true),
        Op::ProfileLoops => Reply::Loops(false, false),
        Op::AttributeSize => Reply::Word(56),
        Op::DriverCreate
        | Op::PreprocessDeviceControl
        | Op::PreprocessSystemControl
        | Op::AccessPolicy(_)
        | Op::DeviceCreate
        | Op::InterfaceCreate
        | Op::SymlinkCreate(_)
        | Op::QueueCreate
        | Op::TimerCreate => Reply::Status(0),
        _ => Reply::Done,
    }
}

type Log = Vec<Event<Op>>;

fn drive<S: Clone, R>(
    start: S,
    answer: &dyn Fn(Op) -> Option<Reply>,
    run: &dyn Fn(&mut Session<Op>, &mut S) -> R,
) -> (S, R, Log) {
    let mut replies: Vec<Reply> = Vec::new();
    loop {
        let mut state = start.clone();
        let mut io = Session::new(replies.clone());
        let result = run(&mut io, &mut state);
        match io.pending() {
            Some(op) => replies.push(answer(op).unwrap_or_else(|| calm(op))),
            None => return (state, result, io.log().clone()),
        }
    }
}

fn as_is(_: Op) -> Option<Reply> {
    None
}

fn marked(log: &Log, wanted: &str) -> Option<u32> {
    log.iter().rev().find_map(|event| match event {
        Event::Mark(name, value) if *name == wanted => Some(*value),
        _ => None,
    })
}

fn did(log: &Log, wanted: &str) -> usize {
    log.iter()
        .filter(|event| match event {
            Event::Did(op) => format!("{op:?}").starts_with(wanted),
            _ => false,
        })
        .count()
}

fn ready() -> DriverState {
    DriverState { pump_open: true, device_ready: true, timer_ready: true, ..DriverState::new() }
}

// -- tick ------------------------------------------------------------------------------

#[test]
fn calm_tick_collects_and_restarts_the_timer() {
    let (state, (), log) = drive(ready(), &as_is, &|io, state| {
        evt_telemetry_timer(io, state, GaugePoll::Raw(255), &tuning())
    });
    assert_eq!(did(&log, "TelemetryPush"), 1);
    assert!(matches!(log.last(), Some(Event::Did(Op::TimerStart(_)))));
    assert!(state.battery.online);
    assert_eq!(last_percent(&state.battery), 100);
    assert_eq!(state.iin.max_ua, 1_000_000);
    assert_eq!(state.charge.last_attempt_vbus_uv, 8_300_000);
    assert_eq!(marked(&log, "DieTempDc"), Some(350));
    assert_eq!(did(&log, "PumpCharge"), 0);
}

#[test]
fn timer_without_a_pump_does_nothing() {
    let start = DriverState { pump_open: false, ..ready() };
    let (_, (), log) = drive(start, &as_is, &|io, state| {
        evt_telemetry_timer(io, state, GaugePoll::Skipped, &tuning())
    });
    assert!(log.is_empty());
}

#[test]
fn unreadable_status_only_restarts_the_timer() {
    let answer = |op: Op| match op {
        Op::PumpStatus => Some(Reply::Chip(None)),
        _ => None,
    };
    let (state, (), log) = drive(ready(), &answer, &|io, state| {
        evt_telemetry_timer(io, state, GaugePoll::Skipped, &tuning())
    });
    assert_eq!(log.len(), 2);
    assert_eq!(state.charge.last_error, -10);
}

#[test]
fn guard_stop_reaches_the_pump_and_blocks_the_charge() {
    let answer = |op: Op| match op {
        Op::Guard { .. } => Some(Reply::Guard(GuardAction::Stop, true)),
        Op::PumpStatus => Some(Reply::Chip(Some(chip(OpMode::Standby)))),
        _ => None,
    };
    let (state, (), log) = drive(ready(), &answer, &|io, state| {
        evt_telemetry_timer(io, state, GaugePoll::Skipped, &tuning())
    });
    assert_eq!(did(&log, "PumpStandby"), 1);
    assert_eq!(did(&log, "PumpCharge"), 0);
    assert_eq!(state.actions, 1);
    assert_eq!(marked(&log, "GuardAct"), Some(4));
}

#[test]
fn latched_watchdog_is_cleared_and_serviced() {
    let answer = |op: Op| match op {
        Op::PumpStatus => {
            Some(Reply::Chip(Some(ChipStatus { fault1_sts: 0x80, ..chip(OpMode::Switching) })))
        }
        _ => None,
    };
    let (_, (), log) = drive(ready(), &answer, &|io, state| {
        evt_telemetry_timer(io, state, GaugePoll::Skipped, &tuning())
    });
    assert_eq!(did(&log, "PumpClearFaults"), 1);
    assert_eq!(did(&log, "PumpWatchdog"), 2);
}

#[test]
fn idle_pump_is_charged_again() {
    let answer = |op: Op| match op {
        Op::PumpStatus => Some(Reply::Chip(Some(chip(OpMode::Standby)))),
        _ => None,
    };
    let (state, (), log) = drive(ready(), &answer, &|io, state| {
        evt_telemetry_timer(io, state, GaugePoll::Skipped, &tuning())
    });
    assert_eq!(did(&log, "PumpCharge(true)"), 1);
    assert_eq!(state.charge.auto_starts, 1);
    assert_eq!(state.charge.charge_attempts, 1);
    assert_eq!(marked(&log, "LastEnableErr"), Some(0));
}

#[test]
fn third_failure_clears_latches_under_an_elevated_bus() {
    let answer = |op: Op| match op {
        Op::PumpStatus => Some(Reply::Chip(Some(chip(OpMode::Standby)))),
        Op::PumpCharge(_) => Some(Reply::Engaged(Err(PumpError::ModeNotReached))),
        _ => None,
    };
    let start = DriverState {
        charge: ChargeLoop { failed_attempts: 2, ..ready().charge },
        ..ready()
    };
    let (state, (), log) = drive(start, &answer, &|io, state| {
        evt_telemetry_timer(io, state, GaugePoll::Skipped, &tuning())
    });
    assert_eq!(did(&log, "PumpSoftReset"), 0);
    assert_eq!(did(&log, "PumpClearFaults"), 1);
    assert_eq!(state.charge.failed_attempts, 0);
    assert_eq!(state.charge.last_error, -4);
}

#[test]
fn third_failure_resets_the_chip_at_5v() {
    let answer = |op: Op| match op {
        Op::PumpStatus => Some(Reply::Chip(Some(chip(OpMode::Standby)))),
        Op::PumpAdc(AdcChannel::Vin) => Some(Reply::Reading(Some(5_000_000))),
        Op::ChargeMode { .. } => Some(Reply::Mode(Some(OpMode::Bypass))),
        Op::PumpCharge(_) => Some(Reply::Engaged(Err(PumpError::Fault))),
        _ => None,
    };
    let start = DriverState {
        charge: ChargeLoop { failed_attempts: 2, ..ready().charge },
        ..ready()
    };
    let (_, (), log) = drive(start, &answer, &|io, state| {
        evt_telemetry_timer(io, state, GaugePoll::Skipped, &tuning())
    });
    assert_eq!(did(&log, "PumpSoftReset"), 1);
    assert_eq!(did(&log, "Sleep(200)"), 1);
}

#[test]
fn edge_of_the_input_renegotiates_without_the_old_latch() {
    let answer = |op: Op| match op {
        Op::RenegotiateOnEdge { .. } => Some(Reply::Flag(true)),
        _ => None,
    };
    let mut start = ready();
    start.edge.armed = true;
    start.hvdcp.force9v_latched = true;
    let (state, (), log) = drive(start, &answer, &|io, state| {
        evt_telemetry_timer(io, state, GaugePoll::Skipped, &tuning())
    });
    assert_eq!(marked(&log, "HvdcpReplug"), Some(1));
    assert_eq!(marked(&log, "HvdcpVia"), Some(1));
    assert!(!state.hvdcp.force9v_latched);
    assert!(state.edge.last_present);
}

#[test]
fn busy_slot_is_retried_a_bounded_number_of_times() {
    let wanted = |op: Op| match op {
        Op::RetryWanted(_) => Some(Reply::Flag(true)),
        _ => None,
    };
    let run = |slot: RetrySlot| {
        drive(slot, &wanted, &|io, slot| {
            schedule_or_clear_superuser_retry(io, slot, -12, &tuning())
        })
    };
    let (slot, (), log) = run(RetrySlot { pending: false, attempts: 0, next_ms: 0 });
    assert_eq!(slot, RetrySlot { pending: true, attempts: 0, next_ms: 101_000 });
    assert_eq!(marked(&log, "HvdcpRetryPend"), Some(1));
    let (slot, (), log) = run(RetrySlot { pending: true, attempts: 2, next_ms: 101_000 });
    assert!(!slot.pending);
    assert_eq!(marked(&log, "HvdcpRetryPend"), Some(2));
    let (slot, (), _) = drive(slot, &as_is, &|io, slot| {
        schedule_or_clear_superuser_retry(io, slot, 0, &tuning())
    });
    assert_eq!(slot, RetrySlot { pending: false, attempts: 0, next_ms: 0 });
}

#[test]
fn elevation_backs_off_and_forgets() {
    assert_eq!(next_backoff_ms(0), 60_000);
    assert_eq!(next_backoff_ms(60_000), 120_000);
    assert_eq!(next_backoff_ms(240_000), 300_000);
    let fresh = ReElevate { attempts: 0, next_ms: 0, backoff_ms: 0 };
    let (scheduled, due) = reelevate_step(fresh, 1_000, true);
    assert!(!due);
    assert!(scheduled.next_ms > 1_000);
    let (again, due) = reelevate_step(scheduled, scheduled.next_ms, true);
    assert!(due);
    assert_eq!(again.attempts, 1);
    let (third, _) = reelevate_step(again, again.next_ms, true);
    assert_eq!(third.backoff_ms, 2 * again.backoff_ms);
    assert_eq!(reelevate_step(third, 0, false), (fresh, false));
}

#[test]
fn temperatures_below_zero_are_not_published() {
    assert_eq!(temperature_word(true, 425), 425);
    assert_eq!(temperature_word(true, -10), u32::MAX);
    assert_eq!(temperature_word(false, 425), u32::MAX);
}

// -- observations ----------------------------------------------------------------------

#[test]
fn doubled_cell_is_no_adapter() {
    let answer = |op: Op| match op {
        Op::PumpAdc(AdcChannel::Iin) => Some(Reply::Reading(Some(39_000))),
        Op::VinDoubled { .. } => Some(Reply::Flag(true)),
        _ => None,
    };
    let (_, tick, _) = drive((), &answer, &|io, _| observe(io, chip(OpMode::Standby)));
    assert!(!tick.sample.input_present);
    let (_, tick, log) = drive((), &answer, &|io, _| observe(io, chip(OpMode::Switching)));
    assert!(tick.sample.input_present);
    assert!(!tick.pump_alive);
    assert_eq!(did(&log, "VinDoubled"), 0);
}

#[test]
fn peak_of_the_current_is_kept_for_its_window() {
    let (iin, (), _) = drive(IinWindow { max_ua: 900, start_ms: 1 }, &as_is, &|io, iin| {
        iin_window(io, iin, 500, 1_000)
    });
    assert_eq!(iin.max_ua, 900);
    let (iin, (), _) = drive(iin, &as_is, &|io, iin| iin_window(io, iin, 950, 2_000));
    assert_eq!(iin.max_ua, 950);
    let (iin, (), _) = drive(iin, &as_is, &|io, iin| iin_window(io, iin, 100, 9_000));
    assert_eq!(iin.max_ua, 100);
}

#[test]
fn converter_follows_its_verdict() {
    let awake = AdcPower { awake: true, wake_n: 1 };
    let asleep = AdcPower { awake: false, wake_n: 0 };
    let (after, (), _) = drive(asleep, &as_is, &|io, adc| adc_power(io, adc, true, false));
    assert_eq!(after, awake);
    let none = |op: Op| match op {
        Op::AdcWake { .. } => Some(Reply::Verdict(None)),
        _ => None,
    };
    let (after, (), log) = drive(awake, &none, &|io, adc| adc_power(io, adc, false, false));
    assert_eq!(after, awake);
    assert_eq!(log.len(), 1);
    assert_eq!(evidence_word(None), 2);
    assert_eq!(evidence_word(Some(true)), 1);
}

// -- protection ------------------------------------------------------------------------

#[test]
fn forbidden_bypass_lowers_the_current() {
    let answer = |op: Op| match op {
        Op::ResolveBypass { strikes: 0, .. } => {
            Some(Reply::Bypass(BypassResolution::ReduceCurrent { to_ua: 500_000 }))
        }
        _ => None,
    };
    let run = |strikes: u32| {
        drive(strikes, &answer, &|io, strikes| {
            apply_guard(io, GuardAction::FallbackToBypass, 9_000_000, 4_000_000, strikes)
        })
    };
    let (strikes, (), log) = run(0);
    assert_eq!(strikes, 1);
    assert_eq!(did(&log, "PumpIinLimit(500000)"), 1);
    assert_eq!(did(&log, "PumpBypass"), 0);
    let (strikes, (), log) = run(1);
    assert_eq!(strikes, 1);
    assert_eq!(did(&log, "PumpStandby"), 1);
    assert_eq!(action_word(GuardAction::FallbackToBypass), 3);
}

// -- charge loop -----------------------------------------------------------------------

#[test]
fn attempts_are_spaced() {
    let charge = ChargeLoop {
        last_attempt_ms: 100_000,
        last_attempt_vbus_uv: 5_000_000,
        ..DriverState::new().charge
    };
    assert!(!attempt_due(charge, 101_000, 5_000_000, false, false));
    assert!(!attempt_due(charge, 101_000, 9_000_000, false, false));
    assert!(attempt_due(charge, 105_000, 5_300_000, false, false));
    assert!(!attempt_due(charge, 105_000, 5_300_000, true, false));
    assert!(attempt_due(charge, 101_000, 5_000_000, false, true));
}

#[test]
fn corrections_are_spaced() {
    let window = WindowLoop { last_nudge_ms: 100_000, best_err_uv: 10, stall_n: 0 };
    assert!(!correction_due(window, 100_500, false));
    assert!(correction_due(window, 200_000, false));
    assert!(mode_settled(Some(OpMode::Switching), OpMode::Switching));
    assert!(!mode_settled(Some(OpMode::Switching), OpMode::Bypass));
    let (_, tick, _) = drive((), &as_is, &|io, _| observe(io, chip(OpMode::Switching)));
    assert!(!lacks_elevation(tick, 1_000_000, 4_500_000));
}

#[test]
fn chip_that_shut_down_is_brought_back() {
    let down = |op: Op| match op {
        Op::PumpSysSts => Some(Reply::Register(Ok(0x01))),
        _ => None,
    };
    let (_, outcome, log) = drive((), &down, &|io, _| recover_ln_shutdown(io, &tuning()));
    assert_eq!(outcome, Some(Ok(OpMode::Switching)));
    assert_eq!(did(&log, "PumpSoftReset"), 1);
    let (_, outcome, log) = drive((), &as_is, &|io, _| recover_ln_shutdown(io, &tuning()));
    assert_eq!(outcome, None);
    assert_eq!(log.len(), 1);
    assert_eq!(por_delay_ms(100), 200);
    assert_eq!(por_delay_ms(u64::MAX), 20);
}

#[test]
fn landing_on_5v_opens_the_bypass_budget() {
    let answer = |op: Op| match op {
        Op::PumpAdc(AdcChannel::Vin) | Op::SampleVin => Some(Reply::Reading(Some(5_100_000))),
        Op::ElevatePath { .. } => Some(Reply::Elevate(ApsdElevate::Reject)),
        Op::ChargeMode { .. } => Some(Reply::Mode(Some(OpMode::Bypass))),
        Op::PumpCharge(_) => Some(Reply::Engaged(Ok(OpMode::Bypass))),
        _ => None,
    };
    let (state, code, log) =
        drive(ready(), &answer, &|io, state| run_hvdcp_and_land(io, state, &tuning()));
    assert_eq!(code, -14);
    assert_eq!(marked(&log, "SuIcl5v"), Some(54));
    assert_eq!(did(&log, "PumpIinLimit(2700000)"), 1);
    assert_eq!(marked(&log, "PostHvdcpMode"), Some(2));
    assert_eq!(state.charge.auto_starts, 1);
}

#[test]
fn landing_without_a_pump_only_negotiates() {
    let start = DriverState { pump_open: false, ..ready() };
    let (_, code, log) =
        drive(start, &as_is, &|io, state| run_hvdcp_and_land(io, state, &tuning()));
    assert_eq!(code, 0);
    assert_eq!(did(&log, "Pump"), 0);
    assert_eq!(marked(&log, "HvdcpTarget"), Some(8_300_000));
}

// -- battery ---------------------------------------------------------------------------

fn readings(vbat_uv: u32) -> Readings {
    Readings {
        vbat_uv,
        vbus_uv: 0,
        iin_ua: 0,
        iin_peak_ua: 0,
        vac_unplug: true,
        usable: true,
        soc_rising: false,
        now_ms: 5,
    }
}

#[test]
fn percentages_are_bounded() {
    assert_eq!(gauge_percent(0), 0);
    assert_eq!(gauge_percent(255), 100);
    assert_eq!(gauge_percent(128), 50);
    assert_eq!(gauge_percent(1), 1);
    assert_eq!(gauge_percent(254), 99);
    assert_eq!(soc_percent(0), 0);
    assert_eq!(soc_percent(5_000_000), 100);
    assert!(soc_percent(3_700_000) <= soc_percent(4_000_000));
}

#[test]
fn estimate_needs_a_missing_adapter_and_no_gauge() {
    let gone = |op: Op| match op {
        Op::OnlineRaw { .. } => Some(Reply::Verdict(Some(false))),
        Op::OnlineEvidence { .. } | Op::ChargingHold { .. } => Some(Reply::Flag(false)),
        _ => None,
    };
    let unknown = |op: Op| match op {
        Op::OnlineRaw { .. } => Some(Reply::Verdict(None)),
        _ => None,
    };
    let run = |battery: Battery, answer: &dyn Fn(Op) -> Option<Reply>| {
        drive(battery, answer, &|io, battery| {
            update_from_telemetry(io, battery, &readings(4_000_000), &tuning())
        })
        .0
    };
    let first = run(Battery::new(), &gone);
    assert_eq!(last_percent(&first), soc_percent(4_000_000));
    let kept = run(Battery::new(), &unknown);
    assert_eq!(last_percent(&kept), last_percent(&Battery::new()));
    let (gauged, (), _) =
        drive(Battery::new(), &as_is, &|io, battery| set_gauge_raw(io, battery, 255, 1));
    let after = run(gauged, &gone);
    assert_eq!(last_percent(&after), 100);
    assert_eq!(last_soc_source(&after), last_soc_source(&gauged));
}

#[test]
fn class_is_notified_of_changes_only() {
    let (attached, status, _) = drive(Battery::new(), &as_is, &|io, battery| initialize(io, battery));
    assert_eq!(status, 0);
    let run = |battery: Battery| {
        drive(battery, &as_is, &|io, battery| {
            update_from_telemetry(io, battery, &readings(4_000_000), &tuning())
        })
    };
    let (once, (), log) = run(attached);
    assert_eq!(did(&log, "BatteryNotify"), 1);
    let (_, (), log) = run(once);
    assert_eq!(did(&log, "BatteryNotify"), 0);
    assert_ne!(last_power_state(&once), 0);
    assert_eq!(query_tag(&once).1, 0);
}

#[test]
fn unload_undoes_initialize() {
    let (attached, _, _) = drive(Battery::new(), &as_is, &|io, battery| initialize(io, battery));
    assert!(attached.attached);
    let (after, (), log) = drive(attached, &as_is, &|io, battery| unload(io, battery));
    assert!(!after.attached);
    assert_eq!(did(&log, "BatteryDetach"), 1);
    assert_eq!(did(&log, "WmiDeregister"), 1);
    let refused = |op: Op| match op {
        Op::BatteryAttach => Some(Reply::Status(-7)),
        _ => None,
    };
    let (after, status, _) = drive(Battery::new(), &refused, &|io, battery| initialize(io, battery));
    assert!(status < 0);
    assert!(!after.attached);
}

#[test]
fn status_needs_the_right_tag() {
    let (mut attached, _, _) =
        drive(Battery::new(), &as_is, &|io, battery| initialize(io, battery));
    let (tag, _) = query_tag(&attached);
    assert!(query_status(&mut attached, tag, true).is_ok());
    assert!(query_status(&mut attached, tag + 1, true).is_err());
    assert!(query_status(&mut attached, tag, false).is_err());
    assert_eq!(note_gauge_failure(&mut attached), 1);
    assert_eq!(note_gauge_failure(&mut attached), 2);
}

// -- gauge and buck --------------------------------------------------------------------

#[test]
fn gauge_is_polled_once_per_period() {
    assert!(poll_due(0, 5));
    assert!(!poll_due(1_000, 30_999));
    assert!(poll_due(1_000, 31_000));
    let (_, poll, log) = drive((), &as_is, &|io, _| read_gauge_if_due(io, true));
    assert_eq!(poll, GaugePoll::Raw(128));
    assert!(matches!(log.last(), Some(Event::Did(Op::SuClose))));
    let taken = |op: Op| match op {
        Op::GaugeClaim { .. } => Some(Reply::Flag(false)),
        _ => None,
    };
    let (_, poll, log) = drive((), &taken, &|io, _| read_gauge_if_due(io, true));
    assert_eq!(poll, GaugePoll::Skipped);
    assert_eq!(did(&log, "Su"), 0);
    let (_, poll, log) = drive((), &as_is, &|io, _| read_gauge_if_due(io, false));
    assert_eq!(poll, GaugePoll::Skipped);
    assert_eq!(log.len(), 1);
}

#[test]
fn charge_needs_its_shadow() {
    let (_, raw, _) = drive((), &as_is, &|io, _| read_batt_soc_raw(io));
    assert_eq!(raw, Some(128));
    let torn = |op: Op| match op {
        Op::SuReadPair { .. } => Some(Reply::Pair(Some((128, 129)))),
        _ => None,
    };
    let (_, raw, log) = drive((), &torn, &|io, _| read_batt_soc_raw(io));
    assert_eq!(raw, None);
    assert_eq!(did(&log, "SuClose"), 1);
    let other = |op: Op| match op {
        Op::SuRead { .. } => Some(Reply::Byte(Some(0x11))),
        _ => None,
    };
    let (_, raw, _) = drive((), &other, &|io, _| read_batt_soc_raw(io));
    assert_eq!(raw, None);
    let closed = |op: Op| match op {
        Op::SuOpen => Some(Reply::Outcome(Err(-1))),
        _ => None,
    };
    let (_, poll, _) = drive((), &closed, &|io, _| read_gauge_if_due(io, true));
    assert_eq!(poll, GaugePoll::Failed);
}

#[test]
fn fast_charge_codes_are_capped() {
    assert_eq!(raw_for(0), 0);
    assert_eq!(raw_for(2_000_000), 40);
    assert_eq!(raw_for(u32::MAX), 60);
    assert_eq!(raw_of_steps(61), 60);
    assert!(!buck_due(1_000, 30_999, 30_000));
    assert!(buck_due(1_000, 31_000, 30_000));
    let (_, kept, log) = drive((), &as_is, &|io, _| write_fcc_raw(io, 0x01));
    assert_eq!(kept, Some(0x01));
    assert!(matches!(log.last(), Some(Event::Did(Op::SuClose))));
    assert_eq!(decode_vbatt((0, 0)), 0);
    assert_eq!(decode_ibatt((0, 0)), 0);
    assert_eq!(decode_vbatt((0, 0x80)), 3_999_989);
    assert_eq!(decode_ibatt((1, 0)), 488);
    assert_eq!(decode_ibatt((0xFF, 0xFF)), -488i32 as u32);
}

/// One tick of the buck section on a register that takes writes.
fn buck(register: &RefCell<u8>, fcc: FccPolicy, inputs: BuckInputs) -> (FccPolicy, Log) {
    let pmic = |op: Op| match op {
        Op::SuRead { reg: SPMI_REG_CHGR_FCC, .. } => Some(Reply::Byte(Some(*register.borrow()))),
        Op::SuWrite { reg: SPMI_REG_CHGR_FCC, value, .. } => {
            register.replace(value);
            Some(Reply::Flag(true))
        }
        _ => None,
    };
    let (fcc, (), log) =
        drive(fcc, &pmic, &|io, fcc: &mut FccPolicy| buck_tick(io, fcc, &inputs, 30_000));
    (fcc, log)
}

fn buck_inputs(now_ms: u64, pump_alive: bool) -> BuckInputs {
    BuckInputs { now_ms, vbat_uv: 4_000_000, pump_alive, critical: false }
}

#[test]
fn buck_is_probed_once_and_left_alone() {
    let register = RefCell::new(30);
    let (fcc, log) = buck(&register, DriverState::new().fcc, buck_inputs(40_000, false));
    assert_eq!((fcc.boot_raw, fcc.probe_done, fcc.raised), (30, true, false));
    assert_eq!(marked(&log, "ChgrProbeWrote"), Some(20));
    assert_eq!(marked(&log, "ChgrProbeRestored"), Some(30));
    assert_eq!(marked(&log, "ChgrProbeOk"), Some(1));
    assert_eq!(*register.borrow(), 30);
    // Without a configured setting nothing is written any more.
    let (fcc, log) = buck(&register, fcc, buck_inputs(80_000, true));
    assert_eq!(did(&log, "SuWrite"), 0);
    assert!(!fcc.raised);
    // Too early for another look.
    let (_, log) = buck(&register, fcc, buck_inputs(90_000, true));
    assert!(log.is_empty());
}

#[test]
fn buck_is_raised_and_put_back_after_a_grace() {
    let register = RefCell::new(30);
    let start = FccPolicy { cfg_raw: 200, ..DriverState::new().fcc };
    let (fcc, log) = buck(&register, start, buck_inputs(40_000, true));
    assert_eq!(marked(&log, "ChgrProbeOk"), Some(3));
    assert_eq!(*register.borrow(), 60);
    assert!(fcc.raised);
    let (fcc, _) = buck(&register, fcc, buck_inputs(80_000, false));
    assert_eq!(fcc.restore_at_ms, 200_000);
    // A new transfer takes the plan back.
    let (again, _) = buck(&register, fcc, buck_inputs(120_000, true));
    assert_eq!((again.raised, again.restore_at_ms), (true, 0));
    let (fcc, _) = buck(&register, fcc, buck_inputs(200_000, false));
    assert_eq!(*register.borrow(), 30);
    assert!(!fcc.raised);
    assert_eq!(fcc.boot_raw, 30);
}

#[test]
fn buck_is_not_touched_under_a_critical_fault() {
    let register = RefCell::new(30);
    let start = FccPolicy { cfg_raw: 40, ..DriverState::new().fcc };
    let inputs = BuckInputs { critical: true, ..buck_inputs(40_000, true) };
    let (fcc, log) = buck(&register, start, inputs);
    assert_eq!(did(&log, "SuWrite"), 0);
    assert_eq!((fcc.boot_raw, fcc.probe_done), (30, false));
}

/// The writes to the buck's current in a log.
fn buck_writes(log: &Log) -> Vec<u8> {
    log.iter()
        .filter_map(|event| match event {
            Event::Did(Op::SuWrite { reg: SPMI_REG_CHGR_FCC, value, .. }) => Some(*value),
            Event::Did(Op::UsbinWrite { addr: SPMI_REG_CHGR_FCC, value, .. }) => Some(*value),
            _ => None,
        })
        .collect()
}

fn one_tick(start: DriverState) -> (DriverState, Log) {
    let edge = |op: Op| match op {
        Op::RenegotiateOnEdge { .. } => Some(Reply::Flag(true)),
        Op::SuRead { reg: SPMI_REG_CHGR_FCC, .. } => Some(Reply::Byte(Some(70))),
        _ => None,
    };
    let (state, (), log) = drive(start, &edge, &|io, state| {
        evt_telemetry_timer(io, state, GaugePoll::Skipped, &tuning())
    });
    (state, log)
}

#[test]
fn whole_tick_leaves_the_buck_alone() {
    let mut start = ready();
    start.edge.armed = true;
    start.fcc.probe_done = true;
    let (after, log) = one_tick(start);
    assert_eq!(marked(&log, "HvdcpReplug"), Some(1));
    assert!(did(&log, "SuWrite") > 0);
    assert!(buck_writes(&log).is_empty());
    assert_eq!((after.fcc.cfg_raw, after.fcc.raised, after.fcc.probe_done), (0, false, true));
}

#[test]
fn whole_tick_bounds_the_buck() {
    let idle = |op: Op| match op {
        Op::PumpStatus => Some(Reply::Chip(Some(chip(OpMode::Standby)))),
        Op::SuRead { reg: SPMI_REG_CHGR_FCC, .. } => Some(Reply::Byte(Some(70))),
        _ => None,
    };
    let (after, (), log) = drive(ready(), &idle, &|io, state| {
        evt_telemetry_timer(io, state, GaugePoll::Skipped, &tuning())
    });
    assert_eq!(after.fcc.boot_raw, 70);
    assert_eq!(buck_writes(&log), vec![20, 70]);
    let mut start = ready();
    start.fcc.cfg_raw = 200;
    let (_, log) = one_tick(start);
    assert_eq!(buck_writes(&log), vec![60]);
}

#[test]
fn zero_is_never_put_back() {
    let nothing = FccPolicy { cfg_raw: 40, ..DriverState::new().fcc };
    assert_eq!(policy_step(nothing, buck_inputs(40_000, true)), FccStep::Keep);
    let register = RefCell::new(0);
    let (fcc, log) = buck(&register, nothing, buck_inputs(40_000, true));
    assert_eq!((fcc.boot_raw, fcc.raised, fcc.probe_done), (0, false, false));
    assert!(buck_writes(&log).is_empty());
    let raised = FccPolicy { boot_raw: 1, raised: true, restore_at_ms: 1, ..nothing };
    assert_eq!(policy_step(raised, buck_inputs(40_000, false)), FccStep::Restore(1));
}

// -- parameters and connections -----------------------------------------------------------

#[test]
fn parameters_have_defaults() {
    let closed = |op: Op| match op {
        Op::KeyOpen(Key::Device) => Some(Reply::Status(-1)),
        _ => None,
    };
    let (_, params, log) = drive((), &closed, &|io, _| read_parameters(io));
    assert_eq!(params.fcc_raw, 0);
    assert_eq!(params.telemetry_ms, telemetry_period(None));
    assert_eq!(did(&log, "KeyClose"), 0);
    let half = |op: Op| match op {
        Op::KeyOpen(Key::Parameters) => Some(Reply::Status(-1)),
        _ => None,
    };
    let (_, _, log) = drive((), &half, &|io, _| read_parameters(io));
    assert_eq!(did(&log, "KeyClose"), 1);
}

#[test]
fn parameters_come_from_the_registry() {
    let answer = |op: Op| match op {
        Op::KeyQuery("TelemetryMs") => Some(Reply::Number(Some(500))),
        Op::KeyQuery("ProtectionProfile") => Some(Reply::Number(Some(3))),
        Op::KeyQuery("TempStopDc") => Some(Reply::Number(Some(900))),
        Op::LimitsValid => Some(Reply::Flag(false)),
        _ => None,
    };
    let (_, params, log) = drive((), &answer, &|io, _| read_parameters(io));
    assert_eq!(params.telemetry_ms, 500);
    assert_eq!(marked(&log, "ProfSel"), Some(3));
    assert_eq!(marked(&log, "ProfLoops"), Some(1));
    assert_eq!(did(&log, "LimitsApply"), 1);
    assert_eq!(did(&log, "LimitsRestore"), 1);
    assert_eq!(did(&log, "KeyClose"), 2);
    assert_eq!(telemetry_period(Some(0)), telemetry_period(None));
}

#[test]
fn connections_are_told_apart() {
    let (_, found, _) = drive((), &as_is, &|io, _| collect_connections(io));
    assert_eq!(found.len(), 2);
    assert_eq!(found[1], Connection { id: 0x1_0000_0006, class: 2, kind: 0xC1 });
    let i2c = select_i2c_connection(&found);
    assert_eq!(i2c, Some(5));
    assert_eq!(select_usbin_connection(&found, 5), Some(0x1_0000_0006));
    assert_eq!(select_usbin_connection(&found[..1], 5), None);
    assert_eq!(id_halves(0x1_0000_0006), (6, 1));
}

// -- life of the device ----------------------------------------------------------------

#[test]
fn device_is_prepared_and_released() {
    let start = DriverState { device_ready: true, timer_ready: true, ..DriverState::new() };
    let (state, status, log) =
        drive(start, &as_is, &|io, state| evt_prepare_hardware(io, state, &tuning()));
    assert_eq!(status, 0);
    assert!(state.pump_open);
    assert!(state.device_ready);
    assert_eq!(state.usbin_id, Some(0x1_0000_0006));
    assert!(state.battery.attached);
    assert!(state.power_held);
    assert_eq!(did(&log, "PumpConfigure"), 1);
    assert!(did(&log, "SuWrite") > 0);
    assert!(buck_writes(&log).is_empty());
    assert_eq!(marked(&log, "ParAttachOk"), Some(1));
    assert_eq!(marked(&log, "ParSeqStatus"), Some(0));
    let (after, status, log) = drive(state, &as_is, &|io, state| evt_release_hardware(io, state));
    assert_eq!(status, 0);
    assert!(!after.pump_open);
    assert!(!after.device_ready);
    assert!(!after.power_held);
    assert!(!after.battery.attached);
    assert_eq!(did(&log, "TimerStop"), 1);
    assert_eq!(did(&log, "PumpClose"), 1);
}

#[test]
fn chip_that_does_not_answer_is_no_pump() {
    let answer = |op: Op| match op {
        Op::PumpOpen { .. } => Some(Reply::Effect(Err(PumpError::WrongDeviceId))),
        Op::LineTransfer { .. } => {
            Some(Reply::Transfer(Transfer { value: None, status: -3 }))
        }
        _ => None,
    };
    let (state, _, _) =
        drive(DriverState::new(), &answer, &|io, state| evt_prepare_hardware(io, state, &tuning()));
    assert!(!state.pump_open);
}

#[test]
fn hub_probe_reads_both_orders() {
    let (_, (), log) = drive((), &as_is, &|io, _| probe_usbin_spmi(io, Some(7)));
    assert_eq!(marked(&log, "UsbinOpen"), Some(1));
    assert_eq!(marked(&log, "UsbinBeVal"), Some(1));
    assert_eq!(marked(&log, "UsbinLeSt"), Some(0));
    let (_, (), log) = drive((), &as_is, &|io, _| probe_usbin_spmi(io, None));
    assert_eq!(log.len(), 1);
    assert_eq!(marked(&log, "UsbinOpen"), Some(0xFFFF_FFFF));
    let shut = |op: Op| match op {
        Op::UsbinOpen(_) => Some(Reply::Flag(false)),
        _ => None,
    };
    let (_, (), log) = drive((), &shut, &|io, _| probe_usbin_spmi(io, Some(7)));
    assert_eq!(marked(&log, "UsbinOpen"), Some(0));
}

#[test]
fn device_is_added_or_the_first_failure_reported() {
    let (_, status, log) =
        drive(DriverState::new(), &as_is, &|io, state| evt_device_add(io, state));
    assert_eq!(status, 0);
    let place = |wanted: Op| {
        log.iter().position(|event| match event {
            Event::Did(op) => format!("{op:?}") == format!("{wanted:?}"),
            _ => false,
        })
    };
    let policy = place(Op::AccessPolicy("D:P(A;;GA;;;SY)(A;;GA;;;BA)")).unwrap();
    assert!(policy < place(Op::DeviceCreate).unwrap());
    assert!(place(Op::SymlinkCreate("/DosDevices/nabu_ln8000")).is_some());
    let refused = |op: Op| match op {
        Op::DeviceCreate => Some(Reply::Status(-9)),
        _ => None,
    };
    let (_, status, log) =
        drive(DriverState::new(), &refused, &|io, state| evt_device_add(io, state));
    assert_eq!(status, -9);
    assert_eq!(did(&log, "QueueCreate"), 0);
    let (_, status, _) = drive((), &as_is, &|io, _| driver_entry(io));
    assert_eq!(status, 0);
    assert_eq!(uptime_word(12_345), 12);
    assert_eq!(uptime_word(0x1_0000_0001 * 1_000), 1);
}

#[test]
fn power_request_is_held_once() {
    let (held, status, log) = drive(false, &as_is, &|io, held| acquire(io, held));
    assert!(held);
    assert_eq!(status, 0);
    assert_eq!(did(&log, "PowerRequest"), 2);
    assert_eq!(did(&log, "PowerRequestCreate(\"nabu ln8000 charge pump\")"), 1);
    let (held, _, log) = drive(true, &as_is, &|io, held| acquire(io, held));
    assert!(held);
    assert!(log.is_empty());
    let (held, (), log) = drive(true, &as_is, &|io, held| release(io, held));
    assert!(!held);
    assert_eq!(did(&log, "PowerRequestClear"), 1);
    assert_eq!(did(&log, "PowerRequestDelete"), 1);
    let failing = |op: Op| match op {
        Op::PowerRequestSet => Some(Reply::Status(-2)),
        _ => None,
    };
    let (held, status, log) = drive(false, &failing, &|io, held| acquire(io, held));
    assert!(!held);
    assert_eq!(status, -2);
    assert_eq!(did(&log, "PowerRequestDelete"), 1);
}

#[test]
fn lock_waits_are_judged_by_their_status() {
    assert!(lock_acquired(0));
    assert!(lock_acquired(0x80));
    assert!(!lock_acquired(0x102));
    assert!(!lock_acquired(-1));
    assert!(nt_ok(0x102));
    assert!(!nt_ok(-1));
}
