use ln8000_kmdf::correction::{
    boost_vin_for_pump, nudge_vin_into_window, raise_icl_for_5v_bypass, raise_icl_for_pump,
    trim_vin_for_pump,
};
use ln8000_kmdf::exchange::{Op, Reply};
use ln8000_kmdf::hvdcp::{
    HvdcpError, HvdcpPhase, HvdcpState, HvdcpTransport, BIT_APSD_DONE, BIT_DCP, BIT_FORCE_5V,
    BIT_FORCE_9V, BIT_QC2, BIT_QC3, BIT_SINGLE_DEC, BIT_SINGLE_INC, FORCE9V_CONFIRM_N,
    FORCE9V_POLL_MS, REG_APSD_RESULT, REG_APSD_STATUS, REG_CMD_APSD, REG_CMD_HVDCP_2, REG_TYPE_C_CFG, REG_USBIN_ADAPTER_ALLOW,
    REG_USBIN_ICL_CFG, REG_USBIN_OPTIONS_1,
};
use ln8000_kmdf::negotiate::{
    demoted, run_negotiate, run_negotiate_report, wait_force9v_rise, PreScan,
};
use ln8000_kmdf::pump::{ApsdElevate, Force9vWait, Qc35AuthGate, Tuning};
use ln8000_kmdf::qc35::{wait_vin_window, Window};
use ln8000_kmdf::session::{Event, Session};
use ln8000_kmdf::usbin::{
    clear_apsd_cc_gate, ensure_icl_at_least, ensure_icl_floor_500ma, pulse_inc_gap, read_reg,
    safe_force_5v, wait_apsd_done, with_step, Bus,
};
use std::collections::HashMap;

fn tuning() -> Tuning {
    Tuning {
        force9v_settle_ms: 500,
        force9v_hard_cap_ms: 1_000,
        force9v_rise_uv: 6_000_000,
        qc35_detect_timeout_ms: 100,
        qc35_cap_timeout_ms: 100,
        qc35_vin_poll_ms: 10,
        qc35_prep_max_inc: 5,
        soft_reset_delay_ms: 100,
        charge_min_vin_uv: 4_500_000,
        superuser_retry_max: 5,
        superuser_retry_ms: 1_000,
        online_hold_ms: 8_000,
        charging_hold_ms: 8_000,
        sample_ring: 64,
    }
}

/// An adapter behind a PMIC: steps move the input by 200 mV.
struct Bench {
    regs: HashMap<u16, u8>,
    vin: i32,
    follows_steps: bool,
    follows_9v: bool,
    superuser: bool,
    hub: bool,
    swapped: bool,
    path: ApsdElevate,
    gate: Qc35AuthGate,
    in_window: bool,
    power_w: Option<u32>,
    fail_writes_after: usize,
    writes: Vec<(u16, u8)>,
    never_done: bool,
}

impl Bench {
    fn new(status: u8, result: u8, path: ApsdElevate) -> Bench {
        let mut regs = HashMap::new();
        regs.insert(REG_APSD_STATUS, status);
        regs.insert(REG_APSD_RESULT, result);
        Bench {
            regs,
            vin: 5_000_000,
            follows_steps: true,
            follows_9v: true,
            superuser: true,
            hub: false,
            swapped: false,
            path,
            gate: Qc35AuthGate::SkipVinTooHigh,
            in_window: false,
            power_w: None,
            fail_writes_after: usize::MAX,
            writes: Vec::new(),
            never_done: false,
        }
    }

    fn write(&mut self, reg: u16, value: u8) -> bool {
        if self.writes.len() >= self.fail_writes_after {
            return false;
        }
        self.writes.push((reg, value));
        self.regs.insert(reg, value);
        if reg == REG_CMD_HVDCP_2 {
            if value & BIT_SINGLE_INC != 0 && self.follows_steps {
                self.vin += 200_000;
            }
            if value & BIT_SINGLE_DEC != 0 && self.follows_steps {
                self.vin -= 200_000;
            }
            if value & BIT_FORCE_9V != 0 && self.follows_9v {
                self.vin = 9_000_000;
            }
            if value == BIT_FORCE_5V {
                self.vin = 5_000_000;
            }
        }
        if reg == REG_CMD_APSD && !self.never_done {
            self.regs.insert(REG_APSD_STATUS, BIT_APSD_DONE);
        }
        true
    }

    fn read(&self, reg: u16) -> Option<u8> {
        Some(*self.regs.get(&reg).unwrap_or(&0))
    }

    fn answer(&mut self, op: Op) -> Reply {
        match op {
            Op::Sleep(_) | Op::SuClose => Reply::Done,
            Op::SuOpen => Reply::Outcome(if self.superuser { Ok(()) } else { Err(-5) }),
            Op::SuGrant(_) => Reply::Outcome(Ok(())),
            Op::SuRead { reg, .. } => Reply::Byte(self.read(reg)),
            Op::SuWrite { reg, value, .. } => Reply::Flag(self.write(reg, value)),
            Op::UsbinOpen(_) => Reply::Flag(self.hub),
            Op::UsbinRead { addr, big_endian } => {
                Reply::Byte(if big_endian != self.swapped { self.read(addr) } else { None })
            }
            Op::UsbinWrite { addr, value, .. } => {
                Reply::Byte(if self.write(addr, value) { Some(0) } else { None })
            }
            Op::SampleVin => Reply::Reading(Some(self.vin)),
            Op::PromoteQc { result, .. } => Reply::Byte(Some(result)),
            Op::ElevatePath { .. } => Reply::Elevate(self.path),
            Op::AuthGate(_) => Reply::Gate(self.gate),
            Op::DetectWindow(_) | Op::CapWindow(_) => Reply::Flag(self.in_window),
            Op::PowerLimit(_) => Reply::Number(self.power_w),
            Op::IclForPower(_) => Reply::Byte(Some(54)),
            Op::Force9vStep { .. } => Reply::Force9v(Force9vWait::Stop),
            other => panic!("unexpected request {other:?}"),
        }
    }
}

type Log = Vec<Event<Op>>;

fn drive<R>(
    bench: &mut Bench,
    start: HvdcpState,
    run: &dyn Fn(&mut Session<Op>, &mut HvdcpState) -> R,
) -> (HvdcpState, R, Log) {
    let mut replies: Vec<Reply> = Vec::new();
    loop {
        let mut state = start;
        let mut io = Session::new(replies.clone());
        let result = run(&mut io, &mut state);
        match io.pending() {
            Some(op) => replies.push(bench.answer(op)),
            None => return (state, result, io.log().clone()),
        }
    }
}

fn marked(log: &Log, wanted: &str) -> Option<u32> {
    log.iter().rev().find_map(|event| match event {
        Event::Mark(name, value) if *name == wanted => Some(*value),
        _ => None,
    })
}

fn negotiate(bench: &mut Bench, usbin_id: Option<u64>, vbat_uv: u32) -> (HvdcpState, (i32, u32), Log) {
    drive(bench, HvdcpState::new(), &|io, state| {
        run_negotiate_report(io, usbin_id, vbat_uv, state, &tuning())
    })
}

#[test]
fn qc3_adapter_is_raised_to_the_target() {
    let mut bench = Bench::new(BIT_APSD_DONE, BIT_QC3, ApsdElevate::Qc3Pulse);
    let (state, report, log) = negotiate(&mut bench, None, 4_000_000);
    assert_eq!(report, (0, 8_300_000));
    assert_eq!(state.pulse_cnt, 17);
    assert_eq!(bench.vin, 8_400_000);
    assert_eq!(state.phase, HvdcpPhase::Done);
    assert_eq!(state.transport, HvdcpTransport::Superuser);
    assert_eq!(marked(&log, "SuPulseCnt"), Some(17));
    assert_eq!(marked(&log, "SuQcEndVin"), Some(8_400_000));
    assert_eq!(marked(&log, "HvdcpEstVbus"), Some(8_400_000));
    assert!(matches!(log.last(), Some(Event::Did(Op::SuClose))));
}

#[test]
fn finished_qc_class_is_not_asked_for_again() {
    let mut bench = Bench::new(BIT_APSD_DONE, BIT_QC3, ApsdElevate::Qc3Pulse);
    let (_, _, log) = negotiate(&mut bench, None, 4_000_000);
    assert_eq!(marked(&log, "SuApsdSkip"), Some(1));
    assert!(bench.writes.iter().all(|(reg, _)| *reg != REG_CMD_APSD));
}

#[test]
fn plain_dcp_is_classified_again() {
    let mut bench = Bench::new(BIT_APSD_DONE, BIT_DCP, ApsdElevate::Force9v);
    let (state, report, log) = negotiate(&mut bench, None, 4_000_000);
    assert_eq!(report.0, 0);
    assert_eq!(marked(&log, "SuApsdSkip"), Some(0));
    assert_eq!(bench.writes.iter().filter(|(reg, _)| *reg == REG_CMD_APSD).count(), 1);
    assert!(state.force9v_latched);
    assert_eq!(marked(&log, "SuDcpHoldN"), Some(2));
    assert_eq!(bench.vin, 9_000_000);
}

#[test]
fn qc2_adapter_is_latched_to_9v() {
    let mut bench = Bench::new(BIT_APSD_DONE, BIT_QC2, ApsdElevate::Force9v);
    let (state, report, log) = negotiate(&mut bench, None, 4_000_000);
    assert_eq!(report.0, 0);
    assert!(state.force9v_latched);
    assert_eq!(state.pulse_cnt, 20);
    assert_eq!(marked(&log, "SuQc2Icl"), Some(30));
    assert_eq!(bench.regs[&REG_CMD_HVDCP_2] & BIT_FORCE_9V, BIT_FORCE_9V);
}

#[test]
fn dcp_that_ignores_9v_is_driven_by_steps() {
    let mut bench = Bench::new(BIT_APSD_DONE, BIT_DCP, ApsdElevate::Force9v);
    bench.follows_9v = false;
    let (state, report, log) = negotiate(&mut bench, None, 4_000_000);
    assert_eq!(report.0, 0);
    assert!(!state.force9v_latched);
    assert_eq!(marked(&log, "SuDcpNoElevate"), Some(1));
    assert_eq!(marked(&log, "SuDcpPulseRaise"), Some(17));
    assert_eq!(bench.vin, 8_400_000);
    assert_eq!(marked(&log, "SuDcpIcl"), Some(30));
}

#[test]
fn dcp_that_ignores_everything_stays_at_5v() {
    let mut bench = Bench::new(BIT_APSD_DONE, BIT_DCP, ApsdElevate::Force9v);
    bench.follows_9v = false;
    bench.follows_steps = false;
    let (state, report, log) = negotiate(&mut bench, None, 4_000_000);
    assert_eq!(report.0, 0);
    assert!(!state.force9v_latched);
    assert_eq!(marked(&log, "SuDcpPulseRaise"), Some(23));
    assert_eq!(marked(&log, "SuDcpIcl"), Some(40));
    assert_eq!(bench.writes.iter().filter(|w| **w == (REG_CMD_HVDCP_2, BIT_FORCE_5V)).count(), 2);
}

#[test]
fn rejected_adapter_is_reported() {
    let mut bench = Bench::new(BIT_APSD_DONE, 0, ApsdElevate::Reject);
    let (state, report, log) = negotiate(&mut bench, None, 4_000_000);
    assert_eq!(report.0, HvdcpError::NotQcAdapter.code());
    assert_eq!(report.0, -14);
    assert_eq!(state.phase, HvdcpPhase::Failed);
    assert_eq!(marked(&log, "HvdcpErr"), Some(-14i32 as u32));
    assert_eq!(bench.vin, 5_000_000);
}

#[test]
fn missing_classification_times_out() {
    let mut bench = Bench::new(0, 0, ApsdElevate::Qc3Pulse);
    bench.never_done = true;
    let (state, report, log) = negotiate(&mut bench, None, 4_000_000);
    assert_eq!(report.0, -13);
    assert_eq!(state.phase, HvdcpPhase::Failed);
    let slept: u32 = log
        .iter()
        .map(|event| match event {
            Event::Did(Op::Sleep(ms)) if *ms == 200 => *ms,
            _ => 0,
        })
        .sum();
    assert_eq!(slept, 2_000);
}

#[test]
fn no_path_is_unavailable() {
    let mut bench = Bench::new(BIT_APSD_DONE, BIT_QC3, ApsdElevate::Qc3Pulse);
    bench.superuser = false;
    let (state, report, log) = negotiate(&mut bench, None, 4_000_000);
    assert_eq!(report, (-10, 8_300_000));
    assert_eq!(state.transport, HvdcpTransport::Closed);
    assert_eq!(marked(&log, "SuHvdcpOpen"), Some(-5i32 as u32));
    assert!(bench.writes.is_empty());
}

#[test]
fn hub_that_does_not_open_is_reported() {
    let mut bench = Bench::new(BIT_APSD_DONE, BIT_QC3, ApsdElevate::Qc3Pulse);
    bench.superuser = false;
    let (_, report, _) = negotiate(&mut bench, Some(7), 4_000_000);
    assert_eq!(report.0, -11);
}

#[test]
fn hub_finds_the_byte_order() {
    let mut bench = Bench::new(BIT_APSD_DONE, BIT_QC3, ApsdElevate::Qc3Pulse);
    bench.superuser = false;
    bench.hub = true;
    bench.swapped = true;
    let (state, report, _) = negotiate(&mut bench, Some(7), 4_000_000);
    assert_eq!(report.0, 0);
    assert!(state.endian_known);
    assert!(!state.big_endian);
    assert_eq!(state.transport, HvdcpTransport::UsbinRh);
    assert_eq!(bench.vin, 8_400_000);
}

#[test]
fn failed_step_sends_the_bus_back_to_5v() {
    let mut clean = Bench::new(BIT_APSD_DONE, BIT_QC3, ApsdElevate::Qc3Pulse);
    negotiate(&mut clean, None, 4_000_000);
    let first_step = clean.writes.iter().position(|(reg, _)| *reg == REG_CMD_HVDCP_2).unwrap();
    let mut bench = Bench::new(BIT_APSD_DONE, BIT_QC3, ApsdElevate::Qc3Pulse);
    bench.fail_writes_after = first_step + 2;
    let (state, report, log) = negotiate(&mut bench, None, 4_000_000);
    assert_eq!(report.0, HvdcpError::SpmiIo.code());
    assert_eq!(state.phase, HvdcpPhase::Failed);
    assert!(!state.force9v_latched);
    assert_eq!(state.pulse_cnt, 2);
    let last_write = log.iter().rev().find_map(|event| match event {
        Event::Did(Op::SuWrite { reg, value, .. }) => Some((*reg, *value)),
        _ => None,
    });
    assert_eq!(last_write, Some((REG_CMD_HVDCP_2, BIT_FORCE_5V)));
    assert_eq!(state.transport, HvdcpTransport::Superuser);
}

#[test]
fn next_success_forgets_the_failure() {
    let mut bench = Bench::new(BIT_APSD_DONE, BIT_QC3, ApsdElevate::Qc3Pulse);
    bench.superuser = false;
    let (failed, report, _) = negotiate(&mut bench, None, 4_000_000);
    assert_eq!(report.0, failed.last_code());
    assert_eq!(failed.last_code(), HvdcpError::UsbinUnavailable.code());
    bench.superuser = true;
    let (state, report, _) = drive(&mut bench, failed, &|io, state| {
        run_negotiate_report(io, None, 4_000_000, state, &tuning())
    });
    assert_eq!(report.0, 0);
    assert!(state.failure.is_none());
    assert_eq!(state.last_code(), 0);
}

#[test]
fn qc35_class_votes_its_current() {
    let mut bench = Bench::new(BIT_APSD_DONE, BIT_QC3, ApsdElevate::Qc3Pulse);
    bench.gate = Qc35AuthGate::Attempt;
    bench.in_window = true;
    bench.power_w = Some(27);
    let (state, report, log) = negotiate(&mut bench, None, 4_000_000);
    assert_eq!(report.0, 0);
    assert_eq!(marked(&log, "SuQc35Auth"), Some(1));
    assert_eq!(marked(&log, "SuQc35PowerW"), Some(27));
    assert_eq!(marked(&log, "SuIclQc35"), Some(54));
    assert_eq!(bench.regs[&REG_USBIN_ICL_CFG], 54);
    assert_eq!(state.pulse_cnt, 17);
}

#[test]
fn qc35_failure_keeps_the_qc3_way() {
    let mut bench = Bench::new(BIT_APSD_DONE, BIT_QC3, ApsdElevate::Qc3Pulse);
    bench.gate = Qc35AuthGate::Attempt;
    bench.in_window = true;
    let (state, report, log) = negotiate(&mut bench, None, 4_000_000);
    assert_eq!(report.0, 0);
    assert_eq!(marked(&log, "SuQc35Fail"), Some(4));
    assert_eq!(marked(&log, "SuQc35Auth"), Some(0));
    assert_eq!(state.phase, HvdcpPhase::Done);
    assert_eq!(bench.vin, 8_400_000);
    assert!(bench.writes.iter().all(|(reg, _)| *reg != REG_CMD_APSD));
}

#[test]
fn negotiation_opens_the_block() {
    let mut bench = Bench::new(BIT_APSD_DONE, BIT_QC3, ApsdElevate::Qc3Pulse);
    bench.regs.insert(REG_TYPE_C_CFG, 0x81);
    bench.regs.insert(REG_USBIN_ADAPTER_ALLOW, 0xA3);
    bench.regs.insert(REG_USBIN_OPTIONS_1, 0x00);
    let (state, _, log) = negotiate(&mut bench, None, 4_000_000);
    assert_eq!(bench.regs[&REG_TYPE_C_CFG], 0x01);
    assert_eq!(bench.regs[&REG_USBIN_ADAPTER_ALLOW], 0xAC);
    assert_eq!(bench.regs[&REG_USBIN_ICL_CFG], 10);
    assert_eq!(bench.regs[&REG_USBIN_OPTIONS_1], state.options1);
    assert_eq!(marked(&log, "SuTypecCfg"), Some(0x01));
    assert_eq!(marked(&log, "SuIclRaw"), Some(10));
}

#[test]
fn run_negotiate_returns_the_failure_itself() {
    let mut bench = Bench::new(BIT_APSD_DONE, 0, ApsdElevate::Reject);
    let (_, result, _) = drive(&mut bench, HvdcpState::new(), &|io, state| {
        run_negotiate(io, None, 4_000_000, state, &tuning())
    });
    assert_eq!(result, Err(HvdcpError::NotQcAdapter));
}

#[test]
fn skip_needs_a_finished_qc_class() {
    let qc3 = PreScan { status: BIT_APSD_DONE, result: BIT_QC3, qc: 0 };
    assert!(qc3.skips_rerun());
    assert!(!PreScan { status: 0, ..qc3 }.skips_rerun());
    let dcp = PreScan { status: BIT_APSD_DONE, result: BIT_DCP, qc: 0 };
    assert!(dcp.already_dcp());
    assert!(!dcp.skips_rerun());
    let charger = PreScan { status: BIT_APSD_DONE | 0x02, result: BIT_DCP, qc: 0 };
    assert!(charger.already_qc2());
    assert!(charger.skips_rerun());
    let hinted = PreScan { status: BIT_APSD_DONE, result: BIT_DCP, qc: 0x08 };
    assert!(hinted.already_qc3());
    assert!(hinted.skips_rerun());
}

#[test]
fn demotion_needs_a_lost_qc_bit() {
    assert!(demoted(BIT_QC3, BIT_DCP));
    assert!(demoted(BIT_QC2, BIT_DCP));
    assert!(!demoted(BIT_DCP, BIT_DCP));
    assert!(!demoted(BIT_QC3, BIT_QC3 | BIT_DCP));
    assert!(!demoted(BIT_QC3, 0));
}

#[test]
fn latched_bus_takes_no_step() {
    let mut bench = Bench::new(0, 0, ApsdElevate::Reject);
    let latched = HvdcpState { force9v_latched: true, pulse_cnt: 20, ..HvdcpState::new() };
    let (state, sent, _) = drive(&mut bench, latched, &|io, state| {
        pulse_inc_gap(io, Bus::Superuser, state, 40)
    });
    assert_eq!(sent, Ok(false));
    assert_eq!(state.pulse_cnt, 20);
    assert!(bench.writes.is_empty());
    let (_, moved, log) = drive(&mut bench, latched, &|io, state| {
        nudge_vin_into_window(io, None, state, 10_000_000, 4_000_000, true)
    });
    assert_eq!(moved, 0);
    assert!(log.is_empty());
}

#[test]
fn step_command_keeps_the_other_bits() {
    assert_eq!(with_step(0xF2, BIT_SINGLE_INC), 0xF1);
    assert_eq!(with_step(0x05, BIT_SINGLE_DEC), 0x06);
}

#[test]
fn trim_goes_down_to_the_target() {
    let mut bench = Bench::new(0, 0, ApsdElevate::Reject);
    bench.vin = 9_000_000;
    let start = HvdcpState { pulse_cnt: 20, ..HvdcpState::new() };
    let (state, dec, log) = drive(&mut bench, start, &|io, state| {
        trim_vin_for_pump(io, None, state, 9_000_000, 4_000_000)
    });
    assert_eq!(dec, 4);
    assert_eq!(bench.vin, 8_200_000);
    assert_eq!(state.pulse_cnt, 16);
    assert_eq!(marked(&log, "TrimDec"), Some(4));
}

#[test]
fn boost_goes_up_to_the_target() {
    let mut bench = Bench::new(0, 0, ApsdElevate::Reject);
    bench.vin = 7_900_000;
    let (state, inc, _) = drive(&mut bench, HvdcpState::new(), &|io, state| {
        boost_vin_for_pump(io, None, state, 7_900_000, 4_000_000)
    });
    assert_eq!(inc, 2);
    assert_eq!(bench.vin, 8_300_000);
    assert_eq!(state.pulse_cnt, 2);
    let (_, none, log) = drive(&mut bench, HvdcpState::new(), &|io, state| {
        boost_vin_for_pump(io, None, state, 8_300_000, 4_000_000)
    });
    assert_eq!(none, 0);
    assert_eq!(log.len(), 1);
}

#[test]
fn boost_is_bounded() {
    let mut bench = Bench::new(0, 0, ApsdElevate::Reject);
    let (state, inc, _) = drive(&mut bench, HvdcpState::new(), &|io, state| {
        boost_vin_for_pump(io, None, state, 100_000, 4_500_000)
    });
    assert_eq!(inc, 23);
    assert_eq!(state.pulse_cnt, 23);
}

#[test]
fn failed_step_ends_a_trim() {
    let mut bench = Bench::new(0, 0, ApsdElevate::Reject);
    bench.fail_writes_after = 1;
    let (_, dec, log) = drive(&mut bench, HvdcpState::new(), &|io, state| {
        trim_vin_for_pump(io, None, state, 9_000_000, 4_000_000)
    });
    assert_eq!(dec, 1);
    assert!(matches!(log.last(), Some(Event::Did(Op::SuClose))));
}

#[test]
fn nudge_follows_the_band() {
    let run = |vin: i32, dead: bool| {
        let mut bench = Bench::new(0, 0, ApsdElevate::Reject);
        bench.vin = vin;
        let start = HvdcpState { pulse_cnt: 10, ..HvdcpState::new() };
        let (state, moved, _) = drive(&mut bench, start, &|io, state| {
            nudge_vin_into_window(io, None, state, vin, 4_000_000, dead)
        });
        (moved, state.pulse_cnt)
    };
    assert_eq!(run(8_350_000, false), (0, 10));
    assert_eq!(run(8_350_000, true), (1, 9));
    assert_eq!(run(9_500_000, false).1, 4);
    assert_eq!(run(7_000_000, false).1, 17);
    assert_eq!(run(0, true), (0, 10));
}

#[test]
fn current_votes_never_lower_the_limit() {
    let mut bench = Bench::new(0, 0, ApsdElevate::Reject);
    bench.regs.insert(REG_USBIN_ICL_CFG, 40);
    let (_, floor, log) = drive(&mut bench, HvdcpState::new(), &|io, state| {
        ensure_icl_floor_500ma(io, Bus::Superuser, state)
    });
    assert_eq!(floor, Ok(40));
    assert_eq!(log.len(), 1);
    let (_, vote, _) = drive(&mut bench, HvdcpState::new(), &|io, state| {
        ensure_icl_at_least(io, Bus::Superuser, state, 30)
    });
    assert_eq!(vote, Ok(40));
    assert!(bench.writes.iter().all(|(reg, _)| *reg != REG_USBIN_ICL_CFG));
    let (_, vote, _) = drive(&mut bench, HvdcpState::new(), &|io, state| {
        ensure_icl_at_least(io, Bus::Superuser, state, 60)
    });
    assert_eq!(vote, Ok(60));
    assert_eq!(bench.regs[&REG_USBIN_ICL_CFG], 60);
}

#[test]
fn pump_budget_falls_back_to_the_hub() {
    let mut bench = Bench::new(0, 0, ApsdElevate::Reject);
    let (_, icl, log) = drive(&mut bench, HvdcpState::new(), &|io, state| {
        raise_icl_for_pump(io, None, state)
    });
    assert_eq!(icl, 60);
    assert_eq!(marked(&log, "SuIclPump"), Some(60));
    bench.superuser = false;
    let (_, icl, _) = drive(&mut bench, HvdcpState::new(), &|io, state| {
        raise_icl_for_pump(io, None, state)
    });
    assert_eq!(icl, 0);
    bench.hub = true;
    bench.regs.insert(REG_USBIN_ICL_CFG, 0);
    let (state, icl, _) = drive(&mut bench, HvdcpState::new(), &|io, state| {
        raise_icl_for_5v_bypass(io, Some(1), state)
    });
    assert_eq!(icl, 54);
    assert_eq!(state.phase, HvdcpPhase::FiveVBypass);
}

#[test]
fn return_to_5v_drops_the_latch() {
    let mut bench = Bench::new(0, 0, ApsdElevate::Reject);
    let latched = HvdcpState { force9v_latched: true, ..HvdcpState::new() };
    let (state, (), _) =
        drive(&mut bench, latched, &|io, state| safe_force_5v(io, Bus::Superuser, state));
    assert!(!state.force9v_latched);
    assert_eq!(bench.writes, vec![(REG_CMD_HVDCP_2, BIT_FORCE_5V)]);
}

#[test]
fn unreadable_registers_are_bus_failures() {
    let mut io: Session<Op> = Session::new(vec![Reply::Byte(None)]);
    let state = HvdcpState::new();
    assert_eq!(read_reg(&mut io, Bus::Superuser, &state, REG_APSD_STATUS), Err(HvdcpError::SpmiIo));
    let mut io: Session<Op> = Session::new(vec![Reply::Byte(Some(0x80)), Reply::Flag(false)]);
    assert_eq!(clear_apsd_cc_gate(&mut io, Bus::Superuser, &state), Err(HvdcpError::SpmiIo));
    let mut io: Session<Op> = Session::new(vec![Reply::Byte(Some(0x7F))]);
    assert_eq!(clear_apsd_cc_gate(&mut io, Bus::Superuser, &state), Ok(0x7F));
}

#[test]
fn stopped_run_is_inert() {
    let mut io: Session<Op> = Session::new(Vec::new());
    let state = HvdcpState::new();
    assert!(read_reg(&mut io, Bus::Superuser, &state, REG_APSD_STATUS).is_err());
    io.mark("After", 1);
    assert!(io.log().is_empty());
    assert!(matches!(io.pending(), Some(Op::SuRead { reg, .. }) if reg == REG_APSD_STATUS));
    io.tell(Op::Now);
    assert!(matches!(io.pending(), Some(Op::SuRead { .. })));
}

#[test]
fn longer_run_repeats_the_shorter_one() {
    let run = |replies: Vec<Reply>| {
        let mut io: Session<Op> = Session::new(replies);
        let mut state = HvdcpState::new();
        let sent = pulse_inc_gap(&mut io, Bus::Superuser, &mut state, 40);
        (sent, format!("{:?}", io.log()), format!("{:?}", io.pending()))
    };
    let (_, short, pending) = run(vec![Reply::Byte(Some(0x10))]);
    let (_, longer, _) = run(vec![Reply::Byte(Some(0x10)), Reply::Flag(true)]);
    assert!(longer.starts_with(short.trim_end_matches(']')));
    assert!(pending.contains("SuWrite"));
    let (sent, _, pending) =
        run(vec![Reply::Byte(Some(0x10)), Reply::Flag(true), Reply::Done]);
    assert_eq!(sent, Ok(true));
    assert_eq!(pending, "None");
}

/// How long the requests of a log have slept (ms).
fn slept(log: &Log) -> u32 {
    log.iter()
        .map(|event| match event {
            Event::Did(Op::Sleep(ms)) => *ms,
            _ => 0,
        })
        .sum()
}

#[test]
fn ramp_ends_with_the_last_deadline() {
    // The core never gives up, and the input never rises.
    let mut replies: Vec<Reply> = Vec::new();
    let log = loop {
        let mut io = Session::new(replies.clone());
        let (last, peak) = wait_force9v_rise(&mut io, &tuning());
        match io.pending() {
            Some(Op::SampleVin) => replies.push(Reply::Reading(Some(5_100_000))),
            Some(Op::Force9vStep { .. }) => replies.push(Reply::Force9v(Force9vWait::Continue)),
            Some(_) => replies.push(Reply::Done),
            None => {
                assert_eq!((last, peak), (5_100_000, 5_100_000));
                break io.log().clone();
            }
        }
    };
    assert!(slept(&log) >= 1_000);
    assert!(slept(&log) <= 1_000 + FORCE9V_POLL_MS);
}

#[test]
fn ramp_needs_its_level_in_a_row() {
    // A spike, a drop, and then the level.
    let samples = [8_200_000, 4_900_000, 8_100_000, 8_100_000, 8_100_000];
    let mut taken = 0;
    let mut replies: Vec<Reply> = Vec::new();
    loop {
        let mut io = Session::new(replies.clone());
        let end = wait_force9v_rise(&mut io, &tuning());
        match io.pending() {
            Some(Op::SampleVin) => {
                replies.push(Reply::Reading(Some(samples[taken])));
                taken += 1;
            }
            Some(Op::Force9vStep { .. }) => replies.push(Reply::Force9v(Force9vWait::Continue)),
            Some(_) => replies.push(Reply::Done),
            None => {
                assert_eq!(end, (8_100_000, 8_200_000));
                break;
            }
        }
    }
    assert_eq!(taken, 2 + FORCE9V_CONFIRM_N as usize);
}

#[test]
fn window_wait_ends_with_its_patience() {
    let mut bench = Bench::new(0, 0, ApsdElevate::Reject);
    let (_, vin, log) = drive(&mut bench, HvdcpState::new(), &|io, _| {
        wait_vin_window(io, Window::Detect, 95, 10)
    });
    assert_eq!(vin, None);
    assert_eq!(slept(&log), 100);
}

#[test]
fn class_wait_ends_with_its_patience() {
    let mut bench = Bench::new(0, 0, ApsdElevate::Reject);
    let (_, done, log) = drive(&mut bench, HvdcpState::new(), &|io, state| {
        wait_apsd_done(io, Bus::Superuser, state)
    });
    assert_eq!(done, Err(HvdcpError::ApsdTimeout));
    assert_eq!(slept(&log), 2_000);
}
