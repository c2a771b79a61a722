//! The negotiation with the adapter.
//!
//! Clear what is latched, open the voltage limits, enable the block, classify
//! the adapter, raise the bus by the path that fits it, and look at the result.
use crate::arith::nonneg;
use crate::exchange::{Op, Reply};
use crate::hvdcp::{
    estimated_vbus_uv, pulses_toward_target, qc_status_indicates_9v, target_vbus_uv,
    trim_target_uv, HvdcpError, HvdcpPhase, HvdcpState, HvdcpTransport, BIT_APSD_DONE, BIT_DCP,
    BIT_QC2, BIT_QC3, BIT_QC_CHARGER, BIT_QC_CONTINUOUS, ENABLE_SETTLE_MS, FORCE9V_CONFIRM_N,
    FORCE9V_POLL_MS, ICL_RAW_DCP_2A, ICL_RAW_HVDCP2_1P5A, MAX_PULSE_CNT, PULSE_GAP_MS,
    REG_APSD_RESULT, REG_APSD_STATUS, REG_QC_CHANGE_STATUS,
};
use crate::pump::{ApsdElevate, Force9vWait, Tuning, SWITCHING_MIN_VIN_UV};
use crate::qc35::{self, attempt_qc35_authenticate, sample_vin};
use crate::session::{self, Io, Session};
use crate::usbin::{
    self, apsd_rerun, clear_apsd_cc_gate, clear_usbin_latched, clear_usbin_suspend, enable_hvdcp,
    ensure_hvdcp_voltage_gates, ensure_icl_at_least, ensure_icl_floor_500ma, error_word, flag_word,
    force_9v, publish_marks, pulse_inc_gap, read_reg, resolve_endian_usbin, safe_force_5v,
    sample_qc_status, wait_apsd_done, Bus, SPMI_PERI_USBIN,
};
use crate::writes::{self, Rule};
use crate::trace;
use crate::pmic;
use crate::landing;
use vstd::prelude::*;

verus! {

// ---------------------------------------------------------------------------
// The 9 V ramp
// ---------------------------------------------------------------------------
pub open spec fn higher(a: i32, b: i32) -> i32 {
    if a > b {
        a
    } else {
        b
    }
}

/// One poll of the ramp: the sample is judged, and the wait either ends with
/// the last and the highest sample, or goes on after a pause.
pub open spec fn ramp_run(
    io: Io<Op>,
    tuning: Tuning,
    last: i32,
    peak: i32,
    confirm: u32,
    waited: u32,
    deadline: u32,
    extended: bool,
) -> (Io<Op>, i32, i32)
    decreases qc35::left(tuning.force9v_hard_cap_ms, waited),
{
    let peak = higher(last, peak);
    if last >= SWITCHING_MIN_VIN_UV {
        let confirm = confirm.saturating_add(1);
        if confirm >= FORCE9V_CONFIRM_N || waited >= tuning.force9v_hard_cap_ms {
            (io, last, peak)
        } else {
            let (io, next) = qc35::sample_vin_run(io.tell(Op::Sleep(FORCE9V_POLL_MS)));
            ramp_run(
                io,
                tuning,
                next,
                higher(next, peak),
                confirm,
                waited.saturating_add(FORCE9V_POLL_MS),
                deadline,
                extended,
            )
        }
    } else {
        let (io, step) = io.force9v(
            Op::Force9vStep { last_uv: last, waited_ms: waited, deadline_ms: deadline, extended },
        );
        if step == Force9vWait::Stop {
            (io, last, peak)
        } else {
            let (io, deadline, extended) = if step == Force9vWait::Extend {
                let (io, moved) = io.word(Op::Force9vExtend(deadline));
                (io, moved, true)
            } else {
                (io, deadline, extended)
            };
            if waited >= tuning.force9v_hard_cap_ms {
                (io, last, peak)
            } else {
                let (io, next) = qc35::sample_vin_run(io.tell(Op::Sleep(FORCE9V_POLL_MS)));
                ramp_run(
                    io,
                    tuning,
                    next,
                    higher(next, peak),
                    0,
                    waited.saturating_add(FORCE9V_POLL_MS),
                    deadline,
                    extended,
                )
            }
        }
    }
}

#[verifier::opaque]
pub open spec fn wait_force9v_rise_run(io: Io<Op>, tuning: Tuning) -> (Io<Op>, i32, i32) {
    let (io, first) = qc35::sample_vin_run(io);
    ramp_run(io, tuning, first, first, 0, 0, tuning.force9v_settle_ms, false)
}

/// Polls the input after a 9 V request. Ends when the 2:1 threshold is met on
/// [`FORCE9V_CONFIRM_N`] samples in a row, when the core gives up, or at the
/// last deadline. Returns the last and the highest sample (µV).
pub fn wait_force9v_rise(io: &mut Session<Op>, tuning: &Tuning) -> (r: (i32, i32))
    ensures
        (final(io)@, r.0, r.1) == wait_force9v_rise_run(old(io)@, *tuning),
{
    proof {
        reveal(wait_force9v_rise_run);
    }
    let mut waited: u32 = 0;
    let mut deadline: u32 = tuning.force9v_settle_ms;
    let mut extended: bool = false;
    let mut last: i32 = sample_vin(io);
    let mut peak: i32 = last;
    let mut confirm: u32 = 0;
    loop
        invariant
            ramp_run(io@, *tuning, last, peak, confirm, waited, deadline, extended)
                == wait_force9v_rise_run(old(io)@, *tuning),
        decreases qc35::left(tuning.force9v_hard_cap_ms, waited),
    {
        if last > peak {
            peak = last;
        }
        if last >= SWITCHING_MIN_VIN_UV {
            confirm = confirm.saturating_add(1);
            if confirm >= FORCE9V_CONFIRM_N {
                return (last, peak);
            }
        } else {
            confirm = 0;
            match io.force9v(
                Op::Force9vStep {
                    last_uv: last,
                    waited_ms: waited,
                    deadline_ms: deadline,
                    extended,
                },
            ) {
                Force9vWait::Stop => {
                    return (last, peak);
                },
                Force9vWait::Extend => {
                    deadline = io.word(Op::Force9vExtend(deadline));
                    extended = true;
                },
                Force9vWait::Continue => {},
            }
        }
        if waited >= tuning.force9v_hard_cap_ms {
            return (last, peak);
        }
        io.tell(Op::Sleep(FORCE9V_POLL_MS));
        waited = waited.saturating_add(FORCE9V_POLL_MS);
        last = sample_vin(io);
        if last > peak {
            peak = last;
        }
    }
}

/// Polls left out of four, to see whether the level holds: two samples in a
/// row at the 2:1 threshold settle it.
pub open spec fn hold_run(io: Io<Op>, vin: i32, hold: u32, polls: u32) -> (Io<Op>, i32, u32)
    decreases polls,
{
    if polls == 0 {
        (io, vin, hold)
    } else {
        let hold: u32 = if vin >= SWITCHING_MIN_VIN_UV {
            hold.saturating_add(1)
        } else {
            0
        };
        if hold >= 2 {
            (io, vin, hold)
        } else {
            let (io, next) = qc35::sample_vin_run(io.tell(Op::Sleep(FORCE9V_POLL_MS)));
            hold_run(io, next, hold, (polls - 1) as u32)
        }
    }
}

#[verifier::opaque]
pub open spec fn settled_level_run(io: Io<Op>) -> (Io<Op>, i32, u32) {
    let (io, first) = qc35::sample_vin_run(io);
    hold_run(io, first, 0, 4)
}

/// Looks at the level after the ramp; returns the last sample (µV) and how
/// many samples in a row were at the 2:1 threshold.
fn settled_level(io: &mut Session<Op>) -> (r: (i32, u32))
    ensures
        (final(io)@, r.0, r.1) == settled_level_run(old(io)@),
{
    proof {
        reveal(settled_level_run);
    }
    let mut vin: i32 = sample_vin(io);
    let mut hold: u32 = 0;
    let mut polls: u32 = 4;
    while polls > 0
        invariant
            hold_run(io@, vin, hold, polls) == settled_level_run(old(io)@),
        decreases polls,
    {
        if vin >= SWITCHING_MIN_VIN_UV {
            hold = hold.saturating_add(1);
        } else {
            hold = 0;
        }
        if hold >= 2 {
            return (vin, hold);
        }
        io.tell(Op::Sleep(FORCE9V_POLL_MS));
        vin = sample_vin(io);
        polls = polls - 1;
    }
    (vin, hold)
}

// ---------------------------------------------------------------------------
// Before the classification
// ---------------------------------------------------------------------------
pub open spec fn failed_run(io: Io<Op>, state: HvdcpState, err: HvdcpError) -> (
    Io<Op>,
    HvdcpState,
    Result<(), HvdcpError>,
) {
    let state = HvdcpState { phase: HvdcpPhase::Failed, failure: Some(err), ..state };
    (usbin::publish_marks_run(io, state, Some(err)), state, Err(err))
}

/// Ends a negotiation with a failure.
fn failed(io: &mut Session<Op>, state: &mut HvdcpState, err: HvdcpError) -> (r: Result<
    (),
    HvdcpError,
>)
    ensures
        (final(io)@, *final(state), r) == failed_run(old(io)@, *old(state), err),
        old(state).valid() ==> final(state).valid(),
{
    state.phase = HvdcpPhase::Failed;
    state.failure = Some(err);
    publish_marks(io, state, Some(err));
    Err(err)
}

/// The number that is published for a register procedure: its value, or the
/// code of its failure.
pub open spec fn result_word(result: Result<u8, HvdcpError>) -> u32 {
    match result {
        Ok(value) => value as u32,
        Err(err) => error_word(err),
    }
}

fn published(result: Result<u8, HvdcpError>) -> (word: u32)
    ensures
        word == result_word(result),
{
    match result {
        Ok(value) => value as u32,
        Err(err) => error_word(err),
    }
}

#[verifier::opaque]
pub open spec fn prepare_block_run(io: Io<Op>, bus: Bus, state: HvdcpState) -> (
    Io<Op>,
    HvdcpState,
    Result<(), HvdcpError>,
) {
    let io = io.mark("SuAfcProto", 0)
        .mark("SuAfc5vPath", 0)
        .mark("SuQc35Auth", 0)
        .mark("SuQc35Fail", 0)
        .mark("SuQc35PowerW", 0);
    let state = HvdcpState { pulse_cnt: 0, ..state };
    let io = usbin::clear_usbin_latched_run(io, bus, state);
    let io = usbin::clear_usbin_suspend_run(io, bus, state);
    let (io, cfg) = usbin::clear_apsd_cc_gate_run(io, bus, state);
    match cfg {
        Err(err) => failed_run(io.mark("SuTypecCfg", 0xFFFF_FFFF), state, err),
        Ok(cfg) => {
            let (io, icl) = usbin::ensure_icl_floor_500ma_run(
                io.mark("SuTypecCfg", cfg as u32),
                bus,
                state,
            );
            let (io, limits) = usbin::ensure_hvdcp_voltage_gates_run(
                io.mark("SuIclRaw", result_word(icl)),
                bus,
                state,
            );
            let io = match limits {
                Ok((allow, pulse_max)) => io.mark("SuAdapterAllow", allow as u32).mark(
                    "SuPulseMax",
                    pulse_max as u32,
                ),
                Err(err) => io.mark("SuAdapterAllow", error_word(err)).mark(
                    "SuPulseMax",
                    error_word(err),
                ),
            };
            (io, state, Ok(()))
        },
    }
}

/// Clears what is latched, lets a classification start, and opens the current
/// and voltage limits. Only the type-C configuration is indispensable.
fn prepare_block(io: &mut Session<Op>, bus: Bus, state: &mut HvdcpState) -> (r: Result<
    (),
    HvdcpError,
>)
    ensures
        (final(io)@, *final(state), r) == prepare_block_run(old(io)@, bus, *old(state)),
        old(state).valid() ==> final(state).valid(),
{
    proof {
        reveal(prepare_block_run);
    }
    io.mark("SuAfcProto", 0);
    io.mark("SuAfc5vPath", 0);
    io.mark("SuQc35Auth", 0);
    io.mark("SuQc35Fail", 0);
    io.mark("SuQc35PowerW", 0);
    state.pulse_cnt = 0;
    clear_usbin_latched(io, bus, state);
    clear_usbin_suspend(io, bus, state);
    match clear_apsd_cc_gate(io, bus, state) {
        Ok(cfg) => {
            io.mark("SuTypecCfg", cfg as u32);
        },
        Err(err) => {
            io.mark("SuTypecCfg", 0xFFFF_FFFF);
            return failed(io, state, err);
        },
    }
    let icl = ensure_icl_floor_500ma(io, bus, state);
    io.mark("SuIclRaw", published(icl));
    match ensure_hvdcp_voltage_gates(io, bus, state) {
        Ok((allow, pulse_max)) => {
            io.mark("SuAdapterAllow", allow as u32);
            io.mark("SuPulseMax", pulse_max as u32);
        },
        Err(err) => {
            io.mark("SuAdapterAllow", error_word(err));
            io.mark("SuPulseMax", error_word(err));
        },
    }
    Ok(())
}

/// What the block reports before it is touched.
#[derive(Debug, Clone, Copy, PartialEq, Eq, Structural)]
pub struct PreScan {
    /// `APSD_STATUS`.
    pub status: u8,
    /// `APSD_RESULT`.
    pub result: u8,
    /// `QC_CHANGE_STATUS`.
    pub qc: u8,
}

impl PreScan {
    /// Continuous mode is hinted at.
    #[verifier::allow_in_spec]
    pub fn continuous(self) -> (r: bool)
        returns
            (self.qc & BIT_QC_CONTINUOUS) != 0,
    {
        (self.qc & BIT_QC_CONTINUOUS) != 0
    }

    /// QC3 is already classified.
    #[verifier::allow_in_spec]
    pub fn already_qc3(self) -> (r: bool)
        returns
            (self.result & BIT_QC3) != 0 || self.continuous(),
    {
        (self.result & BIT_QC3) != 0 || self.continuous()
    }

    /// QC2 is already classified: by its own bit, or as a DCP that the status
    /// calls a QC charger and that is not QC3.
    #[verifier::allow_in_spec]
    pub fn already_qc2(self) -> (r: bool)
        returns
            (self.result & BIT_QC2) != 0 || ((self.status & BIT_QC_CHARGER) != 0 && (self.result
                & BIT_DCP) != 0 && !self.already_qc3()),
    {
        (self.result & BIT_QC2) != 0 || ((self.status & BIT_QC_CHARGER) != 0 && (self.result
            & BIT_DCP) != 0 && !self.already_qc3())
    }

    /// A plain DCP is classified.
    #[verifier::allow_in_spec]
    pub fn already_dcp(self) -> (r: bool)
        returns
            (self.result & BIT_DCP) != 0 && !self.already_qc3() && !self.already_qc2(),
    {
        (self.result & BIT_DCP) != 0 && !self.already_qc3() && !self.already_qc2()
    }

    /// A new classification would only do harm: a finished one already says
    /// QC2 or QC3. A plain DCP never counts as such.
    #[verifier::allow_in_spec]
    pub fn skips_rerun(self) -> (r: bool)
        returns
            (self.status & BIT_APSD_DONE) != 0 && (self.already_qc3() || self.already_qc2()),
    {
        (self.status & BIT_APSD_DONE) != 0 && (self.already_qc3() || self.already_qc2())
    }
}

/// An unreadable register counts as 0.
pub open spec fn or_zero(value: Result<u8, HvdcpError>) -> u8 {
    match value {
        Ok(byte) => byte,
        Err(_) => 0,
    }
}

fn zero_if_unread(value: Result<u8, HvdcpError>) -> (byte: u8)
    ensures
        byte == or_zero(value),
{
    match value {
        Ok(byte) => byte,
        Err(_) => 0,
    }
}

pub open spec fn pre_scan_run(io: Io<Op>, bus: Bus, state: HvdcpState) -> (Io<Op>, PreScan) {
    let (io, status) = usbin::read_reg_run(io, bus, state, REG_APSD_STATUS);
    let (io, result) = usbin::read_reg_run(io, bus, state, REG_APSD_RESULT);
    let (io, qc) = usbin::read_reg_run(io, bus, state, REG_QC_CHANGE_STATUS);
    let pre = PreScan { status: or_zero(status), result: or_zero(result), qc: or_zero(qc) };
    (
        io.mark("SuApsdPre", pre.status as u32)
            .mark("SuApsdPreR", pre.result as u32)
            .mark("SuQcPre", pre.qc as u32),
        pre,
    )
}

/// Reads what the block reports before it is touched.
fn pre_scan(io: &mut Session<Op>, bus: Bus, state: &HvdcpState) -> (pre: PreScan)
    ensures
        (final(io)@, pre) == pre_scan_run(old(io)@, bus, *state),
{
    let status: u8 = zero_if_unread(read_reg(io, bus, state, REG_APSD_STATUS));
    let result: u8 = zero_if_unread(read_reg(io, bus, state, REG_APSD_RESULT));
    let qc: u8 = zero_if_unread(read_reg(io, bus, state, REG_QC_CHANGE_STATUS));
    io.mark("SuApsdPre", status as u32);
    io.mark("SuApsdPreR", result as u32);
    io.mark("SuQcPre", qc as u32);
    PreScan { status, result, qc }
}

#[verifier::opaque]
pub open spec fn enable_block_run(io: Io<Op>, bus: Bus, state: HvdcpState) -> (
    Io<Op>,
    HvdcpState,
    Result<(), HvdcpError>,
) {
    let state = HvdcpState { phase: HvdcpPhase::Enable, ..state };
    let io = usbin::publish_marks_run(io, state, None);
    let (io, state, enabled) = usbin::enable_hvdcp_run(io, bus, state);
    match enabled {
        Err(err) => failed_run(
            io.mark("HvdcpEnSt", 0xFFFF_FFFF).mark("SuHvdcpEnSt", 0xFFFF_FFFF),
            state,
            err,
        ),
        Ok(_) => (
            io.mark("HvdcpEnSt", 0)
                .mark("SuHvdcpEnSt", state.options1 as u32)
                .tell(Op::Sleep(ENABLE_SETTLE_MS)),
            state,
            Ok(()),
        ),
    }
}

/// Switches the block on and lets it settle.
fn enable_block(io: &mut Session<Op>, bus: Bus, state: &mut HvdcpState) -> (r: Result<
    (),
    HvdcpError,
>)
    ensures
        (final(io)@, *final(state), r) == enable_block_run(old(io)@, bus, *old(state)),
        old(state).valid() ==> final(state).valid(),
{
    proof {
        reveal(enable_block_run);
    }
    state.phase = HvdcpPhase::Enable;
    publish_marks(io, state, None);
    match enable_hvdcp(io, bus, state) {
        Ok(()) => {},
        Err(err) => {
            io.mark("HvdcpEnSt", 0xFFFF_FFFF);
            io.mark("SuHvdcpEnSt", 0xFFFF_FFFF);
            return failed(io, state, err);
        },
    }
    io.mark("HvdcpEnSt", 0);
    io.mark("SuHvdcpEnSt", state.options1 as u32);
    io.tell(Op::Sleep(ENABLE_SETTLE_MS));
    Ok(())
}

// ---------------------------------------------------------------------------
// Classification
// ---------------------------------------------------------------------------
/// Whether a new classification lost a QC bit that the old one had, and calls
/// the adapter a plain DCP instead.
#[verifier::allow_in_spec]
pub fn demoted(before: u8, after: u8) -> (r: bool)
    returns
        (after & BIT_DCP) != 0 && (((before & BIT_QC3) != 0 && (after & BIT_QC3) == 0) || ((before
            & BIT_QC2) != 0 && (after & BIT_QC2) == 0)),
{
    (after & BIT_DCP) != 0 && (((before & BIT_QC3) != 0 && (after & BIT_QC3) == 0) || ((before
        & BIT_QC2) != 0 && (after & BIT_QC2) == 0))
}

#[verifier::opaque]
pub open spec fn reclassify_run(io: Io<Op>, bus: Bus, state: HvdcpState, pre: PreScan) -> (
    Io<Op>,
    HvdcpState,
    Result<(), HvdcpError>,
) {
    let io = io.mark("SuApsdSkip", 0).mark("SuApsdSkipQc2", 0).mark(
        "SuApsdSkipDcp",
        flag_word(pre.already_dcp()),
    );
    let state = HvdcpState { phase: HvdcpPhase::ApsdRerun, ..state };
    let (io, started) = usbin::apsd_rerun_run(
        usbin::publish_marks_run(io, state, None),
        bus,
        state,
    );
    match started {
        Err(err) => failed_run(io.mark("SuApsdRerunSt", error_word(err)), state, err),
        Ok(_) => {
            let state = HvdcpState { phase: HvdcpPhase::ApsdWait, ..state };
            let io = usbin::publish_marks_run(io.mark("SuApsdRerunSt", 0), state, None);
            let (io, state, done) = usbin::wait_apsd_done_run(io, bus, state, 0);
            match done {
                Err(err) => failed_run(io, state, err),
                Ok(_) => {
                    let io = io.mark("ApsdSt", 0)
                        .mark("ApsdResult", state.apsd_result as u32)
                        .mark("SuApsdResult", state.apsd_result as u32);
                    if demoted(pre.result, state.apsd_result) {
                        (
                            io.mark("SuApsdDemote", 1)
                                .mark("ApsdResult", pre.result as u32)
                                .mark("SuApsdResult", pre.result as u32),
                            HvdcpState {
                                apsd_result: pre.result,
                                apsd_status: pre.status,
                                ..state
                            },
                            Ok(()),
                        )
                    } else {
                        (io.mark("SuApsdDemote", 0), state, Ok(()))
                    }
                },
            }
        },
    }
}

/// Requests a new classification and waits for it. A result that demotes the
/// adapter is replaced by the one before.
fn reclassify(io: &mut Session<Op>, bus: Bus, state: &mut HvdcpState, pre: PreScan) -> (r: Result<
    (),
    HvdcpError,
>)
    ensures
        (final(io)@, *final(state), r) == reclassify_run(old(io)@, bus, *old(state), pre),
        old(state).valid() ==> final(state).valid(),
{
    proof {
        reveal(reclassify_run);
    }
    io.mark("SuApsdSkip", 0);
    io.mark("SuApsdSkipQc2", 0);
    io.mark("SuApsdSkipDcp", flag_word(pre.already_dcp()));
    state.phase = HvdcpPhase::ApsdRerun;
    publish_marks(io, state, None);
    match apsd_rerun(io, bus, state) {
        Ok(()) => {},
        Err(err) => {
            io.mark("SuApsdRerunSt", error_word(err));
            return failed(io, state, err);
        },
    }
    io.mark("SuApsdRerunSt", 0);
    state.phase = HvdcpPhase::ApsdWait;
    publish_marks(io, state, None);
    match wait_apsd_done(io, bus, state) {
        Ok(()) => {},
        Err(err) => return failed(io, state, err),
    }
    io.mark("ApsdSt", 0);
    io.mark("ApsdResult", state.apsd_result as u32);
    io.mark("SuApsdResult", state.apsd_result as u32);
    if demoted(pre.result, state.apsd_result) {
        io.mark("SuApsdDemote", 1);
        state.apsd_result = pre.result;
        state.apsd_status = pre.status;
        io.mark("ApsdResult", state.apsd_result as u32);
        io.mark("SuApsdResult", state.apsd_result as u32);
    } else {
        io.mark("SuApsdDemote", 0);
    }
    Ok(())
}

pub open spec fn classify_run(io: Io<Op>, bus: Bus, state: HvdcpState, pre: PreScan) -> (
    Io<Op>,
    HvdcpState,
    Result<(), HvdcpError>,
) {
    if pre.skips_rerun() {
        (
            io.mark("SuApsdSkip", 1)
                .mark("SuApsdSkipQc2", flag_word(pre.already_qc2()))
                .mark("SuApsdSkipDcp", 0)
                .mark("SuApsdRerunSt", 0)
                .mark("ApsdSt", 0)
                .mark("ApsdResult", pre.result as u32)
                .mark("SuApsdResult", pre.result as u32),
            HvdcpState { apsd_status: pre.status, apsd_result: pre.result, ..state },
            Ok(()),
        )
    } else {
        reclassify_run(io, bus, state, pre)
    }
}

/// Settles the classification: the present one where a new one would do harm,
/// else a new one.
fn classify(io: &mut Session<Op>, bus: Bus, state: &mut HvdcpState, pre: PreScan) -> (r: Result<
    (),
    HvdcpError,
>)
    ensures
        (final(io)@, *final(state), r) == classify_run(old(io)@, bus, *old(state), pre),
        old(state).valid() ==> final(state).valid(),
{
    if pre.skips_rerun() {
        io.mark("SuApsdSkip", 1);
        io.mark("SuApsdSkipQc2", flag_word(pre.already_qc2()));
        io.mark("SuApsdSkipDcp", 0);
        state.apsd_status = pre.status;
        state.apsd_result = pre.result;
        io.mark("SuApsdRerunSt", 0);
        io.mark("ApsdSt", 0);
        io.mark("ApsdResult", state.apsd_result as u32);
        io.mark("SuApsdResult", state.apsd_result as u32);
        Ok(())
    } else {
        reclassify(io, bus, state, pre)
    }
}

pub open spec fn promote_run(io: Io<Op>, state: HvdcpState) -> (Io<Op>, HvdcpState) {
    let (io, widened) = io.byte(
        Op::PromoteQc { result: state.apsd_result, status: state.apsd_status },
    );
    let promoted = match widened {
        Some(promoted) => promoted,
        None => state.apsd_result,
    };
    if promoted != state.apsd_result {
        (
            io.mark("ApsdPromote", 1)
                .mark("ApsdPromoted", promoted as u32)
                .mark("ApsdResult", promoted as u32)
                .mark("SuApsdResult", promoted as u32),
            HvdcpState { apsd_result: promoted, ..state },
        )
    } else {
        (io.mark("ApsdPromote", 0), state)
    }
}

/// Widens the result by the charger bit of the status.
fn promote(io: &mut Session<Op>, state: &mut HvdcpState)
    ensures
        (final(io)@, *final(state)) == promote_run(old(io)@, *old(state)),
        old(state).valid() ==> final(state).valid(),
{
    let promoted: u8 = match io.byte(
        Op::PromoteQc { result: state.apsd_result, status: state.apsd_status },
    ) {
        Some(promoted) => promoted,
        None => state.apsd_result,
    };
    if promoted != state.apsd_result {
        io.mark("ApsdPromote", 1);
        io.mark("ApsdPromoted", promoted as u32);
        state.apsd_result = promoted;
        io.mark("ApsdResult", promoted as u32);
        io.mark("SuApsdResult", promoted as u32);
    } else {
        io.mark("ApsdPromote", 0);
    }
}

// ---------------------------------------------------------------------------
// The three ways up
// ---------------------------------------------------------------------------
pub open spec fn retreat_run(io: Io<Op>, bus: Bus, state: HvdcpState, err: HvdcpError) -> (
    Io<Op>,
    HvdcpState,
    Result<(), HvdcpError>,
) {
    let state = HvdcpState { phase: HvdcpPhase::Failed, failure: Some(err), ..state };
    let (io, state) = usbin::safe_force_5v_run(io, bus, state);
    (usbin::publish_marks_run(io, state, Some(err)), state, Err(err))
}

/// Ends a raise with a failure: the bus goes back to 5 V first.
fn retreat(io: &mut Session<Op>, bus: Bus, state: &mut HvdcpState, err: HvdcpError) -> (r: Result<
    (),
    HvdcpError,
>)
    ensures
        (final(io)@, *final(state), r) == retreat_run(old(io)@, bus, *old(state), err),
        old(state).valid() ==> final(state).valid(),
{
    state.phase = HvdcpPhase::Failed;
    state.failure = Some(err);
    safe_force_5v(io, bus, state);
    publish_marks(io, state, Some(err));
    Err(err)
}

/// The closed-loop raise: step, read, stop. It ends at the target, above the
/// ceiling, at the cap of the counter, after so many steps, or with a failure.
pub open spec fn qc3_steps_run(
    io: Io<Op>,
    bus: Bus,
    state: HvdcpState,
    vbat_uv: u32,
    vin: i32,
    steps: u32,
) -> (Io<Op>, HvdcpState, Result<i32, HvdcpError>)
    decreases steps,
{
    if steps == 0 || state.pulse_cnt >= MAX_PULSE_CNT || vin >= target_vbus_uv(vbat_uv) {
        (io, state, Ok(vin))
    } else {
        let (io, state, sent) = usbin::pulse_inc_gap_run(io, bus, state, PULSE_GAP_MS);
        match sent {
            Err(err) => (io, state, Err(err)),
            Ok(_) => {
                let (io, vin) = qc35::sample_vin_run(
                    io.mark("PulseCnt", state.pulse_cnt).mark("SuPulseCnt", state.pulse_cnt),
                );
                if vin > trim_target_uv(vbat_uv) {
                    (io, state, Ok(vin))
                } else {
                    qc3_steps_run(io, bus, state, vbat_uv, vin, (steps - 1) as u32)
                }
            },
        }
    }
}

fn qc3_steps(
    io: &mut Session<Op>,
    bus: Bus,
    state: &mut HvdcpState,
    vbat_uv: u32,
    first_vin: i32,
    want: u32,
) -> (r: Result<i32, HvdcpError>)
    ensures
        (final(io)@, *final(state), r) == qc3_steps_run(
            old(io)@,
            bus,
            *old(state),
            vbat_uv,
            first_vin,
            want,
        ),
        old(state).valid() ==> final(state).valid(),
{
    let target: i32 = target_vbus_uv(vbat_uv) as i32;
    let ceiling: i32 = trim_target_uv(vbat_uv);
    let mut vin: i32 = first_vin;
    let mut steps: u32 = want;
    while steps > 0
        invariant
            old(state).valid() ==> state.valid(),
            target == target_vbus_uv(vbat_uv),
            ceiling == trim_target_uv(vbat_uv),
            qc3_steps_run(io@, bus, *state, vbat_uv, vin, steps) == qc3_steps_run(
                old(io)@,
                bus,
                *old(state),
                vbat_uv,
                first_vin,
                want,
            ),
        decreases steps,
    {
        if state.pulse_cnt >= MAX_PULSE_CNT {
            return Ok(vin);
        }
        if vin >= target {
            return Ok(vin);
        }
        match pulse_inc_gap(io, bus, state, PULSE_GAP_MS) {
            Ok(_) => {},
            Err(err) => return Err(err),
        }
        io.mark("PulseCnt", state.pulse_cnt);
        io.mark("SuPulseCnt", state.pulse_cnt);
        vin = sample_vin(io);
        if vin > ceiling {
            return Ok(vin);
        }
        steps = steps - 1;
    }
    Ok(vin)
}

#[verifier::opaque]
pub open spec fn climb_run(io: Io<Op>, bus: Bus, state: HvdcpState, vbat_uv: u32) -> (
    Io<Op>,
    HvdcpState,
    Result<(), HvdcpError>,
) {
    let (io, vin) = qc35::sample_vin_run(
        io.mark("HvdcpTarget", target_vbus_uv(vbat_uv)).mark(
            "HvdcpWantPulses",
            pulses_toward_target(vbat_uv),
        ),
    );
    let (io, state, end) = qc3_steps_run(
        io,
        bus,
        state,
        vbat_uv,
        vin,
        pulses_toward_target(vbat_uv),
    );
    match end {
        Err(err) => retreat_run(io, bus, state, err),
        Ok(vin) => (io.mark("SuQcEndVin", nonneg(vin)), state, Ok(())),
    }
}

/// Raises the bus step by step, from the present input to the target. A failed
/// step sends it back to 5 V.
fn climb(io: &mut Session<Op>, bus: Bus, state: &mut HvdcpState, vbat_uv: u32) -> (r: Result<
    (),
    HvdcpError,
>)
    ensures
        (final(io)@, *final(state), r) == climb_run(old(io)@, bus, *old(state), vbat_uv),
        old(state).valid() ==> final(state).valid(),
{
    proof {
        reveal(climb_run);
    }
    let want: u32 = pulses_toward_target(vbat_uv);
    io.mark("HvdcpTarget", target_vbus_uv(vbat_uv));
    io.mark("HvdcpWantPulses", want);
    let vin: i32 = sample_vin(io);
    match qc3_steps(io, bus, state, vbat_uv, vin, want) {
        Ok(vin) => {
            io.mark("SuQcEndVin", nonneg(vin));
            Ok(())
        },
        Err(err) => retreat(io, bus, state, err),
    }
}

#[verifier::opaque]
pub open spec fn raise_qc3_run(
    io: Io<Op>,
    bus: Bus,
    state: HvdcpState,
    vbat_uv: u32,
    tuning: Tuning,
) -> (Io<Op>, HvdcpState, Result<(), HvdcpError>) {
    let state = HvdcpState { phase: HvdcpPhase::Qc35Auth, ..state };
    let io = usbin::publish_marks_run(io, state, None);
    let (io, state, _) = qc35::attempt_qc35_authenticate_run(io, bus, state, tuning);
    let state = HvdcpState { phase: HvdcpPhase::Qc3Pulse, ..state };
    climb_run(usbin::publish_marks_run(io, state, None), bus, state, vbat_uv)
}

/// The QC3 way: try QC3.5, and raise the bus step by step. The counter runs
/// through: steps of the QC3.5 attempt count.
fn raise_qc3(
    io: &mut Session<Op>,
    bus: Bus,
    state: &mut HvdcpState,
    vbat_uv: u32,
    tuning: &Tuning,
) -> (r: Result<(), HvdcpError>)
    requires
        tuning.valid(),
    ensures
        (final(io)@, *final(state), r) == raise_qc3_run(
            old(io)@,
            bus,
            *old(state),
            vbat_uv,
            *tuning,
        ),
        old(state).valid() ==> final(state).valid(),
{
    proof {
        reveal(raise_qc3_run);
    }
    state.phase = HvdcpPhase::Qc35Auth;
    publish_marks(io, state, None);
    let _ = attempt_qc35_authenticate(io, bus, state, tuning);
    state.phase = HvdcpPhase::Qc3Pulse;
    publish_marks(io, state, None);
    climb(io, bus, state, vbat_uv)
}

#[verifier::opaque]
pub open spec fn request_9v_run(
    io: Io<Op>,
    bus: Bus,
    state: HvdcpState,
    icl_name: &'static str,
) -> (Io<Op>, HvdcpState, Result<(), HvdcpError>) {
    let state = HvdcpState { phase: HvdcpPhase::Qc2Force9v, ..state };
    let (io, state, forced) = usbin::force_9v_run(
        usbin::publish_marks_run(io, state, None),
        bus,
        state,
    );
    match forced {
        Err(err) => retreat_run(io, bus, state, err),
        Ok(_) => {
            let (io, icl) = usbin::ensure_icl_at_least_run(io, bus, state, ICL_RAW_HVDCP2_1P5A);
            (io.mark(icl_name, result_word(icl)), state, Ok(()))
        },
    }
}

/// Requests 9 V together with a current budget.
fn request_9v(
    io: &mut Session<Op>,
    bus: Bus,
    state: &mut HvdcpState,
    icl_name: &'static str,
) -> (r: Result<(), HvdcpError>)
    ensures
        (final(io)@, *final(state), r) == request_9v_run(old(io)@, bus, *old(state), icl_name),
        old(state).valid() ==> final(state).valid(),
{
    proof {
        reveal(request_9v_run);
    }
    state.phase = HvdcpPhase::Qc2Force9v;
    publish_marks(io, state, None);
    match force_9v(io, bus, state) {
        Ok(()) => {},
        Err(err) => return retreat(io, bus, state, err),
    }
    let icl = ensure_icl_at_least(io, bus, state, ICL_RAW_HVDCP2_1P5A);
    io.mark(icl_name, published(icl));
    Ok(())
}

/// The raise of an adapter that does not hold 9 V: steps from 5 V while the
/// input is below the target. A failed step ends it.
pub open spec fn dcp_steps_run(
    io: Io<Op>,
    bus: Bus,
    state: HvdcpState,
    vbat_uv: u32,
    vin: i32,
    inc: u32,
) -> (Io<Op>, HvdcpState, i32, u32)
    decreases qc35::left(MAX_PULSE_CNT, inc),
{
    if vin >= target_vbus_uv(vbat_uv) || inc >= MAX_PULSE_CNT || state.pulse_cnt >= MAX_PULSE_CNT {
        (io, state, vin, inc)
    } else {
        let (io, state, sent) = usbin::pulse_inc_gap_run(io, bus, state, PULSE_GAP_MS);
        match sent {
            Err(_) => (io, state, vin, inc),
            Ok(_) => {
                let (io, vin) = qc35::sample_vin_run(io);
                dcp_steps_run(io, bus, state, vbat_uv, vin, (inc + 1) as u32)
            },
        }
    }
}

fn dcp_steps(
    io: &mut Session<Op>,
    bus: Bus,
    state: &mut HvdcpState,
    vbat_uv: u32,
    first_vin: i32,
) -> (r: (i32, u32))
    ensures
        (final(io)@, *final(state), r.0, r.1) == dcp_steps_run(
            old(io)@,
            bus,
            *old(state),
            vbat_uv,
            first_vin,
            0,
        ),
        old(state).valid() ==> final(state).valid(),
{
    let target: i32 = target_vbus_uv(vbat_uv) as i32;
    let mut inc: u32 = 0;
    let mut vin: i32 = first_vin;
    while vin < target && inc < MAX_PULSE_CNT && state.pulse_cnt < MAX_PULSE_CNT
        invariant
            old(state).valid() ==> state.valid(),
            target == target_vbus_uv(vbat_uv),
            dcp_steps_run(io@, bus, *state, vbat_uv, vin, inc) == dcp_steps_run(
                old(io)@,
                bus,
                *old(state),
                vbat_uv,
                first_vin,
                0,
            ),
        decreases qc35::left(MAX_PULSE_CNT, inc),
    {
        if pulse_inc_gap(io, bus, state, PULSE_GAP_MS).is_err() {
            return (vin, inc);
        }
        inc = inc + 1;
        vin = sample_vin(io);
    }
    (vin, inc)
}

#[verifier::opaque]
pub open spec fn drive_by_steps_run(
    io: Io<Op>,
    bus: Bus,
    state: HvdcpState,
    vbat_uv: u32,
    vin: i32,
    tuning: Tuning,
) -> (Io<Op>, HvdcpState) {
    let (io, state) = usbin::safe_force_5v_run(io.mark("SuDcpNoElevate", 1), bus, state);
    let state = HvdcpState { pulse_cnt: 0, ..state };
    let (io, state, vin, inc) = dcp_steps_run(io, bus, state, vbat_uv, vin, 0);
    let io = io.mark("SuDcpPulseRaise", inc).mark("SuDcpPulseVin", nonneg(vin));
    if vin < tuning.force9v_rise_uv {
        let (io, state) = usbin::safe_force_5v_run(io, bus, state);
        let (io, icl) = usbin::ensure_icl_at_least_run(io, bus, state, ICL_RAW_DCP_2A);
        (io.mark("SuDcpIcl", result_word(icl)), state)
    } else {
        let (io, icl) = usbin::ensure_icl_at_least_run(io, bus, state, ICL_RAW_HVDCP2_1P5A);
        (io.mark("SuDcpIcl", result_word(icl)), state)
    }
}

/// Drops the 9 V request and raises the adapter step by step. One that does
/// not answer to steps either is left at 5 V with its 2 A vote.
fn drive_by_steps(
    io: &mut Session<Op>,
    bus: Bus,
    state: &mut HvdcpState,
    vbat_uv: u32,
    vin: i32,
    tuning: &Tuning,
)
    ensures
        (final(io)@, *final(state)) == drive_by_steps_run(
            old(io)@,
            bus,
            *old(state),
            vbat_uv,
            vin,
            *tuning,
        ),
        old(state).valid() ==> final(state).valid(),
{
    proof {
        reveal(drive_by_steps_run);
    }
    io.mark("SuDcpNoElevate", 1);
    safe_force_5v(io, bus, state);
    state.pulse_cnt = 0;
    let (vin, inc): (i32, u32) = dcp_steps(io, bus, state, vbat_uv, vin);
    io.mark("SuDcpPulseRaise", inc);
    io.mark("SuDcpPulseVin", nonneg(vin));
    if vin < tuning.force9v_rise_uv {
        safe_force_5v(io, bus, state);
        let icl = ensure_icl_at_least(io, bus, state, ICL_RAW_DCP_2A);
        io.mark("SuDcpIcl", published(icl));
    } else {
        let icl = ensure_icl_at_least(io, bus, state, ICL_RAW_HVDCP2_1P5A);
        io.mark("SuDcpIcl", published(icl));
    }
}

#[verifier::opaque]
pub open spec fn raise_dcp_run(
    io: Io<Op>,
    bus: Bus,
    state: HvdcpState,
    vbat_uv: u32,
    tuning: Tuning,
) -> (Io<Op>, HvdcpState, Result<(), HvdcpError>) {
    let (io, state, requested) = request_9v_run(
        io.mark("SuDcpNoElevate", 0),
        bus,
        state,
        "SuDcpIcl",
    );
    match requested {
        Err(err) => (io, state, Err(err)),
        Ok(_) => {
            let (io, end, peak) = wait_force9v_rise_run(io, tuning);
            let (io, vin, hold) = settled_level_run(
                io.mark("SuDcp9vVin", nonneg(end)).mark("SuDcpPeakVin", nonneg(peak)),
            );
            let io = io.mark("SuDcpHoldN", hold);
            if hold < 2 {
                let (io, state) = drive_by_steps_run(io, bus, state, vbat_uv, vin, tuning);
                (io, state, Ok(()))
            } else {
                (io, state, Ok(()))
            }
        },
    }
}

/// The way of a plain DCP, which may be a QC adapter that has not spoken yet:
/// one bounded 9 V request, judged by whether the level holds, then steps.
fn raise_dcp(
    io: &mut Session<Op>,
    bus: Bus,
    state: &mut HvdcpState,
    vbat_uv: u32,
    tuning: &Tuning,
) -> (r: Result<(), HvdcpError>)
    ensures
        (final(io)@, *final(state), r) == raise_dcp_run(
            old(io)@,
            bus,
            *old(state),
            vbat_uv,
            *tuning,
        ),
        old(state).valid() ==> final(state).valid(),
{
    proof {
        reveal(raise_dcp_run);
    }
    io.mark("SuDcpNoElevate", 0);
    match request_9v(io, bus, state, "SuDcpIcl") {
        Ok(()) => {},
        Err(err) => return Err(err),
    }
    let (end, peak): (i32, i32) = wait_force9v_rise(io, tuning);
    io.mark("SuDcp9vVin", nonneg(end));
    io.mark("SuDcpPeakVin", nonneg(peak));
    let (vin, hold): (i32, u32) = settled_level(io);
    io.mark("SuDcpHoldN", hold);
    if hold < 2 {
        drive_by_steps(io, bus, state, vbat_uv, vin, tuning);
    }
    Ok(())
}

#[verifier::opaque]
pub open spec fn elevate_run(
    io: Io<Op>,
    bus: Bus,
    state: HvdcpState,
    vbat_uv: u32,
    continuous: bool,
    tuning: Tuning,
) -> (Io<Op>, HvdcpState, Result<(), HvdcpError>) {
    let (io, path) = io.elevate(Op::ElevatePath { result: state.apsd_result, continuous });
    let io = io.mark("SuApsdAfc5v", 0);
    match path {
        ApsdElevate::Qc3Pulse => raise_qc3_run(io, bus, state, vbat_uv, tuning),
        ApsdElevate::Force9v => if (state.apsd_result & BIT_QC2) != 0 {
            request_9v_run(io, bus, state, "SuQc2Icl")
        } else {
            raise_dcp_run(io, bus, state, vbat_uv, tuning)
        },
        ApsdElevate::Reject => failed_run(io, state, HvdcpError::NotQcAdapter),
    }
}

/// Raises the bus by the path that fits the classification.
fn elevate(
    io: &mut Session<Op>,
    bus: Bus,
    state: &mut HvdcpState,
    vbat_uv: u32,
    continuous: bool,
    tuning: &Tuning,
) -> (r: Result<(), HvdcpError>)
    requires
        tuning.valid(),
    ensures
        (final(io)@, *final(state), r) == elevate_run(
            old(io)@,
            bus,
            *old(state),
            vbat_uv,
            continuous,
            *tuning,
        ),
        old(state).valid() ==> final(state).valid(),
{
    proof {
        reveal(elevate_run);
    }
    let path = io.elevate(Op::ElevatePath { result: state.apsd_result, continuous });
    io.mark("SuApsdAfc5v", 0);
    match path {
        ApsdElevate::Qc3Pulse => raise_qc3(io, bus, state, vbat_uv, tuning),
        ApsdElevate::Force9v => {
            if (state.apsd_result & BIT_QC2) != 0 {
                request_9v(io, bus, state, "SuQc2Icl")
            } else {
                raise_dcp(io, bus, state, vbat_uv, tuning)
            }
        },
        ApsdElevate::Reject => failed(io, state, HvdcpError::NotQcAdapter),
    }
}

// ---------------------------------------------------------------------------
// The whole
// ---------------------------------------------------------------------------
#[verifier::opaque]
pub open spec fn finish_run(io: Io<Op>, bus: Bus, state: HvdcpState) -> (Io<Op>, HvdcpState) {
    let (io, status) = usbin::sample_qc_status_run(io, bus, state);
    let io = match status {
        Ok((change, pulses)) => io.mark("SuQcChgSt", change as u32).mark(
            "SuQcPulseHw",
            pulses as u32,
        ).mark("SuQc9vHint", flag_word(qc_status_indicates_9v(change))),
        Err(err) => io.mark("SuQcChgSt", error_word(err)).mark(
            "SuQcPulseHw",
            error_word(err),
        ).mark("SuQc9vHint", 0),
    };
    let state = HvdcpState { phase: HvdcpPhase::Done, ..state };
    let io = io.mark("HvdcpEstVbus", estimated_vbus_uv(state.pulse_cnt)).mark(
        "SuVbusEst",
        estimated_vbus_uv(state.pulse_cnt),
    );
    (usbin::publish_marks_run(io, state, None), state)
}

/// Looks at the result and publishes it.
fn finish(io: &mut Session<Op>, bus: Bus, state: &mut HvdcpState)
    ensures
        (final(io)@, *final(state)) == finish_run(old(io)@, bus, *old(state)),
        old(state).valid() ==> final(state).valid(),
{
    proof {
        reveal(finish_run);
    }
    match sample_qc_status(io, bus, state) {
        Ok((change, pulses)) => {
            io.mark("SuQcChgSt", change as u32);
            io.mark("SuQcPulseHw", pulses as u32);
            io.mark("SuQc9vHint", flag_word(qc_status_indicates_9v(change)));
        },
        Err(err) => {
            io.mark("SuQcChgSt", error_word(err));
            io.mark("SuQcPulseHw", error_word(err));
            io.mark("SuQc9vHint", 0);
        },
    }
    state.phase = HvdcpPhase::Done;
    io.mark("HvdcpEstVbus", estimated_vbus_uv(state.pulse_cnt));
    io.mark("SuVbusEst", estimated_vbus_uv(state.pulse_cnt));
    publish_marks(io, state, None);
}

#[verifier::opaque]
pub open spec fn negotiate_on_bus_run(
    io: Io<Op>,
    bus: Bus,
    state: HvdcpState,
    vbat_uv: u32,
    tuning: Tuning,
) -> (Io<Op>, HvdcpState, Result<(), HvdcpError>) {
    let (io, state, prepared) = prepare_block_run(io, bus, state);
    match prepared {
        Err(err) => (io, state, Err(err)),
        Ok(_) => {
            let (io, pre) = pre_scan_run(io, bus, state);
            let (io, state, enabled) = enable_block_run(io, bus, state);
            match enabled {
                Err(err) => (io, state, Err(err)),
                Ok(_) => {
                    let (io, state, classified) = classify_run(io, bus, state, pre);
                    match classified {
                        Err(err) => (io, state, Err(err)),
                        Ok(_) => {
                            let (io, state) = promote_run(io, state);
                            let (io, state, raised) = elevate_run(
                                io,
                                bus,
                                state,
                                vbat_uv,
                                pre.continuous(),
                                tuning,
                            );
                            match raised {
                                Err(err) => (io, state, Err(err)),
                                Ok(_) => {
                                    let (io, state) = finish_run(io, bus, state);
                                    (io, state, Ok(()))
                                },
                            }
                        },
                    }
                },
            }
        },
    }
}

/// Negotiates over an open path.
pub fn negotiate_on_bus(
    io: &mut Session<Op>,
    bus: Bus,
    state: &mut HvdcpState,
    vbat_uv: u32,
    tuning: &Tuning,
) -> (r: Result<(), HvdcpError>)
    requires
        tuning.valid(),
    ensures
        (final(io)@, *final(state), r) == negotiate_on_bus_run(
            old(io)@,
            bus,
            *old(state),
            vbat_uv,
            *tuning,
        ),
        old(state).valid() ==> final(state).valid(),
{
    proof {
        reveal(negotiate_on_bus_run);
    }
    match prepare_block(io, bus, state) {
        Ok(()) => {},
        Err(err) => return Err(err),
    }
    let pre = pre_scan(io, bus, state);
    match enable_block(io, bus, state) {
        Ok(()) => {},
        Err(err) => return Err(err),
    }
    match classify(io, bus, state, pre) {
        Ok(()) => {},
        Err(err) => return Err(err),
    }
    promote(io, state);
    match elevate(io, bus, state, vbat_uv, pre.continuous(), tuning) {
        Ok(()) => {},
        Err(err) => return Err(err),
    }
    finish(io, bus, state);
    Ok(())
}

/// The code of a status as it is published.
#[verifier::allow_in_spec]
pub fn status_word(status: i32) -> (r: u32)
    returns
        status as u32,
{
    status as u32
}

#[verifier::opaque]
pub open spec fn negotiate_via_hub_run(
    io: Io<Op>,
    usbin_id: Option<u64>,
    state: HvdcpState,
    vbat_uv: u32,
    tuning: Tuning,
) -> (Io<Op>, HvdcpState, Result<(), HvdcpError>) {
    match usbin_id {
        None => failed_run(
            io,
            HvdcpState { transport: HvdcpTransport::Closed, ..state },
            HvdcpError::UsbinUnavailable,
        ),
        Some(id) => {
            let (io, opened) = io.flag(Op::UsbinOpen(id));
            if !opened {
                failed_run(io, state, HvdcpError::BusOpenFailed)
            } else {
                let (io, state, order) = usbin::resolve_endian_usbin_run(io, state);
                match order {
                    Err(err) => failed_run(io, state, err),
                    Ok(_) => negotiate_on_bus_run(
                        io.mark("HvdcpVia", HvdcpTransport::UsbinRh.code()),
                        Bus::Usbin,
                        HvdcpState { transport: HvdcpTransport::UsbinRh, ..state },
                        vbat_uv,
                        tuning,
                    ),
                }
            }
        },
    }
}

/// Negotiates over the resource hub.
fn negotiate_via_hub(
    io: &mut Session<Op>,
    usbin_id: Option<u64>,
    state: &mut HvdcpState,
    vbat_uv: u32,
    tuning: &Tuning,
) -> (r: Result<(), HvdcpError>)
    requires
        tuning.valid(),
    ensures
        (final(io)@, *final(state), r) == negotiate_via_hub_run(
            old(io)@,
            usbin_id,
            *old(state),
            vbat_uv,
            *tuning,
        ),
        old(state).valid() ==> final(state).valid(),
{
    proof {
        reveal(negotiate_via_hub_run);
    }
    let id: u64 = match usbin_id {
        Some(id) => id,
        None => {
            state.transport = HvdcpTransport::Closed;
            return failed(io, state, HvdcpError::UsbinUnavailable);
        },
    };
    if !io.flag(Op::UsbinOpen(id)) {
        return failed(io, state, HvdcpError::BusOpenFailed);
    }
    match resolve_endian_usbin(io, state) {
        Ok(()) => {},
        Err(err) => return failed(io, state, err),
    }
    state.transport = HvdcpTransport::UsbinRh;
    io.mark("HvdcpVia", HvdcpTransport::UsbinRh.code());
    negotiate_on_bus(io, Bus::Usbin, state, vbat_uv, tuning)
}

#[verifier::opaque]
pub open spec fn run_negotiate_run(
    io: Io<Op>,
    usbin_id: Option<u64>,
    state: HvdcpState,
    vbat_uv: u32,
    tuning: Tuning,
) -> (Io<Op>, HvdcpState, Result<(), HvdcpError>) {
    let state = HvdcpState {
        phase: HvdcpPhase::Enable,
        transport: HvdcpTransport::Closed,
        failure: None,
        ..state
    };
    let (io, opened) = usbin::publish_marks_run(io, state, None).outcome(Op::SuOpen);
    match opened {
        Err(status) => negotiate_via_hub_run(
            io.mark("SuHvdcpOpen", status_word(status)),
            usbin_id,
            state,
            vbat_uv,
            tuning,
        ),
        Ok(_) => {
            let (io, granted) = io.mark("SuHvdcpOpen", 0).outcome(Op::SuGrant(SPMI_PERI_USBIN));
            match granted {
                Err(status) => negotiate_via_hub_run(
                    io.mark("SuHvdcpOpen", status_word(status)).tell(Op::SuClose),
                    usbin_id,
                    state,
                    vbat_uv,
                    tuning,
                ),
                Ok(_) => {
                    let (io, state, r) = negotiate_on_bus_run(
                        io.mark("HvdcpVia", HvdcpTransport::Superuser.code()),
                        Bus::Superuser,
                        HvdcpState {
                            transport: HvdcpTransport::Superuser,
                            endian_known: true,
                            big_endian: true,
                            ..state
                        },
                        vbat_uv,
                        tuning,
                    );
                    (io.tell(Op::SuClose), state, r)
                },
            }
        },
    }
}

/// The full negotiation: over the superuser node where it opens and grants the
/// block, else over the resource hub.
///
/// Fails with [`HvdcpError::UsbinUnavailable`] only where neither path exists.
pub fn run_negotiate(
    io: &mut Session<Op>,
    usbin_id: Option<u64>,
    vbat_uv: u32,
    state: &mut HvdcpState,
    tuning: &Tuning,
) -> (r: Result<(), HvdcpError>)
    requires
        tuning.valid(),
    ensures
        (final(io)@, *final(state), r) == run_negotiate_run(
            old(io)@,
            usbin_id,
            *old(state),
            vbat_uv,
            *tuning,
        ),
        old(state).valid() ==> final(state).valid(),
{
    proof {
        reveal(run_negotiate_run);
    }
    state.phase = HvdcpPhase::Enable;
    state.transport = HvdcpTransport::Closed;
    state.failure = None;
    publish_marks(io, state, None);
    match io.outcome(Op::SuOpen) {
        Ok(()) => {
            io.mark("SuHvdcpOpen", 0);
            match io.outcome(Op::SuGrant(SPMI_PERI_USBIN)) {
                Ok(()) => {
                    state.transport = HvdcpTransport::Superuser;
                    state.endian_known = true;
                    state.big_endian = true;
                    io.mark("HvdcpVia", HvdcpTransport::Superuser.code());
                    let r = negotiate_on_bus(io, Bus::Superuser, state, vbat_uv, tuning);
                    io.tell(Op::SuClose);
                    return r;
                },
                Err(status) => {
                    io.mark("SuHvdcpOpen", status_word(status));
                    io.tell(Op::SuClose);
                },
            }
        },
        Err(status) => {
            io.mark("SuHvdcpOpen", status_word(status));
        },
    }
    negotiate_via_hub(io, usbin_id, state, vbat_uv, tuning)
}

pub open spec fn run_negotiate_report_run(
    io: Io<Op>,
    usbin_id: Option<u64>,
    state: HvdcpState,
    vbat_uv: u32,
    tuning: Tuning,
) -> (Io<Op>, HvdcpState, i32, u32) {
    let (io, state, r) = run_negotiate_run(io, usbin_id, state, vbat_uv, tuning);
    (
        io,
        state,
        match r {
            Ok(_) => 0,
            Err(err) => err.code(),
        },
        target_vbus_uv(vbat_uv),
    )
}

/// The full negotiation, reported as a code (0 for success) and the target of
/// the bus (µV).
pub fn run_negotiate_report(
    io: &mut Session<Op>,
    usbin_id: Option<u64>,
    vbat_uv: u32,
    state: &mut HvdcpState,
    tuning: &Tuning,
) -> (r: (i32, u32))
    requires
        tuning.valid(),
    ensures
        (final(io)@, *final(state), r.0, r.1) == run_negotiate_report_run(
            old(io)@,
            usbin_id,
            *old(state),
            vbat_uv,
            *tuning,
        ),
        old(state).valid() ==> final(state).valid(),
{
    match run_negotiate(io, usbin_id, vbat_uv, state, tuning) {
        Ok(()) => (0, target_vbus_uv(vbat_uv)),
        Err(err) => (err.code(), target_vbus_uv(vbat_uv)),
    }
}

// ---------------------------------------------------------------------------
// Laws
// ---------------------------------------------------------------------------
/// A finished QC classification is kept as it is, without a new one; a plain DCP
/// and an unfinished classification are never taken for one.
pub proof fn law_only_a_qc_class_is_kept(io: Io<Op>, bus: Bus, state: HvdcpState, pre: PreScan)
    ensures
        pre.already_dcp() || (pre.status & BIT_APSD_DONE) == 0 ==> !pre.skips_rerun(),
        pre.skips_rerun() ==> usbin::keeps_class(io, classify_run(io, bus, state, pre).0),
        pre.skips_rerun() ==> classify_run(io, bus, state, pre).1 == (HvdcpState {
            apsd_status: pre.status,
            apsd_result: pre.result,
            ..state
        }),
        pre.skips_rerun() ==> classify_run(io, bus, state, pre).2 is Ok,
{
    broadcast use writes::group_obeys;

    writes::lemma_obeys_at_first(io, Rule::KeepClass);
}

/// A finished QC classification is kept through the whole negotiation: no step of it,
/// from the preparation of the block to its last look, starts a new one.
pub proof fn law_negotiation_keeps_a_qc_class(
    io: Io<Op>,
    bus: Bus,
    state: HvdcpState,
    vbat_uv: u32,
    tuning: Tuning,
)
    ensures
        ({
            let (prepared, readied, _) = prepare_block_run(io, bus, state);
            pre_scan_run(prepared, bus, readied).1.skips_rerun() ==> usbin::keeps_class(
                io,
                negotiate_on_bus_run(io, bus, state, vbat_uv, tuning).0,
            )
        }),
{
    broadcast use writes::lemma_negotiate_on_bus_obeys;

    writes::lemma_obeys_at_first(io, Rule::KeepClass);
}

/// A classification that succeeds never loses a QC bit to a DCP.
pub proof fn law_class_is_never_demoted(io: Io<Op>, bus: Bus, state: HvdcpState, pre: PreScan)
    ensures
        classify_run(io, bus, state, pre).2 is Ok ==> !demoted(
            pre.result,
            classify_run(io, bus, state, pre).1.apsd_result,
        ),
{
    reveal(reclassify_run);
}

/// Whether a part of a negotiation kept the path, and changed the failure to its
/// own, if at all.
pub open spec fn keeps_path(
    before: HvdcpState,
    after: HvdcpState,
    r: Result<(), HvdcpError>,
) -> bool {
    &&& after.transport == before.transport
    &&& after.failure == match r {
        Ok(_) => before.failure,
        Err(err) => Some(err),
    }
}

/// Failures of a classification are a bus failure or its timeout, and the wait
/// changes only what it reads.
proof fn lemma_wait_errors(io: Io<Op>, bus: Bus, state: HvdcpState, waited: u32)
    ensures
        ({
            let (_, after, r) = usbin::wait_apsd_done_run(io, bus, state, waited);
            &&& after.transport == state.transport && after.failure == state.failure
            &&& r is Ok || r == Err::<(), HvdcpError>(HvdcpError::SpmiIo) || r == Err::<(), HvdcpError>(
                HvdcpError::ApsdTimeout,
            )
        }),
    decreases crate::hvdcp::APSD_WAIT_MS + crate::hvdcp::APSD_POLL_MS - waited,
{
    let (io, status) = usbin::read_reg_run(io, bus, state, REG_APSD_STATUS);
    if status is Ok && status->Ok_0 & BIT_APSD_DONE == 0 && waited < crate::hvdcp::APSD_WAIT_MS {
        lemma_wait_errors(
            io.tell(Op::Sleep(crate::hvdcp::APSD_POLL_MS)),
            bus,
            HvdcpState { apsd_status: status->Ok_0, ..state },
            (waited + crate::hvdcp::APSD_POLL_MS) as u32,
        );
    }
}

/// The steps of a closed-loop raise are bounded by what was asked for, and fail
/// only with the bus.
pub proof fn law_raise_is_bounded(
    io: Io<Op>,
    bus: Bus,
    state: HvdcpState,
    vbat_uv: u32,
    vin: i32,
    steps: u32,
)
    ensures
        ({
            let (_, after, r) = qc3_steps_run(io, bus, state, vbat_uv, vin, steps);
            &&& state.valid() ==> after.valid()
            &&& state.pulse_cnt <= after.pulse_cnt <= state.pulse_cnt + steps
            &&& r is Ok || r == Err::<i32, HvdcpError>(HvdcpError::SpmiIo)
            &&& vin >= target_vbus_uv(vbat_uv) ==> after == state
            &&& state.force9v_latched ==> after == state
            &&& qc35::same_adapter(state, after)
        }),
    decreases steps,
{
    if !(steps == 0 || state.pulse_cnt >= MAX_PULSE_CNT || vin >= target_vbus_uv(vbat_uv)) {
        let (io, state, sent) = usbin::pulse_inc_gap_run(io, bus, state, PULSE_GAP_MS);
        if sent is Ok {
            let (io, vin) = qc35::sample_vin_run(
                io.mark("PulseCnt", state.pulse_cnt).mark("SuPulseCnt", state.pulse_cnt),
            );
            if vin <= trim_target_uv(vbat_uv) {
                law_raise_is_bounded(io, bus, state, vbat_uv, vin, (steps - 1) as u32);
            }
        }
    }
}

/// Giving up a raise commands 5 V before anything else, forgets the latch and
/// reports the failure.
pub proof fn law_retreat_commands_5v(io: Io<Op>, bus: Bus, state: HvdcpState, err: HvdcpError)
    ensures
        retreat_run(io, bus, state, err).1 == (HvdcpState {
            phase: HvdcpPhase::Failed,
            force9v_latched: false,
            failure: Some(err),
            ..state
        }),
        retreat_run(io, bus, state, err).2 == Err::<(), HvdcpError>(err),
        retreat_run(io, bus, state, err).0 == usbin::publish_marks_run(
            usbin::write_reg_run(io, bus, state, crate::hvdcp::REG_CMD_HVDCP_2, crate::hvdcp::BIT_FORCE_5V).0,
            retreat_run(io, bus, state, err).1,
            Some(err),
        ),
{
}

/// A raise that fails leaves the bus unlatched. Only an adapter that is rejected
/// fails otherwise, and it is not touched.
pub proof fn law_failed_raise_leaves_no_latch(
    io: Io<Op>,
    bus: Bus,
    state: HvdcpState,
    vbat_uv: u32,
    continuous: bool,
    tuning: Tuning,
)
    ensures
        ({
            let (_, after, r) = elevate_run(io, bus, state, vbat_uv, continuous, tuning);
            match r {
                Ok(_) => true,
                Err(err) => {
                    &&& after.phase == HvdcpPhase::Failed
                    &&& err == HvdcpError::SpmiIo ==> !after.force9v_latched
                    &&& err != HvdcpError::SpmiIo ==> err == HvdcpError::NotQcAdapter
                        && after.force9v_latched == state.force9v_latched && after.pulse_cnt
                        == state.pulse_cnt
                },
            }
        }),
{
    reveal(elevate_run);
    reveal(raise_qc3_run);
    reveal(raise_dcp_run);
    reveal(request_9v_run);
    let (at, path) = io.elevate(Op::ElevatePath { result: state.apsd_result, continuous });
    if path == ApsdElevate::Qc3Pulse {
        let at = at.mark("SuApsdAfc5v", 0);
        let state = HvdcpState { phase: HvdcpPhase::Qc35Auth, ..state };
        let at = usbin::publish_marks_run(at, state, None);
        let (at, state, _) = qc35::attempt_qc35_authenticate_run(at, bus, state, tuning);
        let state = HvdcpState { phase: HvdcpPhase::Qc3Pulse, ..state };
        let at = usbin::publish_marks_run(at, state, None);
        reveal(climb_run);
        let (at, vin) = qc35::sample_vin_run(
            at.mark("HvdcpTarget", target_vbus_uv(vbat_uv)).mark(
                "HvdcpWantPulses",
                pulses_toward_target(vbat_uv),
            ),
        );
        law_raise_is_bounded(at, bus, state, vbat_uv, vin, pulses_toward_target(vbat_uv));
    }
}

proof fn lemma_dcp_steps_keep_adapter(
    io: Io<Op>,
    bus: Bus,
    state: HvdcpState,
    vbat_uv: u32,
    vin: i32,
    inc: u32,
)
    ensures
        qc35::same_adapter(state, dcp_steps_run(io, bus, state, vbat_uv, vin, inc).1),
    decreases qc35::left(MAX_PULSE_CNT, inc),
{
    if !(vin >= target_vbus_uv(vbat_uv) || inc >= MAX_PULSE_CNT || state.pulse_cnt
        >= MAX_PULSE_CNT) {
        let (io, state, sent) = usbin::pulse_inc_gap_run(io, bus, state, PULSE_GAP_MS);
        if sent is Ok {
            let (io, vin) = qc35::sample_vin_run(io);
            lemma_dcp_steps_keep_adapter(io, bus, state, vbat_uv, vin, (inc + 1) as u32);
        }
    }
}

proof fn lemma_qc3_keeps_path(
    io: Io<Op>,
    bus: Bus,
    state: HvdcpState,
    vbat_uv: u32,
    tuning: Tuning,
)
    ensures
        ({
            let (_, after, r) = raise_qc3_run(io, bus, state, vbat_uv, tuning);
            keeps_path(state, after, r)
        }),
{
    reveal(raise_qc3_run);
    reveal(climb_run);
    let state = HvdcpState { phase: HvdcpPhase::Qc35Auth, ..state };
    let at = usbin::publish_marks_run(io, state, None);
    qc35::law_attempt_keeps_the_class(at, bus, state, tuning);
    let (at, state, _) = qc35::attempt_qc35_authenticate_run(at, bus, state, tuning);
    let state = HvdcpState { phase: HvdcpPhase::Qc3Pulse, ..state };
    let at = usbin::publish_marks_run(at, state, None);
    let (at, vin) = qc35::sample_vin_run(
        at.mark("HvdcpTarget", target_vbus_uv(vbat_uv)).mark(
            "HvdcpWantPulses",
            pulses_toward_target(vbat_uv),
        ),
    );
    law_raise_is_bounded(at, bus, state, vbat_uv, vin, pulses_toward_target(vbat_uv));
}

proof fn lemma_dcp_keeps_path(
    io: Io<Op>,
    bus: Bus,
    state: HvdcpState,
    vbat_uv: u32,
    tuning: Tuning,
)
    ensures
        ({
            let (_, after, r) = raise_dcp_run(io, bus, state, vbat_uv, tuning);
            keeps_path(state, after, r)
        }),
{
    reveal(raise_dcp_run);
    reveal(request_9v_run);
    reveal(drive_by_steps_run);
    let (at, state, asked) = request_9v_run(io.mark("SuDcpNoElevate", 0), bus, state, "SuDcpIcl");
    if asked is Ok {
        let (at, end, peak) = wait_force9v_rise_run(at, tuning);
        let (at, vin, hold) = settled_level_run(
            at.mark("SuDcp9vVin", nonneg(end)).mark("SuDcpPeakVin", nonneg(peak)),
        );
        let (at, state) = usbin::safe_force_5v_run(
            at.mark("SuDcpHoldN", hold).mark("SuDcpNoElevate", 1),
            bus,
            state,
        );
        lemma_dcp_steps_keep_adapter(
            at,
            bus,
            HvdcpState { pulse_cnt: 0, ..state },
            vbat_uv,
            vin,
            0,
        );
    }
}

proof fn lemma_raise_keeps_path(
    io: Io<Op>,
    bus: Bus,
    state: HvdcpState,
    vbat_uv: u32,
    continuous: bool,
    tuning: Tuning,
)
    ensures
        ({
            let (_, after, r) = elevate_run(io, bus, state, vbat_uv, continuous, tuning);
            keeps_path(state, after, r)
        }),
{
    reveal(elevate_run);
    reveal(request_9v_run);
    let (at, _) = io.elevate(Op::ElevatePath { result: state.apsd_result, continuous });
    let at = at.mark("SuApsdAfc5v", 0);
    lemma_qc3_keeps_path(at, bus, state, vbat_uv, tuning);
    lemma_dcp_keeps_path(at, bus, state, vbat_uv, tuning);
}

/// Whether a negotiation ended well can be read from its phase, and why it did not
/// from its failure. It keeps the path that it was given.
pub proof fn law_outcome_is_in_the_phase(
    io: Io<Op>,
    bus: Bus,
    state: HvdcpState,
    vbat_uv: u32,
    tuning: Tuning,
)
    ensures
        ({
            let (_, after, r) = negotiate_on_bus_run(io, bus, state, vbat_uv, tuning);
            &&& after.transport == state.transport
            &&& r is Ok ==> after.phase == HvdcpPhase::Done && after.failure == state.failure
            &&& r is Err ==> after.phase == HvdcpPhase::Failed && after.failure == Some(r->Err_0)
            &&& r is Err ==> r->Err_0 == HvdcpError::SpmiIo || r->Err_0 == HvdcpError::ApsdTimeout
                || r->Err_0 == HvdcpError::NotQcAdapter
        }),
{
    reveal(negotiate_on_bus_run);
    lemma_setup_outcome(io, bus, state);
    let (io, state, prepared) = prepare_block_run(io, bus, state);
    if prepared is Ok {
        let (io, pre) = pre_scan_run(io, bus, state);
        lemma_enable_outcome(io, bus, state);
        let (io, state, enabled) = enable_block_run(io, bus, state);
        if enabled is Ok {
            lemma_class_outcome(io, bus, state, pre);
            let (io, state, classified) = classify_run(io, bus, state, pre);
            if classified is Ok {
                let (io, state) = promote_run(io, state);
                law_failed_raise_leaves_no_latch(
                    io,
                    bus,
                    state,
                    vbat_uv,
                    pre.continuous(),
                    tuning,
                );
                lemma_raise_keeps_path(io, bus, state, vbat_uv, pre.continuous(), tuning);
                reveal(finish_run);
            }
        }
    }
}

proof fn lemma_setup_outcome(io: Io<Op>, bus: Bus, state: HvdcpState)
    ensures
        ({
            let (_, after, r) = prepare_block_run(io, bus, state);
            &&& keeps_path(state, after, r)
            &&& r is Err ==> after.phase == HvdcpPhase::Failed && r->Err_0 == HvdcpError::SpmiIo
        }),
{
    reveal(prepare_block_run);
}

proof fn lemma_enable_outcome(io: Io<Op>, bus: Bus, state: HvdcpState)
    ensures
        ({
            let (_, after, r) = enable_block_run(io, bus, state);
            &&& keeps_path(state, after, r)
            &&& r is Err ==> after.phase == HvdcpPhase::Failed && r->Err_0 == HvdcpError::SpmiIo
        }),
{
    reveal(enable_block_run);
}

proof fn lemma_class_outcome(io: Io<Op>, bus: Bus, state: HvdcpState, pre: PreScan)
    ensures
        ({
            let (_, after, r) = classify_run(io, bus, state, pre);
            &&& keeps_path(state, after, r)
            &&& r is Err ==> after.phase == HvdcpPhase::Failed && (r->Err_0 == HvdcpError::SpmiIo
                || r->Err_0 == HvdcpError::ApsdTimeout)
        }),
{
    reveal(reclassify_run);
    let at = io.mark("SuApsdSkip", 0).mark("SuApsdSkipQc2", 0).mark(
        "SuApsdSkipDcp",
        flag_word(pre.already_dcp()),
    );
    let rerun = HvdcpState { phase: HvdcpPhase::ApsdRerun, ..state };
    let (at, started) = usbin::apsd_rerun_run(
        usbin::publish_marks_run(at, rerun, None),
        bus,
        rerun,
    );
    if started is Ok {
        let waiting = HvdcpState { phase: HvdcpPhase::ApsdWait, ..rerun };
        let at = usbin::publish_marks_run(at.mark("SuApsdRerunSt", 0), waiting, None);
        lemma_wait_errors(at, bus, waiting, 0);
    }
}

/// [`HvdcpError::UsbinUnavailable`] means that there is no path at all: no
/// resource-hub connection is known, and the superuser node could not be opened
/// or granted.
pub proof fn law_unavailable_means_no_path(
    io: Io<Op>,
    usbin_id: Option<u64>,
    state: HvdcpState,
    vbat_uv: u32,
    tuning: Tuning,
)
    requires
        run_negotiate_run(io, usbin_id, state, vbat_uv, tuning).2 == Err::<(), HvdcpError>(
            HvdcpError::UsbinUnavailable,
        ),
    ensures
        usbin_id is None,
        run_negotiate_run(io, usbin_id, state, vbat_uv, tuning).1.transport
            == HvdcpTransport::Closed,
        ({
            let state = HvdcpState {
                phase: HvdcpPhase::Enable,
                transport: HvdcpTransport::Closed,
                failure: None,
                ..state
            };
            let (io, opened) = usbin::publish_marks_run(io, state, None).outcome(Op::SuOpen);
            opened is Err || io.mark("SuHvdcpOpen", 0).outcome(Op::SuGrant(SPMI_PERI_USBIN)).1 is Err
        }),
{
    reveal(run_negotiate_run);
    reveal(negotiate_via_hub_run);
    let state = HvdcpState {
        phase: HvdcpPhase::Enable,
        transport: HvdcpTransport::Closed,
        failure: None,
        ..state
    };
    let (io, opened) = usbin::publish_marks_run(io, state, None).outcome(Op::SuOpen);
    let (granting, granted) = io.mark("SuHvdcpOpen", 0).outcome(Op::SuGrant(SPMI_PERI_USBIN));
    if opened is Ok && granted is Ok {
        law_outcome_is_in_the_phase(
            granting.mark("HvdcpVia", HvdcpTransport::Superuser.code()),
            Bus::Superuser,
            HvdcpState {
                transport: HvdcpTransport::Superuser,
                endian_known: true,
                big_endian: true,
                ..state
            },
            vbat_uv,
            tuning,
        );
    } else {
        let at = match opened {
            Err(status) => io.mark("SuHvdcpOpen", status_word(status)),
            Ok(_) => granting.mark("SuHvdcpOpen", status_word(granted->Err_0)).tell(Op::SuClose),
        };
        if usbin_id is Some {
            let (at, _) = at.flag(Op::UsbinOpen(usbin_id->0));
            let (at, state, _) = usbin::resolve_endian_usbin_run(at, state);
            law_outcome_is_in_the_phase(
                at.mark("HvdcpVia", HvdcpTransport::UsbinRh.code()),
                Bus::Usbin,
                HvdcpState { transport: HvdcpTransport::UsbinRh, ..state },
                vbat_uv,
                tuning,
            );
        }
    }
}

/// The wait for a 9 V ramp sleeps no longer than the last deadline and one poll,
/// whatever the adapter does, and the highest sample covers the last.
pub proof fn law_ramp_ends_in_time(io: Io<Op>, tuning: Tuning)
    ensures
        ({
            let (after, last, peak) = wait_force9v_rise_run(io, tuning);
            &&& session::slept_ms(after.log) <= session::slept_ms(io.log)
                + tuning.force9v_hard_cap_ms + FORCE9V_POLL_MS
            &&& last <= peak
        }),
{
    reveal(wait_force9v_rise_run);
    session::lemma_slept_by_a_request(io, Op::SampleVin);
    let (sampled, first) = qc35::sample_vin_run(io);
    lemma_ramp_ends_in_time(sampled, tuning, first, first, 0, 0, tuning.force9v_settle_ms, false);
}

proof fn lemma_ramp_ends_in_time(
    io: Io<Op>,
    tuning: Tuning,
    last: i32,
    peak: i32,
    confirm: u32,
    waited: u32,
    deadline: u32,
    extended: bool,
)
    ensures
        ({
            let (after, end, highest) = ramp_run(
                io,
                tuning,
                last,
                peak,
                confirm,
                waited,
                deadline,
                extended,
            );
            &&& session::slept_ms(after.log) <= session::slept_ms(io.log) + qc35::left(
                tuning.force9v_hard_cap_ms,
                waited,
            ) + (if waited < tuning.force9v_hard_cap_ms {
                FORCE9V_POLL_MS as int
            } else {
                0
            })
            &&& end <= highest
        }),
    decreases qc35::left(tuning.force9v_hard_cap_ms, waited),
{
    let high = higher(last, peak);
    let step = Op::Force9vStep {
        last_uv: last,
        waited_ms: waited,
        deadline_ms: deadline,
        extended,
    };
    session::lemma_slept_by_a_request(io, step);
    let (stepped, verdict) = io.force9v(step);
    session::lemma_slept_by_a_request(stepped, Op::Force9vExtend(deadline));
    let above = last >= SWITCHING_MIN_VIN_UV;
    let (before, moved, longer) = if above {
        (io, deadline, extended)
    } else if verdict == Force9vWait::Extend {
        let (io, moved) = stepped.word(Op::Force9vExtend(deadline));
        (io, moved, true)
    } else {
        (stepped, deadline, extended)
    };
    let counted: u32 = if above {
        confirm.saturating_add(1)
    } else {
        0
    };
    if waited < tuning.force9v_hard_cap_ms {
        session::lemma_slept_by_a_request(before, Op::Sleep(FORCE9V_POLL_MS));
        let paused = before.tell(Op::Sleep(FORCE9V_POLL_MS));
        session::lemma_slept_by_a_request(paused, Op::SampleVin);
        let (sampled, next) = qc35::sample_vin_run(paused);
        lemma_ramp_ends_in_time(
            sampled,
            tuning,
            next,
            higher(next, high),
            counted,
            waited.saturating_add(FORCE9V_POLL_MS),
            moved,
            longer,
        );
    }
}

/// A negotiation leaves behind why it failed, or nothing where it did not; its code
/// can be asked for later.
pub proof fn law_failure_is_left_behind(
    io: Io<Op>,
    usbin_id: Option<u64>,
    state: HvdcpState,
    vbat_uv: u32,
    tuning: Tuning,
)
    ensures
        ({
            let (_, after, r) = run_negotiate_run(io, usbin_id, state, vbat_uv, tuning);
            after.failure == match r {
                Ok(_) => None,
                Err(err) => Some(err),
            }
        }),
        ({
            let (_, after, code, _) = run_negotiate_report_run(
                io,
                usbin_id,
                state,
                vbat_uv,
                tuning,
            );
            after.last_code() == code
        }),
{
    reveal(run_negotiate_run);
    reveal(negotiate_via_hub_run);
    let state = HvdcpState {
        phase: HvdcpPhase::Enable,
        transport: HvdcpTransport::Closed,
        failure: None,
        ..state
    };
    let (io, opened) = usbin::publish_marks_run(io, state, None).outcome(Op::SuOpen);
    let (granting, granted) = io.mark("SuHvdcpOpen", 0).outcome(Op::SuGrant(SPMI_PERI_USBIN));
    if opened is Ok && granted is Ok {
        law_outcome_is_in_the_phase(
            granting.mark("HvdcpVia", HvdcpTransport::Superuser.code()),
            Bus::Superuser,
            HvdcpState {
                transport: HvdcpTransport::Superuser,
                endian_known: true,
                big_endian: true,
                ..state
            },
            vbat_uv,
            tuning,
        );
    } else {
        let at = match opened {
            Err(status) => io.mark("SuHvdcpOpen", status_word(status)),
            Ok(_) => granting.mark("SuHvdcpOpen", status_word(granted->Err_0)).tell(Op::SuClose),
        };
        if usbin_id is Some {
            let (at, _) = at.flag(Op::UsbinOpen(usbin_id->0));
            let (at, state, _) = usbin::resolve_endian_usbin_run(at, state);
            law_outcome_is_in_the_phase(
                at.mark("HvdcpVia", HvdcpTransport::UsbinRh.code()),
                Bus::Usbin,
                HvdcpState { transport: HvdcpTransport::UsbinRh, ..state },
                vbat_uv,
                tuning,
            );
        }
    }
}

// ---------------------------------------------------------------------------
// Laws of what a negotiation does
// ---------------------------------------------------------------------------
/// The verdict in an answer to the question how to raise an adapter.
pub open spec fn path_of(reply: Reply) -> ApsdElevate {
    match reply {
        Reply::Elevate(path) => path,
        _ => ApsdElevate::Reject,
    }
}

/// A request for 9 V, as a part of a raise.
proof fn lemma_request_9v(io: Io<Op>, bus: Bus, state: HvdcpState, icl_name: &'static str)
    requires
        trace::honest(io),
        request_9v_run(io, bus, state, icl_name).0.pending is None,
    ensures
        ({
            let (after, left, r) = request_9v_run(io, bus, state, icl_name);
            let written = trace::written(io, after);
            &&& trace::follows(io, after)
            &&& written.len() > 0 && written[0].0 == 0x1343 && written[0].1 & 0x10 != 0
            &&& r is Ok <==> usbin::took(bus, trace::answer(io, 1))
            &&& r is Ok <==> left.force9v_latched
            &&& r is Ok ==> left.pulse_cnt == 20
            &&& r is Ok && trace::smooth(io, after) ==> trace::known(after, 0x1370) is Some
                && trace::known(after, 0x1370)->0 >= 30
            &&& r is Err ==> r == Err::<(), HvdcpError>(HvdcpError::SpmiIo)
        }),
{
    broadcast use {trace::group_trace, trace::group_publish};

    reveal(request_9v_run);
    trace::lemma_written_nothing(io);
    trace::lemma_follows_at_first(io);
    let (after, _, r) = request_9v_run(io, bus, state, icl_name);
    assert forall|x: u8| #[trigger] (x | 0x10u8) & 0x10u8 != 0 by {
        assert((x | 0x10u8) & 0x10u8 != 0) by (bit_vector);
    }
    let phase = HvdcpState { phase: HvdcpPhase::Qc2Force9v, ..state };
    let published = usbin::publish_marks_run(io, phase, None);
    let (forced, latched, ok) = usbin::force_9v_run(published, bus, phase);
    trace::lemma_follows_at_first(forced);
    assert(trace::follows(forced, after));
    trace::lemma_finished_before(forced, after);
    assert(trace::written(io, published).len() == 0);
    let (read, _) = usbin::read_reg_run(published, bus, phase, 0x1343);
    assert(trace::written(io, read).len() == 0);
    assert(trace::written(io, forced).len() == 1);
    trace::lemma_written_grows(io, forced, after);
    if ok is Ok {
        let (voted, icl) = usbin::ensure_icl_at_least_run(
            forced,
            bus,
            latched,
            ICL_RAW_HVDCP2_1P5A,
        );
        assert(trace::follows(forced, voted));
        assert(trace::follows(io, forced));
        trace::lemma_honest_after(io, forced);
        trace::lemma_honest_after(forced, voted);
        trace::lemma_finished_before(forced, voted);
        trace::lemma_written_grows(io, forced, voted);
        usbin::law_vote_reaches_the_register(forced, bus, latched, ICL_RAW_HVDCP2_1P5A);
        if trace::smooth(io, after) {
            trace::lemma_smooth_parts(io, forced, voted);
        }
    }
}

/// Only the core turns an adapter away.
proof fn lemma_raise_fails_on_the_bus(
    io: Io<Op>,
    bus: Bus,
    state: HvdcpState,
    vbat_uv: u32,
    continuous: bool,
    tuning: Tuning,
)
    ensures
        ({
            let (after, left, r) = elevate_run(io, bus, state, vbat_uv, continuous, tuning);
            let path = io.elevate(Op::ElevatePath { result: state.apsd_result, continuous }).1;
            r == Err::<(), HvdcpError>(HvdcpError::NotQcAdapter) <==> path is Reject
        }),
{
    reveal(elevate_run);
    reveal(raise_qc3_run);
    reveal(raise_dcp_run);
    reveal(request_9v_run);
    let (at, path) = io.elevate(Op::ElevatePath { result: state.apsd_result, continuous });
    if path == ApsdElevate::Qc3Pulse {
        let at = at.mark("SuApsdAfc5v", 0);
        let state = HvdcpState { phase: HvdcpPhase::Qc35Auth, ..state };
        let at = usbin::publish_marks_run(at, state, None);
        let (at, state, _) = qc35::attempt_qc35_authenticate_run(at, bus, state, tuning);
        let state = HvdcpState { phase: HvdcpPhase::Qc3Pulse, ..state };
        let at = usbin::publish_marks_run(at, state, None);
        reveal(climb_run);
        let (at, vin) = qc35::sample_vin_run(
            at.mark("HvdcpTarget", target_vbus_uv(vbat_uv)).mark(
                "HvdcpWantPulses",
                pulses_toward_target(vbat_uv),
            ),
        );
        law_raise_is_bounded(at, bus, state, vbat_uv, vin, pulses_toward_target(vbat_uv));
    }
}

/// An adapter is raised by the path that the core names for its class. A verdict for
/// 9 V is followed by the 9 V request, as the first write of all. For a class with the
/// QC2 bit, whatever its other bits, the raise succeeds exactly where that write is
/// accepted, and then leaves the bus latched and, where the registers can be reached,
/// the input current limit at 1.5 A or above. An adapter is turned away exactly where
/// the core rejects it, and then nothing is written.
pub proof fn law_raise_fits_the_class(
    io: Io<Op>,
    bus: Bus,
    state: HvdcpState,
    vbat_uv: u32,
    continuous: bool,
    tuning: Tuning,
)
    requires
        trace::honest(io),
        io.pending is None,
        elevate_run(io, bus, state, vbat_uv, continuous, tuning).0.pending is None,
    ensures
        ({
            let (after, left, r) = elevate_run(io, bus, state, vbat_uv, continuous, tuning);
            let path = path_of(trace::answer(io, 0));
            let written = trace::written(io, after);
            &&& trace::asked(io, after).len() > 0
            &&& trace::asked(io, after)[0] == (Op::ElevatePath {
                result: state.apsd_result,
                continuous,
            })
            &&& r == Err::<(), HvdcpError>(HvdcpError::NotQcAdapter) <==> path is Reject
            &&& path is Reject ==> written.len() == 0 && trace::asked(io, after).len() == 1
            &&& path is Force9v ==> written.len() > 0 && written[0].0 == 0x1343 && written[0].1
                & 0x10 != 0 && (r is Ok <==> usbin::took(bus, trace::answer(io, 2)))
            &&& path is Force9v && state.apsd_result & 0x20 != 0 ==> {
                &&& r is Ok <==> left.force9v_latched
                &&& r is Ok ==> left.pulse_cnt == 20
                &&& r is Ok && trace::smooth(io, after) ==> trace::known(after, 0x1370) is Some
                    && trace::known(after, 0x1370)->0 >= 30
            }
        }),
{
    broadcast use {trace::group_trace, trace::group_publish};

    reveal(elevate_run);
    trace::lemma_asked_nothing(io);
    trace::lemma_written_nothing(io);
    trace::lemma_follows_at_first(io);
    lemma_raise_fails_on_the_bus(io, bus, state, vbat_uv, continuous, tuning);
    let after = elevate_run(io, bus, state, vbat_uv, continuous, tuning).0;
    let question = Op::ElevatePath { result: state.apsd_result, continuous };
    let (at, path) = io.elevate(question);
    lemma_elevate_follows(io, bus, state, vbat_uv, continuous, tuning);
    trace::lemma_finished_before(at, after);
    trace::lemma_asked_grows(io, at, after);
    let marked = at.mark("SuApsdAfc5v", 0);
    if path == ApsdElevate::Force9v && (state.apsd_result & BIT_QC2) == 0 {
        reveal(raise_dcp_run);
        let noted = marked.mark("SuDcpNoElevate", 0);
        let (requested, _, _) = request_9v_run(noted, bus, state, "SuDcpIcl");
        trace::lemma_finished_before(requested, after);
        lemma_request_9v(noted, bus, state, "SuDcpIcl");
        trace::lemma_written_in_turn(io, noted, requested);
        assert(io.log.len() <= requested.log.len()) by {
            reveal(trace::follows);
        }
        trace::lemma_written_grows(io, requested, after);
    }
    if path == ApsdElevate::Force9v && (state.apsd_result & BIT_QC2) != 0 {
        lemma_request_9v(marked, bus, state, "SuQc2Icl");
        trace::lemma_honest_after(marked, after);
        assert(trace::honest(marked));
        trace::lemma_written_in_turn(io, marked, after);
        if trace::smooth(io, after) {
            trace::lemma_smooth_parts(io, marked, after);
        }
    }
}

/// The parts of a raise come one after the other.
proof fn lemma_elevate_follows(
    io: Io<Op>,
    bus: Bus,
    state: HvdcpState,
    vbat_uv: u32,
    continuous: bool,
    tuning: Tuning,
)
    ensures
        ({
            let after = elevate_run(io, bus, state, vbat_uv, continuous, tuning).0;
            let (at, path) = io.elevate(
                Op::ElevatePath { result: state.apsd_result, continuous },
            );
            let marked = at.mark("SuApsdAfc5v", 0);
            &&& trace::follows(io, after)
            &&& trace::follows(at, after)
            &&& path == ApsdElevate::Force9v && (state.apsd_result & BIT_QC2) == 0
                ==> trace::follows(
                request_9v_run(marked.mark("SuDcpNoElevate", 0), bus, state, "SuDcpIcl").0,
                after,
            )
        }),
{
    broadcast use {
        writes::group_obeys,
        writes::lemma_elevate_obeys,
        writes::lemma_raise_qc3_obeys,
        writes::lemma_request_9v_obeys,
        writes::lemma_raise_dcp_obeys,
        writes::lemma_wait_force9v_rise_obeys,
        writes::lemma_settled_level_obeys,
        writes::lemma_drive_by_steps_obeys,
    };

    let after = elevate_run(io, bus, state, vbat_uv, continuous, tuning).0;
    let (at, path) = io.elevate(Op::ElevatePath { result: state.apsd_result, continuous });
    let marked = at.mark("SuApsdAfc5v", 0);
    writes::lemma_obeys_at_first(io, Rule::Free);
    assert(writes::obeys(io, after, Rule::Free));
    writes::lemma_obeys_follows(io, after, Rule::Free);
    reveal(elevate_run);
    writes::lemma_obeys_at_first(at, Rule::Free);
    assert(writes::obeys(at, after, Rule::Free));
    writes::lemma_obeys_follows(at, after, Rule::Free);
    if path == ApsdElevate::Force9v && (state.apsd_result & BIT_QC2) == 0 {
        reveal(raise_dcp_run);
        let requested = request_9v_run(
            marked.mark("SuDcpNoElevate", 0),
            bus,
            state,
            "SuDcpIcl",
        ).0;
        writes::lemma_obeys_at_first(requested, Rule::Free);
        assert(writes::obeys(requested, after, Rule::Free));
        writes::lemma_obeys_follows(requested, after, Rule::Free);
    }
}

/// A QC3 adapter is raised by single steps up and nothing else: at least one where its
/// bus stands below the target, each counted, until the input reaches the target or
/// passes the top of the band, the steps that were granted are out, or the counter is
/// full.
pub proof fn law_steps_reach_for_the_target(
    io: Io<Op>,
    bus: Bus,
    state: HvdcpState,
    vbat_uv: u32,
    vin: i32,
    steps: u32,
)
    requires
        !state.force9v_latched,
        state.valid(),
    ensures
        ({
            let (after, left, r) = qc3_steps_run(io, bus, state, vbat_uv, vin, steps);
            let written = trace::written(io, after);
            &&& trace::follows(io, after)
            &&& usbin::only_steps(written, 1)
            &&& r matches Ok(end) ==> {
                &&& written.len() == left.pulse_cnt - state.pulse_cnt
                &&& end >= target_vbus_uv(vbat_uv) || end > trim_target_uv(vbat_uv)
                    || left.pulse_cnt >= 23 || written.len() >= steps
                &&& steps > 0 && vin < target_vbus_uv(vbat_uv) && state.pulse_cnt < 23
                    ==> written.len() > 0
                &&& written.len() == 0 ==> end == vin
                &&& written.len() <= steps
            }
            &&& r is Err ==> r == Err::<i32, HvdcpError>(HvdcpError::SpmiIo)
        }),
    decreases steps,
{
    broadcast use trace::group_trace;

    trace::lemma_written_nothing(io);
    trace::lemma_follows_at_first(io);
    if !(steps == 0 || state.pulse_cnt >= MAX_PULSE_CNT || vin >= target_vbus_uv(vbat_uv)) {
        usbin::lemma_one_step(io, bus, state, PULSE_GAP_MS);
        let (stepped, state1, sent) = usbin::pulse_inc_gap_run(io, bus, state, PULSE_GAP_MS);
        if sent is Ok {
            let (sampled, vin1) = qc35::sample_vin_run(
                stepped.mark("PulseCnt", state1.pulse_cnt).mark("SuPulseCnt", state1.pulse_cnt),
            );
            assert(io.log.len() <= stepped.log.len()) by {
                reveal(trace::follows);
            }
            if vin1 <= trim_target_uv(vbat_uv) {
                law_steps_reach_for_the_target(
                    sampled,
                    bus,
                    state1,
                    vbat_uv,
                    vin1,
                    (steps - 1) as u32,
                );
                usbin::lemma_steps_in_turn(
                    io,
                    sampled,
                    qc3_steps_run(sampled, bus, state1, vbat_uv, vin1, (steps - 1) as u32).0,
                    1,
                );
            }
        }
    }
}

/// Where a 9 V request is ignored, single steps up are tried instead: each counted, until
/// the input reaches the target or the counter is full or a step fails.
pub proof fn law_fallback_steps_reach_for_the_target(
    io: Io<Op>,
    bus: Bus,
    state: HvdcpState,
    vbat_uv: u32,
    vin: i32,
    inc: u32,
)
    requires
        !state.force9v_latched,
        state.valid(),
        inc <= 23,
    ensures
        ({
            let (after, left, end, n) = dcp_steps_run(io, bus, state, vbat_uv, vin, inc);
            let written = trace::written(io, after);
            &&& trace::follows(io, after)
            &&& usbin::only_steps(written, 1)
            &&& n - inc == left.pulse_cnt - state.pulse_cnt
            &&& n >= inc && written.len() >= n - inc
            &&& trace::honest(io) && after.pending is None && trace::smooth(io, after) ==> {
                &&& written.len() == n - inc
                &&& end >= target_vbus_uv(vbat_uv) || n >= 23 || left.pulse_cnt >= 23
            }
            &&& n == inc ==> end == vin
        }),
    decreases qc35::left(MAX_PULSE_CNT, inc),
{
    broadcast use trace::group_trace;

    trace::lemma_written_nothing(io);
    trace::lemma_follows_at_first(io);
    if !(vin >= target_vbus_uv(vbat_uv) || inc >= MAX_PULSE_CNT || state.pulse_cnt
        >= MAX_PULSE_CNT) {
        usbin::lemma_one_step(io, bus, state, PULSE_GAP_MS);
        let (stepped, state1, sent) = usbin::pulse_inc_gap_run(io, bus, state, PULSE_GAP_MS);
        if sent is Ok {
            let (sampled, vin1) = qc35::sample_vin_run(stepped);
            assert(io.log.len() <= stepped.log.len() && (trace::honest(io) ==> trace::honest(
                stepped,
            ))) by {
                reveal(trace::follows);
            }
            law_fallback_steps_reach_for_the_target(
                sampled,
                bus,
                state1,
                vbat_uv,
                vin1,
                (inc + 1) as u32,
            );
            let after = dcp_steps_run(sampled, bus, state1, vbat_uv, vin1, (inc + 1) as u32).0;
            usbin::lemma_steps_in_turn(io, sampled, after, 1);
            if trace::honest(io) && after.pending is None && trace::smooth(io, after) {
                trace::lemma_smooth_parts(io, sampled, after);
            }
        }
    }
}

/// The bits by which a class counts as finished QC2 or QC3, and as a plain DCP.
pub proof fn law_classes_have_their_bits(pre: PreScan)
    ensures
        ({
            let done = pre.status & 0x01 != 0;
            let charger = pre.status & 0x02 != 0;
            let dcp = pre.result & 0x08 != 0;
            let qc2 = pre.result & 0x20 != 0;
            let qc3 = pre.result & 0x40 != 0;
            let continuous = pre.qc & 0x08 != 0;
            &&& pre.continuous() <==> continuous
            &&& pre.skips_rerun() <==> done && (qc2 || qc3 || continuous || (charger && dcp))
            &&& pre.already_dcp() <==> dcp && !qc2 && !qc3 && !continuous && !charger
        }),
{
}

/// A result counts as demoted exactly where it says DCP and lost a QC bit of the one
/// before.
pub proof fn law_demotion_loses_a_bit(before: u8, after: u8)
    ensures
        demoted(before, after) <==> after & 0x08 != 0 && (before & 0x40 != 0 && after & 0x40 == 0
            || before & 0x20 != 0 && after & 0x20 == 0),
{
}

/// What the block reports before it is touched is what its three registers held, an
/// unreadable one being empty. Nothing is written for it.
pub proof fn law_pre_scan_sees_the_registers(io: Io<Op>, bus: Bus, state: HvdcpState)
    requires
        io.pending is None,
        io.next + 3 <= io.replies.len(),
    ensures
        ({
            let (after, pre) = pre_scan_run(io, bus, state);
            let byte = |reply: Reply|
                match reply {
                    Reply::Byte(Some(value)) => value,
                    _ => 0u8,
                };
            &&& trace::asked(io, after) == seq![
                usbin::read_request(bus, state, 0x1307),
                usbin::read_request(bus, state, 0x1308),
                usbin::read_request(bus, state, 0x1309),
            ]
            &&& pre.status == byte(trace::answer(io, 0))
            &&& pre.result == byte(trace::answer(io, 1))
            &&& pre.qc == byte(trace::answer(io, 2))
        }),
{
    broadcast use trace::group_trace;

    trace::lemma_asked_nothing(io);
}

/// The block is prepared for a classification: the latched interrupts are cleared first,
/// the count starts anew, and where the registers can be reached no hold is left, the
/// input carries 500 mA, adapters up to 12 V are allowed and QC2 is capped at 9 V.
pub proof fn law_block_is_prepared(io: Io<Op>, bus: Bus, state: HvdcpState)
    requires
        trace::honest(io),
        io.pending is None,
        prepare_block_run(io, bus, state).0.pending is None,
    ensures
        ({
            let (after, left, r) = prepare_block_run(io, bus, state);
            let written = trace::written(io, after);
            &&& written.len() > 0 && written[0] == (0x1314u16, 0xFFu8)
            &&& left.pulse_cnt == 0
            &&& trace::smooth(io, after) ==> {
                &&& r is Ok
                &&& left == (HvdcpState { pulse_cnt: 0, ..state })
                &&& trace::known(after, 0x1358) is Some && trace::known(after, 0x1358)->0 & 0x80 == 0
                &&& trace::known(after, 0x1370) is Some && trace::known(after, 0x1370)->0 >= 10
                &&& trace::known(after, 0x1360) is Some && trace::known(after, 0x1360)->0 & 0x0F
                    == 0x0C
                &&& trace::known(after, 0x135B) is Some && trace::known(after, 0x135B)->0 & 0xC0
                    == 0x40
            }
        }),
{
    broadcast use {trace::group_trace, trace::group_publish};

    reveal(prepare_block_run);
    trace::lemma_written_nothing(io);
    trace::lemma_follows_at_first(io);
    let after = prepare_block_run(io, bus, state).0;
    let marked = io.mark("SuAfcProto", 0)
        .mark("SuAfc5vPath", 0)
        .mark("SuQc35Auth", 0)
        .mark("SuQc35Fail", 0)
        .mark("SuQc35PowerW", 0);
    let fresh = HvdcpState { pulse_cnt: 0, ..state };
    let cleared = usbin::clear_usbin_latched_run(marked, bus, fresh);
    let released = usbin::clear_usbin_suspend_run(cleared, bus, fresh);
    let (opened, cfg) = usbin::clear_apsd_cc_gate_run(released, bus, fresh);
    lemma_prepare_follows(io, bus, state);
    trace::lemma_written_grows(io, cleared, after);
    trace::lemma_finished_before(cleared, after);
    trace::lemma_finished_before(opened, after);
    usbin::law_gate_is_opened(released, bus, fresh);
    if trace::smooth(io, after) {
        trace::lemma_smooth_parts(io, released, after);
        trace::lemma_smooth_parts(released, opened, after);
        let told = opened.mark("SuTypecCfg", cfg->Ok_0 as u32);
        usbin::law_vote_reaches_the_register(told, bus, fresh, 0);
        let (floored, icl) = usbin::ensure_icl_floor_500ma_run(told, bus, fresh);
        let said = floored.mark("SuIclRaw", result_word(icl));
        let (gated, _) = usbin::ensure_hvdcp_voltage_gates_run(said, bus, fresh);
        trace::lemma_smooth_parts(opened, told, after);
        trace::lemma_smooth_parts(told, floored, after);
        trace::lemma_smooth_parts(floored, said, after);
        trace::lemma_smooth_parts(said, gated, after);
        usbin::law_voltage_gates_are_set(said, bus, fresh);
        lemma_gates_leave_the_rest(said, bus, fresh, 0x1370);
        lemma_gates_leave_the_rest(said, bus, fresh, 0x1358);
        lemma_floor_leaves_the_rest(told, bus, fresh, 0x1358);
        let c = cfg->Ok_0;
        let b = trace::answer(released, 0)->Byte_0->0;
        assert((b & 0x7Fu8) & 0x80u8 == 0) by (bit_vector);
    }
}

proof fn lemma_gates_leave_the_rest(io: Io<Op>, bus: Bus, state: HvdcpState, reg: u16)
    requires
        trace::honest(io),
        reg != 0x1360 && reg != 0x135B,
    ensures
        trace::known(usbin::ensure_hvdcp_voltage_gates_run(io, bus, state).0, reg) == trace::known(
            io,
            reg,
        ),
{
    broadcast use trace::group_trace;

}

proof fn lemma_floor_leaves_the_rest(io: Io<Op>, bus: Bus, state: HvdcpState, reg: u16)
    requires
        trace::honest(io),
        reg != 0x1370 && reg != 0x1342,
    ensures
        trace::known(usbin::ensure_icl_floor_500ma_run(io, bus, state).0, reg) == trace::known(
            io,
            reg,
        ),
{
    broadcast use trace::group_trace;

}

proof fn lemma_prepare_follows(io: Io<Op>, bus: Bus, state: HvdcpState)
    ensures
        ({
            let after = prepare_block_run(io, bus, state).0;
            let marked = io.mark("SuAfcProto", 0)
                .mark("SuAfc5vPath", 0)
                .mark("SuQc35Auth", 0)
                .mark("SuQc35Fail", 0)
                .mark("SuQc35PowerW", 0);
            let fresh = HvdcpState { pulse_cnt: 0, ..state };
            let cleared = usbin::clear_usbin_latched_run(marked, bus, fresh);
            let released = usbin::clear_usbin_suspend_run(cleared, bus, fresh);
            let (opened, cfg) = usbin::clear_apsd_cc_gate_run(released, bus, fresh);
            let told = opened.mark("SuTypecCfg", cfg->Ok_0 as u32);
            let (floored, icl) = usbin::ensure_icl_floor_500ma_run(told, bus, fresh);
            let said = floored.mark("SuIclRaw", result_word(icl));
            let (gated, _) = usbin::ensure_hvdcp_voltage_gates_run(said, bus, fresh);
            &&& trace::follows(io, released) && trace::follows(cleared, after)
            &&& trace::follows(released, opened) && trace::follows(opened, after)
            &&& trace::follows(released, after)
            &&& cfg is Ok ==> {
                &&& trace::follows(opened, told) && trace::follows(told, after)
                &&& trace::follows(told, floored) && trace::follows(floored, after)
                &&& trace::follows(floored, said) && trace::follows(said, after)
                &&& trace::follows(said, gated) && trace::follows(gated, after)
            }
        }),
{
    broadcast use {trace::lemma_ask_follows, trace::lemma_record_follows};

    reveal(prepare_block_run);
    reveal(usbin::publish_marks_run);
    let after = prepare_block_run(io, bus, state).0;
    let marked = io.mark("SuAfcProto", 0)
        .mark("SuAfc5vPath", 0)
        .mark("SuQc35Auth", 0)
        .mark("SuQc35Fail", 0)
        .mark("SuQc35PowerW", 0);
    let fresh = HvdcpState { pulse_cnt: 0, ..state };
    let cleared = usbin::clear_usbin_latched_run(marked, bus, fresh);
    let released = usbin::clear_usbin_suspend_run(cleared, bus, fresh);
    let (opened, cfg) = usbin::clear_apsd_cc_gate_run(released, bus, fresh);
    let told = opened.mark("SuTypecCfg", cfg->Ok_0 as u32);
    let (floored, icl) = usbin::ensure_icl_floor_500ma_run(told, bus, fresh);
    let said = floored.mark("SuIclRaw", result_word(icl));
    let (gated, _) = usbin::ensure_hvdcp_voltage_gates_run(said, bus, fresh);
    trace::lemma_follows_at_first(io);
    trace::lemma_follows_at_first(cleared);
    trace::lemma_follows_at_first(released);
    trace::lemma_follows_at_first(opened);
    trace::lemma_follows_at_first(told);
    trace::lemma_follows_at_first(floored);
    trace::lemma_follows_at_first(said);
    trace::lemma_follows_at_first(gated);
}

/// A negotiation starts at the superuser node. Where that opens and grants the USBIN
/// block, it is the path, and it is closed as the last thing of all; where it opens but
/// does not grant, it is closed at once. Only then the resource hub is tried, on the
/// connection that is known, and without one nothing more is asked.
pub proof fn law_paths_are_tried_in_order(
    io: Io<Op>,
    usbin_id: Option<u64>,
    state: HvdcpState,
    vbat_uv: u32,
    tuning: Tuning,
)
    requires
        trace::honest(io),
        io.pending is None,
        run_negotiate_run(io, usbin_id, state, vbat_uv, tuning).0.pending is None,
    ensures
        ({
            let (after, left, r) = run_negotiate_run(io, usbin_id, state, vbat_uv, tuning);
            let sent = trace::asked(io, after);
            let opened = trace::good(trace::answer(io, 0));
            let granted = opened && trace::good(trace::answer(io, 1));
            &&& sent.len() > 0 && sent[0] == Op::SuOpen
            &&& opened ==> sent.len() > 1 && sent[1] == Op::SuGrant(0x13)
            &&& granted ==> sent.last() == Op::SuClose && left.transport
                == HvdcpTransport::Superuser
            &&& opened && !granted ==> sent.len() > 2 && sent[2] == Op::SuClose
            &&& !granted ==> {
                let hub = if opened {
                    3int
                } else {
                    1
                };
                match usbin_id {
                    None => sent.len() == hub && r == Err::<(), HvdcpError>(
                        HvdcpError::UsbinUnavailable,
                    ),
                    Some(id) => {
                        &&& sent.len() > hub && sent[hub] == Op::UsbinOpen(id)
                        &&& !trace::yes(trace::answer(io, hub)) ==> sent.len() == hub + 1 && r
                            == Err::<(), HvdcpError>(HvdcpError::BusOpenFailed)
                        &&& r is Ok ==> left.transport == HvdcpTransport::UsbinRh
                    },
                }
            }
        }),
{
    broadcast use {trace::group_trace, trace::group_publish};

    reveal(run_negotiate_run);
    reveal(negotiate_via_hub_run);
    trace::lemma_asked_nothing(io);
    lemma_run_follows(io, usbin_id, state, vbat_uv, tuning);
    let after = run_negotiate_run(io, usbin_id, state, vbat_uv, tuning).0;
    let start = HvdcpState {
        phase: HvdcpPhase::Enable,
        transport: HvdcpTransport::Closed,
        failure: None,
        ..state
    };
    let published = usbin::publish_marks_run(io, start, None);
    let (at, opened) = published.outcome(Op::SuOpen);
    assert(trace::asked(io, published).len() == 0);
    trace::lemma_finished_before(at, after);
    trace::lemma_asked_grows(io, at, after);
    let refused = if opened is Err {
        at.mark("SuHvdcpOpen", status_word(opened->Err_0))
    } else {
        let (asked, granted) = at.mark("SuHvdcpOpen", 0).outcome(Op::SuGrant(SPMI_PERI_USBIN));
        trace::lemma_finished_before(asked, after);
        trace::lemma_asked_grows(io, asked, after);
        asked.mark("SuHvdcpOpen", status_word(granted->Err_0)).tell(Op::SuClose)
    };
    let grant = at.mark("SuHvdcpOpen", 0).outcome(Op::SuGrant(SPMI_PERI_USBIN));
    if opened is Ok && grant.1 is Err {
        trace::lemma_finished_before(refused, after);
        assert(trace::asked(io, refused)[2] == Op::SuClose);
    }
    if opened is Err || grant.1 is Err {
        trace::lemma_finished_before(refused, after);
        trace::lemma_asked_grows(io, refused, after);
        if let Some(id) = usbin_id {
            let (hub, there) = refused.flag(Op::UsbinOpen(id));
            trace::lemma_finished_before(hub, after);
            trace::lemma_asked_grows(io, hub, after);
            if there {
                let (ordered, found, order) = usbin::resolve_endian_usbin_run(hub, start);
                law_outcome_is_in_the_phase(
                    ordered.mark("HvdcpVia", HvdcpTransport::UsbinRh.code()),
                    Bus::Usbin,
                    HvdcpState { transport: HvdcpTransport::UsbinRh, ..found },
                    vbat_uv,
                    tuning,
                );
            }
        }
    } else {
        law_outcome_is_in_the_phase(
            grant.0.mark("HvdcpVia", HvdcpTransport::Superuser.code()),
            Bus::Superuser,
            HvdcpState {
                transport: HvdcpTransport::Superuser,
                endian_known: true,
                big_endian: true,
                ..start
            },
            vbat_uv,
            tuning,
        );
    }
}

/// The parts of a negotiation come one after the other.
proof fn lemma_run_follows(
    io: Io<Op>,
    usbin_id: Option<u64>,
    state: HvdcpState,
    vbat_uv: u32,
    tuning: Tuning,
)
    ensures
        ({
            let after = run_negotiate_run(io, usbin_id, state, vbat_uv, tuning).0;
            let start = HvdcpState {
                phase: HvdcpPhase::Enable,
                transport: HvdcpTransport::Closed,
                failure: None,
                ..state
            };
            let (at, opened) = usbin::publish_marks_run(io, start, None).outcome(Op::SuOpen);
            let (asked, granted) = at.mark("SuHvdcpOpen", 0).outcome(Op::SuGrant(SPMI_PERI_USBIN));
            let refused = if opened is Err {
                at.mark("SuHvdcpOpen", status_word(opened->Err_0))
            } else {
                asked.mark("SuHvdcpOpen", status_word(granted->Err_0)).tell(Op::SuClose)
            };
            &&& trace::follows(at, after)
            &&& opened is Ok ==> trace::follows(asked, after)
            &&& opened is Ok && granted is Ok ==> {
                let via = asked.mark("HvdcpVia", HvdcpTransport::Superuser.code());
                trace::follows(
                    via,
                    negotiate_on_bus_run(
                        via,
                        Bus::Superuser,
                        HvdcpState {
                            transport: HvdcpTransport::Superuser,
                            endian_known: true,
                            big_endian: true,
                            ..start
                        },
                        vbat_uv,
                        tuning,
                    ).0,
                )
            }
            &&& opened is Err || granted is Err ==> trace::follows(refused, after) && (
            usbin_id is Some ==> trace::follows(
                refused.flag(Op::UsbinOpen(usbin_id->0)).0,
                after,
            ))
        }),
{
    broadcast use {
        writes::group_obeys,
        writes::lemma_negotiate_on_bus_obeys,
        writes::lemma_negotiate_via_hub_obeys,
    };

    reveal(run_negotiate_run);
    let after = run_negotiate_run(io, usbin_id, state, vbat_uv, tuning).0;
    let start = HvdcpState {
        phase: HvdcpPhase::Enable,
        transport: HvdcpTransport::Closed,
        failure: None,
        ..state
    };
    let (at, opened) = usbin::publish_marks_run(io, start, None).outcome(Op::SuOpen);
    let (asked, granted) = at.mark("SuHvdcpOpen", 0).outcome(Op::SuGrant(SPMI_PERI_USBIN));
    let refused = if opened is Err {
        at.mark("SuHvdcpOpen", status_word(opened->Err_0))
    } else {
        asked.mark("SuHvdcpOpen", status_word(granted->Err_0)).tell(Op::SuClose)
    };
    writes::lemma_obeys_at_first(at, Rule::Free);
    assert(writes::obeys(at, after, Rule::Free));
    writes::lemma_obeys_follows(at, after, Rule::Free);
    if opened is Ok {
        writes::lemma_obeys_at_first(asked, Rule::Free);
        assert(writes::obeys(asked, after, Rule::Free));
        writes::lemma_obeys_follows(asked, after, Rule::Free);
        let via = asked.mark("HvdcpVia", HvdcpTransport::Superuser.code());
        writes::lemma_obeys_at_first(via, Rule::Free);
        let on = negotiate_on_bus_run(
            via,
            Bus::Superuser,
            HvdcpState {
                transport: HvdcpTransport::Superuser,
                endian_known: true,
                big_endian: true,
                ..start
            },
            vbat_uv,
            tuning,
        ).0;
        assert(writes::obeys(via, on, Rule::Free));
        writes::lemma_obeys_follows(via, on, Rule::Free);
    }
    if opened is Err || granted is Err {
        writes::lemma_obeys_at_first(refused, Rule::Free);
        assert(writes::obeys(refused, after, Rule::Free));
        writes::lemma_obeys_follows(refused, after, Rule::Free);
        if let Some(id) = usbin_id {
            reveal(negotiate_via_hub_run);
            let hub = refused.flag(Op::UsbinOpen(id)).0;
            writes::lemma_obeys_at_first(hub, Rule::Free);
            assert(writes::obeys(hub, after, Rule::Free));
            writes::lemma_obeys_follows(hub, after, Rule::Free);
        }
    }
}

/// The block is switched to high-voltage charging and given its time. Where the register
/// can be reached that succeeds: the register holds the three enables and not the
/// autonomous mode.
pub proof fn law_block_is_enabled(io: Io<Op>, bus: Bus, state: HvdcpState)
    requires
        trace::honest(io),
        io.pending is None,
        enable_block_run(io, bus, state).0.pending is None,
    ensures
        ({
            let (after, left, r) = enable_block_run(io, bus, state);
            &&& trace::follows(io, after)
            &&& trace::smooth(io, after) ==> r is Ok
            &&& r is Ok ==> {
                &&& trace::known(after, 0x1362) == Some(left.options1)
                &&& left.options1 & 0x4C == 0x4C && left.options1 & 0x20 == 0
                &&& trace::asked(io, after).last() == Op::Sleep(50)
                &&& left == (HvdcpState {
                    options1: left.options1,
                    phase: HvdcpPhase::Enable,
                    ..state
                })
            }
            &&& r is Err ==> left.phase is Failed && left.failure == Some(r->Err_0)
        }),
{
    broadcast use {trace::group_trace, trace::group_publish};

    reveal(enable_block_run);
    trace::lemma_follows_at_first(io);
    let started = HvdcpState { phase: HvdcpPhase::Enable, ..state };
    let published = usbin::publish_marks_run(io, started, None);
    let (after, _, r) = enable_block_run(io, bus, state);
    assert(trace::follows(io, published));
    trace::lemma_honest_after(io, published);
    usbin::law_high_voltage_is_enabled(published, bus, started);
    let (enabled, left, ok) = usbin::enable_hvdcp_run(published, bus, started);
    trace::lemma_follows_at_first(published);
    assert(trace::follows(published, enabled));
    trace::lemma_honest_after(published, enabled);
    trace::lemma_follows_in_turn(io, published, enabled);
    trace::lemma_honest_after(io, enabled);
    trace::lemma_follows_at_first(enabled);
    assert(trace::follows(enabled, after));
    trace::lemma_finished_before(enabled, after);
    trace::lemma_follows_in_turn(io, enabled, after);
    trace::lemma_honest_after(io, after);
    if trace::smooth(io, after) {
        trace::lemma_smooth_parts(io, enabled, after);
        trace::lemma_smooth_parts(io, published, enabled);
    }
}

/// A class that is finished is kept, and nothing is asked for it. Any other is
/// renewed by one command, and what it then says is the class, unless it says DCP and
/// lost a QC bit that was there before: then the one before stays.
pub proof fn law_class_is_kept_or_renewed(io: Io<Op>, bus: Bus, state: HvdcpState, pre: PreScan)
    requires
        trace::honest(io),
        io.pending is None,
        classify_run(io, bus, state, pre).0.pending is None,
    ensures
        ({
            let (after, left, r) = classify_run(io, bus, state, pre);
            let finished = pre.status & 0x01 != 0 && (pre.result & 0x20 != 0 || pre.result & 0x40
                != 0 || pre.qc & 0x08 != 0 || (pre.status & 0x02 != 0 && pre.result & 0x08 != 0));
            let now = trace::known(after, 0x1308);
            let lost = now is Some && now->0 & 0x08 != 0 && (pre.result & 0x40 != 0 && now->0 & 0x40
                == 0 || pre.result & 0x20 != 0 && now->0 & 0x20 == 0);
            &&& trace::follows(io, after)
            &&& finished ==> r is Ok && trace::asked(io, after).len() == 0 && left == (HvdcpState {
                apsd_status: pre.status,
                apsd_result: pre.result,
                ..state
            })
            &&& !finished ==> trace::written(io, after) == seq![(0x1341u16, 1u8)]
            &&& !finished && r is Ok ==> {
                &&& now is Some
                &&& lost ==> left.apsd_result == pre.result && left.apsd_status == pre.status
                &&& !lost ==> left.apsd_result == now->0 && trace::known(after, 0x1307) == Some(
                    left.apsd_status,
                ) && left.apsd_status & 0x01 != 0
                &&& left.phase is ApsdWait
            }
            &&& !finished && r is Err ==> left.phase is Failed
        }),
{
    broadcast use {trace::group_trace, trace::group_publish};

    trace::lemma_asked_nothing(io);
    trace::lemma_written_nothing(io);
    trace::lemma_follows_at_first(io);
    law_classes_have_their_bits(pre);
    if !pre.skips_rerun() {
        reveal(reclassify_run);
        let (after, left, r) = classify_run(io, bus, state, pre);
        let marked = io.mark("SuApsdSkip", 0).mark("SuApsdSkipQc2", 0).mark(
            "SuApsdSkipDcp",
            flag_word(pre.already_dcp()),
        );
        let rerun = HvdcpState { phase: HvdcpPhase::ApsdRerun, ..state };
        let published = usbin::publish_marks_run(marked, rerun, None);
        assert(trace::written(io, published).len() == 0);
        assert(trace::follows(io, published));
        trace::lemma_honest_after(io, published);
        let (commanded, started) = usbin::apsd_rerun_run(published, bus, rerun);
        assert(trace::follows(io, commanded));
        trace::lemma_honest_after(io, commanded);
        if started is Ok {
            let waiting = HvdcpState { phase: HvdcpPhase::ApsdWait, ..state };
            let told = usbin::publish_marks_run(commanded.mark("SuApsdRerunSt", 0), waiting, None);
            assert(trace::follows(io, told));
            trace::lemma_honest_after(io, told);
            let (waited, seen, done) = usbin::wait_apsd_done_run(told, bus, waiting, 0);
            usbin::law_wait_ends_with_the_class(told, bus, waiting, 0);
            trace::lemma_follows_in_turn(io, told, waited);
            trace::lemma_honest_after(io, waited);
            trace::lemma_written_in_turn(io, told, waited);
            trace::lemma_follows_at_first(told);
            trace::lemma_follows_at_first(waited);
            assert(trace::follows(waited, after));
            trace::lemma_finished_before(waited, after);
            trace::lemma_finished_before(told, waited);
            if done is Ok {
                law_demotion_loses_a_bit(pre.result, seen.apsd_result);
            }
        }
    }
}

/// A class is widened to what the core makes of it, and to nothing else.
pub proof fn law_promotion_is_the_cores(io: Io<Op>, state: HvdcpState)
    requires
        io.pending is None,
        promote_run(io, state).0.pending is None,
    ensures
        ({
            let (after, left) = promote_run(io, state);
            &&& trace::asked(io, after) == seq![
                Op::PromoteQc { result: state.apsd_result, status: state.apsd_status },
            ]
            &&& left == (HvdcpState { apsd_result: left.apsd_result, ..state })
            &&& left.apsd_result == match pmic::byte_of(trace::answer(io, 0)) {
                Some(result) => result,
                None => state.apsd_result,
            }
        }),
{
    broadcast use trace::group_trace;

    trace::lemma_asked_nothing(io);
}

/// A climb samples the input first and then sends steps up alone, each counted: as many
/// as the target needs from 5 V at most, and no more once the input is there, past the
/// top of the band, or the counter full. It fails only with the bus, and then the bus
/// is returned to 5 V by the last write.
pub proof fn law_climb_reaches_for_the_target(
    io: Io<Op>,
    bus: Bus,
    state: HvdcpState,
    vbat_uv: u32,
)
    requires
        io.pending is None,
        !state.force9v_latched,
        state.valid(),
        climb_run(io, bus, state, vbat_uv).0.pending is None,
    ensures
        ({
            let (after, left, r) = climb_run(io, bus, state, vbat_uv);
            let written = trace::written(io, after);
            let vin = match landing::reading_of(trace::answer(io, 0)) {
                Some(vin) => vin,
                None => 0,
            };
            &&& trace::follows(io, after)
            &&& trace::asked(io, after).len() > 0 && trace::asked(io, after)[0] == Op::SampleVin
            &&& r is Ok ==> {
                &&& usbin::only_steps(written, 1)
                &&& written.len() == left.pulse_cnt - state.pulse_cnt
                &&& written.len() <= pulses_toward_target(vbat_uv)
                &&& vin < target_vbus_uv(vbat_uv) && state.pulse_cnt < 23 ==> written.len() > 0
                &&& vin >= target_vbus_uv(vbat_uv) ==> written.len() == 0
            }
            &&& r is Err ==> {
                &&& r == Err::<(), HvdcpError>(HvdcpError::SpmiIo)
                &&& written.len() > 0 && written.last() == (0x1343u16, 0x08u8)
                &&& !left.force9v_latched && left.phase is Failed
            }
        }),
{
    broadcast use {trace::group_trace, trace::group_publish};

    reveal(climb_run);
    trace::lemma_asked_nothing(io);
    trace::lemma_written_nothing(io);
    trace::lemma_follows_at_first(io);
    let (after, left, r) = climb_run(io, bus, state, vbat_uv);
    let n = pulses_toward_target(vbat_uv);
    let (sampled, vin) = qc35::sample_vin_run(
        io.mark("HvdcpTarget", target_vbus_uv(vbat_uv)).mark("HvdcpWantPulses", n),
    );
    assert(trace::follows(io, sampled));
    trace::lemma_honest_after(io, sampled);
    law_steps_reach_for_the_target(sampled, bus, state, vbat_uv, vin, n);
    let (stepped, state1, end) = qc3_steps_run(sampled, bus, state, vbat_uv, vin, n);
    trace::lemma_follows_in_turn(io, sampled, stepped);
    trace::lemma_honest_after(io, stepped);
    trace::lemma_written_in_turn(io, sampled, stepped);
    assert(trace::written(io, stepped) =~= trace::written(sampled, stepped));
    trace::lemma_follows_at_first(stepped);
    assert(trace::follows(stepped, after));
    trace::lemma_finished_before(stepped, after);
    trace::lemma_finished_before(sampled, stepped);
    trace::lemma_follows_in_turn(io, stepped, after);
    trace::lemma_follows_in_turn(sampled, stepped, after);
    trace::lemma_asked_grows(io, sampled, after);
    crate::hvdcp::law_steps_are_the_fewest(vbat_uv, 0);
}

/// Of a settled level, as it is judged after a 9 V request: it is held where the last
/// two samples in a row are 8 V or above, and it is looked for in five samples, 50 ms
/// apart, at most. What is returned is the last sample.
#[verifier::rlimit(60)]
pub proof fn law_level_is_held_twice(io: Io<Op>)
    requires
        io.pending is None,
        settled_level_run(io).0.pending is None,
    ensures
        ({
            let (after, vin, hold) = settled_level_run(io);
            let n = after.next - io.next;
            let seen = |back: int|
                match landing::reading_of(io.replies[after.next - 1 - 2 * back]) {
                    Some(vin) => vin,
                    None => 0,
                };
            &&& trace::follows(io, after)
            &&& vin == seen(0)
            &&& hold <= 2
            &&& hold == 2 ==> n >= 3 && seen(0) >= 8_000_000 && seen(1) >= 8_000_000
            &&& hold < 2 ==> n == 9
            &&& hold == 1 ==> seen(1) >= 8_000_000
            &&& hold == 0 ==> seen(1) < 8_000_000
            &&& trace::asked(io, after)[0] == Op::SampleVin
            &&& n > 1 ==> trace::asked(io, after)[1] == Op::Sleep(50)
            &&& trace::written(io, after).len() == 0
        }),
{
    broadcast use trace::group_trace;

    reveal(settled_level_run);
    reveal_with_fuel(hold_run, 6);
    trace::lemma_asked_nothing(io);
    trace::lemma_written_nothing(io);
    trace::lemma_follows_at_first(io);
}

/// Where a 9 V request is not held, it is taken back and steps are tried. An input that
/// they lift past the level of an answer keeps 1.5 A; one that they do not goes back to
/// 5 V and gets 2 A. Either way no 9 V request holds the bus afterwards.
pub proof fn law_request_is_taken_back(
    io: Io<Op>,
    bus: Bus,
    state: HvdcpState,
    vbat_uv: u32,
    vin: i32,
    tuning: Tuning,
)
    requires
        trace::honest(io),
        io.pending is None,
        drive_by_steps_run(io, bus, state, vbat_uv, vin, tuning).0.pending is None,
    ensures
        ({
            let (after, left) = drive_by_steps_run(io, bus, state, vbat_uv, vin, tuning);
            let written = trace::written(io, after);
            &&& trace::follows(io, after)
            &&& !left.force9v_latched
            &&& written.len() > 0 && written[0] == (0x1343u16, 0x08u8)
            &&& trace::smooth(io, after) ==> trace::known(after, 0x1370) is Some && trace::known(
                after,
                0x1370,
            )->0 >= 30
            &&& exists|start: Io<Op>|
                #![trigger trace::follows(io, start)]
                {
                    let (stepped, moved, end, sent) = dcp_steps_run(
                        start,
                        bus,
                        HvdcpState { pulse_cnt: 0, force9v_latched: false, ..state },
                        vbat_uv,
                        vin,
                        0,
                    );
                    let rest = trace::written(stepped, after);
                    &&& trace::follows(io, start) && trace::follows(stepped, after)
                    &&& trace::written(io, start) == seq![(0x1343u16, 0x08u8)]
                    &&& left.pulse_cnt == moved.pulse_cnt
                    &&& end < tuning.force9v_rise_uv ==> rest.len() > 0 && rest[0] == (
                        0x1343u16,
                        0x08u8,
                    ) && (trace::smooth(io, after) ==> trace::known(after, 0x1370)->0 >= 40)
                    &&& end >= tuning.force9v_rise_uv && rest.len() > 0 ==> rest[0].0 != 0x1343
                }
        }),
{
    broadcast use {trace::group_trace, trace::group_publish};

    reveal(drive_by_steps_run);
    trace::lemma_written_nothing(io);
    trace::lemma_follows_at_first(io);
    let (after, left) = drive_by_steps_run(io, bus, state, vbat_uv, vin, tuning);
    let (low, down) = usbin::safe_force_5v_run(io.mark("SuDcpNoElevate", 1), bus, state);
    let fresh = HvdcpState { pulse_cnt: 0, ..down };
    assert(trace::follows(io, low));
    trace::lemma_honest_after(io, low);
    law_fallback_steps_reach_for_the_target(low, bus, fresh, vbat_uv, vin, 0);
    let (stepped, state1, vin1, inc) = dcp_steps_run(low, bus, fresh, vbat_uv, vin, 0);
    lemma_dcp_steps_keep_adapter(low, bus, fresh, vbat_uv, vin, 0);
    trace::lemma_follows_in_turn(io, low, stepped);
    trace::lemma_honest_after(io, stepped);
    lemma_fallback_ends(stepped, bus, state1, vin1, inc, tuning.force9v_rise_uv);
    trace::lemma_finished_before(stepped, after);
    trace::lemma_finished_before(low, stepped);
    trace::lemma_follows_in_turn(io, stepped, after);
    trace::lemma_follows_in_turn(low, stepped, after);
    assert(trace::written(io, low) =~= seq![(0x1343u16, 0x08u8)]);
    trace::lemma_written_grows(io, low, after);
    trace::lemma_honest_after(io, after);
    if trace::smooth(io, after) {
        trace::lemma_smooth_parts(io, stepped, after);
    }
}

/// How the fallback ends, for the input that its steps led to.
proof fn lemma_fallback_ends(
    io: Io<Op>,
    bus: Bus,
    state: HvdcpState,
    vin: i32,
    inc: u32,
    rise_uv: i32,
)
    requires
        trace::honest(io),
    ensures
        ({
            let told = io.mark("SuDcpPulseRaise", inc).mark("SuDcpPulseVin", nonneg(vin));
            let (back, low) = usbin::safe_force_5v_run(told, bus, state);
            let (first, icl) = usbin::ensure_icl_at_least_run(back, bus, low, ICL_RAW_DCP_2A);
            let (second, more) = usbin::ensure_icl_at_least_run(
                told,
                bus,
                state,
                ICL_RAW_HVDCP2_1P5A,
            );
            let after = if vin < rise_uv {
                first.mark("SuDcpIcl", result_word(icl))
            } else {
                second.mark("SuDcpIcl", result_word(more))
            };
            let rest = trace::written(io, after);
            &&& trace::follows(io, after)
            &&& after.pending is None && vin < rise_uv ==> rest.len() > 0 && rest[0] == (
                0x1343u16,
                0x08u8,
            ) && (trace::smooth(io, after) ==> trace::known(after, 0x1370) is Some
                && trace::known(after, 0x1370)->0 >= 40)
            &&& after.pending is None && vin >= rise_uv ==> (rest.len() > 0 ==> rest[0].0
                != 0x1343) && (trace::smooth(io, after) ==> trace::known(after, 0x1370) is Some
                && trace::known(after, 0x1370)->0 >= 30)
        }),
{
    broadcast use trace::group_trace;

    trace::lemma_written_nothing(io);
    trace::lemma_follows_at_first(io);
    let told = io.mark("SuDcpPulseRaise", inc).mark("SuDcpPulseVin", nonneg(vin));
    assert(trace::follows(io, told));
    trace::lemma_honest_after(io, told);
    assert(trace::written(io, told).len() == 0);
    if vin < rise_uv {
        let (back, low) = usbin::safe_force_5v_run(told, bus, state);
        assert(trace::follows(io, back));
        trace::lemma_honest_after(io, back);
        lemma_vote_then_mark(io, back, bus, low, ICL_RAW_DCP_2A);
    } else {
        lemma_vote_then_mark(io, told, bus, state, ICL_RAW_HVDCP2_1P5A);
    }
}

proof fn lemma_vote_then_mark(io: Io<Op>, at: Io<Op>, bus: Bus, state: HvdcpState, target: u8)
    requires
        trace::honest(io),
        trace::follows(io, at),
    ensures
        ({
            let (voted, icl) = usbin::ensure_icl_at_least_run(at, bus, state, target);
            let after = voted.mark("SuDcpIcl", result_word(icl));
            &&& trace::follows(io, after)
            &&& after.pending is None ==> {
                &&& at.pending is None
                &&& trace::written(io, at).len() <= trace::written(io, after).len()
                &&& forall|i: int|
                    0 <= i < trace::written(io, at).len() ==> #[trigger] trace::written(io, after)[i]
                        == trace::written(io, at)[i]
                &&& trace::written(io, at).len() == 0 && trace::written(io, after).len() > 0
                    ==> trace::written(io, after)[0].0 != 0x1343
                &&& trace::smooth(io, after) ==> trace::known(after, 0x1370) is Some
                    && trace::known(after, 0x1370)->0 >= target
            }
        }),
{
    broadcast use trace::group_trace;

    let (voted, icl) = usbin::ensure_icl_at_least_run(at, bus, state, target);
    let after = voted.mark("SuDcpIcl", result_word(icl));
    trace::lemma_honest_after(io, at);
    trace::lemma_follows_at_first(at);
    assert(trace::follows(at, voted));
    trace::lemma_follows_in_turn(io, at, voted);
    trace::lemma_honest_after(io, voted);
    trace::lemma_follows_at_first(voted);
    assert(trace::follows(at, after));
    if after.pending is None {
        trace::lemma_finished_before(at, after);
        trace::lemma_written_grows(io, at, after);
        usbin::law_vote_reaches_the_register(at, bus, state, target);
        if trace::smooth(io, after) {
            trace::lemma_smooth_parts(io, at, voted);
        }
    }
}

/// The way of a plain DCP ends with a bus that 9 V hold and are counted for, or with no
/// request on it.
pub proof fn law_dcp_holds_9v_or_nothing(
    io: Io<Op>,
    bus: Bus,
    state: HvdcpState,
    vbat_uv: u32,
    tuning: Tuning,
)
    requires
        trace::honest(io),
        io.pending is None,
        raise_dcp_run(io, bus, state, vbat_uv, tuning).0.pending is None,
    ensures
        ({
            let (after, left, r) = raise_dcp_run(io, bus, state, vbat_uv, tuning);
            let n = trace::asked(io, after).len();
            &&& r is Ok && left.force9v_latched ==> left.pulse_cnt == 20 && trace::asked(
                io,
                after,
            ).last() == Op::SampleVin && landing::reading_of(io.replies[after.next - 1]) is Some
                && landing::reading_of(io.replies[after.next - 1])->0 >= 8_000_000
                && landing::reading_of(io.replies[after.next - 3]) is Some && landing::reading_of(
                io.replies[after.next - 3],
            )->0 >= 8_000_000
            &&& r is Ok && !left.force9v_latched ==> trace::written(io, after).contains(
                (0x1343u16, 0x08u8),
            )
            &&& r is Err ==> !left.force9v_latched
        }),
{
    broadcast use {trace::group_trace, trace::group_publish};

    reveal(raise_dcp_run);
    trace::lemma_asked_nothing(io);
    trace::lemma_written_nothing(io);
    trace::lemma_follows_at_first(io);
    let (after, left, r) = raise_dcp_run(io, bus, state, vbat_uv, tuning);
    let noted = io.mark("SuDcpNoElevate", 0);
    let (requested, state1, ok) = request_9v_run(noted, bus, state, "SuDcpIcl");
    lemma_dcp_follows(io, bus, state, vbat_uv, tuning);
    trace::lemma_finished_before(requested, after);
    lemma_request_9v(noted, bus, state, "SuDcpIcl");
    trace::lemma_follows_in_turn(io, noted, requested);
    trace::lemma_honest_after(io, requested);
    if ok is Ok {
        let (risen, end, peak) = wait_force9v_rise_run(requested, tuning);
        let told = risen.mark("SuDcp9vVin", nonneg(end)).mark("SuDcpPeakVin", nonneg(peak));
        let (settled, vin, hold) = settled_level_run(told);
        let noted = settled.mark("SuDcpHoldN", hold);
        trace::lemma_finished_before(settled, after);
        trace::lemma_finished_before(told, settled);
        law_level_is_held_twice(told);
        trace::lemma_follows_in_turn(io, requested, told);
        trace::lemma_follows_in_turn(io, told, settled);
        trace::lemma_honest_after(io, told);
        trace::lemma_honest_after(io, settled);
        trace::lemma_asked_in_turn(io, told, settled);
        if hold < 2 {
            assert(trace::follows(io, noted));
            trace::lemma_honest_after(io, noted);
            law_request_is_taken_back(noted, bus, state1, vbat_uv, vin, tuning);
            trace::lemma_written_in_turn(io, noted, after);
            let k = trace::written(io, noted).len();
            assert(trace::written(io, after)[k as int] == (0x1343u16, 0x08u8));
        } else {
            lemma_settled_ends_with_a_sample(told);
        }
    }
}

proof fn lemma_settled_ends_with_a_sample(io: Io<Op>)
    requires
        io.pending is None,
        settled_level_run(io).0.pending is None,
    ensures
        trace::asked(io, settled_level_run(io).0).len() > 0,
        trace::asked(io, settled_level_run(io).0).last() == Op::SampleVin,
{
    broadcast use trace::group_trace;

    reveal(settled_level_run);
    reveal_with_fuel(hold_run, 6);
    trace::lemma_asked_nothing(io);
}

proof fn lemma_dcp_follows(
    io: Io<Op>,
    bus: Bus,
    state: HvdcpState,
    vbat_uv: u32,
    tuning: Tuning,
)
    ensures
        ({
            let after = raise_dcp_run(io, bus, state, vbat_uv, tuning).0;
            let (requested, state1, ok) = request_9v_run(
                io.mark("SuDcpNoElevate", 0),
                bus,
                state,
                "SuDcpIcl",
            );
            let (risen, end, peak) = wait_force9v_rise_run(requested, tuning);
            let told = risen.mark("SuDcp9vVin", nonneg(end)).mark("SuDcpPeakVin", nonneg(peak));
            let settled = settled_level_run(told).0;
            &&& trace::follows(requested, after)
            &&& ok is Ok ==> trace::follows(requested, told) && trace::follows(told, settled)
                && trace::follows(settled, after)
        }),
{
    broadcast use {
        writes::group_obeys,
        writes::lemma_wait_force9v_rise_obeys,
        writes::lemma_settled_level_obeys,
        writes::lemma_drive_by_steps_obeys,
    };

    reveal(raise_dcp_run);
    let after = raise_dcp_run(io, bus, state, vbat_uv, tuning).0;
    let (requested, state1, ok) = request_9v_run(
        io.mark("SuDcpNoElevate", 0),
        bus,
        state,
        "SuDcpIcl",
    );
    let (risen, end, peak) = wait_force9v_rise_run(requested, tuning);
    let told = risen.mark("SuDcp9vVin", nonneg(end)).mark("SuDcpPeakVin", nonneg(peak));
    let settled = settled_level_run(told).0;
    writes::lemma_obeys_at_first(requested, Rule::Free);
    assert(writes::obeys(requested, after, Rule::Free));
    writes::lemma_obeys_follows(requested, after, Rule::Free);
    if ok is Ok {
        writes::lemma_obeys_at_first(told, Rule::Free);
        writes::lemma_obeys_at_first(settled, Rule::Free);
        assert(writes::obeys(requested, told, Rule::Free));
        assert(writes::obeys(told, settled, Rule::Free));
        assert(writes::obeys(settled, after, Rule::Free));
        writes::lemma_obeys_follows(requested, told, Rule::Free);
        writes::lemma_obeys_follows(told, settled, Rule::Free);
        writes::lemma_obeys_follows(settled, after, Rule::Free);
    }
}

/// A report is the code of the failure, or zero, and the target for the cell.
pub proof fn law_report_is_the_outcome(
    io: Io<Op>,
    usbin_id: Option<u64>,
    state: HvdcpState,
    vbat_uv: u32,
    tuning: Tuning,
)
    ensures
        ({
            let (after, left, code, target) = run_negotiate_report_run(
                io,
                usbin_id,
                state,
                vbat_uv,
                tuning,
            );
            let (ran, there, r) = run_negotiate_run(io, usbin_id, state, vbat_uv, tuning);
            &&& after == ran && left == there
            &&& code == 0 <==> r is Ok
            &&& r is Err ==> code == r->Err_0.code()
            &&& target == target_vbus_uv(vbat_uv)
        }),
{
}

/// A negotiation that succeeded ends as done, publishes what the charger block counted and
/// estimates the input from the steps it sent.
pub proof fn law_success_is_published(io: Io<Op>, bus: Bus, state: HvdcpState)
    requires
        io.pending is None,
        finish_run(io, bus, state).0.pending is None,
    ensures
        ({
            let (after, left) = finish_run(io, bus, state);
            let (looked, status) = usbin::sample_qc_status_run(io, bus, state);
            let published = trace::published(looked, after);
            let estimate = estimated_vbus_uv(state.pulse_cnt);
            &&& left == (HvdcpState { phase: HvdcpPhase::Done, ..state })
            &&& published.len() >= 5
            &&& published[3] == ("HvdcpEstVbus", estimate)
            &&& published[4] == ("SuVbusEst", estimate)
            &&& status matches Ok((change, pulses)) ==> published.take(3) == seq![
                ("SuQcChgSt", change as u32),
                ("SuQcPulseHw", pulses as u32),
                (
                    "SuQc9vHint",
                    if qc_status_indicates_9v(change) {
                        1u32
                    } else {
                        0
                    },
                ),
            ]
            &&& status matches Err(err) ==> published.take(3) == seq![
                ("SuQcChgSt", error_word(err)),
                ("SuQcPulseHw", error_word(err)),
                ("SuQc9vHint", 0u32),
            ]
        }),
{
    reveal(finish_run);
    let (after, left) = finish_run(io, bus, state);
    let (looked, status) = usbin::sample_qc_status_run(io, bus, state);
    let told = match status {
        Ok((change, pulses)) => looked.mark("SuQcChgSt", change as u32).mark(
            "SuQcPulseHw",
            pulses as u32,
        ).mark("SuQc9vHint", flag_word(qc_status_indicates_9v(change))),
        Err(err) => looked.mark("SuQcChgSt", error_word(err)).mark(
            "SuQcPulseHw",
            error_word(err),
        ).mark("SuQc9vHint", 0),
    };
    let estimated = told.mark("HvdcpEstVbus", estimated_vbus_uv(state.pulse_cnt)).mark(
        "SuVbusEst",
        estimated_vbus_uv(state.pulse_cnt),
    );
    trace::lemma_published_nothing(looked);
    writes::lemma_obeys_at_first(estimated, Rule::Free);
    assert(writes::obeys(estimated, after, Rule::Free)) by {
        broadcast use writes::lemma_publish_marks_obeys;

    }
    writes::lemma_obeys_follows(estimated, after, Rule::Free);
    trace::lemma_finished_before(estimated, after);
    assert(looked.log.len() <= estimated.log.len() && trace::published(looked, estimated).len()
        == 5 && trace::published(looked, estimated)[3] == (
        "HvdcpEstVbus",
        estimated_vbus_uv(state.pulse_cnt),
    ) && trace::published(looked, estimated)[4] == (
        "SuVbusEst",
        estimated_vbus_uv(state.pulse_cnt),
    ) && trace::published(looked, estimated).take(3) == trace::published(looked, told)) by {
        broadcast use trace::group_marks;

        assert(trace::published(looked, estimated).take(3) =~= trace::published(looked, told));
    }
    assert(status matches Ok((change, pulses)) ==> trace::published(looked, told) == seq![
        ("SuQcChgSt", change as u32),
        ("SuQcPulseHw", pulses as u32),
        ("SuQc9vHint", flag_word(qc_status_indicates_9v(change))),
    ]) by {
        broadcast use trace::group_marks;

    }
    assert(status matches Err(err) ==> trace::published(looked, told) == seq![
        ("SuQcChgSt", error_word(err)),
        ("SuQcPulseHw", error_word(err)),
        ("SuQc9vHint", 0u32),
    ]) by {
        broadcast use trace::group_marks;

    }
    trace::lemma_published_in_turn(looked, estimated, after);
    assert(trace::published(looked, after).take(3) =~= trace::published(looked, estimated).take(
        3,
    ));
}

} // verus!
