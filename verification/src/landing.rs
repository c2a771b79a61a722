//! From a negotiated input to a running charge.
use crate::arith::{fit_u32, nonneg, saturating_product};
use crate::correction::{
    self, nudge_vin_into_window, raise_icl_for_5v_bypass, raise_icl_for_pump,
};
use crate::exchange::{Op, Reply};
use crate::hvdcp::{vin_stayed_near_5v, HvdcpState, FIVE_V_STAY_MAX_UV};
use crate::negotiate::{self, run_negotiate_report, status_word};
use crate::pump::{self, pump_error_code, AdcChannel, OpMode, PumpError, Tuning};
use crate::session::{Io, Session};
use crate::state::{ChargeLoop, DriverState, InputEdge, RetrySlot, TELEMETRY_MS_MIN};
use crate::usbin::flag_word;
use crate::trace;
use crate::writes::{self, Rule};
use crate::steer;
use vstd::prelude::*;

verus! {

/// The cell that is assumed where it cannot be measured (µV).
pub const VBAT_ASSUMED_UV: u32 = 4_000_000;

/// Input current limit of the 5 V path (µA).
pub const FIVE_V_IIN_UA: u32 = 2_700_000;

/// Two power-on-reset times of the chip (ms).
#[verifier::allow_in_spec]
pub fn por_delay_ms(soft_reset_delay_ms: u64) -> (ms: u32)
    returns
        saturating_product(
            if soft_reset_delay_ms <= u32::MAX {
                soft_reset_delay_ms as u32
            } else {
                10u32
            },
            2,
        ),
{
    let once: u32 = if soft_reset_delay_ms <= u32::MAX as u64 {
        soft_reset_delay_ms as u32
    } else {
        10
    };
    saturating_product(once, 2)
}

pub open spec fn adc_run(io: Io<Op>, pump_open: bool, channel: AdcChannel) -> (
    Io<Op>,
    Option<i32>,
) {
    if pump_open {
        io.reading(Op::PumpAdc(channel))
    } else {
        (io, None)
    }
}

/// One ADC channel, where there is a pump and it answers.
pub fn adc(io: &mut Session<Op>, pump_open: bool, channel: AdcChannel) -> (value: Option<i32>)
    ensures
        (final(io)@, value) == adc_run(old(io)@, pump_open, channel),
{
    if pump_open {
        io.reading(Op::PumpAdc(channel))
    } else {
        None
    }
}

/// A reading, or what stands for a missing one.
#[verifier::allow_in_spec]
pub fn reading_or(value: Option<i32>, fallback: i32) -> (r: i32)
    returns
        (match value {
            Some(v) => v,
            None => fallback,
        }),
{
    match value {
        Some(v) => v,
        None => fallback,
    }
}

/// A cell reading (µV), or what stands for a missing one.
#[verifier::allow_in_spec]
pub fn cell_or(value: Option<i32>, fallback: u32) -> (r: u32)
    returns
        (match value {
            Some(v) => nonneg(v),
            None => fallback,
        }),
{
    match value {
        Some(v) => nonneg(v),
        None => fallback,
    }
}

/// The number under which the outcome of an attempt is published.
pub open spec fn attempt_word(result: Result<OpMode, PumpError>) -> u32 {
    match result {
        Ok(_) => 0,
        Err(err) => status_word(pump::spec_pump_error_code(err)),
    }
}

pub open spec fn mark_charge_attempt_run(
    io: Io<Op>,
    attempts: u32,
    now_ms: u64,
    result: Result<OpMode, PumpError>,
) -> Io<Op> {
    io.mark("ChargeAttemptN", attempts)
        .mark("LastEnableErr", attempt_word(result))
        .mark("LastEnableMs", fit_u32(now_ms))
}

/// Publishes an attempt to charge.
fn mark_charge_attempt(
    io: &mut Session<Op>,
    attempts: u32,
    now_ms: u64,
    result: Result<OpMode, PumpError>,
)
    ensures
        final(io)@ == mark_charge_attempt_run(old(io)@, attempts, now_ms, result),
{
    let word: u32 = match result {
        Ok(_) => 0,
        Err(err) => status_word(pump_error_code(err)),
    };
    io.mark("ChargeAttemptN", attempts);
    io.mark("LastEnableErr", word);
    io.mark("LastEnableMs", fit_u32(now_ms));
}

#[verifier::opaque]
pub open spec fn reset_and_charge_run(io: Io<Op>, tuning: Tuning) -> (
    Io<Op>,
    Result<OpMode, PumpError>,
) {
    io.tell(Op::PumpSoftReset)
        .tell(Op::Sleep(por_delay_ms(tuning.soft_reset_delay_ms)))
        .tell(Op::PumpConfigure)
        .engaged(Op::PumpCharge(true))
}

/// Resets and configures the chip and starts the charge again.
pub fn reset_and_charge(io: &mut Session<Op>, tuning: &Tuning) -> (r: Result<OpMode, PumpError>)
    ensures
        (final(io)@, r) == reset_and_charge_run(old(io)@, *tuning),
{
    proof {
        reveal(reset_and_charge_run);
    }
    io.tell(Op::PumpSoftReset);
    io.tell(Op::Sleep(por_delay_ms(tuning.soft_reset_delay_ms)));
    io.tell(Op::PumpConfigure);
    io.engaged(Op::PumpCharge(true))
}

#[verifier::opaque]
pub open spec fn recover_ln_shutdown_run(io: Io<Op>, tuning: Tuning) -> (
    Io<Op>,
    Option<Result<OpMode, PumpError>>,
) {
    let (io, sys) = io.register(Op::PumpSysSts);
    match sys {
        Ok(sys) if sys & pump::SYS_STS_SHUTDOWN != 0 => {
            let (io, outcome) = reset_and_charge_run(io, tuning);
            (io, Some(outcome))
        },
        _ => (io, None),
    }
}

/// Brings a chip back that shut itself down. The result is the outcome of the
/// charge that was started, or nothing where there was no shutdown.
pub fn recover_ln_shutdown(io: &mut Session<Op>, tuning: &Tuning) -> (r: Option<
    Result<OpMode, PumpError>,
>)
    ensures
        (final(io)@, r) == recover_ln_shutdown_run(old(io)@, *tuning),
{
    proof {
        reveal(recover_ln_shutdown_run);
    }
    match io.register(Op::PumpSysSts) {
        Ok(sys) => {
            if sys & pump::SYS_STS_SHUTDOWN != 0 {
                Some(reset_and_charge(io, tuning))
            } else {
                None
            }
        },
        Err(_) => None,
    }
}

/// What came of a request to charge.
#[derive(Debug, Clone, Copy)]
pub struct Started {
    /// Whether the chip had to be brought back first.
    pub recovered: bool,
    /// The mode, or why there is none.
    pub result: Result<OpMode, PumpError>,
}

#[verifier::opaque]
pub open spec fn start_charge_run(io: Io<Op>, tuning: Tuning) -> (Io<Op>, Started) {
    let (io, recovery) = recover_ln_shutdown_run(io, tuning);
    match recovery {
        Some(result) => (io, Started { recovered: true, result }),
        None => {
            let (io, result) = io.engaged(Op::PumpCharge(true));
            (io, Started { recovered: false, result })
        },
    }
}

/// Starts the charge, through a recovery where the chip shut itself down.
pub fn start_charge(io: &mut Session<Op>, tuning: &Tuning) -> (started: Started)
    ensures
        (final(io)@, started) == start_charge_run(old(io)@, *tuning),
{
    proof {
        reveal(start_charge_run);
    }
    match recover_ln_shutdown(io, tuning) {
        Some(result) => Started { recovered: true, result },
        None => {
            let result = io.engaged(Op::PumpCharge(true));
            Started { recovered: false, result }
        },
    }
}

#[verifier::opaque]
pub open spec fn note_attempt_run(
    io: Io<Op>,
    charge: ChargeLoop,
    result: Result<OpMode, PumpError>,
    device_ready: bool,
) -> (Io<Op>, ChargeLoop) {
    let (io, now) = io.millis(Op::Now);
    let charge = ChargeLoop {
        charge_attempts: charge.charge_attempts.saturating_add(1),
        last_enable_ms: now,
        ..charge
    };
    (
        if device_ready {
            mark_charge_attempt_run(io, charge.charge_attempts, now, result)
        } else {
            io
        },
        charge,
    )
}

/// Counts an attempt and publishes it.
pub fn note_attempt(
    io: &mut Session<Op>,
    charge: &mut ChargeLoop,
    result: Result<OpMode, PumpError>,
    device_ready: bool,
)
    ensures
        (final(io)@, *final(charge)) == note_attempt_run(
            old(io)@,
            *old(charge),
            result,
            device_ready,
        ),
{
    proof {
        reveal(note_attempt_run);
    }
    charge.charge_attempts = charge.charge_attempts.saturating_add(1);
    charge.last_enable_ms = io.millis(Op::Now);
    if device_ready {
        mark_charge_attempt(io, charge.charge_attempts, charge.last_enable_ms, result);
    }
}

#[verifier::opaque]
pub open spec fn attempt_run(
    io: Io<Op>,
    charge: ChargeLoop,
    device_ready: bool,
    tuning: Tuning,
) -> (Io<Op>, ChargeLoop, Started) {
    let (io, started) = start_charge_run(io, tuning);
    let (io, charge) = if started.recovered {
        let (io, now) = io.millis(Op::Now);
        (io, ChargeLoop { last_attempt_ms: now, ..charge })
    } else {
        (io, charge)
    };
    let (io, charge) = note_attempt_run(io, charge, started.result, device_ready);
    (io, charge, started)
}

/// One attempt to charge. A recovery restarts the retry clock.
pub fn attempt(
    io: &mut Session<Op>,
    charge: &mut ChargeLoop,
    device_ready: bool,
    tuning: &Tuning,
) -> (started: Started)
    ensures
        (final(io)@, *final(charge), started) == attempt_run(
            old(io)@,
            *old(charge),
            device_ready,
            *tuning,
        ),
{
    proof {
        reveal(attempt_run);
    }
    let started = start_charge(io, tuning);
    if started.recovered {
        charge.last_attempt_ms = io.millis(Op::Now);
    }
    note_attempt(io, charge, started.result, device_ready);
    started
}

/// Where the input stands after a negotiation, and what it allows.
#[derive(Debug, Clone, Copy)]
pub struct Approach {
    /// Input (µV).
    pub vin_uv: i32,
    /// Cell (µV).
    pub vbat_uv: u32,
    /// The mode that they allow.
    pub engage: Option<OpMode>,
}

#[verifier::opaque]
pub open spec fn approach_run(
    io: Io<Op>,
    usbin_id: Option<u64>,
    hvdcp: HvdcpState,
    vbat_uv: u32,
) -> (Io<Op>, HvdcpState, Approach) {
    let (io, vin) = io.reading(Op::PumpAdc(AdcChannel::Vin));
    let vin_uv = reading_or(vin, 0);
    let (io, cell) = io.reading(Op::PumpAdc(AdcChannel::Vbat));
    let vbat_uv = cell_or(cell, vbat_uv);
    let (io, engage) = io.mode(Op::ChargeMode { vin_uv, vbat_uv });
    if engage != Some(OpMode::Switching) && vin_uv >= FIVE_V_STAY_MAX_UV {
        let (io, hvdcp, _) = correction::nudge_vin_into_window_run(
            io,
            usbin_id,
            hvdcp,
            vin_uv,
            vbat_uv,
            false,
        );
        let (io, again) = io.reading(Op::PumpAdc(AdcChannel::Vin));
        let vin_uv = reading_or(again, vin_uv);
        let (io, engage) = io.mode(Op::ChargeMode { vin_uv, vbat_uv });
        (io, hvdcp, Approach { vin_uv, vbat_uv, engage })
    } else {
        (io, hvdcp, Approach { vin_uv, vbat_uv, engage })
    }
}

/// Whether a verdict is the 2:1 mode.
#[verifier::allow_in_spec]
pub fn is_mode(engage: Option<OpMode>, mode: OpMode) -> (r: bool)
    returns
        engage == Some(mode),
{
    match engage {
        Some(m) => m == mode,
        None => false,
    }
}

/// Measures where a negotiation ended. An input above 5 V that does not allow
/// 2:1 is corrected once and measured again.
fn approach(
    io: &mut Session<Op>,
    usbin_id: Option<u64>,
    hvdcp: &mut HvdcpState,
    vbat_uv: u32,
) -> (r: Approach)
    ensures
        (final(io)@, *final(hvdcp), r) == approach_run(old(io)@, usbin_id, *old(hvdcp), vbat_uv),
        old(hvdcp).valid() ==> final(hvdcp).valid(),
{
    proof {
        reveal(approach_run);
    }
    let vin_uv: i32 = reading_or(io.reading(Op::PumpAdc(AdcChannel::Vin)), 0);
    let vbat_uv: u32 = cell_or(io.reading(Op::PumpAdc(AdcChannel::Vbat)), vbat_uv);
    let engage = io.mode(Op::ChargeMode { vin_uv, vbat_uv });
    if !is_mode(engage, OpMode::Switching) && vin_uv >= FIVE_V_STAY_MAX_UV {
        let _ = nudge_vin_into_window(io, usbin_id, hvdcp, vin_uv, vbat_uv, false);
        let vin_uv: i32 = reading_or(io.reading(Op::PumpAdc(AdcChannel::Vin)), vin_uv);
        let engage = io.mode(Op::ChargeMode { vin_uv, vbat_uv });
        return Approach { vin_uv, vbat_uv, engage };
    }
    Approach { vin_uv, vbat_uv, engage }
}

#[verifier::opaque]
pub open spec fn open_current_run(
    io: Io<Op>,
    usbin_id: Option<u64>,
    hvdcp: HvdcpState,
    at: Approach,
) -> (Io<Op>, HvdcpState) {
    if at.engage == Some(OpMode::Switching) {
        let (io, hvdcp, _) = correction::nudge_vin_into_window_run(
            io.mark("SuAfc5vPath", 0),
            usbin_id,
            hvdcp,
            at.vin_uv,
            at.vbat_uv,
            false,
        );
        let (io, hvdcp, _) = correction::raise_icl_for_pump_run(io, usbin_id, hvdcp);
        (io, hvdcp)
    } else if at.engage == Some(OpMode::Bypass) && vin_stayed_near_5v(at.vin_uv) {
        let (io, hvdcp, _) = correction::raise_icl_for_5v_bypass_run(io, usbin_id, hvdcp);
        (io.tell(Op::PumpIinLimit(FIVE_V_IIN_UA)), hvdcp)
    } else {
        (io, hvdcp)
    }
}

/// Centres the input and opens the current limits for the mode that is allowed.
fn open_current(
    io: &mut Session<Op>,
    usbin_id: Option<u64>,
    hvdcp: &mut HvdcpState,
    at: &Approach,
)
    ensures
        (final(io)@, *final(hvdcp)) == open_current_run(old(io)@, usbin_id, *old(hvdcp), *at),
        old(hvdcp).valid() ==> final(hvdcp).valid(),
{
    proof {
        reveal(open_current_run);
    }
    if is_mode(at.engage, OpMode::Switching) {
        io.mark("SuAfc5vPath", 0);
        let _ = nudge_vin_into_window(io, usbin_id, hvdcp, at.vin_uv, at.vbat_uv, false);
        let _ = raise_icl_for_pump(io, usbin_id, hvdcp);
    } else if is_mode(at.engage, OpMode::Bypass) && vin_stayed_near_5v(at.vin_uv) {
        let _ = raise_icl_for_5v_bypass(io, usbin_id, hvdcp);
        io.tell(Op::PumpIinLimit(FIVE_V_IIN_UA));
    }
}

#[verifier::opaque]
pub open spec fn settle_run(io: Io<Op>, charge: ChargeLoop, result: Result<OpMode, PumpError>) -> (
    Io<Op>,
    ChargeLoop,
) {
    match result {
        Ok(mode) => (
            io.mark("PostHvdcpMode", mode.spec_code() as u32).mark("PostHvdcpErr", 0),
            ChargeLoop {
                auto_starts: charge.auto_starts.saturating_add(1),
                failed_attempts: 0,
                last_error: 0,
                ..charge
            },
        ),
        Err(err) => {
            let code = pump::spec_pump_error_code(err);
            (
                io.mark("PostHvdcpMode", 0).mark("PostHvdcpErr", status_word(code)),
                ChargeLoop { last_error: code, ..charge },
            )
        },
    }
}

/// Keeps and publishes the outcome of the attempt after a negotiation.
fn settle(io: &mut Session<Op>, charge: &mut ChargeLoop, result: Result<OpMode, PumpError>)
    ensures
        (final(io)@, *final(charge)) == settle_run(old(io)@, *old(charge), result),
{
    proof {
        reveal(settle_run);
    }
    match result {
        Ok(mode) => {
            charge.auto_starts = charge.auto_starts.saturating_add(1);
            charge.failed_attempts = 0;
            charge.last_error = 0;
            io.mark("PostHvdcpMode", mode.code() as u32);
            io.mark("PostHvdcpErr", 0);
        },
        Err(err) => {
            let code: i32 = pump_error_code(err);
            charge.last_error = code;
            io.mark("PostHvdcpMode", 0);
            io.mark("PostHvdcpErr", status_word(code));
        },
    }
}

#[verifier::opaque]
pub open spec fn land_run(
    io: Io<Op>,
    usbin_id: Option<u64>,
    hvdcp: HvdcpState,
    charge: ChargeLoop,
    vbat_uv: u32,
    tuning: Tuning,
) -> (Io<Op>, HvdcpState, ChargeLoop) {
    let (io, hvdcp, at) = approach_run(io, usbin_id, hvdcp, vbat_uv);
    let (io, hvdcp) = open_current_run(io, usbin_id, hvdcp, at);
    let (io, charge, started) = attempt_run(io, charge, true, tuning);
    let (io, charge) = settle_run(io, charge, started.result);
    (io, hvdcp, charge)
}

/// Starts the charge at the input that a negotiation left.
fn land(
    io: &mut Session<Op>,
    usbin_id: Option<u64>,
    hvdcp: &mut HvdcpState,
    charge: &mut ChargeLoop,
    vbat_uv: u32,
    tuning: &Tuning,
)
    ensures
        (final(io)@, *final(hvdcp), *final(charge)) == land_run(
            old(io)@,
            usbin_id,
            *old(hvdcp),
            *old(charge),
            vbat_uv,
            *tuning,
        ),
        old(hvdcp).valid() ==> final(hvdcp).valid(),
{
    proof {
        reveal(land_run);
    }
    let at = approach(io, usbin_id, hvdcp, vbat_uv);
    open_current(io, usbin_id, hvdcp, &at);
    let started = attempt(io, charge, true, tuning);
    settle(io, charge, started.result);
}

#[verifier::opaque]
pub open spec fn run_hvdcp_and_land_run(io: Io<Op>, state: DriverState, tuning: Tuning) -> (
    Io<Op>,
    DriverState,
    i32,
) {
    let (io, cell) = adc_run(io, state.pump_open, AdcChannel::Vbat);
    let vbat_uv = cell_or(cell, VBAT_ASSUMED_UV);
    let (io, hvdcp, code, _) = negotiate::run_negotiate_report_run(
        io,
        state.usbin_id,
        state.hvdcp,
        vbat_uv,
        tuning,
    );
    if state.pump_open {
        let (io, hvdcp, charge) = land_run(
            io,
            state.usbin_id,
            hvdcp,
            state.charge,
            vbat_uv,
            tuning,
        );
        (io, DriverState { hvdcp, charge, ..state }, code)
    } else {
        (io, DriverState { hvdcp, ..state }, code)
    }
}

/// Negotiates the input and starts the charge on what came of it. The result is
/// the negotiation's code, 0 for success.
pub fn run_hvdcp_and_land(io: &mut Session<Op>, state: &mut DriverState, tuning: &Tuning) -> (code: i32)
    requires
        tuning.valid(),
    ensures
        (final(io)@, *final(state), code) == run_hvdcp_and_land_run(old(io)@, *old(state), *tuning),
        old(state).valid() ==> final(state).valid(),
{
    proof {
        reveal(run_hvdcp_and_land_run);
    }
    let vbat_uv: u32 = cell_or(adc(io, state.pump_open, AdcChannel::Vbat), VBAT_ASSUMED_UV);
    let (code, _phase): (i32, u32) = run_negotiate_report(
        io,
        state.usbin_id,
        vbat_uv,
        &mut state.hvdcp,
        tuning,
    );
    if state.pump_open {
        land(io, state.usbin_id, &mut state.hvdcp, &mut state.charge, vbat_uv, tuning);
    }
    code
}

#[verifier::opaque]
pub open spec fn schedule_or_clear_superuser_retry_run(
    io: Io<Op>,
    retry: RetrySlot,
    code: i32,
    tuning: Tuning,
) -> (Io<Op>, RetrySlot) {
    let (io, wanted) = io.flag(Op::RetryWanted(code));
    if !wanted {
        (
            io.mark("HvdcpRetryPend", 0),
            RetrySlot { pending: false, attempts: 0, next_ms: 0 },
        )
    } else if retry.attempts >= tuning.superuser_retry_max {
        (io.mark("HvdcpRetryPend", 2), RetrySlot { pending: false, ..retry })
    } else {
        let (io, next_ms) = if retry.next_ms == 0 {
            let (io, now) = io.millis(Op::Now);
            (io, now.saturating_add(tuning.superuser_retry_ms))
        } else {
            (io, retry.next_ms)
        };
        (
            io.mark("HvdcpRetryPend", 1).mark("HvdcpRetryN", retry.attempts),
            RetrySlot { pending: true, next_ms, ..retry },
        )
    }
}

/// Schedules a retry of a negotiation that found its slot busy, up to the most
/// retries; any other outcome clears the schedule.
pub fn schedule_or_clear_superuser_retry(
    io: &mut Session<Op>,
    retry: &mut RetrySlot,
    code: i32,
    tuning: &Tuning,
)
    ensures
        (final(io)@, *final(retry)) == schedule_or_clear_superuser_retry_run(
            old(io)@,
            *old(retry),
            code,
            *tuning,
        ),
{
    proof {
        reveal(schedule_or_clear_superuser_retry_run);
    }
    if io.flag(Op::RetryWanted(code)) {
        if retry.attempts >= tuning.superuser_retry_max {
            retry.pending = false;
            io.mark("HvdcpRetryPend", 2);
        } else {
            retry.pending = true;
            if retry.next_ms == 0 {
                let now: u64 = io.millis(Op::Now);
                retry.next_ms = now.saturating_add(tuning.superuser_retry_ms);
            }
            io.mark("HvdcpRetryPend", 1);
            io.mark("HvdcpRetryN", retry.attempts);
        }
    } else {
        retry.pending = false;
        retry.attempts = 0;
        retry.next_ms = 0;
        io.mark("HvdcpRetryPend", 0);
    }
}

#[verifier::opaque]
pub open spec fn arm_hvdcp_input_edge_run(io: Io<Op>, pump_open: bool) -> (Io<Op>, InputEdge) {
    let (io, vin) = adc_run(io, pump_open, AdcChannel::Vin);
    let (io, present) = io.flag(Op::InputPresent(reading_or(vin, 0)));
    (
        io.mark("HvdcpEdgeArm", flag_word(present)),
        InputEdge { armed: true, last_present: present },
    )
}

/// Starts to look at input edges, from the present input on.
pub fn arm_hvdcp_input_edge(io: &mut Session<Op>, pump_open: bool, edge: &mut InputEdge)
    ensures
        (final(io)@, *final(edge)) == arm_hvdcp_input_edge_run(old(io)@, pump_open),
{
    proof {
        reveal(arm_hvdcp_input_edge_run);
    }
    let vin: i32 = reading_or(adc(io, pump_open, AdcChannel::Vin), 0);
    let present = io.flag(Op::InputPresent(vin));
    edge.last_present = present;
    edge.armed = true;
    io.mark("HvdcpEdgeArm", flag_word(present));
}

#[verifier::opaque]
pub open spec fn negotiate_and_rearm_run(
    io: Io<Op>,
    state: DriverState,
    always: bool,
    tuning: Tuning,
) -> (Io<Op>, DriverState, i32) {
    let (io, state, code) = run_hvdcp_and_land_run(io, state, tuning);
    let (io, retry) = schedule_or_clear_superuser_retry_run(io, state.retry, code, tuning);
    let state = DriverState { retry, ..state };
    if always || code == 0 {
        let (io, edge) = arm_hvdcp_input_edge_run(io, state.pump_open);
        (io, DriverState { edge, ..state }, code)
    } else {
        (io, state, code)
    }
}

/// Negotiates, lands, schedules a retry where one is due, and looks at input
/// edges from there on: always, or only after success.
pub fn negotiate_and_rearm(
    io: &mut Session<Op>,
    state: &mut DriverState,
    always: bool,
    tuning: &Tuning,
) -> (code: i32)
    requires
        tuning.valid(),
    ensures
        (final(io)@, *final(state), code) == negotiate_and_rearm_run(
            old(io)@,
            *old(state),
            always,
            *tuning,
        ),
        old(state).valid() ==> final(state).valid(),
{
    proof {
        reveal(negotiate_and_rearm_run);
    }
    let code: i32 = run_hvdcp_and_land(io, state, tuning);
    schedule_or_clear_superuser_retry(io, &mut state.retry, code, tuning);
    if always || code == 0 {
        arm_hvdcp_input_edge(io, state.pump_open, &mut state.edge);
    }
    code
}

pub open spec fn try_autostart_hvdcp_run(io: Io<Op>, state: DriverState, tuning: Tuning) -> (
    Io<Op>,
    DriverState,
) {
    let (io, state, _) = negotiate_and_rearm_run(io.mark("HvdcpAuto", 1), state, true, tuning);
    (io, state)
}

/// The first negotiation, right after the chip was configured.
pub fn try_autostart_hvdcp(io: &mut Session<Op>, state: &mut DriverState, tuning: &Tuning)
    requires
        tuning.valid(),
    ensures
        (final(io)@, *final(state)) == try_autostart_hvdcp_run(old(io)@, *old(state), *tuning),
        old(state).valid() ==> final(state).valid(),
{
    io.mark("HvdcpAuto", 1);
    let _ = negotiate_and_rearm(io, state, true, tuning);
}

pub open spec fn arm_telemetry_timer_run(io: Io<Op>, timer_ready: bool, telemetry_ms: u32) -> Io<
    Op,
> {
    if timer_ready {
        io.tell(Op::TimerStart(if telemetry_ms < TELEMETRY_MS_MIN {
            TELEMETRY_MS_MIN
        } else {
            telemetry_ms
        }))
    } else {
        io
    }
}

/// Starts the telemetry timer, if there is one, for its next period.
pub fn arm_telemetry_timer(io: &mut Session<Op>, timer_ready: bool, telemetry_ms: u32)
    ensures
        final(io)@ == arm_telemetry_timer_run(old(io)@, timer_ready, telemetry_ms),
{
    if timer_ready {
        let period: u32 = if telemetry_ms < TELEMETRY_MS_MIN {
            TELEMETRY_MS_MIN
        } else {
            telemetry_ms
        };
        io.tell(Op::TimerStart(period));
    }
}

/// Retries of one busy episode are bounded: none is scheduled at the most, and
/// any outcome but a busy slot starts over.
pub proof fn law_retries_are_bounded(io: Io<Op>, retry: RetrySlot, code: i32, tuning: Tuning)
    ensures
        ({
            let wanted = io.flag(Op::RetryWanted(code)).1;
            let after = schedule_or_clear_superuser_retry_run(io, retry, code, tuning).1;
            &&& after.pending ==> wanted && retry.attempts < tuning.superuser_retry_max
            &&& wanted ==> after.attempts == retry.attempts
            &&& !wanted ==> after.attempts == 0 && after.next_ms == 0
        }),
{
    reveal(schedule_or_clear_superuser_retry_run);
}

/// A charge is only started by a landing where there is a pump.
pub proof fn law_landing_needs_the_pump(io: Io<Op>, state: DriverState, tuning: Tuning)
    requires
        !state.pump_open,
    ensures
        ({
            let (_, after, _) = run_hvdcp_and_land_run(io, state, tuning);
            after == (DriverState { hvdcp: after.hvdcp, ..state })
        }),
{
    reveal(run_hvdcp_and_land_run);
}

/// What a negotiation answered is still known after the landing.
pub proof fn law_code_outlives_the_landing(
    io: Io<Op>,
    state: DriverState,
    always: bool,
    tuning: Tuning,
)
    ensures
        ({
            let (_, after, code) = run_hvdcp_and_land_run(io, state, tuning);
            after.hvdcp.last_code() == code
        }),
        ({
            let (_, after, code) = negotiate_and_rearm_run(io, state, always, tuning);
            after.hvdcp.last_code() == code
        }),
{
    reveal(negotiate_and_rearm_run);
    reveal(run_hvdcp_and_land_run);
    reveal(land_run);
    let (at, cell) = adc_run(io, state.pump_open, AdcChannel::Vbat);
    let vbat_uv = cell_or(cell, VBAT_ASSUMED_UV);
    negotiate::law_failure_is_left_behind(at, state.usbin_id, state.hvdcp, vbat_uv, tuning);
    let (at, hvdcp, code, _) = negotiate::run_negotiate_report_run(
        at,
        state.usbin_id,
        state.hvdcp,
        vbat_uv,
        tuning,
    );
    lemma_approach_keeps_the_failure(at, state.usbin_id, hvdcp, vbat_uv);
    let (at, hvdcp, approach) = approach_run(at, state.usbin_id, hvdcp, vbat_uv);
    lemma_open_current_keeps_the_failure(at, state.usbin_id, hvdcp, approach);
}

proof fn lemma_approach_keeps_the_failure(
    io: Io<Op>,
    usbin_id: Option<u64>,
    hvdcp: HvdcpState,
    vbat_uv: u32,
)
    ensures
        approach_run(io, usbin_id, hvdcp, vbat_uv).1.failure == hvdcp.failure,
{
    reveal(approach_run);
    let (io, vin) = io.reading(Op::PumpAdc(AdcChannel::Vin));
    let (io, cell) = io.reading(Op::PumpAdc(AdcChannel::Vbat));
    let vin_uv = reading_or(vin, 0);
    let vbat_uv = cell_or(cell, vbat_uv);
    let (io, _) = io.mode(Op::ChargeMode { vin_uv, vbat_uv });
    correction::law_corrections_keep_the_failure(io, usbin_id, hvdcp, vin_uv, vbat_uv, false);
}

proof fn lemma_open_current_keeps_the_failure(
    io: Io<Op>,
    usbin_id: Option<u64>,
    hvdcp: HvdcpState,
    at: Approach,
)
    ensures
        open_current_run(io, usbin_id, hvdcp, at).1.failure == hvdcp.failure,
{
    reveal(open_current_run);
    let marked = io.mark("SuAfc5vPath", 0);
    correction::law_corrections_keep_the_failure(
        marked,
        usbin_id,
        hvdcp,
        at.vin_uv,
        at.vbat_uv,
        false,
    );
    let (centred, moved, _) = correction::nudge_vin_into_window_run(
        marked,
        usbin_id,
        hvdcp,
        at.vin_uv,
        at.vbat_uv,
        false,
    );
    correction::law_corrections_keep_the_failure(centred, usbin_id, moved, 0, 0, false);
    correction::law_corrections_keep_the_failure(io, usbin_id, hvdcp, 0, 0, false);
}

// ---------------------------------------------------------------------------
// Laws of what a landing does
// ---------------------------------------------------------------------------
/// The reading in an answer.
pub open spec fn reading_of(reply: Reply) -> Option<i32> {
    match reply {
        Reply::Reading(value) => value,
        _ => None,
    }
}

/// A missing reading is what stands for it, and a cell is never below zero.
pub proof fn law_readings_stand_for_themselves(value: Option<i32>, low: i32, cell: u32)
    ensures
        value is None ==> reading_or(value, low) == low && cell_or(value, cell) == cell,
        value is Some ==> reading_or(value, low) == value->0,
        value is Some && value->0 >= 0 ==> cell_or(value, cell) == value->0,
        value is Some && value->0 < 0 ==> cell_or(value, cell) == 0,
{
}

/// A reset is given two power-on times, as far as those can be said.
pub proof fn law_reset_waits_twice(soft_reset_delay_ms: u64)
    ensures
        soft_reset_delay_ms <= 0x7FFF_FFFF ==> por_delay_ms(soft_reset_delay_ms) == 2
            * soft_reset_delay_ms,
        0x7FFF_FFFF < soft_reset_delay_ms <= 0xFFFF_FFFF ==> por_delay_ms(soft_reset_delay_ms)
            == 0xFFFF_FFFF,
        soft_reset_delay_ms > 0xFFFF_FFFF ==> por_delay_ms(soft_reset_delay_ms) == 20,
{
}

/// A charge is started after a look at the pump: one that shut itself down is reset,
/// given its time and set up first. The outcome is what the pump answered.
pub proof fn law_shut_down_pump_is_reset(io: Io<Op>, tuning: Tuning)
    requires
        io.pending is None,
        start_charge_run(io, tuning).0.pending is None,
    ensures
        ({
            let (after, started) = start_charge_run(io, tuning);
            let down = trace::answer(io, 0) matches Reply::Register(Ok(sys)) && sys & 0x01 != 0;
            let outcome = |reply: Reply|
                match reply {
                    Reply::Engaged(result) => result,
                    _ => Err(PumpError::Other),
                };
            &&& trace::follows(io, after)
            &&& started.recovered <==> down
            &&& down ==> trace::asked(io, after) == seq![
                Op::PumpSysSts,
                Op::PumpSoftReset,
                Op::Sleep(por_delay_ms(tuning.soft_reset_delay_ms)),
                Op::PumpConfigure,
                Op::PumpCharge(true),
            ] && started.result == outcome(trace::answer(io, 4))
            &&& !down ==> trace::asked(io, after) == seq![Op::PumpSysSts, Op::PumpCharge(true)]
                && started.result == outcome(trace::answer(io, 1))
            &&& trace::written(io, after).len() == 0
        }),
{
    broadcast use trace::group_trace;

    reveal(start_charge_run);
    reveal(recover_ln_shutdown_run);
    reveal(reset_and_charge_run);
    trace::lemma_asked_nothing(io);
    trace::lemma_written_nothing(io);
    trace::lemma_follows_at_first(io);
}

/// An attempt is counted and its time noted, whatever came of it; one that reset the
/// pump counts as the last tick attempt too.
pub proof fn law_attempt_is_counted(
    io: Io<Op>,
    charge: ChargeLoop,
    device_ready: bool,
    tuning: Tuning,
)
    requires
        io.pending is None,
        attempt_run(io, charge, device_ready, tuning).0.pending is None,
    ensures
        ({
            let (after, left, started) = attempt_run(io, charge, device_ready, tuning);
            let (at, first) = start_charge_run(io, tuning);
            let more = if started.recovered {
                seq![Op::Now, Op::Now]
            } else {
                seq![Op::Now]
            };
            &&& trace::follows(io, after)
            &&& at.pending is None
            &&& started == first
            &&& trace::asked(io, after) == trace::asked(io, at) + more
            &&& left.charge_attempts == if charge.charge_attempts == u32::MAX {
                u32::MAX as int
            } else {
                charge.charge_attempts + 1
            }
            &&& left.last_enable_ms == steer::time_of(
                io.replies[io.next + trace::asked(io, after).len() - 1],
            )
            &&& left.last_attempt_ms == if started.recovered {
                steer::time_of(io.replies[io.next + trace::asked(io, after).len() - 2])
            } else {
                charge.last_attempt_ms
            }
            &&& left == (ChargeLoop {
                charge_attempts: left.charge_attempts,
                last_enable_ms: left.last_enable_ms,
                last_attempt_ms: left.last_attempt_ms,
                ..charge
            })
        }),
{
    broadcast use trace::group_trace;

    reveal(attempt_run);
    reveal(note_attempt_run);
    trace::lemma_asked_nothing(io);
    trace::lemma_follows_at_first(io);
    let after = attempt_run(io, charge, device_ready, tuning).0;
    let (at, started) = start_charge_run(io, tuning);
    reveal(start_charge_run);
    reveal(recover_ln_shutdown_run);
    reveal(reset_and_charge_run);
    trace::lemma_follows_at_first(at);
    assert(trace::follows(at, after));
    trace::lemma_finished_before(at, after);
    law_shut_down_pump_is_reset(io, tuning);
    trace::lemma_asked_nothing(at);
    trace::lemma_honest_after(io, at);
    trace::lemma_asked_in_turn(io, at, after);
    assert(trace::asked(at, after) =~= if started.recovered {
        seq![Op::Now, Op::Now]
    } else {
        seq![Op::Now]
    });
    trace::lemma_follows_in_turn(io, at, after);
}

/// An attempt that engaged starts a new count of failures and is counted as a start;
/// one that did not leaves its error behind.
pub proof fn law_landing_is_settled(io: Io<Op>, charge: ChargeLoop, result: Result<OpMode, PumpError>)
    ensures
        ({
            let (after, left) = settle_run(io, charge, result);
            &&& result is Ok ==> left.failed_attempts == 0 && left.last_error == 0
                && left.auto_starts == if charge.auto_starts == u32::MAX {
                u32::MAX as int
            } else {
                charge.auto_starts + 1
            }
            &&& result is Err ==> left.last_error == pump::spec_pump_error_code(result->Err_0)
                && left.failed_attempts == charge.failed_attempts && left.auto_starts
                == charge.auto_starts
            &&& left == (ChargeLoop {
                failed_attempts: left.failed_attempts,
                last_error: left.last_error,
                auto_starts: left.auto_starts,
                ..charge
            })
            &&& trace::asked(io, after).len() == 0
        }),
{
    broadcast use trace::group_trace;

    reveal(settle_run);
    trace::lemma_asked_nothing(io);
}

/// A landing measures the input and the cell and asks the core for a mode. Only an
/// input of 6 V or above that allows no 2:1 is corrected first, and then measured and
/// judged again. What it goes on with is what was measured and answered last.
pub proof fn law_approach_measures_first(
    io: Io<Op>,
    usbin_id: Option<u64>,
    hvdcp: HvdcpState,
    vbat_uv: u32,
)
    requires
        io.pending is None,
        approach_run(io, usbin_id, hvdcp, vbat_uv).0.pending is None,
    ensures
        ({
            let (after, left, at) = approach_run(io, usbin_id, hvdcp, vbat_uv);
            let asked = trace::asked(io, after);
            let vin = match reading_of(trace::answer(io, 0)) {
                Some(v) => v,
                None => 0,
            };
            let cell = cell_or(reading_of(trace::answer(io, 1)), vbat_uv);
            let mode = steer::mode_of(trace::answer(io, 2));
            let first = seq![
                Op::PumpAdc(AdcChannel::Vin),
                Op::PumpAdc(AdcChannel::Vbat),
                Op::ChargeMode { vin_uv: vin, vbat_uv: cell },
            ];
            let corrected = mode != Some(OpMode::Switching) && vin >= 6_000_000;
            &&& trace::follows(io, after)
            &&& asked.len() >= 3 && asked.take(3) == first
            &&& asked.last() == (Op::ChargeMode { vin_uv: at.vin_uv, vbat_uv: at.vbat_uv })
            &&& at.engage == steer::mode_of(io.replies[after.next - 1])
            &&& at.vbat_uv == cell
            &&& !corrected ==> asked == first && left == hvdcp && at.vin_uv == vin
            &&& corrected ==> exists|start: Io<Op>|
                #![trigger trace::follows(io, start)]
                {
                    let (end, moved, _) = correction::nudge_vin_into_window_run(
                        start,
                        usbin_id,
                        hvdcp,
                        vin,
                        cell,
                        false,
                    );
                    &&& trace::follows(io, start)
                    &&& asked == first + trace::asked(start, end) + seq![
                        Op::PumpAdc(AdcChannel::Vin),
                        Op::ChargeMode { vin_uv: at.vin_uv, vbat_uv: cell },
                    ]
                    &&& trace::written(io, after) == trace::written(start, end)
                    &&& left == moved
                    &&& at.vin_uv == match reading_of(io.replies[after.next - 2]) {
                        Some(v) => v,
                        None => vin,
                    }
                }
        }),
{
    reveal(approach_run);
    let (after, left, at) = approach_run(io, usbin_id, hvdcp, vbat_uv);
    let (io1, vin) = io.reading(Op::PumpAdc(AdcChannel::Vin));
    let vin_uv = reading_or(vin, 0);
    let (io2, cell) = io1.reading(Op::PumpAdc(AdcChannel::Vbat));
    let cell_uv = cell_or(cell, vbat_uv);
    let (start, engage) = io2.mode(Op::ChargeMode { vin_uv, vbat_uv: cell_uv });
    lemma_approach_starts(io, vbat_uv);
    if engage != Some(OpMode::Switching) && vin_uv >= FIVE_V_STAY_MAX_UV {
        let end = correction::nudge_vin_into_window_run(
            start,
            usbin_id,
            hvdcp,
            vin_uv,
            cell_uv,
            false,
        ).0;
        steer::lemma_nudge_follows(start, usbin_id, hvdcp, vin_uv, cell_uv, false);
        lemma_approach_ends(end, vin_uv, cell_uv);
        trace::lemma_finished_before(end, after);
        trace::lemma_finished_before(start, end);
        trace::lemma_finished_before(io, start);
        trace::lemma_follows_in_turn(io, start, end);
        trace::lemma_follows_in_turn(io, end, after);
        trace::lemma_asked_in_turn(io, start, end);
        trace::lemma_asked_in_turn(io, end, after);
        trace::lemma_written_in_turn(io, start, end);
        trace::lemma_written_in_turn(io, end, after);
        assert(trace::written(io, after) =~= trace::written(start, end));
        assert(trace::asked(io, after).take(3) =~= trace::asked(io, start));
    } else {
        assert(trace::asked(io, after).take(3) =~= trace::asked(io, start));
    }
}

proof fn lemma_approach_starts(io: Io<Op>, vbat_uv: u32)
    requires
        io.pending is None,
    ensures
        ({
            let (io1, vin) = io.reading(Op::PumpAdc(AdcChannel::Vin));
            let vin_uv = reading_or(vin, 0);
            let (io2, cell) = io1.reading(Op::PumpAdc(AdcChannel::Vbat));
            let cell_uv = cell_or(cell, vbat_uv);
            let start = io2.mode(Op::ChargeMode { vin_uv, vbat_uv: cell_uv }).0;
            &&& trace::follows(io, start)
            &&& start.pending is None ==> {
                &&& start.replies == io.replies && start.next == io.next + 3
                &&& trace::asked(io, start) == seq![
                    Op::PumpAdc(AdcChannel::Vin),
                    Op::PumpAdc(AdcChannel::Vbat),
                    Op::ChargeMode { vin_uv, vbat_uv: cell_uv },
                ]
                &&& trace::written(io, start) == Seq::<(u16, u8)>::empty()
            }
        }),
{
    broadcast use trace::group_trace;

    trace::lemma_asked_nothing(io);
    trace::lemma_written_nothing(io);
    trace::lemma_follows_at_first(io);
}

proof fn lemma_approach_ends(io: Io<Op>, vin_uv: i32, vbat_uv: u32)
    ensures
        ({
            let (io1, vin) = io.reading(Op::PumpAdc(AdcChannel::Vin));
            let again_uv = reading_or(vin, vin_uv);
            let end = io1.mode(Op::ChargeMode { vin_uv: again_uv, vbat_uv }).0;
            &&& trace::follows(io, end)
            &&& end.pending is None ==> {
                &&& io.pending is None && end.replies == io.replies && end.next == io.next + 2
                &&& trace::asked(io, end) == seq![
                    Op::PumpAdc(AdcChannel::Vin),
                    Op::ChargeMode { vin_uv: again_uv, vbat_uv },
                ]
                &&& trace::written(io, end) == Seq::<(u16, u8)>::empty()
            }
        }),
{
    broadcast use trace::group_trace;

    trace::lemma_asked_nothing(io);
    trace::lemma_written_nothing(io);
    trace::lemma_follows_at_first(io);
}

/// The current is opened for the mode that the input calls for. For 2:1 the bus is moved
/// into the band, and where the superuser node opens and the registers can be reached,
/// the input current limit is at 3 A or above afterwards. For 1:1 near 5 V it is at
/// 2.7 A or above, and the pump is limited to as much. For anything else nothing is
/// touched.
pub proof fn law_current_is_opened(
    io: Io<Op>,
    usbin_id: Option<u64>,
    hvdcp: HvdcpState,
    at: Approach,
)
    requires
        trace::honest(io),
        io.pending is None,
        open_current_run(io, usbin_id, hvdcp, at).0.pending is None,
    ensures
        ({
            let (after, left) = open_current_run(io, usbin_id, hvdcp, at);
            let asked = trace::asked(io, after);
            let transfer = at.engage == Some(OpMode::Switching);
            let low = at.engage == Some(OpMode::Bypass) && 0 < at.vin_uv < 6_000_000;
            &&& trace::follows(io, after)
            &&& transfer && trace::smooth(io, after) ==> trace::known(after, 0x1370) is Some
                && trace::known(after, 0x1370)->0 >= 60
            &&& transfer ==> exists|start: Io<Op>|
                #![trigger trace::follows(io, start)]
                {
                    let (end, moved, _) = correction::nudge_vin_into_window_run(
                        start,
                        usbin_id,
                        hvdcp,
                        at.vin_uv,
                        at.vbat_uv,
                        false,
                    );
                    &&& trace::follows(io, start) && trace::follows(end, after)
                    &&& trace::asked(io, start).len() == 0
                    &&& trace::asked(end, after).len() > 0 && trace::asked(end, after)[0]
                        == Op::SuOpen
                    &&& asked == trace::asked(start, end) + trace::asked(end, after)
                }
            &&& low && trace::smooth(io, after) ==> trace::known(after, 0x1370) is Some
                && trace::known(after, 0x1370)->0 >= 54
            &&& low ==> asked.len() > 1 && asked[0] == Op::SuOpen && asked.last()
                == Op::PumpIinLimit(2_700_000)
            &&& !transfer && !low ==> asked.len() == 0 && left == hvdcp
        }),
{
    reveal(open_current_run);
    trace::lemma_asked_nothing(io);
    trace::lemma_follows_at_first(io);
    let after = open_current_run(io, usbin_id, hvdcp, at).0;
    if at.engage == Some(OpMode::Switching) {
        let start = io.mark("SuAfc5vPath", 0);
        let (end, moved, _) = correction::nudge_vin_into_window_run(
            start,
            usbin_id,
            hvdcp,
            at.vin_uv,
            at.vbat_uv,
            false,
        );
        assert(trace::follows(io, start) && trace::asked(io, start).len() == 0) by {
            broadcast use {trace::lemma_asked_record, trace::lemma_record_follows};

        }
        steer::lemma_nudge_follows(start, usbin_id, hvdcp, at.vin_uv, at.vbat_uv, false);
        lemma_open_for_transfer(io, start, end, usbin_id, moved);
    } else if at.engage == Some(OpMode::Bypass) && vin_stayed_near_5v(at.vin_uv) {
        lemma_open_near_5v(io, usbin_id, hvdcp);
    }
}

proof fn lemma_open_for_transfer(
    io: Io<Op>,
    start: Io<Op>,
    end: Io<Op>,
    usbin_id: Option<u64>,
    moved: HvdcpState,
)
    requires
        trace::honest(io),
        trace::follows(io, start),
        trace::follows(start, end),
        trace::asked(io, start).len() == 0,
        correction::raise_icl_for_pump_run(end, usbin_id, moved).0.pending is None,
    ensures
        ({
            let after = correction::raise_icl_for_pump_run(end, usbin_id, moved).0;
            &&& trace::follows(io, after) && trace::follows(end, after)
            &&& trace::smooth(io, after) ==> trace::known(after, 0x1370) is Some && trace::known(
                after,
                0x1370,
            )->0 >= 60
            &&& trace::asked(end, after).len() > 0 && trace::asked(end, after)[0] == Op::SuOpen
            &&& trace::asked(io, after) == trace::asked(start, end) + trace::asked(end, after)
        }),
{
    let after = correction::raise_icl_for_pump_run(end, usbin_id, moved).0;
    trace::lemma_follows_in_turn(io, start, end);
    trace::lemma_honest_after(io, end);
    trace::lemma_honest_after(io, start);
    lemma_raises_follow(end, usbin_id, moved);
    trace::lemma_finished_before(end, after);
    correction::law_budgets_are_what_the_paths_carry(end, usbin_id, moved);
    trace::lemma_follows_in_turn(io, end, after);
    trace::lemma_asked_in_turn(io, start, end);
    trace::lemma_asked_in_turn(io, end, after);
    assert(trace::asked(io, end) =~= trace::asked(start, end));
    trace::lemma_honest_after(io, after);
    if trace::smooth(io, after) {
        trace::lemma_smooth_parts(io, end, after);
    }
}

proof fn lemma_open_near_5v(io: Io<Op>, usbin_id: Option<u64>, hvdcp: HvdcpState)
    requires
        trace::honest(io),
        io.pending is None,
        correction::raise_icl_for_5v_bypass_run(io, usbin_id, hvdcp).0.tell(
            Op::PumpIinLimit(FIVE_V_IIN_UA),
        ).pending is None,
    ensures
        ({
            let after = correction::raise_icl_for_5v_bypass_run(io, usbin_id, hvdcp).0.tell(
                Op::PumpIinLimit(FIVE_V_IIN_UA),
            );
            let asked = trace::asked(io, after);
            &&& trace::follows(io, after)
            &&& trace::smooth(io, after) ==> trace::known(after, 0x1370) is Some && trace::known(
                after,
                0x1370,
            )->0 >= 54
            &&& asked.len() > 1 && asked[0] == Op::SuOpen && asked.last() == Op::PumpIinLimit(
                2_700_000,
            )
        }),
{
    let raised = correction::raise_icl_for_5v_bypass_run(io, usbin_id, hvdcp).0;
    let after = raised.tell(Op::PumpIinLimit(FIVE_V_IIN_UA));
    lemma_raises_follow(io, usbin_id, hvdcp);
    trace::lemma_honest_after(io, raised);
    trace::lemma_follows_at_first(raised);
    trace::lemma_ask_follows(raised, raised, Op::PumpIinLimit(FIVE_V_IIN_UA));
    trace::lemma_finished_before(raised, after);
    correction::law_budgets_are_what_the_paths_carry(io, usbin_id, hvdcp);
    trace::lemma_follows_in_turn(io, raised, after);
    trace::lemma_asked_grows(io, raised, after);
    trace::lemma_asked_ask(io, raised, Op::PumpIinLimit(FIVE_V_IIN_UA));
    trace::lemma_known_ask(raised, Op::PumpIinLimit(FIVE_V_IIN_UA), 0x1370);
    if trace::smooth(io, after) {
        trace::lemma_smooth_parts(io, raised, after);
    }
}

/// A vote for current belongs to the run that it stands in.
proof fn lemma_raises_follow(io: Io<Op>, usbin_id: Option<u64>, state: HvdcpState)
    ensures
        trace::follows(io, correction::raise_icl_for_pump_run(io, usbin_id, state).0),
        trace::follows(io, correction::raise_icl_for_5v_bypass_run(io, usbin_id, state).0),
{
    broadcast use {writes::group_obeys, writes::lemma_raise_icl_obeys};

    writes::lemma_obeys_at_first(io, Rule::Free);
    let pump = correction::raise_icl_for_pump_run(io, usbin_id, state).0;
    let low = correction::raise_icl_for_5v_bypass_run(io, usbin_id, state).0;
    assert(writes::obeys(io, pump, Rule::Free));
    assert(writes::obeys(io, low, Rule::Free));
    writes::lemma_obeys_follows(io, pump, Rule::Free);
    writes::lemma_obeys_follows(io, low, Rule::Free);
}

/// A landing opens the current before it starts the charge. Between the last answer of
/// the core on the mode and the attempt, the input current limit is brought to 3 A or
/// above for 2:1 and to 2.7 A or above for 1:1 near 5 V, wherever the superuser node
/// opens and the registers can be reached. The attempt comes last.
pub proof fn law_landing_opens_the_current_first(
    io: Io<Op>,
    usbin_id: Option<u64>,
    hvdcp: HvdcpState,
    charge: ChargeLoop,
    vbat_uv: u32,
    tuning: Tuning,
)
    requires
        trace::honest(io),
        io.pending is None,
        land_run(io, usbin_id, hvdcp, charge, vbat_uv, tuning).0.pending is None,
    ensures
        ({
            let (after, left, end) = land_run(io, usbin_id, hvdcp, charge, vbat_uv, tuning);
            &&& trace::follows(io, after)
            &&& exists|judged: Io<Op>, ready: Io<Op>|
                #![trigger trace::follows(judged, ready)]
                {
                    let answer = steer::mode_of(io.replies[judged.next - 1]);
                    let last = trace::asked(io, judged).last();
                    &&& trace::follows(io, judged) && trace::follows(judged, ready)
                        && trace::follows(ready, after)
                    &&& trace::asked(io, judged).len() > 0 && last is ChargeMode
                    &&& answer == Some(OpMode::Switching) && trace::smooth(judged, ready)
                        ==> trace::known(ready, 0x1370) is Some && trace::known(ready, 0x1370)->0
                        >= 60
                    &&& answer == Some(OpMode::Bypass) && 0 < last->ChargeMode_vin_uv < 6_000_000
                        && trace::smooth(judged, ready) ==> trace::known(ready, 0x1370) is Some
                        && trace::known(ready, 0x1370)->0 >= 54 && trace::asked(
                        judged,
                        ready,
                    ).last() == Op::PumpIinLimit(2_700_000)
                    &&& trace::asked(ready, after).len() > 1 && trace::asked(ready, after)[0]
                        == Op::PumpSysSts
                    &&& trace::asked(ready, after).contains(Op::PumpCharge(true))
                    &&& trace::written(ready, after).len() == 0
                }
        }),
{
    broadcast use trace::group_trace;

    reveal(land_run);
    let after = land_run(io, usbin_id, hvdcp, charge, vbat_uv, tuning).0;
    let (judged, moved, at) = approach_run(io, usbin_id, hvdcp, vbat_uv);
    let (ready, opened) = open_current_run(judged, usbin_id, moved, at);
    let (tried, counted, started) = attempt_run(ready, charge, true, tuning);
    lemma_land_follows(io, usbin_id, hvdcp, charge, vbat_uv, tuning);
    trace::lemma_finished_before(judged, ready);
    trace::lemma_finished_before(ready, tried);
    trace::lemma_honest_after(io, judged);
    law_approach_measures_first(io, usbin_id, hvdcp, vbat_uv);
    law_current_is_opened(judged, usbin_id, moved, at);
    trace::lemma_asked_nothing(ready);
    trace::lemma_written_nothing(ready);
    trace::lemma_follows_at_first(ready);
    reveal(settle_run);
    let (charged, _) = start_charge_run(ready, tuning);
    reveal(attempt_run);
    reveal(note_attempt_run);
    reveal(start_charge_run);
    reveal(recover_ln_shutdown_run);
    reveal(reset_and_charge_run);
    trace::lemma_follows_at_first(charged);
    assert(trace::follows(charged, after));
    trace::lemma_finished_before(charged, after);
    law_shut_down_pump_is_reset(ready, tuning);
    trace::lemma_asked_grows(ready, charged, after);
    let n = trace::asked(ready, charged).len();
    assert(trace::asked(ready, after)[n - 1] == Op::PumpCharge(true));
    trace::lemma_honest_after(ready, charged);
    assert(trace::written(ready, after).len() == 0);
    trace::lemma_follows_in_turn(io, judged, ready);
    trace::lemma_follows_in_turn(io, ready, after);
}

/// The parts of a landing come one after the other.
proof fn lemma_land_follows(
    io: Io<Op>,
    usbin_id: Option<u64>,
    hvdcp: HvdcpState,
    charge: ChargeLoop,
    vbat_uv: u32,
    tuning: Tuning,
)
    requires
        land_run(io, usbin_id, hvdcp, charge, vbat_uv, tuning).0.pending is None,
    ensures
        ({
            let after = land_run(io, usbin_id, hvdcp, charge, vbat_uv, tuning).0;
            let (judged, moved, at) = approach_run(io, usbin_id, hvdcp, vbat_uv);
            let (ready, opened) = open_current_run(judged, usbin_id, moved, at);
            let (tried, counted, started) = attempt_run(ready, charge, true, tuning);
            &&& trace::follows(io, judged) && trace::follows(judged, ready) && trace::follows(
                ready,
                tried,
            ) && trace::follows(tried, after) && trace::follows(ready, after)
            &&& tried.pending is None && ready.pending is None && judged.pending is None
        }),
{
    broadcast use {
        writes::group_obeys,
        writes::lemma_approach_obeys,
        writes::lemma_open_current_obeys,
        writes::lemma_charge_attempt_obeys,
        writes::lemma_settle_obeys,
    };

    reveal(land_run);
    let after = land_run(io, usbin_id, hvdcp, charge, vbat_uv, tuning).0;
    let (judged, moved, at) = approach_run(io, usbin_id, hvdcp, vbat_uv);
    let (ready, opened) = open_current_run(judged, usbin_id, moved, at);
    let (tried, counted, started) = attempt_run(ready, charge, true, tuning);
    writes::lemma_obeys_at_first(io, Rule::Free);
    writes::lemma_obeys_at_first(judged, Rule::Free);
    writes::lemma_obeys_at_first(ready, Rule::Free);
    writes::lemma_obeys_at_first(tried, Rule::Free);
    assert(writes::obeys(io, judged, Rule::Free));
    assert(writes::obeys(judged, ready, Rule::Free));
    assert(writes::obeys(ready, tried, Rule::Free));
    assert(writes::obeys(tried, after, Rule::Free));
    writes::lemma_obeys_follows(io, judged, Rule::Free);
    writes::lemma_obeys_follows(judged, ready, Rule::Free);
    writes::lemma_obeys_follows(ready, tried, Rule::Free);
    writes::lemma_obeys_follows(tried, after, Rule::Free);
    trace::lemma_follows_in_turn(ready, tried, after);
    trace::lemma_finished_before(tried, after);
    trace::lemma_finished_before(ready, tried);
    trace::lemma_finished_before(judged, ready);
}

/// A retry is scheduled exactly for a code that the core wants one for, while the count
/// allows: at a time that stands already, else after the retry distance. Any other code
/// empties the slot.
pub proof fn law_retry_is_scheduled(io: Io<Op>, retry: RetrySlot, code: i32, tuning: Tuning)
    requires
        io.pending is None,
        schedule_or_clear_superuser_retry_run(io, retry, code, tuning).0.pending is None,
    ensures
        ({
            let (after, slot) = schedule_or_clear_superuser_retry_run(io, retry, code, tuning);
            let wanted = trace::yes(trace::answer(io, 0));
            let due = retry.attempts < tuning.superuser_retry_max;
            let later = steer::time_of(trace::answer(io, 1)) + tuning.superuser_retry_ms;
            &&& trace::asked(io, after) == if wanted && due && retry.next_ms == 0 {
                seq![Op::RetryWanted(code), Op::Now]
            } else {
                seq![Op::RetryWanted(code)]
            }
            &&& slot.pending <==> wanted && due
            &&& !wanted ==> slot.attempts == 0 && slot.next_ms == 0
            &&& wanted ==> slot.attempts == retry.attempts
            &&& wanted && (!due || retry.next_ms != 0) ==> slot.next_ms == retry.next_ms
            &&& wanted && due && retry.next_ms == 0 ==> slot.next_ms == if later > u64::MAX {
                u64::MAX as int
            } else {
                later
            }
        }),
{
    broadcast use trace::group_trace;

    reveal(schedule_or_clear_superuser_retry_run);
    trace::lemma_asked_nothing(io);
}

/// An edge is armed with what the core says of the input that is measured there; one
/// that cannot be measured counts as none.
pub proof fn law_edge_is_armed(io: Io<Op>, pump_open: bool)
    requires
        io.pending is None,
        arm_hvdcp_input_edge_run(io, pump_open).0.pending is None,
    ensures
        ({
            let (after, edge) = arm_hvdcp_input_edge_run(io, pump_open);
            let vin = match reading_of(trace::answer(io, 0)) {
                Some(v) => v,
                None => 0,
            };
            &&& edge.armed
            &&& pump_open ==> trace::asked(io, after) == seq![
                Op::PumpAdc(AdcChannel::Vin),
                Op::InputPresent(vin),
            ] && edge.last_present == trace::yes(trace::answer(io, 1))
            &&& !pump_open ==> trace::asked(io, after) == seq![Op::InputPresent(0)]
                && edge.last_present == trace::yes(trace::answer(io, 0))
        }),
{
    broadcast use trace::group_trace;

    reveal(arm_hvdcp_input_edge_run);
    trace::lemma_asked_nothing(io);
}

/// A timer that exists is started for its period, and never for less than 100 ms.
pub proof fn law_timer_is_not_started_early(io: Io<Op>, timer_ready: bool, telemetry_ms: u32)
    requires
        io.pending is None,
        arm_telemetry_timer_run(io, timer_ready, telemetry_ms).pending is None,
    ensures
        trace::asked(io, arm_telemetry_timer_run(io, timer_ready, telemetry_ms))
            == if !timer_ready {
            Seq::<Op>::empty()
        } else if telemetry_ms < 100 {
            seq![Op::TimerStart(100)]
        } else {
            seq![Op::TimerStart(telemetry_ms)]
        },
{
    broadcast use trace::group_trace;

    trace::lemma_asked_nothing(io);
}

/// An attempt belongs to the run that it stands in, and writes no register of the PMIC.
pub proof fn lemma_attempt_follows(
    io: Io<Op>,
    charge: ChargeLoop,
    device_ready: bool,
    tuning: Tuning,
)
    ensures
        trace::follows(io, attempt_run(io, charge, device_ready, tuning).0),
        trace::written(io, attempt_run(io, charge, device_ready, tuning).0).len() == 0,
{
    broadcast use trace::group_trace;

    reveal(attempt_run);
    reveal(note_attempt_run);
    reveal(start_charge_run);
    reveal(recover_ln_shutdown_run);
    reveal(reset_and_charge_run);
    trace::lemma_follows_at_first(io);
    trace::lemma_written_nothing(io);
}

/// A negotiation starts with the cell where that can be measured, and 4 V where not; it
/// is landed where there is a pump. Afterwards a retry is scheduled or not, and the edge
/// is armed where that is always wanted or the negotiation succeeded.
pub proof fn law_negotiation_is_landed(io: Io<Op>, state: DriverState, always: bool, tuning: Tuning)
    requires
        trace::honest(io),
        io.pending is None,
        negotiate_and_rearm_run(io, state, always, tuning).0.pending is None,
    ensures
        ({
            let (after, left, code) = negotiate_and_rearm_run(io, state, always, tuning);
            let asked = trace::asked(io, after);
            &&& trace::follows(io, after)
            &&& state.pump_open ==> asked.len() > 1 && asked[0] == Op::PumpAdc(AdcChannel::Vbat)
                && asked[1] == Op::SuOpen && asked.contains(Op::PumpCharge(true))
            &&& !state.pump_open ==> asked.len() > 1 && asked[0] == Op::SuOpen && left.charge
                == state.charge
            &&& asked.contains(Op::RetryWanted(code))
            &&& always || code == 0 ==> left.edge.armed && asked.last() is InputPresent
                && left.edge.last_present == trace::yes(io.replies[after.next - 1])
            &&& !always && code != 0 ==> left.edge == state.edge && (asked.last()
                == Op::RetryWanted(code) || asked.last() == Op::Now)
            &&& left == (DriverState {
                hvdcp: left.hvdcp,
                charge: left.charge,
                retry: left.retry,
                edge: left.edge,
                ..state
            })
        }),
{
    reveal(negotiate_and_rearm_run);
    let (after, left, code) = negotiate_and_rearm_run(io, state, always, tuning);
    let (landed, there, _) = run_hvdcp_and_land_run(io, state, tuning);
    let (scheduled, retry) = schedule_or_clear_superuser_retry_run(
        landed,
        there.retry,
        code,
        tuning,
    );
    lemma_rearm_follows(io, state, always, tuning);
    trace::lemma_finished_before(scheduled, after);
    trace::lemma_finished_before(landed, scheduled);
    trace::lemma_honest_after(io, landed);
    trace::lemma_honest_after(landed, scheduled);
    lemma_negotiation_starts(io, state, tuning);
    law_retry_is_scheduled(landed, there.retry, code, tuning);
    trace::lemma_follows_in_turn(landed, scheduled, after);
    trace::lemma_asked_grows(io, landed, after);
    trace::lemma_asked_in_turn(io, landed, scheduled);
    trace::lemma_asked_grows(io, scheduled, after);
    let n = trace::asked(io, landed).len();
    assert(trace::asked(io, scheduled)[n as int] == Op::RetryWanted(code));
    assert(trace::asked(io, after)[n as int] == Op::RetryWanted(code));
    trace::lemma_follows_in_turn(io, landed, scheduled);
    trace::lemma_follows_in_turn(io, scheduled, after);
    if state.pump_open {
        let k = trace::asked(io, landed).index_of(Op::PumpCharge(true));
        assert(trace::asked(io, after)[k] == Op::PumpCharge(true));
    }
    if always || code == 0 {
        law_edge_is_armed(scheduled, state.pump_open);
        trace::lemma_asked_in_turn(io, scheduled, after);
        reveal(arm_hvdcp_input_edge_run);
    }
}

proof fn lemma_rearm_follows(io: Io<Op>, state: DriverState, always: bool, tuning: Tuning)
    ensures
        ({
            let (after, left, code) = negotiate_and_rearm_run(io, state, always, tuning);
            let (landed, there, _) = run_hvdcp_and_land_run(io, state, tuning);
            let (scheduled, retry) = schedule_or_clear_superuser_retry_run(
                landed,
                there.retry,
                code,
                tuning,
            );
            trace::follows(io, landed) && trace::follows(landed, scheduled) && trace::follows(
                scheduled,
                after,
            )
        }),
{
    broadcast use {
        writes::group_obeys,
        writes::lemma_run_hvdcp_and_land_obeys,
        writes::lemma_schedule_obeys,
        writes::lemma_arm_edge_obeys,
    };

    reveal(negotiate_and_rearm_run);
    let (after, left, code) = negotiate_and_rearm_run(io, state, always, tuning);
    let (landed, there, _) = run_hvdcp_and_land_run(io, state, tuning);
    let (scheduled, retry) = schedule_or_clear_superuser_retry_run(
        landed,
        there.retry,
        code,
        tuning,
    );
    writes::lemma_obeys_at_first(io, Rule::Free);
    writes::lemma_obeys_at_first(landed, Rule::Free);
    writes::lemma_obeys_at_first(scheduled, Rule::Free);
    assert(writes::obeys(io, landed, Rule::Free));
    assert(writes::obeys(landed, scheduled, Rule::Free));
    assert(writes::obeys(scheduled, after, Rule::Free));
    writes::lemma_obeys_follows(io, landed, Rule::Free);
    writes::lemma_obeys_follows(landed, scheduled, Rule::Free);
    writes::lemma_obeys_follows(scheduled, after, Rule::Free);
}

/// How a negotiation begins, and that it is landed.
proof fn lemma_negotiation_starts(io: Io<Op>, state: DriverState, tuning: Tuning)
    requires
        trace::honest(io),
        io.pending is None,
        run_hvdcp_and_land_run(io, state, tuning).0.pending is None,
    ensures
        ({
            let (after, left, code) = run_hvdcp_and_land_run(io, state, tuning);
            let asked = trace::asked(io, after);
            &&& trace::follows(io, after)
            &&& state.pump_open ==> asked.len() > 1 && asked[0] == Op::PumpAdc(AdcChannel::Vbat)
                && asked[1] == Op::SuOpen && asked.contains(Op::PumpCharge(true))
            &&& !state.pump_open ==> asked.len() > 0 && asked[0] == Op::SuOpen && left.charge
                == state.charge
            &&& left == (DriverState { hvdcp: left.hvdcp, charge: left.charge, ..state })
        }),
{
    broadcast use {
        writes::group_obeys,
        writes::lemma_run_hvdcp_and_land_obeys,
        writes::lemma_run_negotiate_obeys,
        writes::lemma_land_obeys,
    };

    reveal(run_hvdcp_and_land_run);
    reveal(negotiate::run_negotiate_report_run);
    let after = run_hvdcp_and_land_run(io, state, tuning).0;
    let (at, cell) = adc_run(io, state.pump_open, AdcChannel::Vbat);
    let vbat_uv = cell_or(cell, VBAT_ASSUMED_UV);
    let (talked, hvdcp, code, _) = negotiate::run_negotiate_report_run(
        at,
        state.usbin_id,
        state.hvdcp,
        vbat_uv,
        tuning,
    );
    let (ran, _, _) = negotiate::run_negotiate_run(
        at,
        state.usbin_id,
        state.hvdcp,
        vbat_uv,
        tuning,
    );
    writes::lemma_obeys_at_first(io, Rule::Free);
    writes::lemma_obeys_at_first(at, Rule::Free);
    writes::lemma_obeys_at_first(ran, Rule::Free);
    writes::lemma_obeys_at_first(talked, Rule::Free);
    assert(writes::obeys(io, at, Rule::Free));
    assert(writes::obeys(at, ran, Rule::Free));
    assert(writes::obeys(ran, talked, Rule::Free));
    assert(writes::obeys(talked, after, Rule::Free));
    writes::lemma_obeys_follows(io, at, Rule::Free);
    writes::lemma_obeys_follows(at, ran, Rule::Free);
    writes::lemma_obeys_follows(ran, talked, Rule::Free);
    writes::lemma_obeys_follows(talked, after, Rule::Free);
    trace::lemma_finished_before(talked, after);
    trace::lemma_finished_before(ran, talked);
    trace::lemma_finished_before(at, ran);
    trace::lemma_honest_after(io, at);
    negotiate::law_paths_are_tried_in_order(at, state.usbin_id, state.hvdcp, vbat_uv, tuning);
    trace::lemma_follows_in_turn(io, at, ran);
    trace::lemma_follows_in_turn(io, ran, talked);
    trace::lemma_follows_in_turn(io, talked, after);
    trace::lemma_follows_in_turn(ran, talked, after);
    assert(trace::asked(io, at) =~= if state.pump_open {
        seq![Op::PumpAdc(AdcChannel::Vbat)]
    } else {
        Seq::<Op>::empty()
    }) by {
        broadcast use trace::lemma_asked_ask;

        trace::lemma_asked_nothing(io);
    }
    trace::lemma_asked_in_turn(io, at, ran);
    trace::lemma_asked_grows(io, ran, after);
    if state.pump_open {
        trace::lemma_honest_after(io, talked);
        law_landing_opens_the_current_first(
            talked,
            state.usbin_id,
            hvdcp,
            state.charge,
            vbat_uv,
            tuning,
        );
        let (judged, ready) = choose|judged: Io<Op>, ready: Io<Op>|
            #![trigger trace::follows(judged, ready)]
            trace::follows(talked, judged) && trace::follows(judged, ready) && trace::follows(
                ready,
                after,
            ) && trace::asked(ready, after).contains(Op::PumpCharge(true));
        let k = trace::asked(ready, after).index_of(Op::PumpCharge(true));
        trace::lemma_follows_in_turn(io, talked, judged);
        trace::lemma_follows_in_turn(io, judged, ready);
        trace::lemma_honest_after(io, ready);
        trace::lemma_asked_in_turn(io, ready, after);
        let n = trace::asked(io, ready).len();
        assert(trace::asked(io, after)[n + k] == Op::PumpCharge(true));
    }
}

/// A negotiation belongs to the run that it stands in.
pub proof fn lemma_negotiation_follows(
    io: Io<Op>,
    state: DriverState,
    always: bool,
    tuning: Tuning,
)
    ensures
        trace::follows(io, negotiate_and_rearm_run(io, state, always, tuning).0),
{
    let (after, left, code) = negotiate_and_rearm_run(io, state, always, tuning);
    let (landed, there, _) = run_hvdcp_and_land_run(io, state, tuning);
    reveal(negotiate_and_rearm_run);
    let (scheduled, retry) = schedule_or_clear_superuser_retry_run(
        landed,
        there.retry,
        code,
        tuning,
    );
    lemma_rearm_follows(io, state, always, tuning);
    trace::lemma_follows_in_turn(io, landed, scheduled);
    trace::lemma_follows_in_turn(io, scheduled, after);
}

/// A retry that is still scheduled keeps its count, and a time that stands.
pub proof fn lemma_retry_is_kept(io: Io<Op>, state: DriverState, always: bool, tuning: Tuning)
    ensures
        ({
            let left = negotiate_and_rearm_run(io, state, always, tuning).1;
            &&& left.retry.pending ==> left.retry.attempts == state.retry.attempts
            &&& left.retry.pending && state.retry.next_ms != 0 ==> left.retry.next_ms
                == state.retry.next_ms
        }),
{
    reveal(negotiate_and_rearm_run);
    reveal(run_hvdcp_and_land_run);
    reveal(schedule_or_clear_superuser_retry_run);
}

/// An attempt is published where there is a device: its number, its outcome and its time.
pub proof fn law_attempt_is_published(
    io: Io<Op>,
    charge: ChargeLoop,
    result: Result<OpMode, PumpError>,
    device_ready: bool,
)
    requires
        io.pending is None,
        note_attempt_run(io, charge, result, device_ready).0.pending is None,
    ensures
        ({
            let (after, left) = note_attempt_run(io, charge, result, device_ready);
            let now = steer::time_of(trace::answer(io, 0));
            let number = if charge.charge_attempts == u32::MAX {
                u32::MAX
            } else {
                (charge.charge_attempts + 1) as u32
            };
            &&& left == (ChargeLoop { charge_attempts: number, last_enable_ms: now, ..charge })
            &&& !device_ready ==> trace::published(io, after).len() == 0
            &&& device_ready ==> trace::published(io, after) == seq![
                ("ChargeAttemptN", number),
                (
                    "LastEnableErr",
                    match result {
                        Ok(_) => 0u32,
                        Err(err) => status_word(pump::spec_pump_error_code(err)),
                    },
                ),
                (
                    "LastEnableMs",
                    if now <= u32::MAX {
                        now as u32
                    } else {
                        u32::MAX
                    },
                ),
            ]
        }),
{
    broadcast use trace::group_marks;

    reveal(note_attempt_run);
    trace::lemma_published_nothing(io);
}

/// The negotiation at the start is announced, and it always arms the edge.
pub proof fn law_first_negotiation_is_announced(io: Io<Op>, state: DriverState, tuning: Tuning)
    requires
        io.pending is None,
    ensures
        ({
            let start = io.mark("HvdcpAuto", 1);
            let (after, left, _) = negotiate_and_rearm_run(start, state, true, tuning);
            &&& trace::published(io, start) == seq![("HvdcpAuto", 1u32)]
            &&& try_autostart_hvdcp_run(io, state, tuning) == (after, left)
        }),
{
    broadcast use trace::group_marks;

    trace::lemma_published_nothing(io);
}

} // verus!
