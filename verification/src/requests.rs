//! Device-control requests.
//!
//! A request arrives with its input block and with the length of its output
//! block, or the status for which there is none. It is answered with a status
//! and the bytes of the output.
use crate::battery::{
    self, last_percent, last_power_state, soc_rising, update_from_telemetry, Battery, Readings,
};
use crate::exchange::{Op, Reply};
use crate::hvdcp::{estimated_vbus_uv, target_vbus_uv, HvdcpState};
use crate::ioctl::{
    Ln8000ChargeRequest, Ln8000HvdcpRequest, Ln8000LimitsRequest, Ln8000ModeRequest,
    Ln8000RegRequest, Ln8000Sample, Ln8000SamplesRequest, Ln8000Sessions, Ln8000Status,
    ERR_BYPASS_VIN_OUT_OF_WINDOW, IOCTL_LN8000_GET_SAMPLES, IOCTL_LN8000_GET_SESSIONS,
    IOCTL_LN8000_GET_STATUS, IOCTL_LN8000_READ_REG, IOCTL_LN8000_RUN_HVDCP,
    IOCTL_LN8000_SET_CHARGE, IOCTL_LN8000_SET_LIMITS, IOCTL_LN8000_SET_MODE,
    IOCTL_LN8000_WRITE_REG, LN8000_CHARGEREQUEST_BYTES, LN8000_HVDCPREQUEST_BYTES,
    LN8000_LIMITSREQUEST_BYTES, LN8000_MODEREQUEST_BYTES, LN8000_REGREQUEST_BYTES,
    LN8000_SAMPLESREQUEST_BYTES, LN8000_SAMPLE_BYTES, LN8000_SESSIONS_BYTES, LN8000_STATUS_BYTES,
    LN8000_STATUS_MAGIC, LN8000_STATUS_VERSION,
};
use crate::landing::{
    self, adc, cell_or, negotiate_and_rearm, note_attempt, reading_or, start_charge,
    VBAT_ASSUMED_UV,
};
use crate::pump::{
    self, pump_error_code, AdcChannel, ChipStatus, OpMode, PumpError, PumpState, TelemetrySample,
    Tuning, FAULT1_VAC_UNPLUG,
};
use crate::session::{Io, Session};
use crate::state::{ChargeLoop, DriverState};
use crate::status::{
    STATUS_BUFFER_TOO_SMALL, STATUS_INVALID_DEVICE_REQUEST, STATUS_INVALID_PARAMETER,
    STATUS_SUCCESS,
};
use crate::wire::{self, get_u32};
use crate::trace;
use crate::steer;
use vstd::prelude::*;

verus! {

/// A request.
#[derive(Debug)]
pub struct Request {
    /// Its control code.
    pub code: u32,
    /// Length of its input, as announced.
    pub input_length: usize,
    /// Its input, where it could be had.
    pub input: Option<Vec<u8>>,
    /// Length of its output block, or the status for which there is none.
    pub output: Result<usize, i32>,
}

/// How a request ends.
#[derive(Debug)]
pub struct Completion {
    /// Its status.
    pub status: i32,
    /// The bytes of its output.
    pub output: Vec<u8>,
}

/// The mathematical view of a [`Completion`].
#[verifier::ext_equal]
pub struct Ended {
    /// Its status.
    pub status: i32,
    /// The bytes of its output.
    pub output: Seq<u8>,
}

impl View for Completion {
    type V = Ended;

    open spec fn view(&self) -> Ended {
        Ended { status: self.status, output: self.output@ }
    }
}

/// A request that ends without output.
pub open spec fn refused(status: i32) -> Ended {
    Ended { status, output: Seq::empty() }
}

/// A request that ends with a block, if there is room for it.
pub open spec fn answered(output: Result<usize, i32>, bytes: Seq<u8>) -> Ended {
    match output {
        Ok(_) => Ended { status: STATUS_SUCCESS, output: bytes },
        Err(status) => refused(status),
    }
}

fn refuse(status: i32) -> (c: Completion)
    ensures
        c@ == refused(status),
{
    Completion { status, output: Vec::new() }
}

fn answer(output: Result<usize, i32>, bytes: Vec<u8>) -> (c: Completion)
    ensures
        c@ == answered(output, bytes@),
{
    match output {
        Ok(_) => Completion { status: STATUS_SUCCESS, output: bytes },
        Err(status) => refuse(status),
    }
}

/// The least output block of a request.
#[verifier::allow_in_spec]
pub fn output_size(code: u32) -> (size: usize)
    returns
        (if code == IOCTL_LN8000_GET_STATUS {
            LN8000_STATUS_BYTES
        } else if code == IOCTL_LN8000_READ_REG || code == IOCTL_LN8000_WRITE_REG {
            LN8000_REGREQUEST_BYTES
        } else if code == IOCTL_LN8000_SET_LIMITS {
            LN8000_LIMITSREQUEST_BYTES
        } else if code == IOCTL_LN8000_SET_MODE {
            LN8000_MODEREQUEST_BYTES
        } else if code == IOCTL_LN8000_SET_CHARGE {
            LN8000_CHARGEREQUEST_BYTES
        } else if code == IOCTL_LN8000_RUN_HVDCP {
            LN8000_HVDCPREQUEST_BYTES
        } else if code == IOCTL_LN8000_GET_SESSIONS {
            LN8000_SESSIONS_BYTES
        } else if code == IOCTL_LN8000_GET_SAMPLES {
            LN8000_SAMPLESREQUEST_BYTES
        } else {
            0usize
        }),
{
    if code == IOCTL_LN8000_GET_STATUS {
        LN8000_STATUS_BYTES
    } else if code == IOCTL_LN8000_READ_REG || code == IOCTL_LN8000_WRITE_REG {
        LN8000_REGREQUEST_BYTES
    } else if code == IOCTL_LN8000_SET_LIMITS {
        LN8000_LIMITSREQUEST_BYTES
    } else if code == IOCTL_LN8000_SET_MODE {
        LN8000_MODEREQUEST_BYTES
    } else if code == IOCTL_LN8000_SET_CHARGE {
        LN8000_CHARGEREQUEST_BYTES
    } else if code == IOCTL_LN8000_RUN_HVDCP {
        LN8000_HVDCPREQUEST_BYTES
    } else if code == IOCTL_LN8000_GET_SESSIONS {
        LN8000_SESSIONS_BYTES
    } else if code == IOCTL_LN8000_GET_SAMPLES {
        LN8000_SAMPLESREQUEST_BYTES
    } else {
        0
    }
}

// ---------------------------------------------------------------------------
// Negotiation
// ---------------------------------------------------------------------------
/// What a negotiation request commands: what its block says, or to negotiate
/// where it has none.
pub open spec fn command_of(input_length: usize, input: Option<Seq<u8>>) -> u8 {
    if input_length == 0 {
        1
    } else {
        match input {
            Some(bytes) if bytes.len() >= LN8000_HVDCPREQUEST_BYTES => bytes[0],
            _ => 0,
        }
    }
}

/// The cell that is remembered (µV), or the assumed one where none was read yet.
#[verifier::allow_in_spec]
pub fn known_cell_uv(battery: &Battery) -> (vbat_uv: u32)
    returns
        (if battery.last_vbat_uv > 0 {
            battery.last_vbat_uv
        } else {
            VBAT_ASSUMED_UV
        }),
{
    if battery.last_vbat_uv > 0 {
        battery.last_vbat_uv
    } else {
        VBAT_ASSUMED_UV
    }
}

/// What is told of a negotiation, with the cell that its target goes by.
#[verifier::allow_in_spec]
pub fn negotiation_report(command: u8, hvdcp: HvdcpState, vbat_uv: u32, error_code: i32) -> (report:
    Ln8000HvdcpRequest)
    returns
        (Ln8000HvdcpRequest {
            command,
            apsd_status: hvdcp.apsd_status,
            apsd_result: hvdcp.apsd_result,
            pulse_cnt: if hvdcp.pulse_cnt > 255 {
                255
            } else {
                hvdcp.pulse_cnt as u8
            },
            phase: hvdcp.phase.code(),
            target_vbus_uv: target_vbus_uv(vbat_uv),
            estimated_vbus_uv: estimated_vbus_uv(hvdcp.pulse_cnt),
            error_code,
        }),
{
    let pulse_cnt: u8 = if hvdcp.pulse_cnt > 255 {
        255
    } else {
        hvdcp.pulse_cnt as u8
    };
    Ln8000HvdcpRequest {
        command,
        apsd_status: hvdcp.apsd_status,
        apsd_result: hvdcp.apsd_result,
        pulse_cnt,
        phase: hvdcp.phase.code(),
        target_vbus_uv: target_vbus_uv(vbat_uv),
        estimated_vbus_uv: estimated_vbus_uv(hvdcp.pulse_cnt),
        error_code,
    }
}

#[verifier::opaque]
pub open spec fn handle_run_hvdcp_run(
    io: Io<Op>,
    state: DriverState,
    command: u8,
    tuning: Tuning,
) -> (Io<Op>, DriverState, Ln8000HvdcpRequest) {
    if command == 0 {
        (
            io,
            state,
            negotiation_report(
                0,
                state.hvdcp,
                known_cell_uv(&state.battery),
                state.hvdcp.last_code(),
            ),
        )
    } else {
        let (io, cell) = landing::adc_run(io, state.pump_open, AdcChannel::Vbat);
        let (io, state, code) = landing::negotiate_and_rearm_run(io, state, true, tuning);
        (
            io,
            state,
            negotiation_report(command, state.hvdcp, cell_or(cell, VBAT_ASSUMED_UV), code),
        )
    }
}

/// Negotiates, or tells how the last negotiation ended: that is known without
/// asking for anything.
pub fn handle_run_hvdcp(
    io: &mut Session<Op>,
    state: &mut DriverState,
    command: u8,
    tuning: &Tuning,
) -> (answer: Ln8000HvdcpRequest)
    requires
        tuning.valid(),
    ensures
        (final(io)@, *final(state), answer) == handle_run_hvdcp_run(
            old(io)@,
            *old(state),
            command,
            *tuning,
        ),
        command == 0 ==> final(io)@ == old(io)@ && *final(state) == *old(state),
        answer.error_code == 0 || -14 <= answer.error_code <= -10,
        old(state).valid() ==> final(state).valid(),
{
    proof {
        reveal(handle_run_hvdcp_run);
    }
    if command == 0 {
        return negotiation_report(
            0,
            state.hvdcp,
            known_cell_uv(&state.battery),
            state.hvdcp.last_code(),
        );
    }
    let vbat_uv: u32 = cell_or(adc(io, state.pump_open, AdcChannel::Vbat), VBAT_ASSUMED_UV);
    let ghost asked = io@;
    let ghost before = *state;
    let code: i32 = negotiate_and_rearm(io, state, true, tuning);
    proof {
        landing::law_code_outlives_the_landing(asked, before, true, *tuning);
    }
    negotiation_report(command, state.hvdcp, vbat_uv, code)
}

// ---------------------------------------------------------------------------
// Status
// ---------------------------------------------------------------------------
/// The number under which a lifecycle is reported.
#[verifier::allow_in_spec]
pub fn lifecycle_code(state: Option<PumpState>) -> (code: u8)
    returns
        (match state {
            Some(PumpState::Probed) => 1u8,
            Some(PumpState::Configured) => 2u8,
            Some(PumpState::Switching) => 3u8,
            Some(PumpState::Faulted) => 4u8,
            _ => 0u8,
        }),
{
    match state {
        Some(PumpState::Probed) => 1,
        Some(PumpState::Configured) => 2,
        Some(PumpState::Switching) => 3,
        Some(PumpState::Faulted) => 4,
        _ => 0,
    }
}

/// The number under which a remembered mode is reported.
pub open spec fn mode_code(mode: Option<OpMode>) -> u8 {
    match mode {
        Some(mode) => mode.spec_code(),
        None => 0,
    }
}

/// 1 for yes.
#[verifier::allow_in_spec]
pub fn flag_byte(flag: bool) -> (byte: u8)
    returns
        (if flag {
            1u8
        } else {
            0u8
        }),
{
    if flag {
        1
    } else {
        0
    }
}

/// A status with the chip's registers.
pub open spec fn with_chip(status: Ln8000Status, live: Option<ChipStatus>) -> Ln8000Status {
    match live {
        Some(live) => Ln8000Status {
            op_mode: live.op_mode.spec_code(),
            sys_sts: live.sys_sts,
            fault1_sts: live.fault1_sts,
            fault2_sts: live.fault2_sts,
            safety_sts: live.safety_sts,
            critical_fault: flag_byte(live.critical),
            ..status
        },
        None => status,
    }
}

#[verifier::opaque]
pub open spec fn chip_part_run(io: Io<Op>, state: DriverState) -> (Io<Op>, Ln8000Status) {
    let (io, lifecycle) = if state.pump_open {
        io.lifecycle(Op::PumpLifecycle)
    } else {
        (io, None)
    };
    let (io, totals) = io.totals(Op::TelemetryTotals);
    let status = Ln8000Status {
        magic: LN8000_STATUS_MAGIC,
        version: LN8000_STATUS_VERSION,
        state: lifecycle_code(lifecycle),
        writes: state.writes,
        reads: state.reads,
        last_error: state.charge.last_error,
        sessions: totals.0,
        samples: totals.1,
        ..Ln8000Status::blank()
    };
    if state.pump_open {
        let (io, remembered) = io.mode(Op::PumpMode);
        let (io, live) = io.chip(Op::PumpStatus);
        (io, with_chip(Ln8000Status { op_mode: mode_code(remembered), ..status }, live))
    } else {
        (io, status)
    }
}

/// The counters and, where there is a pump, its registers.
fn chip_part(io: &mut Session<Op>, state: &DriverState) -> (status: Ln8000Status)
    ensures
        (final(io)@, status) == chip_part_run(old(io)@, *state),
{
    proof {
        reveal(chip_part_run);
    }
    let mut status = Ln8000Status::default();
    status.magic = LN8000_STATUS_MAGIC;
    status.version = LN8000_STATUS_VERSION;
    status.writes = state.writes;
    status.reads = state.reads;
    status.last_error = state.charge.last_error;
    if state.pump_open {
        status.state = lifecycle_code(io.lifecycle(Op::PumpLifecycle));
    }
    let (sessions, samples): (u64, u64) = io.totals(Op::TelemetryTotals);
    status.sessions = sessions;
    status.samples = samples;
    if state.pump_open {
        match io.mode(Op::PumpMode) {
            Some(mode) => {
                status.op_mode = mode.code();
            },
            None => {},
        }
        match io.chip(Op::PumpStatus) {
            Some(live) => {
                status.op_mode = live.op_mode.code();
                status.sys_sts = live.sys_sts;
                status.fault1_sts = live.fault1_sts;
                status.fault2_sts = live.fault2_sts;
                status.safety_sts = live.safety_sts;
                status.critical_fault = flag_byte(live.critical);
            },
            None => {},
        }
    }
    status
}

#[verifier::opaque]
pub open spec fn readings_part_run(io: Io<Op>, pump_open: bool, status: Ln8000Status) -> (
    Io<Op>,
    Ln8000Status,
) {
    let (io, last) = io.sample(Op::TelemetryLast);
    match last {
        Some(sample) => (
            io,
            Ln8000Status {
                iin_ua: sample.iin_ua,
                vbat_uv: sample.vbat_uv,
                vbus_uv: sample.vbus_uv,
                die_temp_dc: sample.die_temp_dc,
                op_mode: if pump_open {
                    status.op_mode
                } else {
                    sample.op_mode.spec_code()
                },
                ..status
            },
        ),
        None => if pump_open {
            let (io, vbat) = io.reading(Op::PumpAdc(AdcChannel::Vbat));
            let (io, vbus) = io.reading(Op::PumpAdc(AdcChannel::Vin));
            let (io, iin) = io.reading(Op::PumpAdc(AdcChannel::Iin));
            let (io, temp) = io.reading(Op::PumpAdc(AdcChannel::DieTemp));
            (
                io,
                Ln8000Status {
                    vbat_uv: cell_or(vbat, 0),
                    vbus_uv: cell_or(vbus, 0),
                    iin_ua: cell_or(iin, 0),
                    die_temp_dc: reading_or(temp, 0),
                    ..status
                },
            )
        } else {
            (io, status)
        },
    }
}

/// The last sample, or a fresh reading where there is none.
fn readings_part(io: &mut Session<Op>, pump_open: bool, status: &mut Ln8000Status)
    ensures
        (final(io)@, *final(status)) == readings_part_run(old(io)@, pump_open, *old(status)),
{
    proof {
        reveal(readings_part_run);
    }
    match io.sample(Op::TelemetryLast) {
        Some(sample) => {
            status.iin_ua = sample.iin_ua;
            status.vbat_uv = sample.vbat_uv;
            status.vbus_uv = sample.vbus_uv;
            status.die_temp_dc = sample.die_temp_dc;
            if !pump_open {
                status.op_mode = sample.op_mode.code();
            }
        },
        None => {
            if pump_open {
                status.vbat_uv = cell_or(io.reading(Op::PumpAdc(AdcChannel::Vbat)), 0);
                status.vbus_uv = cell_or(io.reading(Op::PumpAdc(AdcChannel::Vin)), 0);
                status.iin_ua = cell_or(io.reading(Op::PumpAdc(AdcChannel::Iin)), 0);
                status.die_temp_dc = reading_or(io.reading(Op::PumpAdc(AdcChannel::DieTemp)), 0);
            }
        },
    }
}

/// What the battery is fed with on a status request.
pub open spec fn status_readings(
    status: Ln8000Status,
    peak_ua: u32,
    soc_rising: bool,
    now_ms: u64,
) -> Readings {
    Readings {
        vbat_uv: status.vbat_uv,
        vbus_uv: status.vbus_uv,
        iin_ua: status.iin_ua,
        iin_peak_ua: peak_ua,
        vac_unplug: status.fault1_sts & FAULT1_VAC_UNPLUG != 0,
        usable: status.vbat_uv > 0 && status.vbus_uv > 0,
        soc_rising,
        now_ms,
    }
}

#[verifier::opaque]
pub open spec fn battery_part_run(
    io: Io<Op>,
    state: DriverState,
    status: Ln8000Status,
    tuning: Tuning,
) -> (Io<Op>, Battery) {
    if status.vbat_uv > 0 || status.vbus_uv > 0 {
        let (io, now_ms) = io.millis(Op::Now);
        let (io, battery) = battery::update_from_telemetry_run(
            io,
            state.battery,
            status_readings(status, state.iin.max_ua, state.battery.soc_rising, now_ms),
            tuning,
        );
        (
            if state.device_ready {
                io.mark("BattPct", battery.last_pct)
                    .mark("BattVbat", status.vbat_uv / 1000)
                    .mark("BattPwr", battery.last_power_state)
            } else {
                io
            },
            battery,
        )
    } else {
        (io, state.battery)
    }
}

/// Feeds the battery with the reported readings, if there are any.
fn battery_part(
    io: &mut Session<Op>,
    state: &mut DriverState,
    status: &Ln8000Status,
    tuning: &Tuning,
)
    ensures
        (final(io)@, final(state).battery) == battery_part_run(
            old(io)@,
            *old(state),
            *status,
            *tuning,
        ),
        *final(state) == (DriverState { battery: final(state).battery, ..*old(state) }),
        old(state).valid() ==> final(state).valid(),
{
    proof {
        reveal(battery_part_run);
    }
    if status.vbat_uv > 0 || status.vbus_uv > 0 {
        let now_ms: u64 = io.millis(Op::Now);
        let readings = Readings {
            vbat_uv: status.vbat_uv,
            vbus_uv: status.vbus_uv,
            iin_ua: status.iin_ua,
            iin_peak_ua: state.iin.max_ua,
            vac_unplug: status.fault1_sts & FAULT1_VAC_UNPLUG != 0,
            usable: status.vbat_uv > 0 && status.vbus_uv > 0,
            soc_rising: soc_rising(&state.battery),
            now_ms,
        };
        proof {
            if state.valid() {
                battery::law_tick_publishes_the_state(io@, state.battery, readings, *tuning);
            }
        }
        update_from_telemetry(io, &mut state.battery, &readings, tuning);
        if state.device_ready {
            io.mark("BattPct", last_percent(&state.battery));
            io.mark("BattVbat", status.vbat_uv / 1000);
            io.mark("BattPwr", last_power_state(&state.battery));
        }
    }
}

#[verifier::opaque]
pub open spec fn handle_get_status_run(io: Io<Op>, state: DriverState, tuning: Tuning) -> (
    Io<Op>,
    DriverState,
    Ln8000Status,
) {
    let (io, status) = chip_part_run(io, state);
    let (io, status) = readings_part_run(io, state.pump_open, status);
    let (io, battery) = battery_part_run(io, state, status, tuning);
    (io, DriverState { battery, ..state }, status)
}

/// Reports the status.
pub fn handle_get_status(io: &mut Session<Op>, state: &mut DriverState, tuning: &Tuning) -> (answer: Ln8000Status)
    ensures
        (final(io)@, *final(state), answer) == handle_get_status_run(
            old(io)@,
            *old(state),
            *tuning,
        ),
        old(state).valid() ==> final(state).valid(),
{
    proof {
        reveal(handle_get_status_run);
    }
    let mut status = chip_part(io, state);
    readings_part(io, state.pump_open, &mut status);
    battery_part(io, state, &status, tuning);
    status
}

// ---------------------------------------------------------------------------
// Registers
// ---------------------------------------------------------------------------
#[verifier::opaque]
pub open spec fn handle_read_reg_run(io: Io<Op>, state: DriverState, request: Ln8000RegRequest) -> (
    Io<Op>,
    DriverState,
    Ln8000RegRequest,
) {
    if state.pump_open {
        let (io, value) = io.register(Op::PumpRead(request.addr));
        let (io, counters) = io.counters(Op::PumpCounters);
        (
            io,
            DriverState { writes: counters.0, reads: counters.1, ..state },
            match value {
                Ok(value) => Ln8000RegRequest { value, ..request },
                Err(err) => Ln8000RegRequest {
                    error_code: pump::spec_pump_error_code(err),
                    ..request
                },
            },
        )
    } else {
        (io, state, Ln8000RegRequest { error_code: (-1) as i32, ..request })
    }
}

/// Reads a register.
pub fn handle_read_reg(
    io: &mut Session<Op>,
    state: &mut DriverState,
    request: Ln8000RegRequest,
) -> (answer: Ln8000RegRequest)
    ensures
        (final(io)@, *final(state), answer) == handle_read_reg_run(
            old(io)@,
            *old(state),
            request,
        ),
        old(state).valid() ==> final(state).valid(),
{
    proof {
        reveal(handle_read_reg_run);
    }
    let mut answer = request;
    if state.pump_open {
        match io.register(Op::PumpRead(request.addr)) {
            Ok(value) => {
                answer.value = value;
            },
            Err(err) => {
                answer.error_code = pump_error_code(err);
            },
        }
        let (writes, reads): (u32, u32) = io.counters(Op::PumpCounters);
        state.writes = writes;
        state.reads = reads;
    } else {
        answer.error_code = -1;
    }
    answer
}

#[verifier::opaque]
pub open spec fn handle_write_reg_run(
    io: Io<Op>,
    state: DriverState,
    request: Ln8000RegRequest,
) -> (Io<Op>, DriverState, Ln8000RegRequest) {
    if state.pump_open {
        let (io, written) = io.effect(Op::PumpWrite(request.addr, request.value));
        let (io, counters) = io.counters(Op::PumpCounters);
        (
            io,
            DriverState { writes: counters.0, reads: counters.1, ..state },
            match written {
                Ok(_) => request,
                Err(err) => Ln8000RegRequest {
                    error_code: pump::spec_pump_error_code(err),
                    ..request
                },
            },
        )
    } else {
        (io, state, Ln8000RegRequest { error_code: (-1) as i32, ..request })
    }
}

/// Writes a register.
pub fn handle_write_reg(
    io: &mut Session<Op>,
    state: &mut DriverState,
    request: Ln8000RegRequest,
) -> (answer: Ln8000RegRequest)
    ensures
        (final(io)@, *final(state), answer) == handle_write_reg_run(
            old(io)@,
            *old(state),
            request,
        ),
        old(state).valid() ==> final(state).valid(),
{
    proof {
        reveal(handle_write_reg_run);
    }
    let mut answer = request;
    if state.pump_open {
        match io.effect(Op::PumpWrite(request.addr, request.value)) {
            Ok(()) => {},
            Err(err) => {
                answer.error_code = pump_error_code(err);
            },
        }
        let (writes, reads): (u32, u32) = io.counters(Op::PumpCounters);
        state.writes = writes;
        state.reads = reads;
    } else {
        answer.error_code = -1;
    }
    answer
}

// ---------------------------------------------------------------------------
// Limits
// ---------------------------------------------------------------------------
#[verifier::opaque]
pub open spec fn set_current_run(io: Io<Op>, request: Ln8000LimitsRequest) -> (
    Io<Op>,
    Ln8000LimitsRequest,
) {
    if request.iin_ua > 0 {
        let (io, code) = io.register(Op::PumpIinLimit(request.iin_ua));
        match code {
            Ok(code) => {
                let (io, applied) = io.word(Op::PumpDecodeIin(code));
                (
                    io.tell(Op::GuardCeiling(applied)),
                    Ln8000LimitsRequest { applied_iin_ua: applied, ..request },
                )
            },
            Err(err) => (
                io,
                Ln8000LimitsRequest { error_code: pump::spec_pump_error_code(err), ..request },
            ),
        }
    } else {
        (io, request)
    }
}

/// Sets the input current limit; what the chip took becomes the guard's ceiling
/// and target.
fn set_current(io: &mut Session<Op>, request: &mut Ln8000LimitsRequest)
    ensures
        (final(io)@, *final(request)) == set_current_run(old(io)@, *old(request)),
{
    proof {
        reveal(set_current_run);
    }
    if request.iin_ua > 0 {
        match io.register(Op::PumpIinLimit(request.iin_ua)) {
            Ok(code) => {
                let applied: u32 = io.word(Op::PumpDecodeIin(code));
                request.applied_iin_ua = applied;
                io.tell(Op::GuardCeiling(applied));
            },
            Err(err) => {
                request.error_code = pump_error_code(err);
            },
        }
    }
}

#[verifier::opaque]
pub open spec fn handle_set_limits_run(
    io: Io<Op>,
    pump_open: bool,
    request: Ln8000LimitsRequest,
) -> (Io<Op>, Ln8000LimitsRequest) {
    if pump_open {
        let (io, request) = set_current_run(io, request);
        if request.vbat_uv > 0 {
            let (io, set) = io.effect(Op::PumpVbatFloat(request.vbat_uv));
            (io, match set {
                Ok(_) => request,
                Err(err) => Ln8000LimitsRequest {
                    error_code: pump::spec_pump_error_code(err),
                    ..request
                },
            })
        } else {
            (io, request)
        }
    } else {
        (io, Ln8000LimitsRequest { error_code: (-1) as i32, ..request })
    }
}

/// Sets the limits that are not 0.
pub fn handle_set_limits(
    io: &mut Session<Op>,
    pump_open: bool,
    request: Ln8000LimitsRequest,
) -> (answer: Ln8000LimitsRequest)
    ensures
        (final(io)@, answer) == handle_set_limits_run(old(io)@, pump_open, request),
{
    proof {
        reveal(handle_set_limits_run);
    }
    let mut answer = request;
    if pump_open {
        set_current(io, &mut answer);
        if answer.vbat_uv > 0 {
            match io.effect(Op::PumpVbatFloat(answer.vbat_uv)) {
                Ok(()) => {},
                Err(err) => {
                    answer.error_code = pump_error_code(err);
                },
            }
        }
    } else {
        answer.error_code = -1;
    }
    answer
}

// ---------------------------------------------------------------------------
// Mode
// ---------------------------------------------------------------------------
pub open spec fn enter_mode_run(io: Io<Op>, mode: u8) -> (Io<Op>, Result<OpMode, PumpError>) {
    if mode == 1 {
        let (io, idle) = io.effect(Op::PumpStandby);
        (io, match idle {
            Ok(_) => Ok(OpMode::Standby),
            Err(err) => Err(err),
        })
    } else if mode == 2 {
        io.engaged(Op::PumpBypass)
    } else {
        io.engaged(Op::PumpSwitching)
    }
}

fn enter_mode(io: &mut Session<Op>, mode: u8) -> (r: Result<OpMode, PumpError>)
    ensures
        (final(io)@, r) == enter_mode_run(old(io)@, mode),
{
    if mode == 1 {
        match io.effect(Op::PumpStandby) {
            Ok(()) => Ok(OpMode::Standby),
            Err(err) => Err(err),
        }
    } else if mode == 2 {
        io.engaged(Op::PumpBypass)
    } else {
        io.engaged(Op::PumpSwitching)
    }
}

pub open spec fn bypass_permitted_run(io: Io<Op>) -> (Io<Op>, bool) {
    let (io, vin) = io.reading(Op::PumpAdc(AdcChannel::Vin));
    let (io, vbat) = io.reading(Op::PumpAdc(AdcChannel::Vbat));
    io.flag(Op::BypassAllowed { vin_uv: reading_or(vin, 0), vbat_uv: cell_or(vbat, 0) })
}

fn bypass_permitted(io: &mut Session<Op>) -> (permitted: bool)
    ensures
        (final(io)@, permitted) == bypass_permitted_run(old(io)@),
{
    let vin_uv: i32 = reading_or(io.reading(Op::PumpAdc(AdcChannel::Vin)), 0);
    let vbat_uv: u32 = cell_or(io.reading(Op::PumpAdc(AdcChannel::Vbat)), 0);
    io.flag(Op::BypassAllowed { vin_uv, vbat_uv })
}

#[verifier::opaque]
pub open spec fn set_mode_run(io: Io<Op>, pump_open: bool, request: Ln8000ModeRequest) -> (
    Io<Op>,
    Ln8000ModeRequest,
) {
    if pump_open {
        let (io, permitted) = if request.mode == 2 {
            bypass_permitted_run(io)
        } else {
            (io, true)
        };
        if !permitted {
            (
                io,
                Ln8000ModeRequest { error_code: ERR_BYPASS_VIN_OUT_OF_WINDOW, ..request },
            )
        } else {
            let (io, entered) = enter_mode_run(io, request.mode);
            (io, match entered {
                Ok(mode) => Ln8000ModeRequest { applied_mode: mode.spec_code(), ..request },
                Err(err) => Ln8000ModeRequest {
                    error_code: pump::spec_pump_error_code(err),
                    ..request
                },
            })
        }
    } else {
        (io, Ln8000ModeRequest { error_code: (-1) as i32, ..request })
    }
}

/// Sets one of the three modes by hand. 1:1 is refused at an input outside its
/// window: it would feed the input straight to the cell.
fn set_mode(io: &mut Session<Op>, pump_open: bool, request: Ln8000ModeRequest) -> (answer:
    Ln8000ModeRequest)
    ensures
        (final(io)@, answer) == set_mode_run(old(io)@, pump_open, request),
{
    proof {
        reveal(set_mode_run);
    }
    let mut answer = request;
    if !pump_open {
        answer.error_code = -1;
        return answer;
    }
    if request.mode == 2 && !bypass_permitted(io) {
        answer.error_code = ERR_BYPASS_VIN_OUT_OF_WINDOW;
        return answer;
    }
    match enter_mode(io, request.mode) {
        Ok(mode) => {
            answer.applied_mode = mode.code();
        },
        Err(err) => {
            answer.error_code = pump_error_code(err);
        },
    }
    answer
}

pub open spec fn handle_set_mode_run(io: Io<Op>, pump_open: bool, request: Ln8000ModeRequest) -> (
    Io<Op>,
    Result<Ln8000ModeRequest, i32>,
) {
    if request.mode < 1 || request.mode > 3 {
        (io, Err(STATUS_INVALID_PARAMETER))
    } else {
        let (io, answer) = set_mode_run(io, pump_open, request);
        (io, Ok(answer))
    }
}

/// Sets the mode by hand: standby, 1:1 or 2:1. Any other is refused with a status.
pub fn handle_set_mode(
    io: &mut Session<Op>,
    pump_open: bool,
    request: Ln8000ModeRequest,
) -> (answer: Result<Ln8000ModeRequest, i32>)
    ensures
        (final(io)@, answer) == handle_set_mode_run(old(io)@, pump_open, request),
{
    if request.mode < 1 || request.mode > 3 {
        return Err(STATUS_INVALID_PARAMETER);
    }
    Ok(set_mode(io, pump_open, request))
}

/// A refused 1:1 is answered with its own code and never reaches the pump.
pub proof fn law_refused_bypass_does_not_reach_the_pump(io: Io<Op>, request: Ln8000ModeRequest)
    requires
        request.mode == 2,
        !bypass_permitted_run(io).1,
    ensures
        handle_set_mode_run(io, true, request) == (
            bypass_permitted_run(io).0,
            Ok::<Ln8000ModeRequest, i32>(
                Ln8000ModeRequest { error_code: ERR_BYPASS_VIN_OUT_OF_WINDOW, ..request },
            ),
        ),
{
    reveal(set_mode_run);
}

// ---------------------------------------------------------------------------
// Charge
// ---------------------------------------------------------------------------
#[verifier::opaque]
pub open spec fn switch_charge_run(io: Io<Op>, charge: ChargeLoop, on: bool, tuning: Tuning) -> (
    Io<Op>,
    ChargeLoop,
    Result<OpMode, PumpError>,
) {
    if on {
        let (io, started) = landing::start_charge_run(io, tuning);
        let (io, charge) = landing::note_attempt_run(io, charge, started.result, true);
        (io, charge, started.result)
    } else {
        let (io, result) = io.engaged(Op::PumpCharge(false));
        (io, charge, result)
    }
}

/// Starts or stops the charge by hand.
fn switch_charge(io: &mut Session<Op>, charge: &mut ChargeLoop, on: bool, tuning: &Tuning) -> (r: Result<
    OpMode,
    PumpError,
>)
    ensures
        (final(io)@, *final(charge), r) == switch_charge_run(
            old(io)@,
            *old(charge),
            on,
            *tuning,
        ),
{
    proof {
        reveal(switch_charge_run);
    }
    if on {
        let started = start_charge(io, tuning);
        note_attempt(io, charge, started.result, true);
        started.result
    } else {
        io.engaged(Op::PumpCharge(false))
    }
}

/// The answer to a charge request: the entered mode, or the failure together
/// with the mode that the chip reports; the chip's raw status either way.
pub open spec fn charge_answer(
    request: Ln8000ChargeRequest,
    result: Result<OpMode, PumpError>,
    live: Option<ChipStatus>,
) -> Ln8000ChargeRequest {
    Ln8000ChargeRequest {
        applied_mode: match result {
            Ok(mode) => mode.spec_code(),
            Err(_) => match live {
                Some(live) => live.op_mode.spec_code(),
                None => 0,
            },
        },
        sys_sts: match live {
            Some(live) => live.sys_sts,
            None => 0,
        },
        error_code: match result {
            Ok(_) => 0,
            Err(err) => pump::spec_pump_error_code(err),
        },
        ..request
    }
}

#[verifier::opaque]
pub open spec fn handle_set_charge_run(
    io: Io<Op>,
    state: DriverState,
    request: Ln8000ChargeRequest,
    tuning: Tuning,
) -> (Io<Op>, DriverState, Ln8000ChargeRequest) {
    if state.pump_open {
        let (io, charge, result) = switch_charge_run(io, state.charge, request.on != 0, tuning);
        let (io, live) = io.chip(Op::PumpStatus);
        let answer = charge_answer(request, result, live);
        (
            io,
            DriverState {
                charge: ChargeLoop { last_error: answer.error_code, ..charge },
                ..state
            },
            answer,
        )
    } else {
        (io, state, Ln8000ChargeRequest { error_code: (-1) as i32, ..request })
    }
}

/// Starts or stops the charge by hand. It never fails silently: the caller sees
/// the raw status of the chip.
pub fn handle_set_charge(
    io: &mut Session<Op>,
    state: &mut DriverState,
    request: Ln8000ChargeRequest,
    tuning: &Tuning,
) -> (answer: Ln8000ChargeRequest)
    ensures
        (final(io)@, *final(state), answer) == handle_set_charge_run(
            old(io)@,
            *old(state),
            request,
            *tuning,
        ),
        old(state).valid() ==> final(state).valid(),
{
    proof {
        reveal(handle_set_charge_run);
    }
    let mut answer = request;
    if !state.pump_open {
        answer.error_code = -1;
        return answer;
    }
    let result = switch_charge(io, &mut state.charge, request.on != 0, tuning);
    let live = io.chip(Op::PumpStatus);
    answer.sys_sts =
    match live {
        Some(live) => live.sys_sts,
        None => 0,
    };
    match result {
        Ok(mode) => {
            answer.applied_mode = mode.code();
            answer.error_code = 0;
        },
        Err(err) => {
            answer.applied_mode =
            match live {
                Some(live) => live.op_mode.code(),
                None => 0,
            };
            answer.error_code = pump_error_code(err);
        },
    }
    state.charge.last_error = answer.error_code;
    answer
}

// ---------------------------------------------------------------------------
// Sessions and samples
// ---------------------------------------------------------------------------
#[verifier::opaque]
pub open spec fn handle_get_sessions_run(io: Io<Op>) -> (Io<Op>, Ln8000Sessions) {
    let (io, totals) = io.totals(Op::TelemetryTotals);
    let (io, now) = io.millis(Op::Now);
    let (io, current) = io.summary(Op::TelemetryCurrent(now));
    let (io, last) = io.summary(Op::TelemetryFinished(now));
    let answer = Ln8000Sessions { total: totals.0, ..Ln8000Sessions::blank() };
    let answer = match current {
        Some(session) => Ln8000Sessions {
            current_ms: session.duration_ms,
            current_peak_iin_ua: session.peak_iin_ua,
            current_fast: flag_byte(session.fast),
            ..answer
        },
        None => answer,
    };
    (io, match last {
        Some(session) => Ln8000Sessions {
            last_ms: session.duration_ms,
            last_peak_iin_ua: session.peak_iin_ua,
            last_peak_temp_dc: session.peak_die_temp_dc,
            last_fast: flag_byte(session.fast),
            ..answer
        },
        None => answer,
    })
}

/// Reports the running and the last charge session.
pub fn handle_get_sessions(io: &mut Session<Op>) -> (answer: Ln8000Sessions)
    ensures
        (final(io)@, answer) == handle_get_sessions_run(old(io)@),
{
    proof {
        reveal(handle_get_sessions_run);
    }
    let mut answer = Ln8000Sessions::default();
    let (sessions, _samples): (u64, u64) = io.totals(Op::TelemetryTotals);
    answer.total = sessions;
    let now: u64 = io.millis(Op::Now);
    match io.summary(Op::TelemetryCurrent(now)) {
        Some(session) => {
            answer.current_ms = session.duration_ms;
            answer.current_peak_iin_ua = session.peak_iin_ua;
            answer.current_fast = flag_byte(session.fast);
        },
        None => {},
    }
    match io.summary(Op::TelemetryFinished(now)) {
        Some(session) => {
            answer.last_ms = session.duration_ms;
            answer.last_peak_iin_ua = session.peak_iin_ua;
            answer.last_peak_temp_dc = session.peak_die_temp_dc;
            answer.last_fast = flag_byte(session.fast);
        },
        None => {},
    }
    answer
}

/// A sample as it is reported.
pub open spec fn reported(sample: TelemetrySample) -> Ln8000Sample {
    Ln8000Sample {
        ts_ms: sample.ts_ms,
        vbat_uv: sample.vbat_uv,
        vbus_uv: sample.vbus_uv,
        iin_ua: sample.iin_ua,
        die_temp_dc: sample.die_temp_dc,
        op_mode: sample.op_mode.spec_code(),
        input_present: flag_byte(sample.input_present),
        reserved: [0u8, 0u8],
    }
}

/// A sample as it is reported.
pub fn to_sample(sample: &TelemetrySample) -> (r: Ln8000Sample)
    ensures
        r == reported(*sample),
{
    Ln8000Sample {
        ts_ms: sample.ts_ms,
        vbat_uv: sample.vbat_uv,
        vbus_uv: sample.vbus_uv,
        iin_ua: sample.iin_ua,
        die_temp_dc: sample.die_temp_dc,
        op_mode: sample.op_mode.code(),
        input_present: flag_byte(sample.input_present),
        reserved: [0, 0],
    }
}

/// How many samples an output block holds: the first in the header, the others
/// behind it.
#[verifier::allow_in_spec]
pub fn sample_capacity(output_length: usize) -> (capacity: usize)
    returns
        (if output_length < LN8000_SAMPLESREQUEST_BYTES {
            0usize
        } else {
            (1 + (output_length - LN8000_SAMPLESREQUEST_BYTES) / LN8000_SAMPLE_BYTES as int) as usize
        }),
{
    if output_length < LN8000_SAMPLESREQUEST_BYTES {
        0
    } else {
        1 + (output_length - LN8000_SAMPLESREQUEST_BYTES) / LN8000_SAMPLE_BYTES
    }
}

/// How many samples are reported at most: what the block holds, what was asked for,
/// and what the ring holds.
#[verifier::allow_in_spec]
pub fn sample_limit(output_length: usize, requested: Option<u32>, ring: usize) -> (limit: usize)
    returns
        ({
            let capacity = sample_capacity(output_length);
            let wanted = match requested {
                Some(count) => if (count as usize) < capacity {
                    count as usize
                } else {
                    capacity
                },
                None => capacity,
            };
            if wanted < ring {
                wanted
            } else {
                ring
            }
        }),
{
    let capacity: usize = sample_capacity(output_length);
    let wanted: usize = match requested {
        Some(count) => if (count as usize) < capacity {
            count as usize
        } else {
            capacity
        },
        None => capacity,
    };
    if wanted < ring {
        wanted
    } else {
        ring
    }
}

/// The samples from an index on, up to a limit.
pub open spec fn take_samples_run(io: Io<Op>, limit: nat, taken: Seq<Ln8000Sample>) -> (
    Io<Op>,
    Seq<Ln8000Sample>,
)
    decreases limit - taken.len(),
{
    if taken.len() >= limit {
        (io, taken)
    } else {
        let (io, sample) = io.sample(Op::TelemetryAt(taken.len() as usize));
        match sample {
            None => (io, taken),
            Some(sample) => take_samples_run(io, limit, taken.push(reported(sample))),
        }
    }
}

/// Takes samples in the ring's order, up to a limit.
fn take_samples(io: &mut Session<Op>, limit: usize) -> (taken: Vec<Ln8000Sample>)
    ensures
        (final(io)@, taken@) == take_samples_run(old(io)@, limit as nat, Seq::empty()),
        taken@.len() <= limit,
{
    let mut taken: Vec<Ln8000Sample> = Vec::new();
    while taken.len() < limit
        invariant
            take_samples_run(io@, limit as nat, taken@) == take_samples_run(
                old(io)@,
                limit as nat,
                Seq::empty(),
            ),
            taken@.len() <= limit,
        decreases limit - taken@.len(),
    {
        match io.sample(Op::TelemetryAt(taken.len())) {
            None => {
                return taken;
            },
            Some(sample) => {
                taken.push(to_sample(&sample));
            },
        }
    }
    taken
}

/// Samples in memory, one after the other.
pub open spec fn samples_bytes(samples: Seq<Ln8000Sample>) -> Seq<u8>
    decreases samples.len(),
{
    if samples.len() == 0 {
        Seq::empty()
    } else {
        samples_bytes(samples.drop_last()) + samples.last().bytes()
    }
}

/// A count that is reported; one that does not fit is 0.
#[verifier::allow_in_spec]
pub fn count_word(count: usize) -> (word: u32)
    returns
        (if count <= u32::MAX {
            count as u32
        } else {
            0u32
        }),
{
    if count <= u32::MAX as usize {
        count as u32
    } else {
        0
    }
}

/// The header of a sample report.
pub open spec fn samples_header(limit: usize, samples: Seq<Ln8000Sample>) -> Ln8000SamplesRequest {
    Ln8000SamplesRequest {
        count: count_word(limit),
        available: count_word(samples.len() as usize),
        first: if samples.len() > 0 {
            samples[0]
        } else {
            Ln8000Sample::blank()
        },
    }
}

/// The samples that do not stand in the header.
pub open spec fn later_samples(samples: Seq<Ln8000Sample>) -> Seq<Ln8000Sample> {
    if samples.len() > 0 {
        samples.drop_first()
    } else {
        samples
    }
}

/// A sample report: the header with the first sample, then the others, each once.
pub open spec fn samples_report(limit: usize, samples: Seq<Ln8000Sample>) -> Seq<u8> {
    samples_header(limit, samples).bytes() + samples_bytes(later_samples(samples))
}

fn pack_samples(limit: usize, samples: &Vec<Ln8000Sample>) -> (out: Vec<u8>)
    ensures
        out@ == samples_report(limit, samples@),
{
    let mut header = Ln8000SamplesRequest::default();
    header.count = count_word(limit);
    header.available = count_word(samples.len());
    if samples.len() > 0 {
        header.first = samples[0];
    }
    let mut out: Vec<u8> = header.encode();
    let ghost head = out@;
    let ghost later = later_samples(samples@);
    let mut index: usize = 1;
    assert(later.take(0) == Seq::<Ln8000Sample>::empty());
    assert(out@ == head + samples_bytes(later.take(0)));
    while index < samples.len()
        invariant
            1 <= index,
            samples@.len() > 0 ==> index <= samples@.len(),
            samples@.len() == 0 ==> index == 1,
            later == later_samples(samples@),
            out@ == head + samples_bytes(later.take(index - 1)),
        decreases samples@.len() - index,
    {
        assert(later.take(index as int).drop_last() == later.take(index - 1));
        assert(later.take(index as int).last() == samples@[index as int]);
        let mut one: Vec<u8> = samples[index].encode();
        out.append(&mut one);
        index = index + 1;
    }
    assert(later.take(index - 1) == later);
    out
}

/// What a sample request asks for, where its block can be read.
pub open spec fn requested_of(input: Option<Seq<u8>>) -> Option<u32> {
    match input {
        Some(bytes) if bytes.len() >= LN8000_SAMPLESREQUEST_BYTES => Some(wire::u32_at(bytes, 0)),
        _ => None,
    }
}

/// Reports samples in the ring's order, as many as are asked for and fit.
pub fn handle_get_samples(
    io: &mut Session<Op>,
    requested: Option<u32>,
    output_length: usize,
    tuning: &Tuning,
) -> (out: Vec<u8>)
    ensures
        ({
            let limit = sample_limit(output_length, requested, tuning.sample_ring);
            let (after, samples) = take_samples_run(old(io)@, limit as nat, Seq::empty());
            final(io)@ == after && out@ == samples_report(limit, samples)
        }),
        output_length >= LN8000_SAMPLESREQUEST_BYTES ==> out@.len() <= output_length,
{
    let limit: usize = sample_limit(output_length, requested, tuning.sample_ring);
    let samples = take_samples(io, limit);
    proof {
        law_report_length(limit, samples@);
    }
    pack_samples(limit, &samples)
}

proof fn lemma_sample_bytes_len(sample: Ln8000Sample)
    ensures
        sample.bytes().len() == LN8000_SAMPLE_BYTES,
{
}

proof fn lemma_header_bytes_len(header: Ln8000SamplesRequest)
    ensures
        header.bytes().len() == LN8000_SAMPLESREQUEST_BYTES,
{
    lemma_sample_bytes_len(header.first);
}

proof fn lemma_samples_bytes_len(samples: Seq<Ln8000Sample>)
    ensures
        samples_bytes(samples).len() == samples.len() * LN8000_SAMPLE_BYTES,
    decreases samples.len(),
{
    if samples.len() > 0 {
        lemma_samples_bytes_len(samples.drop_last());
        lemma_sample_bytes_len(samples.last());
    }
}

/// A report is as long as its header and the samples behind the first, which
/// stands in the header.
pub proof fn law_report_length(limit: usize, samples: Seq<Ln8000Sample>)
    ensures
        samples_report(limit, samples).len() == LN8000_SAMPLESREQUEST_BYTES + (if samples.len()
            > 0 {
            (samples.len() - 1) * LN8000_SAMPLE_BYTES
        } else {
            0
        }),
{
    lemma_header_bytes_len(samples_header(limit, samples));
    lemma_samples_bytes_len(later_samples(samples));
}

/// A report counts what it holds, and no more than was asked for: the counted
/// samples are all there, the first in the header.
pub proof fn law_report_counts_its_samples(limit: usize, samples: Seq<Ln8000Sample>)
    requires
        samples.len() <= limit <= u32::MAX,
    ensures
        samples_header(limit, samples).available == samples.len(),
        samples_header(limit, samples).available <= samples_header(limit, samples).count,
        samples_header(limit, samples).count == limit,
        samples.len() > 0 ==> seq![samples_header(limit, samples).first] + later_samples(samples)
            == samples,
{
    if samples.len() > 0 {
        assert(seq![samples[0]] + samples.drop_first() =~= samples);
    }
}

/// The limit never passes the output block.
pub proof fn law_limit_fits(output_length: usize, requested: Option<u32>, ring: usize)
    requires
        output_length >= LN8000_SAMPLESREQUEST_BYTES,
    ensures
        LN8000_SAMPLESREQUEST_BYTES + (sample_limit(output_length, requested, ring) - 1)
            * LN8000_SAMPLE_BYTES <= output_length,
        sample_limit(output_length, requested, ring) <= ring,
        requested matches Some(count) ==> sample_limit(output_length, requested, ring) <= count,
{
}

// ---------------------------------------------------------------------------
// Dispatch
// ---------------------------------------------------------------------------
/// The mathematical view of a [`Request`].
#[verifier::ext_equal]
pub struct Asked {
    /// Its control code.
    pub code: u32,
    /// Length of its input, as announced.
    pub input_length: usize,
    /// Its input, where it could be had.
    pub input: Option<Seq<u8>>,
    /// Length of its output block, or the status for which there is none.
    pub output: Result<usize, i32>,
}

impl View for Request {
    type V = Asked;

    open spec fn view(&self) -> Asked {
        Asked {
            code: self.code,
            input_length: self.input_length,
            input: match self.input {
                Some(bytes) => Some(bytes@),
                None => None,
            },
            output: self.output,
        }
    }
}

pub open spec fn serve_reg_run(io: Io<Op>, state: DriverState, asked: Asked) -> (
    Io<Op>,
    DriverState,
    Ended,
) {
    if asked.input_length < LN8000_REGREQUEST_BYTES {
        (io, state, refused(STATUS_BUFFER_TOO_SMALL))
    } else {
        match asked.input {
            None => (io, state, refused(STATUS_INVALID_PARAMETER)),
            Some(bytes) => match Ln8000RegRequest::of_bytes(bytes) {
                None => (io, state, refused(STATUS_INVALID_PARAMETER)),
                Some(request) => {
                    let (io, state, answer) = if asked.code == IOCTL_LN8000_READ_REG {
                        handle_read_reg_run(io, state, request)
                    } else {
                        handle_write_reg_run(io, state, request)
                    };
                    (io, state, answered(asked.output, answer.bytes()))
                },
            },
        }
    }
}

fn serve_reg(io: &mut Session<Op>, state: &mut DriverState, request: &Request) -> (c: Completion)
    ensures
        (final(io)@, *final(state), c@) == serve_reg_run(old(io)@, *old(state), request@),
        old(state).valid() ==> final(state).valid(),
{
    if request.input_length < LN8000_REGREQUEST_BYTES {
        return refuse(STATUS_BUFFER_TOO_SMALL);
    }
    match &request.input {
        None => refuse(STATUS_INVALID_PARAMETER),
        Some(bytes) => match Ln8000RegRequest::decode(bytes.as_slice()) {
            None => refuse(STATUS_INVALID_PARAMETER),
            Some(block) => {
                let done = if request.code == IOCTL_LN8000_READ_REG {
                    handle_read_reg(io, state, block)
                } else {
                    handle_write_reg(io, state, block)
                };
                answer(request.output, done.encode())
            },
        },
    }
}

pub open spec fn serve_limits_run(io: Io<Op>, pump_open: bool, asked: Asked) -> (Io<Op>, Ended) {
    if asked.input_length < LN8000_LIMITSREQUEST_BYTES {
        (io, refused(STATUS_BUFFER_TOO_SMALL))
    } else {
        match asked.input {
            None => (io, refused(STATUS_INVALID_PARAMETER)),
            Some(bytes) => match Ln8000LimitsRequest::of_bytes(bytes) {
                None => (io, refused(STATUS_INVALID_PARAMETER)),
                Some(request) => {
                    let (io, answer) = handle_set_limits_run(io, pump_open, request);
                    (io, answered(asked.output, answer.bytes()))
                },
            },
        }
    }
}

fn serve_limits(io: &mut Session<Op>, pump_open: bool, request: &Request) -> (c: Completion)
    ensures
        (final(io)@, c@) == serve_limits_run(old(io)@, pump_open, request@),
{
    if request.input_length < LN8000_LIMITSREQUEST_BYTES {
        return refuse(STATUS_BUFFER_TOO_SMALL);
    }
    match &request.input {
        None => refuse(STATUS_INVALID_PARAMETER),
        Some(bytes) => match Ln8000LimitsRequest::decode(bytes.as_slice()) {
            None => refuse(STATUS_INVALID_PARAMETER),
            Some(block) => {
                let done = handle_set_limits(io, pump_open, block);
                answer(request.output, done.encode())
            },
        },
    }
}

pub open spec fn serve_mode_run(io: Io<Op>, pump_open: bool, asked: Asked) -> (Io<Op>, Ended) {
    if asked.input_length < LN8000_MODEREQUEST_BYTES {
        (io, refused(STATUS_BUFFER_TOO_SMALL))
    } else {
        match asked.input {
            None => (io, refused(STATUS_INVALID_PARAMETER)),
            Some(bytes) => match Ln8000ModeRequest::of_bytes(bytes) {
                None => (io, refused(STATUS_INVALID_PARAMETER)),
                Some(request) => {
                    let (io, answer) = handle_set_mode_run(io, pump_open, request);
                    (io, match answer {
                        Err(status) => refused(status),
                        Ok(answer) => answered(asked.output, answer.bytes()),
                    })
                },
            },
        }
    }
}

fn serve_mode(io: &mut Session<Op>, pump_open: bool, request: &Request) -> (c: Completion)
    ensures
        (final(io)@, c@) == serve_mode_run(old(io)@, pump_open, request@),
{
    if request.input_length < LN8000_MODEREQUEST_BYTES {
        return refuse(STATUS_BUFFER_TOO_SMALL);
    }
    match &request.input {
        None => refuse(STATUS_INVALID_PARAMETER),
        Some(bytes) => match Ln8000ModeRequest::decode(bytes.as_slice()) {
            None => refuse(STATUS_INVALID_PARAMETER),
            Some(block) => match handle_set_mode(io, pump_open, block) {
                Err(status) => refuse(status),
                Ok(done) => answer(request.output, done.encode()),
            },
        },
    }
}

pub open spec fn serve_charge_run(
    io: Io<Op>,
    state: DriverState,
    asked: Asked,
    tuning: Tuning,
) -> (Io<Op>, DriverState, Ended) {
    if asked.input_length < LN8000_CHARGEREQUEST_BYTES {
        (io, state, refused(STATUS_BUFFER_TOO_SMALL))
    } else {
        match asked.input {
            None => (io, state, refused(STATUS_INVALID_PARAMETER)),
            Some(bytes) => match Ln8000ChargeRequest::of_bytes(bytes) {
                None => (io, state, refused(STATUS_INVALID_PARAMETER)),
                Some(request) => {
                    let (io, state, answer) = handle_set_charge_run(io, state, request, tuning);
                    (io, state, answered(asked.output, answer.bytes()))
                },
            },
        }
    }
}

fn serve_charge(
    io: &mut Session<Op>,
    state: &mut DriverState,
    request: &Request,
    tuning: &Tuning,
) -> (c: Completion)
    ensures
        (final(io)@, *final(state), c@) == serve_charge_run(
            old(io)@,
            *old(state),
            request@,
            *tuning,
        ),
        old(state).valid() ==> final(state).valid(),
{
    if request.input_length < LN8000_CHARGEREQUEST_BYTES {
        return refuse(STATUS_BUFFER_TOO_SMALL);
    }
    match &request.input {
        None => refuse(STATUS_INVALID_PARAMETER),
        Some(bytes) => match Ln8000ChargeRequest::decode(bytes.as_slice()) {
            None => refuse(STATUS_INVALID_PARAMETER),
            Some(block) => {
                let done = handle_set_charge(io, state, block, tuning);
                answer(request.output, done.encode())
            },
        },
    }
}

pub open spec fn serve_hvdcp_run(io: Io<Op>, state: DriverState, asked: Asked, tuning: Tuning) -> (
    Io<Op>,
    DriverState,
    Ended,
) {
    if 0 < asked.input_length < LN8000_HVDCPREQUEST_BYTES {
        (io, state, refused(STATUS_BUFFER_TOO_SMALL))
    } else {
        let (io, state, answer) = handle_run_hvdcp_run(
            io,
            state,
            command_of(asked.input_length, asked.input),
            tuning,
        );
        (io, state, answered(asked.output, answer.bytes()))
    }
}

fn serve_hvdcp(
    io: &mut Session<Op>,
    state: &mut DriverState,
    request: &Request,
    tuning: &Tuning,
) -> (c: Completion)
    requires
        tuning.valid(),
    ensures
        (final(io)@, *final(state), c@) == serve_hvdcp_run(
            old(io)@,
            *old(state),
            request@,
            *tuning,
        ),
        old(state).valid() ==> final(state).valid(),
{
    let mut command: u8 = 0;
    if request.input_length >= LN8000_HVDCPREQUEST_BYTES {
        match &request.input {
            Some(bytes) => {
                if bytes.len() >= LN8000_HVDCPREQUEST_BYTES {
                    command = bytes[0];
                }
            },
            None => {},
        }
    } else if request.input_length > 0 {
        return refuse(STATUS_BUFFER_TOO_SMALL);
    } else {
        command = 1;
    }
    let done = handle_run_hvdcp(io, state, command, tuning);
    answer(request.output, done.encode())
}

pub open spec fn serve_samples_run(io: Io<Op>, asked: Asked, tuning: Tuning) -> (Io<Op>, Ended) {
    if asked.input_length < LN8000_SAMPLESREQUEST_BYTES {
        (io, refused(STATUS_BUFFER_TOO_SMALL))
    } else {
        match asked.output {
            Err(status) => (io, refused(status)),
            Ok(length) => {
                let limit = sample_limit(length, requested_of(asked.input), tuning.sample_ring);
                let (io, samples) = take_samples_run(io, limit as nat, Seq::empty());
                (io, answered(asked.output, samples_report(limit, samples)))
            },
        }
    }
}

fn serve_samples(io: &mut Session<Op>, request: &Request, tuning: &Tuning) -> (c: Completion)
    ensures
        (final(io)@, c@) == serve_samples_run(old(io)@, request@, *tuning),
{
    if request.input_length < LN8000_SAMPLESREQUEST_BYTES {
        return refuse(STATUS_BUFFER_TOO_SMALL);
    }
    let requested: Option<u32> = match &request.input {
        Some(bytes) => if bytes.len() >= LN8000_SAMPLESREQUEST_BYTES {
            Some(get_u32(bytes.as_slice(), 0))
        } else {
            None
        },
        None => None,
    };
    match request.output {
        Err(status) => refuse(status),
        Ok(length) => {
            let out = handle_get_samples(io, requested, length, tuning);
            answer(request.output, out)
        },
    }
}

#[verifier::opaque]
pub open spec fn evt_io_device_control_run(
    io: Io<Op>,
    state: DriverState,
    asked: Asked,
    tuning: Tuning,
) -> (Io<Op>, DriverState, Ended) {
    if asked.code == IOCTL_LN8000_GET_STATUS {
        let (io, state, answer) = handle_get_status_run(io, state, tuning);
        (io, state, answered(asked.output, answer.bytes()))
    } else if asked.code == IOCTL_LN8000_READ_REG || asked.code == IOCTL_LN8000_WRITE_REG {
        serve_reg_run(io, state, asked)
    } else if asked.code == IOCTL_LN8000_SET_LIMITS {
        let (io, ended) = serve_limits_run(io, state.pump_open, asked);
        (io, state, ended)
    } else if asked.code == IOCTL_LN8000_SET_MODE {
        let (io, ended) = serve_mode_run(io, state.pump_open, asked);
        (io, state, ended)
    } else if asked.code == IOCTL_LN8000_SET_CHARGE {
        serve_charge_run(io, state, asked, tuning)
    } else if asked.code == IOCTL_LN8000_RUN_HVDCP {
        serve_hvdcp_run(io, state, asked, tuning)
    } else if asked.code == IOCTL_LN8000_GET_SESSIONS {
        let (io, answer) = handle_get_sessions_run(io);
        (io, state, answered(asked.output, answer.bytes()))
    } else if asked.code == IOCTL_LN8000_GET_SAMPLES {
        let (io, ended) = serve_samples_run(io, asked, tuning);
        (io, state, ended)
    } else {
        (io, state, refused(STATUS_INVALID_DEVICE_REQUEST))
    }
}

/// Serves a request.
pub fn evt_io_device_control(
    io: &mut Session<Op>,
    state: &mut DriverState,
    request: &Request,
    tuning: &Tuning,
) -> (c: Completion)
    requires
        tuning.valid(),
    ensures
        (final(io)@, *final(state), c@) == evt_io_device_control_run(
            old(io)@,
            *old(state),
            request@,
            *tuning,
        ),
        old(state).valid() ==> final(state).valid(),
{
    proof {
        reveal(evt_io_device_control_run);
    }
    let code: u32 = request.code;
    if code == IOCTL_LN8000_GET_STATUS {
        let done = handle_get_status(io, state, tuning);
        answer(request.output, done.encode())
    } else if code == IOCTL_LN8000_READ_REG || code == IOCTL_LN8000_WRITE_REG {
        serve_reg(io, state, request)
    } else if code == IOCTL_LN8000_SET_LIMITS {
        serve_limits(io, state.pump_open, request)
    } else if code == IOCTL_LN8000_SET_MODE {
        serve_mode(io, state.pump_open, request)
    } else if code == IOCTL_LN8000_SET_CHARGE {
        serve_charge(io, state, request, tuning)
    } else if code == IOCTL_LN8000_RUN_HVDCP {
        serve_hvdcp(io, state, request, tuning)
    } else if code == IOCTL_LN8000_GET_SESSIONS {
        let done = handle_get_sessions(io);
        answer(request.output, done.encode())
    } else if code == IOCTL_LN8000_GET_SAMPLES {
        serve_samples(io, request, tuning)
    } else {
        refuse(STATUS_INVALID_DEVICE_REQUEST)
    }
}

/// A request with an unknown code, or with an input that is announced too short,
/// is refused without touching the hardware or the state.
pub proof fn law_refusals_change_nothing(
    io: Io<Op>,
    state: DriverState,
    asked: Asked,
    tuning: Tuning,
)
    ensures
        output_size(asked.code) == 0 ==> evt_io_device_control_run(io, state, asked, tuning) == (
            io,
            state,
            refused(STATUS_INVALID_DEVICE_REQUEST),
        ),
        asked.code != IOCTL_LN8000_GET_STATUS && asked.code != IOCTL_LN8000_GET_SESSIONS
            && asked.code != IOCTL_LN8000_RUN_HVDCP && asked.input_length < output_size(asked.code)
            ==> evt_io_device_control_run(io, state, asked, tuning) == (
            io,
            state,
            refused(STATUS_BUFFER_TOO_SMALL),
        ),
        asked.code == IOCTL_LN8000_RUN_HVDCP && 0 < asked.input_length < output_size(asked.code)
            ==> evt_io_device_control_run(io, state, asked, tuning) == (
            io,
            state,
            refused(STATUS_BUFFER_TOO_SMALL),
        ),
{
    reveal(evt_io_device_control_run);
}

/// A question about the last negotiation asks for nothing, publishes nothing and
/// changes nothing; it is answered from what is remembered.
pub proof fn law_status_question_is_passive(io: Io<Op>, state: DriverState, tuning: Tuning)
    ensures
        ({
            let (after, kept, answer) = handle_run_hvdcp_run(io, state, 0, tuning);
            &&& after == io
            &&& kept == state
            &&& answer.phase == state.hvdcp.phase.code()
            &&& answer.apsd_status == state.hvdcp.apsd_status
            &&& answer.apsd_result == state.hvdcp.apsd_result
            &&& answer.estimated_vbus_uv == estimated_vbus_uv(state.hvdcp.pulse_cnt)
            &&& answer.error_code == 0 || -14 <= answer.error_code <= -10
        }),
{
    reveal(handle_run_hvdcp_run);
}

/// A question right after a negotiation is answered as the negotiation was, but for
/// the cell that the target goes by.
pub proof fn law_question_repeats_the_answer(
    io: Io<Op>,
    state: DriverState,
    command: u8,
    later: Io<Op>,
    tuning: Tuning,
)
    requires
        command != 0,
    ensures
        ({
            let (_, after, told) = handle_run_hvdcp_run(io, state, command, tuning);
            let (_, _, again) = handle_run_hvdcp_run(later, after, 0, tuning);
            again == (Ln8000HvdcpRequest {
                command: 0,
                target_vbus_uv: again.target_vbus_uv,
                ..told
            })
        }),
{
    reveal(handle_run_hvdcp_run);
    let (asked, _) = landing::adc_run(io, state.pump_open, AdcChannel::Vbat);
    landing::law_code_outlives_the_landing(asked, state, true, tuning);
}

// ---------------------------------------------------------------------------
// Laws of what a request does
// ---------------------------------------------------------------------------
/// A register is read from its address, and what is answered is what the pump held or
/// the code of its failure. The accesses are counted afterwards. Without a pump nothing
/// is asked.
pub proof fn law_register_is_read(io: Io<Op>, state: DriverState, request: Ln8000RegRequest)
    requires
        io.pending is None,
        handle_read_reg_run(io, state, request).0.pending is None,
    ensures
        ({
            let (after, left, answer) = handle_read_reg_run(io, state, request);
            &&& state.pump_open ==> {
                &&& trace::asked(io, after) == seq![Op::PumpRead(request.addr), Op::PumpCounters]
                &&& trace::answer(io, 0) matches Reply::Register(Ok(value)) ==> answer == (
                Ln8000RegRequest { value, ..request })
                &&& trace::answer(io, 0) matches Reply::Register(Err(err)) ==> answer == (
                Ln8000RegRequest { error_code: pump::spec_pump_error_code(err), ..request })
                &&& trace::answer(io, 1) matches Reply::Counters(writes, reads) ==> left == (
                DriverState { writes, reads, ..state })
            }
            &&& !state.pump_open ==> trace::asked(io, after).len() == 0 && left == state && answer
                == (Ln8000RegRequest { error_code: (-1) as i32, ..request })
        }),
{
    broadcast use trace::group_trace;

    reveal(handle_read_reg_run);
    trace::lemma_asked_nothing(io);
}

/// A register is written at its address with the value that was given, and a failure is
/// answered with its code. Without a pump nothing is asked.
pub proof fn law_register_is_written(io: Io<Op>, state: DriverState, request: Ln8000RegRequest)
    requires
        io.pending is None,
        handle_write_reg_run(io, state, request).0.pending is None,
    ensures
        ({
            let (after, left, answer) = handle_write_reg_run(io, state, request);
            &&& state.pump_open ==> {
                &&& trace::asked(io, after) == seq![
                    Op::PumpWrite(request.addr, request.value),
                    Op::PumpCounters,
                ]
                &&& trace::done(trace::answer(io, 0)) ==> answer == request
                &&& trace::answer(io, 0) matches Reply::Effect(Err(err)) ==> answer == (
                Ln8000RegRequest { error_code: pump::spec_pump_error_code(err), ..request })
                &&& trace::answer(io, 1) matches Reply::Counters(writes, reads) ==> left == (
                DriverState { writes, reads, ..state })
            }
            &&& !state.pump_open ==> trace::asked(io, after).len() == 0 && left == state && answer
                == (Ln8000RegRequest { error_code: (-1) as i32, ..request })
        }),
{
    broadcast use trace::group_trace;

    reveal(handle_write_reg_run);
    trace::lemma_asked_nothing(io);
}

/// A limit that is not zero is set. The current that the pump took is what is answered,
/// and it becomes the ceiling of the protection; a zero leaves its limit alone. The
/// last failure is the one that is answered.
pub proof fn law_limits_are_set(io: Io<Op>, pump_open: bool, request: Ln8000LimitsRequest)
    requires
        io.pending is None,
        handle_set_limits_run(io, pump_open, request).0.pending is None,
    ensures
        ({
            let (after, answer) = handle_set_limits_run(io, pump_open, request);
            let asked = trace::asked(io, after);
            let current = request.iin_ua > 0;
            let float = request.vbat_uv > 0;
            let last = io.replies[after.next - 1];
            &&& !pump_open ==> asked.len() == 0 && answer == (Ln8000LimitsRequest {
                error_code: (-1) as i32,
                ..request
            })
            &&& pump_open && !current && !float ==> asked.len() == 0 && answer == request
            &&& pump_open && current ==> asked.len() > 0 && asked[0] == Op::PumpIinLimit(
                request.iin_ua,
            )
            &&& pump_open && float ==> asked.len() > 0 && asked.last() == Op::PumpVbatFloat(
                request.vbat_uv,
            )
            &&& pump_open && current ==> match trace::answer(io, 0) {
                Reply::Register(Ok(code)) => {
                    &&& asked.len() >= 3 && asked[1] == Op::PumpDecodeIin(code) && asked[2]
                        == Op::GuardCeiling(answer.applied_iin_ua)
                    &&& trace::answer(io, 1) matches Reply::Word(applied) ==> answer.applied_iin_ua
                        == applied
                    &&& asked.len() == if float {
                        4int
                    } else {
                        3
                    }
                },
                Reply::Register(Err(err)) => {
                    &&& asked.len() == if float {
                        2int
                    } else {
                        1
                    }
                    &&& answer.applied_iin_ua == request.applied_iin_ua
                    &&& !float || trace::done(last) ==> answer.error_code
                        == pump::spec_pump_error_code(err)
                },
                _ => true,
            }
            &&& pump_open && !current && float ==> asked.len() == 1
            &&& pump_open && float ==> (last matches Reply::Effect(Err(err)) ==> answer.error_code
                == pump::spec_pump_error_code(err))
            &&& answer.iin_ua == request.iin_ua && answer.vbat_uv == request.vbat_uv
        }),
{
    broadcast use trace::group_trace;

    reveal(handle_set_limits_run);
    reveal(set_current_run);
    trace::lemma_asked_nothing(io);
}

/// Of the modes by hand, 1 is standby, 3 is 2:1 and 2 is 1:1, which the core has to allow
/// at the input and the cell as they are measured then; any other is refused. The mode
/// that the pump entered is answered, or the code of its failure.
pub proof fn law_mode_is_entered(io: Io<Op>, pump_open: bool, request: Ln8000ModeRequest)
    requires
        io.pending is None,
        handle_set_mode_run(io, pump_open, request).0.pending is None,
    ensures
        ({
            let (after, r) = handle_set_mode_run(io, pump_open, request);
            let asked = trace::asked(io, after);
            let last = io.replies[after.next - 1];
            let vin = landing::reading_or(landing::reading_of(trace::answer(io, 0)), 0);
            let cell = landing::cell_or(landing::reading_of(trace::answer(io, 1)), 0);
            let look = seq![
                Op::PumpAdc(AdcChannel::Vin),
                Op::PumpAdc(AdcChannel::Vbat),
                Op::BypassAllowed { vin_uv: vin, vbat_uv: cell },
            ];
            let allowed = trace::yes(trace::answer(io, 2));
            &&& request.mode == 0 || request.mode > 3 <==> r is Err
            &&& r is Err ==> asked.len() == 0 && r->Err_0 == -1073741811
            &&& r matches Ok(answer) ==> {
                &&& !pump_open ==> asked.len() == 0 && answer.error_code == -1
                &&& pump_open && request.mode == 1 ==> asked == seq![Op::PumpStandby] && (
                trace::done(last) ==> answer.applied_mode == 1)
                &&& pump_open && request.mode == 3 ==> asked == seq![Op::PumpSwitching]
                &&& pump_open && request.mode == 2 && !allowed ==> asked == look
                    && answer.error_code == -20
                &&& pump_open && request.mode == 2 && allowed ==> asked == look.push(Op::PumpBypass)
                &&& pump_open && (request.mode == 3 || request.mode == 2 && allowed) ==> {
                    &&& last matches Reply::Engaged(Ok(mode)) ==> answer.applied_mode
                        == mode.spec_code() && answer.error_code == request.error_code
                    &&& last matches Reply::Engaged(Err(err)) ==> answer.error_code
                        == pump::spec_pump_error_code(err)
                }
                &&& pump_open && request.mode == 1 ==> (last matches Reply::Effect(Err(err))
                    ==> answer.error_code == pump::spec_pump_error_code(err))
                &&& answer.mode == request.mode
            }
        }),
{
    broadcast use trace::group_trace;

    reveal(set_mode_run);
    trace::lemma_asked_nothing(io);
}

/// A charge is started by hand as any is, and counted; switched off, the pump is told
/// so. Either way the chip is looked at afterwards, and the answer holds the mode, the
/// status and the code of a failure, which is remembered.
pub proof fn law_charge_is_switched(
    io: Io<Op>,
    state: DriverState,
    request: Ln8000ChargeRequest,
    tuning: Tuning,
)
    requires
        io.pending is None,
        handle_set_charge_run(io, state, request, tuning).0.pending is None,
    ensures
        ({
            let (after, left, answer) = handle_set_charge_run(io, state, request, tuning);
            let asked = trace::asked(io, after);
            let (started, outcome) = landing::start_charge_run(io, tuning);
            let on = request.on != 0;
            let live = io.replies[after.next - 1];
            &&& !state.pump_open ==> asked.len() == 0 && left == state && answer == (
            Ln8000ChargeRequest { error_code: (-1) as i32, ..request })
            &&& state.pump_open && !on ==> asked == seq![Op::PumpCharge(false), Op::PumpStatus]
                && left == (DriverState {
                charge: ChargeLoop { last_error: answer.error_code, ..state.charge },
                ..state
            })
            &&& state.pump_open && on ==> asked == trace::asked(io, started) + seq![
                Op::Now,
                Op::PumpStatus,
            ] && left.charge.charge_attempts == if state.charge.charge_attempts == u32::MAX {
                u32::MAX as int
            } else {
                state.charge.charge_attempts + 1
            }
            &&& state.pump_open ==> {
                let result = if on {
                    outcome.result
                } else {
                    match trace::answer(io, 0) {
                        Reply::Engaged(result) => result,
                        _ => Err(PumpError::Other),
                    }
                };
                &&& left.charge.last_error == answer.error_code
                &&& result matches Ok(mode) ==> answer.applied_mode == mode.spec_code()
                    && answer.error_code == 0
                &&& result matches Err(err) ==> answer.error_code == pump::spec_pump_error_code(err)
                &&& live matches Reply::Chip(Some(chip)) ==> answer.sys_sts == chip.sys_sts && (
                result is Err ==> answer.applied_mode == chip.op_mode.spec_code())
                &&& answer.on == request.on
            }
        }),
{
    broadcast use trace::group_trace;

    reveal(handle_set_charge_run);
    reveal(switch_charge_run);
    trace::lemma_asked_nothing(io);
    trace::lemma_follows_at_first(io);
    if state.pump_open && request.on != 0 {
        let (started, outcome) = landing::start_charge_run(io, tuning);
        let after = handle_set_charge_run(io, state, request, tuning).0;
        reveal(landing::note_attempt_run);
        trace::lemma_follows_at_first(started);
        assert(trace::follows(started, after));
        trace::lemma_finished_before(started, after);
        landing::law_shut_down_pump_is_reset(io, tuning);
        trace::lemma_asked_nothing(started);
        trace::lemma_honest_after(io, started);
        trace::lemma_asked_in_turn(io, started, after);
        assert(trace::asked(started, after) =~= seq![Op::Now, Op::PumpStatus]);
    }
}

/// A session answer tells the running session and the last one, each as the telemetry
/// knows it at one time.
pub proof fn law_sessions_are_told(io: Io<Op>)
    requires
        io.pending is None,
        handle_get_sessions_run(io).0.pending is None,
    ensures
        ({
            let (after, answer) = handle_get_sessions_run(io);
            let now = steer::time_of(trace::answer(io, 1));
            &&& trace::asked(io, after) == seq![
                Op::TelemetryTotals,
                Op::Now,
                Op::TelemetryCurrent(now),
                Op::TelemetryFinished(now),
            ]
            &&& trace::answer(io, 0) matches Reply::Totals(sessions, samples) ==> answer.total
                == sessions
            &&& trace::answer(io, 2) matches Reply::Summary(Some(session)) ==> answer.current_ms
                == session.duration_ms && answer.current_peak_iin_ua == session.peak_iin_ua && (
            answer.current_fast == 1 <==> session.fast)
            &&& trace::answer(io, 2) == Reply::Summary(None) ==> answer.current_ms == 0
                && answer.current_peak_iin_ua == 0 && answer.current_fast == 0
            &&& trace::answer(io, 3) matches Reply::Summary(Some(session)) ==> answer.last_ms
                == session.duration_ms && answer.last_peak_iin_ua == session.peak_iin_ua
                && answer.last_peak_temp_dc == session.peak_die_temp_dc && (answer.last_fast == 1
                <==> session.fast)
            &&& trace::answer(io, 3) == Reply::Summary(None) ==> answer.last_ms == 0
                && answer.last_peak_iin_ua == 0 && answer.last_peak_temp_dc == 0
                && answer.last_fast == 0
        }),
{
    broadcast use trace::group_trace;

    reveal(handle_get_sessions_run);
    trace::lemma_asked_nothing(io);
}

/// Samples are taken in the ring's order from its first on, each as the ring holds it,
/// up to the limit or to the first that is missing.
pub proof fn law_samples_are_taken_in_order(io: Io<Op>, limit: nat, taken: Seq<Ln8000Sample>)
    requires
        io.pending is None,
        taken.len() <= limit,
        limit <= usize::MAX,
        take_samples_run(io, limit, taken).0.pending is None,
    ensures
        ({
            let (after, all) = take_samples_run(io, limit, taken);
            let n = all.len() - taken.len();
            &&& taken.is_prefix_of(all)
            &&& all.len() <= limit
            &&& after.next - io.next == if all.len() < limit {
                n + 1
            } else {
                n
            }
            &&& forall|i: int|
                0 <= i < n ==> (#[trigger] trace::answer(io, i) matches Reply::Sample(Some(sample))
                    && all[taken.len() + i] == reported(sample))
            &&& all.len() < limit ==> !(trace::answer(io, n) matches Reply::Sample(Some(_)))
        }),
    decreases limit - taken.len(),
{
    if taken.len() < limit {
        let (next, sample) = io.sample(Op::TelemetryAt(taken.len() as usize));
        if let Some(sample) = sample {
            let more = taken.push(reported(sample));
            law_samples_are_taken_in_order(next, limit, more);
            let (after, all) = take_samples_run(next, limit, more);
            let n = all.len() - taken.len();
            assert(taken.is_prefix_of(more));
            assert(all[taken.len() as int] == more[taken.len() as int]);
            assert forall|i: int| 0 <= i < n implies (#[trigger] trace::answer(
                io,
                i,
            ) matches Reply::Sample(Some(sample)) && all[taken.len() + i] == reported(sample)) by {
                if i > 0 {
                    assert(trace::answer(io, i) == trace::answer(next, i - 1));
                }
            }
            assert(trace::answer(io, n) == trace::answer(next, n - 1));
        }
    }
}

/// A sample is reported as it was taken.
pub proof fn law_sample_is_reported(sample: TelemetrySample)
    ensures
        ({
            let told = reported(sample);
            &&& told.ts_ms == sample.ts_ms && told.vbat_uv == sample.vbat_uv
            &&& told.vbus_uv == sample.vbus_uv && told.iin_ua == sample.iin_ua
            &&& told.die_temp_dc == sample.die_temp_dc
            &&& told.op_mode == sample.op_mode.spec_code()
            &&& told.input_present == 1 <==> sample.input_present
            &&& told.input_present == 0 <==> !sample.input_present
        }),
{
}

/// A block holds one sample in its header of 40 bytes and one more in each 32 bytes
/// behind it; as many are reported as fit, are asked for and are there.
pub proof fn law_block_holds_its_samples(output_length: usize, requested: Option<u32>, ring: usize)
    ensures
        ({
            let n = sample_capacity(output_length);
            let limit = sample_limit(output_length, requested, ring);
            &&& output_length < 40 <==> n == 0
            &&& output_length >= 40 ==> 8 + 32 * n <= output_length < 8 + 32 * (n + 1)
            &&& limit <= n && limit <= ring
            &&& requested matches Some(count) ==> limit <= count && (limit == n || limit == ring
                || limit == count)
            &&& requested is None ==> limit == n || limit == ring
        }),
{
}

/// What a report says of a negotiation is what is remembered of it.
pub proof fn law_report_says_what_is_remembered(
    command: u8,
    hvdcp: HvdcpState,
    vbat_uv: u32,
    error_code: i32,
    battery: Battery,
)
    ensures
        ({
            let report = negotiation_report(command, hvdcp, vbat_uv, error_code);
            &&& report.command == command && report.error_code == error_code
            &&& report.apsd_status == hvdcp.apsd_status
            &&& report.apsd_result == hvdcp.apsd_result
            &&& hvdcp.pulse_cnt <= 255 ==> report.pulse_cnt == hvdcp.pulse_cnt
            &&& report.phase == hvdcp.phase.code()
            &&& report.target_vbus_uv == target_vbus_uv(vbat_uv)
            &&& report.estimated_vbus_uv == estimated_vbus_uv(hvdcp.pulse_cnt)
        }),
        battery.last_vbat_uv > 0 ==> known_cell_uv(&battery) == battery.last_vbat_uv,
        battery.last_vbat_uv == 0 ==> known_cell_uv(&battery) == 4_000_000,
{
}

/// A negotiation request without a block negotiates, and one with a block does what its
/// first byte says.
pub proof fn law_command_is_the_first_byte(input_length: usize, input: Option<Seq<u8>>)
    ensures
        input_length == 0 ==> command_of(input_length, input) == 1,
        input_length != 0 && input is Some && input->0.len() >= 20 ==> command_of(
            input_length,
            input,
        ) == input->0[0],
        input_length != 0 && (input is None || input->0.len() < 20) ==> command_of(
            input_length,
            input,
        ) == 0,
{
}

/// The lifecycle of the pump has its numbers, and 0 stands for none.
pub proof fn law_lifecycle_has_its_numbers(state: Option<PumpState>)
    ensures
        state == Some(PumpState::Probed) <==> lifecycle_code(state) == 1,
        state == Some(PumpState::Configured) <==> lifecycle_code(state) == 2,
        state == Some(PumpState::Switching) <==> lifecycle_code(state) == 3,
        state == Some(PumpState::Faulted) <==> lifecycle_code(state) == 4,
        state is None || state == Some(PumpState::Other) <==> lifecycle_code(state) == 0,
{
}

/// A status tells the chip's registers as they are read, the counts and the last error
/// as they are remembered, and the totals of the telemetry. Without a pump it holds no
/// register.
pub proof fn law_status_tells_the_chip(io: Io<Op>, state: DriverState)
    requires
        io.pending is None,
        chip_part_run(io, state).0.pending is None,
    ensures
        ({
            let (after, status) = chip_part_run(io, state);
            let totals = trace::answer(io, if state.pump_open {
                1
            } else {
                0
            });
            &&& trace::asked(io, after) == if state.pump_open {
                seq![Op::PumpLifecycle, Op::TelemetryTotals, Op::PumpMode, Op::PumpStatus]
            } else {
                seq![Op::TelemetryTotals]
            }
            &&& status.magic == 0x4C4E_3830 && status.version == 1
            &&& status.writes == state.writes && status.reads == state.reads
            &&& status.last_error == state.charge.last_error
            &&& totals matches Reply::Totals(sessions, samples) ==> status.sessions == sessions
                && status.samples == samples
            &&& state.pump_open ==> {
                &&& trace::answer(io, 0) matches Reply::Lifecycle(there) ==> status.state
                    == lifecycle_code(there)
                &&& trace::answer(io, 3) matches Reply::Chip(Some(live)) ==> {
                    &&& status.op_mode == live.op_mode.spec_code()
                    &&& status.sys_sts == live.sys_sts
                    &&& status.fault1_sts == live.fault1_sts
                    &&& status.fault2_sts == live.fault2_sts
                    &&& status.safety_sts == live.safety_sts
                    &&& status.critical_fault == 1 <==> live.critical
                    &&& status.critical_fault == 0 <==> !live.critical
                }
                &&& trace::answer(io, 3) == Reply::Chip(None) ==> {
                    &&& status.op_mode == match steer::mode_of(trace::answer(io, 2)) {
                        Some(mode) => mode.spec_code(),
                        None => 0,
                    }
                    &&& status.sys_sts == 0 && status.fault1_sts == 0 && status.fault2_sts == 0
                        && status.safety_sts == 0 && status.critical_fault == 0
                }
            }
            &&& !state.pump_open ==> status.state == 0 && status.op_mode == 0 && status.sys_sts
                == 0 && status.fault1_sts == 0 && status.critical_fault == 0
        }),
{
    broadcast use trace::group_trace;

    reveal(chip_part_run);
    trace::lemma_asked_nothing(io);
}

/// A status holds the last sample, or a fresh reading where there is none and there is a
/// pump; the mode of a sample only where there is no pump.
pub proof fn law_status_holds_the_readings(io: Io<Op>, pump_open: bool, status: Ln8000Status)
    requires
        io.pending is None,
        readings_part_run(io, pump_open, status).0.pending is None,
    ensures
        ({
            let (after, told) = readings_part_run(io, pump_open, status);
            let fresh = |k: int| landing::reading_of(trace::answer(io, k));
            &&& trace::answer(io, 0) matches Reply::Sample(Some(sample)) ==> {
                &&& trace::asked(io, after) == seq![Op::TelemetryLast]
                &&& told.iin_ua == sample.iin_ua && told.vbat_uv == sample.vbat_uv
                &&& told.vbus_uv == sample.vbus_uv && told.die_temp_dc == sample.die_temp_dc
                &&& told.op_mode == if pump_open {
                    status.op_mode
                } else {
                    sample.op_mode.spec_code()
                }
            }
            &&& trace::answer(io, 0) == Reply::Sample(None) && pump_open ==> {
                &&& trace::asked(io, after) == seq![
                    Op::TelemetryLast,
                    Op::PumpAdc(AdcChannel::Vbat),
                    Op::PumpAdc(AdcChannel::Vin),
                    Op::PumpAdc(AdcChannel::Iin),
                    Op::PumpAdc(AdcChannel::DieTemp),
                ]
                &&& told.vbat_uv == cell_or(fresh(1), 0)
                &&& told.vbus_uv == cell_or(fresh(2), 0)
                &&& told.iin_ua == cell_or(fresh(3), 0)
                &&& told.die_temp_dc == reading_or(fresh(4), 0)
                &&& told.op_mode == status.op_mode
            }
            &&& trace::answer(io, 0) == Reply::Sample(None) && !pump_open ==> told == status
                && trace::asked(io, after) == seq![Op::TelemetryLast]
            &&& told == (Ln8000Status {
                iin_ua: told.iin_ua,
                vbat_uv: told.vbat_uv,
                vbus_uv: told.vbus_uv,
                die_temp_dc: told.die_temp_dc,
                op_mode: told.op_mode,
                ..status
            })
        }),
{
    broadcast use trace::group_trace;

    reveal(readings_part_run);
    trace::lemma_asked_nothing(io);
}

/// A status request feeds the battery with what it tells, where it tells of a cell or of
/// an input, and leaves it alone where not.
pub proof fn law_status_feeds_the_battery(
    io: Io<Op>,
    state: DriverState,
    status: Ln8000Status,
    tuning: Tuning,
)
    requires
        io.pending is None,
        io.next < io.replies.len(),
    ensures
        ({
            let (after, left) = battery_part_run(io, state, status, tuning);
            let now = steer::time_of(trace::answer(io, 0));
            let fed = status_readings(status, state.iin.max_ua, state.battery.soc_rising, now);
            &&& status.vbat_uv == 0 && status.vbus_uv == 0 ==> after == io && left == state.battery
            &&& status.vbat_uv > 0 || status.vbus_uv > 0 ==> left
                == battery::update_from_telemetry_run(
                io.tell(Op::Now),
                state.battery,
                fed,
                tuning,
            ).1
            &&& fed.vbat_uv == status.vbat_uv && fed.vbus_uv == status.vbus_uv && fed.iin_ua
                == status.iin_ua
            &&& fed.iin_peak_ua == state.iin.max_ua && fed.now_ms == now
            &&& fed.vac_unplug <==> status.fault1_sts & 0x10 != 0
            &&& fed.usable <==> status.vbat_uv > 0 && status.vbus_uv > 0
        }),
{
    reveal(battery_part_run);
}

/// The code for reading a register reads the one that the first byte names.
pub proof fn law_read_code_reads(
    io: Io<Op>,
    state: DriverState,
    request: Asked,
    tuning: Tuning,
    bytes: Seq<u8>,
)
    requires
        io.pending is None,
        state.pump_open,
        request.input == Some(bytes),
        request.input_length == bytes.len(),
        request.code == 0x22_2044 && bytes.len() >= 8,
        evt_io_device_control_run(io, state, request, tuning).0.pending is None,
    ensures
        ({
            let (after, left, ended) = evt_io_device_control_run(io, state, request, tuning);
            let asked = trace::asked(io, after);
            &&& asked == seq![Op::PumpRead(bytes[0]), Op::PumpCounters]
            &&& request.output matches Err(status) ==> ended == refused(status)
            &&& request.output is Ok ==> ended.status == 0 && ended.output.len() == 8
        }),
{
    reveal(evt_io_device_control_run);
    crate::ioctl::law_requests_are_read_from_their_places(bytes);
    let r = Ln8000RegRequest::of_bytes(bytes)->0;
    law_register_is_read(io, state, r);
    crate::ioctl::law_reg_has_its_layout(handle_read_reg_run(io, state, r).2);
}

/// The code for writing a register writes the second byte to the one that the first names.
pub proof fn law_write_code_writes(
    io: Io<Op>,
    state: DriverState,
    request: Asked,
    tuning: Tuning,
    bytes: Seq<u8>,
)
    requires
        io.pending is None,
        state.pump_open,
        request.input == Some(bytes),
        request.input_length == bytes.len(),
        request.code == 0x22_2048 && bytes.len() >= 8,
        evt_io_device_control_run(io, state, request, tuning).0.pending is None,
    ensures
        ({
            let (after, left, ended) = evt_io_device_control_run(io, state, request, tuning);
            let asked = trace::asked(io, after);
            &&& asked == seq![Op::PumpWrite(bytes[0], bytes[1]), Op::PumpCounters]
            &&& request.output matches Err(status) ==> ended == refused(status)
            &&& request.output is Ok ==> ended.status == 0 && ended.output.len() == 8
        }),
{
    reveal(evt_io_device_control_run);
    crate::ioctl::law_requests_are_read_from_their_places(bytes);
    let r = Ln8000RegRequest::of_bytes(bytes)->0;
    law_register_is_written(io, state, r);
    crate::ioctl::law_reg_has_its_layout(handle_write_reg_run(io, state, r).2);
}

/// The code for limits sets the current in the first four bytes and the voltage in the next
/// four, each where it is not zero.
pub proof fn law_limits_code_sets_the_limits(
    io: Io<Op>,
    state: DriverState,
    request: Asked,
    tuning: Tuning,
    bytes: Seq<u8>,
)
    requires
        io.pending is None,
        state.pump_open,
        request.input == Some(bytes),
        request.input_length == bytes.len(),
        request.code == 0x22_204C && bytes.len() >= 16,
        evt_io_device_control_run(io, state, request, tuning).0.pending is None,
    ensures
        ({
            let (after, left, ended) = evt_io_device_control_run(io, state, request, tuning);
            let asked = trace::asked(io, after);
            &&& wire::u32_at(bytes, 0) > 0 ==> asked.len() > 0 && asked[0] == Op::PumpIinLimit(
                wire::u32_at(bytes, 0),
            )
            &&& wire::u32_at(bytes, 4) > 0 ==> asked.len() > 0 && asked.last()
                == Op::PumpVbatFloat(wire::u32_at(bytes, 4))
            &&& wire::u32_at(bytes, 0) == 0 && wire::u32_at(bytes, 4) == 0 ==> asked.len() == 0
            &&& request.output matches Err(status) ==> ended == refused(status)
            &&& request.output is Ok ==> ended.status == 0 && ended.output.len() == 16
        }),
{
    reveal(evt_io_device_control_run);
    crate::ioctl::law_requests_are_read_from_their_places(bytes);
    let r = Ln8000LimitsRequest::of_bytes(bytes)->0;
    law_limits_are_set(io, state.pump_open, r);
    crate::ioctl::law_limits_have_their_layout(handle_set_limits_run(io, state.pump_open, r).1);
}

/// The code for a mode enters the one that the first byte names, and refuses a byte that
/// names none.
pub proof fn law_mode_code_enters_the_mode(
    io: Io<Op>,
    state: DriverState,
    request: Asked,
    tuning: Tuning,
    bytes: Seq<u8>,
)
    requires
        io.pending is None,
        state.pump_open,
        request.input == Some(bytes),
        request.input_length == bytes.len(),
        request.code == 0x22_2050 && bytes.len() >= 8,
        evt_io_device_control_run(io, state, request, tuning).0.pending is None,
    ensures
        ({
            let (after, left, ended) = evt_io_device_control_run(io, state, request, tuning);
            let asked = trace::asked(io, after);
            &&& bytes[0] == 1 ==> asked == seq![Op::PumpStandby]
            &&& bytes[0] == 2 ==> asked.len() >= 3 && asked[0] == Op::PumpAdc(AdcChannel::Vin)
            &&& bytes[0] == 3 ==> asked == seq![Op::PumpSwitching]
            &&& bytes[0] == 0 || bytes[0] > 3 ==> asked.len() == 0 && ended == refused(
                (-1073741811) as i32,
            )
            &&& 1 <= bytes[0] <= 3 && request.output is Ok ==> ended.status == 0
                && ended.output.len() == 8
            &&& 1 <= bytes[0] <= 3 ==> (request.output matches Err(status) ==> ended == refused(
                status,
            ))
        }),
{
    reveal(evt_io_device_control_run);
    crate::ioctl::law_requests_are_read_from_their_places(bytes);
    let r = Ln8000ModeRequest::of_bytes(bytes)->0;
    law_mode_is_entered(io, state.pump_open, r);
    if 1 <= bytes[0] <= 3 {
        crate::ioctl::law_mode_has_its_layout(handle_set_mode_run(io, state.pump_open, r).1->Ok_0);
    }
}

/// The code for charging stops where the first byte is zero, and starts where it is not.
pub proof fn law_charge_code_switches_the_charge(
    io: Io<Op>,
    state: DriverState,
    request: Asked,
    tuning: Tuning,
    bytes: Seq<u8>,
)
    requires
        io.pending is None,
        state.pump_open,
        request.input == Some(bytes),
        request.input_length == bytes.len(),
        request.code == 0x22_205C && bytes.len() >= 8,
        evt_io_device_control_run(io, state, request, tuning).0.pending is None,
    ensures
        ({
            let (after, left, ended) = evt_io_device_control_run(io, state, request, tuning);
            let asked = trace::asked(io, after);
            &&& bytes[0] == 0 ==> asked == seq![Op::PumpCharge(false), Op::PumpStatus]
            &&& bytes[0] != 0 ==> asked.len() > 0 && asked[0] == Op::PumpSysSts && asked.contains(
                Op::PumpCharge(true),
            )
            &&& request.output matches Err(status) ==> ended == refused(status)
            &&& request.output is Ok ==> ended.status == 0 && ended.output.len() == 8
        }),
{
    reveal(evt_io_device_control_run);
    crate::ioctl::law_requests_are_read_from_their_places(bytes);
    let r = Ln8000ChargeRequest::of_bytes(bytes)->0;
    law_charge_is_switched(io, state, r, tuning);
    crate::ioctl::law_charge_has_its_layout(handle_set_charge_run(io, state, r, tuning).2);
    if r.on != 0 {
        lemma_switching_starts(io, state, r, tuning);
    }
}

/// The other codes answer with their whole block, or with the status of a refused one:
/// the status, the sessions and a negotiation. Samples are reported for a block that
/// holds them.
pub proof fn law_plain_codes_answer_in_full(
    io: Io<Op>,
    state: DriverState,
    request: Asked,
    tuning: Tuning,
)
    ensures
        ({
            let (after, left, ended) = evt_io_device_control_run(io, state, request, tuning);
            let code = request.code;
            &&& code == 0x22_2040 ==> {
                let (told, kept, status) = handle_get_status_run(io, state, tuning);
                &&& after == told && left == kept
                &&& request.output is Ok ==> ended.status == 0 && ended.output == status.bytes()
            }
            &&& code == 0x22_2054 ==> {
                let (told, sessions) = handle_get_sessions_run(io);
                &&& after == told && left == state
                &&& request.output is Ok ==> ended.status == 0 && ended.output == sessions.bytes()
            }
            &&& code == 0x22_2060 && (request.input_length == 0 || request.input_length >= 20) ==> {
                let (told, kept, report) = handle_run_hvdcp_run(
                    io,
                    state,
                    command_of(request.input_length, request.input),
                    tuning,
                );
                &&& after == told && left == kept
                &&& request.output is Ok ==> ended.status == 0 && ended.output == report.bytes()
            }
            &&& code == 0x22_2058 && request.input_length >= 40 ==> {
                &&& left == state
                &&& request.output matches Ok(length) ==> {
                    let limit = sample_limit(
                        length,
                        requested_of(request.input),
                        tuning.sample_ring,
                    );
                    let (told, samples) = take_samples_run(io, limit as nat, Seq::empty());
                    &&& after == told && ended.status == 0
                    &&& ended.output == samples_report(limit, samples)
                }
            }
            &&& code == 0x22_2040 || code == 0x22_2054 || code == 0x22_2060 || code == 0x22_2058
                ==> (request.output matches Err(status) ==> ended.output.len() == 0)
        }),
{
    reveal(evt_io_device_control_run);
}

/// A negotiation by hand measures the cell and negotiates, whatever the command is but
/// zero.
pub proof fn law_command_negotiates(
    io: Io<Op>,
    state: DriverState,
    command: u8,
    tuning: Tuning,
)
    requires
        trace::honest(io),
        io.pending is None,
        command != 0,
        handle_run_hvdcp_run(io, state, command, tuning).0.pending is None,
    ensures
        ({
            let (after, left, report) = handle_run_hvdcp_run(io, state, command, tuning);
            let asked = trace::asked(io, after);
            let cell = landing::cell_or(landing::reading_of(trace::answer(io, 0)), 4_000_000);
            &&& asked.contains(Op::SuOpen)
            &&& left.edge.armed
            &&& report.command == command && report.phase == left.hvdcp.phase.code()
            &&& report.error_code == left.hvdcp.last_code()
            &&& state.pump_open ==> asked[0] == Op::PumpAdc(AdcChannel::Vbat)
                && report.target_vbus_uv == target_vbus_uv(cell)
            &&& !state.pump_open ==> report.target_vbus_uv == target_vbus_uv(4_000_000)
        }),
{
    reveal(handle_run_hvdcp_run);
    let (after, left, report) = handle_run_hvdcp_run(io, state, command, tuning);
    let (at, cell) = landing::adc_run(io, state.pump_open, AdcChannel::Vbat);
    landing::law_code_outlives_the_landing(at, state, true, tuning);
    landing::lemma_negotiation_follows(at, state, true, tuning);
    trace::lemma_finished_before(at, after);
    assert(trace::follows(io, at) && trace::asked(io, at) =~= if state.pump_open {
        seq![Op::PumpAdc(AdcChannel::Vbat)]
    } else {
        Seq::<Op>::empty()
    }) by {
        broadcast use trace::group_trace;

        trace::lemma_asked_nothing(io);
        trace::lemma_follows_at_first(io);
    }
    trace::lemma_honest_after(io, at);
    landing::law_negotiation_is_landed(at, state, true, tuning);
    trace::lemma_asked_in_turn(io, at, after);
    let n = trace::asked(io, at).len();
    if state.pump_open {
        assert(trace::asked(io, after)[n as int + 1] == Op::SuOpen);
    } else {
        assert(trace::asked(io, after)[n as int] == Op::SuOpen);
    }
}

proof fn lemma_switching_starts(
    io: Io<Op>,
    state: DriverState,
    request: Ln8000ChargeRequest,
    tuning: Tuning,
)
    requires
        io.pending is None,
        state.pump_open,
        request.on != 0,
        handle_set_charge_run(io, state, request, tuning).0.pending is None,
    ensures
        ({
            let asked = trace::asked(io, handle_set_charge_run(io, state, request, tuning).0);
            &&& asked.len() > 0 && asked[0] == Op::PumpSysSts
            &&& asked.contains(Op::PumpCharge(true))
        }),
{
    law_charge_is_switched(io, state, request, tuning);
    let after = handle_set_charge_run(io, state, request, tuning).0;
    let started = landing::start_charge_run(io, tuning).0;
    assert(started.pending is None) by {
        broadcast use {trace::lemma_ask_follows, trace::lemma_record_follows};

        reveal(handle_set_charge_run);
        reveal(switch_charge_run);
        reveal(landing::note_attempt_run);
        trace::lemma_follows_at_first(started);
        assert(trace::follows(started, after));
        trace::lemma_finished_before(started, after);
    }
    landing::law_shut_down_pump_is_reset(io, tuning);
    let n = trace::asked(io, started).len();
    assert(trace::asked(io, after)[n - 1] == Op::PumpCharge(true));
}

} // verus!
