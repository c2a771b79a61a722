//! Register procedures on the USBIN block.
//!
//! Each procedure `f` has a `f_run`, which says what it asks, publishes and
//! returns as a function of the replies (see [`crate::session`]).
use crate::exchange::{Op, Reply};
use crate::hvdcp::{
    estimated_vbus_uv, with_adapter_allow_5v_to_12v, with_qc2_max_9v, HvdcpError, HvdcpState,
    APSD_POLL_MS, APSD_WAIT_MS, BIT_APSD_DONE, BIT_APSD_RERUN, BIT_BC1P2_SRC_DETECT,
    BIT_BC1P2_START_ON_CC, BIT_FORCE_5V, BIT_FORCE_9V, BIT_HVDCP_AUTH_ALG_EN,
    BIT_HVDCP_AUTONOMOUS, BIT_HVDCP_EN, BIT_ICL_OVERRIDE, BIT_SINGLE_DEC, BIT_SINGLE_INC,
    BIT_USBIN_SUSPEND, FORCE9V_PULSES, FORCE9V_REQUEST_MS, ICL_RAW_500MA, MAX_PULSE_CNT,
    QC_STATUS_SETTLE_MS, REG_APSD_RESULT, REG_APSD_STATUS, REG_CMD_APSD, REG_CMD_HVDCP_2,
    REG_CMD_ICL_OVERRIDE, REG_HVDCP_PULSE_COUNT_MAX, REG_INT_LATCHED_CLR, REG_QC_CHANGE_STATUS,
    REG_QC_PULSE_COUNT, REG_TYPE_C_CFG, REG_USBIN_ADAPTER_ALLOW, REG_USBIN_CMD_IL,
    REG_USBIN_ICL_CFG, REG_USBIN_OPTIONS_1,
};
use crate::session::{self, Io, Session};
use crate::writes::{self, Rule};
use crate::trace;
use vstd::prelude::*;

verus! {

/// Bus slave of the USBIN block.
pub const SPMI_SID_USBIN: u8 = 2;

/// Peripheral id of the USBIN block.
pub const SPMI_PERI_USBIN: u16 = 0x0013;

/// The path over which a procedure reaches the registers.
#[derive(Debug, Clone, Copy, PartialEq, Eq, Structural)]
pub enum Bus {
    /// The superuser node.
    Superuser,
    /// The resource hub.
    Usbin,
}

/// A register that could be read, or the failure.
pub open spec fn readable(value: Option<u8>) -> Result<u8, HvdcpError> {
    match value {
        Some(byte) => Ok(byte),
        None => Err(HvdcpError::SpmiIo),
    }
}

/// A write that was accepted, or the failure.
pub open spec fn accepted(done: bool) -> Result<(), HvdcpError> {
    if done {
        Ok(())
    } else {
        Err(HvdcpError::SpmiIo)
    }
}

pub open spec fn read_reg_run(io: Io<Op>, bus: Bus, state: HvdcpState, addr: u16) -> (
    Io<Op>,
    Result<u8, HvdcpError>,
) {
    let (io, value) = match bus {
        Bus::Superuser => io.byte(Op::SuRead { sid: SPMI_SID_USBIN, reg: addr }),
        Bus::Usbin => io.byte(Op::UsbinRead { addr, big_endian: state.big_endian }),
    };
    (io, readable(value))
}

/// Reads one register.
pub fn read_reg(io: &mut Session<Op>, bus: Bus, state: &HvdcpState, addr: u16) -> (r: Result<
    u8,
    HvdcpError,
>)
    ensures
        (final(io)@, r) == read_reg_run(old(io)@, bus, *state, addr),
{
    let value = match bus {
        Bus::Superuser => io.byte(Op::SuRead { sid: SPMI_SID_USBIN, reg: addr }),
        Bus::Usbin => io.byte(Op::UsbinRead { addr, big_endian: state.big_endian }),
    };
    match value {
        Some(byte) => Ok(byte),
        None => Err(HvdcpError::SpmiIo),
    }
}

pub open spec fn write_reg_run(
    io: Io<Op>,
    bus: Bus,
    state: HvdcpState,
    addr: u16,
    value: u8,
) -> (Io<Op>, Result<(), HvdcpError>) {
    match bus {
        Bus::Superuser => {
            let (io, done) = io.flag(Op::SuWrite { sid: SPMI_SID_USBIN, reg: addr, value });
            (io, accepted(done))
        },
        Bus::Usbin => {
            let (io, echo) = io.byte(Op::UsbinWrite { addr, value, big_endian: state.big_endian });
            (io, accepted(echo is Some))
        },
    }
}

/// Writes one register.
pub fn write_reg(
    io: &mut Session<Op>,
    bus: Bus,
    state: &HvdcpState,
    addr: u16,
    value: u8,
) -> (r: Result<(), HvdcpError>)
    ensures
        (final(io)@, r) == write_reg_run(old(io)@, bus, *state, addr, value),
{
    let done = match bus {
        Bus::Superuser => io.flag(Op::SuWrite { sid: SPMI_SID_USBIN, reg: addr, value }),
        Bus::Usbin => io.byte(
            Op::UsbinWrite { addr, value, big_endian: state.big_endian },
        ).is_some(),
    };
    if done {
        Ok(())
    } else {
        Err(HvdcpError::SpmiIo)
    }
}

pub open spec fn resolve_endian_usbin_run(io: Io<Op>, state: HvdcpState) -> (
    Io<Op>,
    HvdcpState,
    Result<(), HvdcpError>,
) {
    if state.endian_known {
        (io, state, Ok(()))
    } else {
        let (io, big) = io.byte(Op::UsbinRead { addr: REG_APSD_STATUS, big_endian: true });
        if big is Some {
            (io, HvdcpState { big_endian: true, endian_known: true, ..state }, Ok(()))
        } else {
            let (io, little) = io.byte(Op::UsbinRead { addr: REG_APSD_STATUS, big_endian: false });
            if little is Some {
                (io, HvdcpState { big_endian: false, endian_known: true, ..state }, Ok(()))
            } else {
                (io, state, Err(HvdcpError::SpmiIo))
            }
        }
    }
}

/// Finds out the byte order of addresses on the resource-hub path: big first,
/// little second.
pub fn resolve_endian_usbin(io: &mut Session<Op>, state: &mut HvdcpState) -> (r: Result<
    (),
    HvdcpError,
>)
    ensures
        (final(io)@, *final(state), r) == resolve_endian_usbin_run(old(io)@, *old(state)),
        old(state).valid() ==> final(state).valid(),
{
    if state.endian_known {
        return Ok(());
    }
    if io.byte(Op::UsbinRead { addr: REG_APSD_STATUS, big_endian: true }).is_some() {
        state.big_endian = true;
        state.endian_known = true;
        return Ok(());
    }
    if io.byte(Op::UsbinRead { addr: REG_APSD_STATUS, big_endian: false }).is_some() {
        state.big_endian = false;
        state.endian_known = true;
        return Ok(());
    }
    Err(HvdcpError::SpmiIo)
}

pub open spec fn clear_usbin_latched_run(io: Io<Op>, bus: Bus, state: HvdcpState) -> Io<Op> {
    write_reg_run(io, bus, state, REG_INT_LATCHED_CLR, 0xFF).0
}

/// Clears the latched interrupts; a failure is ignored.
pub fn clear_usbin_latched(io: &mut Session<Op>, bus: Bus, state: &HvdcpState)
    ensures
        final(io)@ == clear_usbin_latched_run(old(io)@, bus, *state),
{
    let _ = write_reg(io, bus, state, REG_INT_LATCHED_CLR, 0xFF);
}

pub open spec fn clear_apsd_cc_gate_run(io: Io<Op>, bus: Bus, state: HvdcpState) -> (
    Io<Op>,
    Result<u8, HvdcpError>,
) {
    let (io, cfg) = read_reg_run(io, bus, state, REG_TYPE_C_CFG);
    match cfg {
        Err(err) => (io, Err(err)),
        Ok(cfg) => if cfg & BIT_BC1P2_START_ON_CC != 0 {
            let open = cfg & !BIT_BC1P2_START_ON_CC;
            let (io, written) = write_reg_run(io, bus, state, REG_TYPE_C_CFG, open);
            match written {
                Err(err) => (io, Err(err)),
                Ok(_) => (io, Ok(open)),
            }
        } else {
            (io, Ok(cfg))
        },
    }
}

/// Lets a classification start without waiting for the type-C logic.
pub fn clear_apsd_cc_gate(io: &mut Session<Op>, bus: Bus, state: &HvdcpState) -> (r: Result<
    u8,
    HvdcpError,
>)
    ensures
        (final(io)@, r) == clear_apsd_cc_gate_run(old(io)@, bus, *state),
{
    let cfg: u8 = match read_reg(io, bus, state, REG_TYPE_C_CFG) {
        Ok(cfg) => cfg,
        Err(err) => return Err(err),
    };
    if cfg & BIT_BC1P2_START_ON_CC != 0 {
        let open: u8 = cfg & !BIT_BC1P2_START_ON_CC;
        match write_reg(io, bus, state, REG_TYPE_C_CFG, open) {
            Ok(()) => Ok(open),
            Err(err) => Err(err),
        }
    } else {
        Ok(cfg)
    }
}

pub open spec fn ensure_icl_floor_500ma_run(io: Io<Op>, bus: Bus, state: HvdcpState) -> (
    Io<Op>,
    Result<u8, HvdcpError>,
) {
    let (io, current) = read_reg_run(io, bus, state, REG_USBIN_ICL_CFG);
    match current {
        Err(err) => (io, Err(err)),
        Ok(current) => if current >= ICL_RAW_500MA {
            (io, Ok(current))
        } else {
            let (io, written) = write_reg_run(io, bus, state, REG_USBIN_ICL_CFG, ICL_RAW_500MA);
            match written {
                Err(err) => (io, Err(err)),
                Ok(_) => (
                    write_reg_run(io, bus, state, REG_CMD_ICL_OVERRIDE, BIT_ICL_OVERRIDE).0,
                    Ok(ICL_RAW_500MA),
                ),
            }
        },
    }
}

/// Lifts the input current limit to 500 mA where it is lower.
pub fn ensure_icl_floor_500ma(io: &mut Session<Op>, bus: Bus, state: &HvdcpState) -> (r: Result<
    u8,
    HvdcpError,
>)
    ensures
        (final(io)@, r) == ensure_icl_floor_500ma_run(old(io)@, bus, *state),
{
    let current: u8 = match read_reg(io, bus, state, REG_USBIN_ICL_CFG) {
        Ok(current) => current,
        Err(err) => return Err(err),
    };
    if current >= ICL_RAW_500MA {
        return Ok(current);
    }
    match write_reg(io, bus, state, REG_USBIN_ICL_CFG, ICL_RAW_500MA) {
        Ok(()) => {},
        Err(err) => return Err(err),
    }
    let _ = write_reg(io, bus, state, REG_CMD_ICL_OVERRIDE, BIT_ICL_OVERRIDE);
    Ok(ICL_RAW_500MA)
}

pub open spec fn clear_usbin_suspend_run(io: Io<Op>, bus: Bus, state: HvdcpState) -> Io<Op> {
    let (io, cmd_il) = read_reg_run(io, bus, state, REG_USBIN_CMD_IL);
    match cmd_il {
        Ok(cmd_il) => if cmd_il & BIT_USBIN_SUSPEND != 0 {
            write_reg_run(io, bus, state, REG_USBIN_CMD_IL, cmd_il & !BIT_USBIN_SUSPEND).0
        } else {
            io
        },
        Err(_) => io,
    }
}

/// Takes the input out of suspend; a failure is ignored.
pub fn clear_usbin_suspend(io: &mut Session<Op>, bus: Bus, state: &HvdcpState)
    ensures
        final(io)@ == clear_usbin_suspend_run(old(io)@, bus, *state),
{
    if let Ok(cmd_il) = read_reg(io, bus, state, REG_USBIN_CMD_IL) {
        if cmd_il & BIT_USBIN_SUSPEND != 0 {
            let _ = write_reg(io, bus, state, REG_USBIN_CMD_IL, cmd_il & !BIT_USBIN_SUSPEND);
        }
    }
}

pub open spec fn ensure_icl_at_least_run(io: Io<Op>, bus: Bus, state: HvdcpState, target: u8) -> (
    Io<Op>,
    Result<u8, HvdcpError>,
) {
    let (io, current) = read_reg_run(io, bus, state, REG_USBIN_ICL_CFG);
    match current {
        Err(err) => (io, Err(err)),
        Ok(current) => {
            let (io, applied) = if current >= target {
                (io, Ok(current))
            } else {
                let (io, written) = write_reg_run(io, bus, state, REG_USBIN_ICL_CFG, target);
                match written {
                    Err(err) => (io, Err(err)),
                    Ok(_) => (io, Ok(target)),
                }
            };
            match applied {
                Err(err) => (io, Err(err)),
                Ok(applied) => {
                    let (io, _) = write_reg_run(
                        io,
                        bus,
                        state,
                        REG_CMD_ICL_OVERRIDE,
                        BIT_ICL_OVERRIDE,
                    );
                    (clear_usbin_suspend_run(io, bus, state), Ok(applied))
                },
            }
        },
    }
}

/// Lifts the input current limit to a code where it is lower, makes it
/// effective and takes the input out of suspend.
pub fn ensure_icl_at_least(io: &mut Session<Op>, bus: Bus, state: &HvdcpState, target: u8) -> (r:
    Result<u8, HvdcpError>)
    ensures
        (final(io)@, r) == ensure_icl_at_least_run(old(io)@, bus, *state, target),
{
    let current: u8 = match read_reg(io, bus, state, REG_USBIN_ICL_CFG) {
        Ok(current) => current,
        Err(err) => return Err(err),
    };
    let applied: u8 = if current >= target {
        current
    } else {
        match write_reg(io, bus, state, REG_USBIN_ICL_CFG, target) {
            Ok(()) => target,
            Err(err) => return Err(err),
        }
    };
    let _ = write_reg(io, bus, state, REG_CMD_ICL_OVERRIDE, BIT_ICL_OVERRIDE);
    clear_usbin_suspend(io, bus, state);
    Ok(applied)
}

/// The options with host-driven high-voltage charging on.
#[verifier::allow_in_spec]
pub fn hvdcp_options(options: u8) -> (r: u8)
    returns
        (options | (BIT_HVDCP_EN | BIT_HVDCP_AUTH_ALG_EN | BIT_BC1P2_SRC_DETECT))
            & !BIT_HVDCP_AUTONOMOUS,
{
    (options | (BIT_HVDCP_EN | BIT_HVDCP_AUTH_ALG_EN | BIT_BC1P2_SRC_DETECT))
        & !BIT_HVDCP_AUTONOMOUS
}

pub open spec fn enable_hvdcp_run(io: Io<Op>, bus: Bus, state: HvdcpState) -> (
    Io<Op>,
    HvdcpState,
    Result<(), HvdcpError>,
) {
    let (io, options) = read_reg_run(io, bus, state, REG_USBIN_OPTIONS_1);
    match options {
        Err(err) => (io, state, Err(err)),
        Ok(options) => {
            let (io, written) = write_reg_run(
                io,
                bus,
                state,
                REG_USBIN_OPTIONS_1,
                hvdcp_options(options),
            );
            match written {
                Err(err) => (io, state, Err(err)),
                Ok(_) => (io, HvdcpState { options1: hvdcp_options(options), ..state }, Ok(())),
            }
        },
    }
}

/// Switches host-driven high-voltage charging on.
pub fn enable_hvdcp(io: &mut Session<Op>, bus: Bus, state: &mut HvdcpState) -> (r: Result<
    (),
    HvdcpError,
>)
    ensures
        (final(io)@, *final(state), r) == enable_hvdcp_run(old(io)@, bus, *old(state)),
        old(state).valid() ==> final(state).valid(),
{
    let options: u8 = match read_reg(io, bus, state, REG_USBIN_OPTIONS_1) {
        Ok(options) => hvdcp_options(options),
        Err(err) => return Err(err),
    };
    match write_reg(io, bus, state, REG_USBIN_OPTIONS_1, options) {
        Ok(()) => {},
        Err(err) => return Err(err),
    }
    state.options1 = options;
    Ok(())
}

pub open spec fn merge_reg_run(
    io: Io<Op>,
    bus: Bus,
    state: HvdcpState,
    addr: u16,
    before: u8,
    after: u8,
) -> (Io<Op>, Result<(), HvdcpError>) {
    if after != before {
        write_reg_run(io, bus, state, addr, after)
    } else {
        (io, Ok(()))
    }
}

/// Writes a register only where its value changes.
fn merge_reg(
    io: &mut Session<Op>,
    bus: Bus,
    state: &HvdcpState,
    addr: u16,
    before: u8,
    after: u8,
) -> (r: Result<(), HvdcpError>)
    ensures
        (final(io)@, r) == merge_reg_run(old(io)@, bus, *state, addr, before, after),
{
    if after != before {
        write_reg(io, bus, state, addr, after)
    } else {
        Ok(())
    }
}

pub open spec fn ensure_hvdcp_voltage_gates_run(io: Io<Op>, bus: Bus, state: HvdcpState) -> (
    Io<Op>,
    Result<(u8, u8), HvdcpError>,
) {
    let (io, allow) = read_reg_run(io, bus, state, REG_USBIN_ADAPTER_ALLOW);
    match allow {
        Err(err) => (io, Err(err)),
        Ok(allow) => {
            let allow_new = with_adapter_allow_5v_to_12v(allow);
            let (io, merged) = merge_reg_run(
                io,
                bus,
                state,
                REG_USBIN_ADAPTER_ALLOW,
                allow,
                allow_new,
            );
            match merged {
                Err(err) => (io, Err(err)),
                Ok(_) => {
                    let (io, cap) = read_reg_run(io, bus, state, REG_HVDCP_PULSE_COUNT_MAX);
                    match cap {
                        Err(err) => (io, Err(err)),
                        Ok(cap) => {
                            let cap_new = with_qc2_max_9v(cap);
                            let (io, merged) = merge_reg_run(
                                io,
                                bus,
                                state,
                                REG_HVDCP_PULSE_COUNT_MAX,
                                cap,
                                cap_new,
                            );
                            match merged {
                                Err(err) => (io, Err(err)),
                                Ok(_) => (io, Ok((allow_new, cap_new))),
                            }
                        },
                    }
                },
            }
        },
    }
}

/// Opens the voltage gates: adapters up to 12 V, QC2 up to 9 V.
pub fn ensure_hvdcp_voltage_gates(io: &mut Session<Op>, bus: Bus, state: &HvdcpState) -> (r: Result<
    (u8, u8),
    HvdcpError,
>)
    ensures
        (final(io)@, r) == ensure_hvdcp_voltage_gates_run(old(io)@, bus, *state),
{
    let allow: u8 = match read_reg(io, bus, state, REG_USBIN_ADAPTER_ALLOW) {
        Ok(allow) => allow,
        Err(err) => return Err(err),
    };
    let allow_new: u8 = with_adapter_allow_5v_to_12v(allow);
    match merge_reg(io, bus, state, REG_USBIN_ADAPTER_ALLOW, allow, allow_new) {
        Ok(()) => {},
        Err(err) => return Err(err),
    }
    let cap: u8 = match read_reg(io, bus, state, REG_HVDCP_PULSE_COUNT_MAX) {
        Ok(cap) => cap,
        Err(err) => return Err(err),
    };
    let cap_new: u8 = with_qc2_max_9v(cap);
    match merge_reg(io, bus, state, REG_HVDCP_PULSE_COUNT_MAX, cap, cap_new) {
        Ok(()) => Ok((allow_new, cap_new)),
        Err(err) => Err(err),
    }
}

pub open spec fn sample_qc_status_run(io: Io<Op>, bus: Bus, state: HvdcpState) -> (
    Io<Op>,
    Result<(u8, u8), HvdcpError>,
) {
    let (io, change) = read_reg_run(
        io.tell(Op::Sleep(QC_STATUS_SETTLE_MS)),
        bus,
        state,
        REG_QC_CHANGE_STATUS,
    );
    match change {
        Err(err) => (io, Err(err)),
        Ok(change) => {
            let (io, pulses) = read_reg_run(io, bus, state, REG_QC_PULSE_COUNT);
            match pulses {
                Err(err) => (io, Err(err)),
                Ok(pulses) => (io, Ok((change, pulses))),
            }
        },
    }
}

/// Samples the voltage status and the hardware pulse counter after a settle
/// time.
pub fn sample_qc_status(io: &mut Session<Op>, bus: Bus, state: &HvdcpState) -> (r: Result<
    (u8, u8),
    HvdcpError,
>)
    ensures
        (final(io)@, r) == sample_qc_status_run(old(io)@, bus, *state),
{
    io.tell(Op::Sleep(QC_STATUS_SETTLE_MS));
    let change: u8 = match read_reg(io, bus, state, REG_QC_CHANGE_STATUS) {
        Ok(change) => change,
        Err(err) => return Err(err),
    };
    let pulses: u8 = match read_reg(io, bus, state, REG_QC_PULSE_COUNT) {
        Ok(pulses) => pulses,
        Err(err) => return Err(err),
    };
    Ok((change, pulses))
}

pub open spec fn apsd_rerun_run(io: Io<Op>, bus: Bus, state: HvdcpState) -> (
    Io<Op>,
    Result<(), HvdcpError>,
) {
    write_reg_run(io, bus, state, REG_CMD_APSD, BIT_APSD_RERUN)
}

/// Requests a new classification.
pub fn apsd_rerun(io: &mut Session<Op>, bus: Bus, state: &HvdcpState) -> (r: Result<(), HvdcpError>)
    ensures
        (final(io)@, r) == apsd_rerun_run(old(io)@, bus, *state),
{
    write_reg(io, bus, state, REG_CMD_APSD, BIT_APSD_RERUN)
}

pub open spec fn wait_apsd_done_run(io: Io<Op>, bus: Bus, state: HvdcpState, waited: u32) -> (
    Io<Op>,
    HvdcpState,
    Result<(), HvdcpError>,
)
    decreases APSD_WAIT_MS + APSD_POLL_MS - waited,
{
    let (io, status) = read_reg_run(io, bus, state, REG_APSD_STATUS);
    match status {
        Err(err) => (io, state, Err(err)),
        Ok(status) => {
            let seen = HvdcpState { apsd_status: status, ..state };
            if status & BIT_APSD_DONE != 0 {
                let (io, result) = read_reg_run(io, bus, seen, REG_APSD_RESULT);
                match result {
                    Err(err) => (io, seen, Err(err)),
                    Ok(result) => (io, HvdcpState { apsd_result: result, ..seen }, Ok(())),
                }
            } else if waited >= APSD_WAIT_MS {
                (io, seen, Err(HvdcpError::ApsdTimeout))
            } else {
                wait_apsd_done_run(
                    io.tell(Op::Sleep(APSD_POLL_MS)),
                    bus,
                    seen,
                    (waited + APSD_POLL_MS) as u32,
                )
            }
        },
    }
}

/// Waits for a classification and keeps its status and result.
pub fn wait_apsd_done(io: &mut Session<Op>, bus: Bus, state: &mut HvdcpState) -> (r: Result<
    (),
    HvdcpError,
>)
    ensures
        (final(io)@, *final(state), r) == wait_apsd_done_run(old(io)@, bus, *old(state), 0),
        old(state).valid() ==> final(state).valid(),
{
    let mut waited: u32 = 0;
    loop
        invariant
            old(state).valid() ==> state.valid(),
            waited <= APSD_WAIT_MS + APSD_POLL_MS,
            wait_apsd_done_run(io@, bus, *state, waited) == wait_apsd_done_run(
                old(io)@,
                bus,
                *old(state),
                0,
            ),
        decreases APSD_WAIT_MS + APSD_POLL_MS - waited,
    {
        let status: u8 = match read_reg(io, bus, state, REG_APSD_STATUS) {
            Ok(status) => status,
            Err(err) => return Err(err),
        };
        state.apsd_status = status;
        if status & BIT_APSD_DONE != 0 {
            match read_reg(io, bus, state, REG_APSD_RESULT) {
                Ok(result) => {
                    state.apsd_result = result;
                    return Ok(());
                },
                Err(err) => return Err(err),
            }
        }
        if waited >= APSD_WAIT_MS {
            return Err(HvdcpError::ApsdTimeout);
        }
        io.tell(Op::Sleep(APSD_POLL_MS));
        waited = waited + APSD_POLL_MS;
    }
}

/// The command register with one step bit set and every other bit kept.
#[verifier::allow_in_spec]
pub fn with_step(command: u8, bit: u8) -> (r: u8)
    returns
        (command & !(BIT_SINGLE_INC | BIT_SINGLE_DEC)) | bit,
{
    (command & !(BIT_SINGLE_INC | BIT_SINGLE_DEC)) | bit
}

pub open spec fn pulse_cmd_bit_run(io: Io<Op>, bus: Bus, state: HvdcpState, bit: u8) -> (
    Io<Op>,
    Result<bool, HvdcpError>,
) {
    if state.force9v_latched {
        (io, Ok(false))
    } else {
        let (io, current) = read_reg_run(io, bus, state, REG_CMD_HVDCP_2);
        let command = match current {
            Ok(command) => command,
            Err(_) => 0,
        };
        let (io, written) = write_reg_run(io, bus, state, REG_CMD_HVDCP_2, with_step(command, bit));
        match written {
            Err(err) => (io, Err(err)),
            Ok(_) => (io, Ok(true)),
        }
    }
}

/// Sends one step, keeping the other bits of the command register. A bus that
/// a 9 V request holds takes no steps. Returns whether the step went out.
pub fn pulse_cmd_bit(io: &mut Session<Op>, bus: Bus, state: &HvdcpState, bit: u8) -> (r: Result<
    bool,
    HvdcpError,
>)
    ensures
        (final(io)@, r) == pulse_cmd_bit_run(old(io)@, bus, *state, bit),
{
    if state.force9v_latched {
        return Ok(false);
    }
    let command: u8 = match read_reg(io, bus, state, REG_CMD_HVDCP_2) {
        Ok(command) => command,
        Err(_) => 0,
    };
    match write_reg(io, bus, state, REG_CMD_HVDCP_2, with_step(command, bit)) {
        Ok(()) => Ok(true),
        Err(err) => Err(err),
    }
}

pub open spec fn pulse_inc_gap_run(io: Io<Op>, bus: Bus, state: HvdcpState, gap_ms: u32) -> (
    Io<Op>,
    HvdcpState,
    Result<bool, HvdcpError>,
) {
    let (io, sent) = pulse_cmd_bit_run(io, bus, state, BIT_SINGLE_INC);
    match sent {
        Err(err) => (io, state, Err(err)),
        Ok(sent) => (
            io.tell(Op::Sleep(gap_ms)),
            if sent {
                HvdcpState {
                    pulse_cnt: if state.pulse_cnt < MAX_PULSE_CNT {
                        (state.pulse_cnt + 1) as u32
                    } else {
                        MAX_PULSE_CNT
                    },
                    ..state
                }
            } else {
                state
            },
            Ok(sent),
        ),
    }
}

/// One step up and a pause. The counter moves only with a step that went out,
/// and stops at its cap.
pub fn pulse_inc_gap(io: &mut Session<Op>, bus: Bus, state: &mut HvdcpState, gap_ms: u32) -> (r:
    Result<bool, HvdcpError>)
    ensures
        (final(io)@, *final(state), r) == pulse_inc_gap_run(old(io)@, bus, *old(state), gap_ms),
        old(state).valid() ==> final(state).valid(),
{
    let sent = match pulse_cmd_bit(io, bus, state, BIT_SINGLE_INC) {
        Ok(sent) => sent,
        Err(err) => return Err(err),
    };
    if sent {
        state.pulse_cnt =
        if state.pulse_cnt < MAX_PULSE_CNT {
            state.pulse_cnt + 1
        } else {
            MAX_PULSE_CNT
        };
    }
    io.tell(Op::Sleep(gap_ms));
    Ok(sent)
}

pub open spec fn pulse_dec_gap_run(io: Io<Op>, bus: Bus, state: HvdcpState, gap_ms: u32) -> (
    Io<Op>,
    HvdcpState,
    Result<bool, HvdcpError>,
) {
    let (io, sent) = pulse_cmd_bit_run(io, bus, state, BIT_SINGLE_DEC);
    match sent {
        Err(err) => (io, state, Err(err)),
        Ok(sent) => (
            io.tell(Op::Sleep(gap_ms)),
            if sent {
                HvdcpState { pulse_cnt: state.pulse_cnt.saturating_sub(1), ..state }
            } else {
                state
            },
            Ok(sent),
        ),
    }
}

/// One step down and a pause. The counter moves only with a step that went out.
pub fn pulse_dec_gap(io: &mut Session<Op>, bus: Bus, state: &mut HvdcpState, gap_ms: u32) -> (r:
    Result<bool, HvdcpError>)
    ensures
        (final(io)@, *final(state), r) == pulse_dec_gap_run(old(io)@, bus, *old(state), gap_ms),
        old(state).valid() ==> final(state).valid(),
{
    let sent = match pulse_cmd_bit(io, bus, state, BIT_SINGLE_DEC) {
        Ok(sent) => sent,
        Err(err) => return Err(err),
    };
    if sent {
        state.pulse_cnt = state.pulse_cnt.saturating_sub(1);
    }
    io.tell(Op::Sleep(gap_ms));
    Ok(sent)
}

pub open spec fn force_9v_run(io: Io<Op>, bus: Bus, state: HvdcpState) -> (
    Io<Op>,
    HvdcpState,
    Result<(), HvdcpError>,
) {
    let (io, current) = read_reg_run(io, bus, state, REG_CMD_HVDCP_2);
    let command = match current {
        Ok(command) => command,
        Err(_) => 0,
    };
    let (io, written) = write_reg_run(io, bus, state, REG_CMD_HVDCP_2, command | BIT_FORCE_9V);
    match written {
        Err(err) => (io, state, Err(err)),
        Ok(_) => (
            io.tell(Op::Sleep(FORCE9V_REQUEST_MS)),
            HvdcpState { force9v_latched: true, pulse_cnt: FORCE9V_PULSES, ..state },
            Ok(()),
        ),
    }
}

/// Requests 9 V. From here on the bus is held and takes no steps.
pub fn force_9v(io: &mut Session<Op>, bus: Bus, state: &mut HvdcpState) -> (r: Result<
    (),
    HvdcpError,
>)
    ensures
        (final(io)@, *final(state), r) == force_9v_run(old(io)@, bus, *old(state)),
        old(state).valid() ==> final(state).valid(),
{
    let command: u8 = match read_reg(io, bus, state, REG_CMD_HVDCP_2) {
        Ok(command) => command,
        Err(_) => 0,
    };
    match write_reg(io, bus, state, REG_CMD_HVDCP_2, command | BIT_FORCE_9V) {
        Ok(()) => {},
        Err(err) => return Err(err),
    }
    state.force9v_latched = true;
    state.pulse_cnt = FORCE9V_PULSES;
    io.tell(Op::Sleep(FORCE9V_REQUEST_MS));
    Ok(())
}

pub open spec fn safe_force_5v_run(io: Io<Op>, bus: Bus, state: HvdcpState) -> (
    Io<Op>,
    HvdcpState,
) {
    let (io, _) = write_reg_run(io, bus, state, REG_CMD_HVDCP_2, BIT_FORCE_5V);
    (io, HvdcpState { force9v_latched: false, ..state })
}

/// Returns the bus to 5 V as far as that can be done.
pub fn safe_force_5v(io: &mut Session<Op>, bus: Bus, state: &mut HvdcpState)
    ensures
        (final(io)@, *final(state)) == safe_force_5v_run(old(io)@, bus, *old(state)),
        old(state).valid() ==> final(state).valid(),
{
    let _ = write_reg(io, bus, state, REG_CMD_HVDCP_2, BIT_FORCE_5V);
    state.force9v_latched = false;
}

/// The code of a failure as it is published.
#[verifier::allow_in_spec]
pub fn error_word(err: HvdcpError) -> (r: u32)
    returns
        err.code() as u32,
{
    err.code() as u32
}

/// 1 for yes, 0 for no.
#[verifier::allow_in_spec]
pub fn flag_word(flag: bool) -> (r: u32)
    returns
        (if flag { 1u32 } else { 0u32 }),
{
    if flag { 1 } else { 0 }
}

#[verifier::opaque]
pub open spec fn publish_marks_run(io: Io<Op>, state: HvdcpState, err: Option<HvdcpError>) -> Io<
    Op,
> {
    io.mark("HvdcpPhase", state.phase.code())
        .mark("HvdcpVia", state.transport.code())
        .mark("HvdcpEnSt", state.options1 as u32)
        .mark("ApsdSt", state.apsd_status as u32)
        .mark("ApsdResult", state.apsd_result as u32)
        .mark("PulseCnt", state.pulse_cnt)
        .mark("HvdcpBe", flag_word(state.big_endian))
        .mark("SuPulseCnt", state.pulse_cnt)
        .mark("SuApsdResult", state.apsd_result as u32)
        .mark("SuVbusEst", estimated_vbus_uv(state.pulse_cnt))
        .mark("QcLatch", flag_word(state.force9v_latched))
        .mark("HvdcpErr", match err {
            Some(err) => error_word(err),
            None => 0,
        })
}

/// Publishes where the negotiation stands.
pub fn publish_marks(io: &mut Session<Op>, state: &HvdcpState, err: Option<HvdcpError>)
    ensures
        final(io)@ == publish_marks_run(old(io)@, *state, err),
{
    proof {
        reveal(publish_marks_run);
    }
    io.mark("HvdcpPhase", state.phase.code());
    io.mark("HvdcpVia", state.transport.code());
    io.mark("HvdcpEnSt", state.options1 as u32);
    io.mark("ApsdSt", state.apsd_status as u32);
    io.mark("ApsdResult", state.apsd_result as u32);
    io.mark("PulseCnt", state.pulse_cnt);
    io.mark("HvdcpBe", flag_word(state.big_endian));
    io.mark("SuPulseCnt", state.pulse_cnt);
    io.mark("SuApsdResult", state.apsd_result as u32);
    io.mark("SuVbusEst", estimated_vbus_uv(state.pulse_cnt));
    io.mark("QcLatch", flag_word(state.force9v_latched));
    let word: u32 = match err {
        Some(err) => error_word(err),
        None => 0,
    };
    io.mark("HvdcpErr", word);
}

// ---------------------------------------------------------------------------
// Laws
// ---------------------------------------------------------------------------
/// A bus that is latched to 9 V takes no step: the command register is not
/// written, and the counter stands still.
pub proof fn law_latched_bus_takes_no_step(io: Io<Op>, bus: Bus, state: HvdcpState, gap_ms: u32)
    requires
        state.force9v_latched,
    ensures
        pulse_inc_gap_run(io, bus, state, gap_ms) == (io.tell(Op::Sleep(gap_ms)), state, Ok::<
            bool,
            HvdcpError,
        >(false)),
        pulse_dec_gap_run(io, bus, state, gap_ms) == (io.tell(Op::Sleep(gap_ms)), state, Ok::<
            bool,
            HvdcpError,
        >(false)),
{
}

/// A step command sets its own bit, clears the opposite one and keeps the rest
/// of the register.
pub proof fn law_step_keeps_the_rest(command: u8)
    ensures
        with_step(command, BIT_SINGLE_INC) & !(BIT_SINGLE_INC | BIT_SINGLE_DEC) == command & !(
        BIT_SINGLE_INC | BIT_SINGLE_DEC),
        with_step(command, BIT_SINGLE_DEC) & !(BIT_SINGLE_INC | BIT_SINGLE_DEC) == command & !(
        BIT_SINGLE_INC | BIT_SINGLE_DEC),
        with_step(command, BIT_SINGLE_INC) & (BIT_SINGLE_INC | BIT_SINGLE_DEC) == BIT_SINGLE_INC,
        with_step(command, BIT_SINGLE_DEC) & (BIT_SINGLE_INC | BIT_SINGLE_DEC) == BIT_SINGLE_DEC,
{
    assert(((command & !(0x01u8 | 0x02u8)) | 0x01u8) & !(0x01u8 | 0x02u8) == command & !(0x01u8
        | 0x02u8) && ((command & !(0x01u8 | 0x02u8)) | 0x02u8) & !(0x01u8 | 0x02u8) == command & !(
    0x01u8 | 0x02u8) && ((command & !(0x01u8 | 0x02u8)) | 0x01u8) & (0x01u8 | 0x02u8) == 0x01u8 && (
    (command & !(0x01u8 | 0x02u8)) | 0x02u8) & (0x01u8 | 0x02u8) == 0x02u8) by (bit_vector);
}

/// A step up that goes out and the step down that follows it leave the counter
/// where it was, below the cap.
pub proof fn law_step_down_undoes_a_step_up(
    io: Io<Op>,
    later: Io<Op>,
    bus: Bus,
    state: HvdcpState,
    gap_ms: u32,
)
    requires
        state.pulse_cnt < MAX_PULSE_CNT,
        pulse_inc_gap_run(io, bus, state, gap_ms).2 == Ok::<bool, HvdcpError>(true),
        pulse_dec_gap_run(later, bus, pulse_inc_gap_run(io, bus, state, gap_ms).1, gap_ms).2 == Ok::<
            bool,
            HvdcpError,
        >(true),
    ensures
        pulse_dec_gap_run(later, bus, pulse_inc_gap_run(io, bus, state, gap_ms).1, gap_ms).1
            == state,
{
}

/// Neither vote lowers the input current limit. The floor never lifts it above
/// 500 mA and touches nothing where the limit is there already; the other vote
/// ends at its target or above.
pub proof fn law_icl_is_never_lowered(io: Io<Op>, bus: Bus, state: HvdcpState, target: u8)
    requires
        read_reg_run(io, bus, state, REG_USBIN_ICL_CFG).1 is Ok,
    ensures
        ({
            let (read, current) = read_reg_run(io, bus, state, REG_USBIN_ICL_CFG);
            let (after, floor) = ensure_icl_floor_500ma_run(io, bus, state);
            let (_, vote) = ensure_icl_at_least_run(io, bus, state, target);
            &&& current->Ok_0 >= ICL_RAW_500MA ==> after == read && floor == current
            &&& current->Ok_0 < ICL_RAW_500MA && floor is Ok ==> floor->Ok_0 == ICL_RAW_500MA
            &&& vote is Ok ==> vote->Ok_0 >= target && vote->Ok_0 >= current->Ok_0
            &&& current->Ok_0 >= target ==> vote == current
        }),
{
}

/// Leaving the raised levels always forgets the 9 V latch, and commands 5 V as
/// its only request.
pub proof fn law_return_to_5v_drops_the_latch(io: Io<Op>, bus: Bus, state: HvdcpState)
    ensures
        !safe_force_5v_run(io, bus, state).1.force9v_latched,
        safe_force_5v_run(io, bus, state).0 == write_reg_run(
            io,
            bus,
            state,
            REG_CMD_HVDCP_2,
            BIT_FORCE_5V,
        ).0,
{
}

/// From one point of a run to another no classification was started.
pub open spec fn keeps_class(from: Io<Op>, to: Io<Op>) -> bool {
    writes::obeys(from, to, Rule::KeepClass)
}

/// Steps and current votes start no classification.
pub proof fn law_steps_keep_the_class(
    io: Io<Op>,
    bus: Bus,
    state: HvdcpState,
    gap_ms: u32,
    target: u8,
)
    ensures
        keeps_class(io, pulse_inc_gap_run(io, bus, state, gap_ms).0),
        keeps_class(io, pulse_dec_gap_run(io, bus, state, gap_ms).0),
        keeps_class(io, ensure_icl_floor_500ma_run(io, bus, state).0),
        keeps_class(io, ensure_icl_at_least_run(io, bus, state, target).0),
{
    broadcast use writes::group_obeys;

    writes::lemma_obeys_at_first(io, Rule::KeepClass);
}

/// The wait for a classification sleeps no longer than its patience, whatever
/// the adapter does.
pub proof fn law_class_wait_ends_in_time(io: Io<Op>, bus: Bus, state: HvdcpState)
    ensures
        session::slept_ms(wait_apsd_done_run(io, bus, state, 0).0.log) <= session::slept_ms(io.log)
            + APSD_WAIT_MS,
{
    lemma_class_wait_ends_in_time(io, bus, state, 0);
}

proof fn lemma_class_wait_ends_in_time(io: Io<Op>, bus: Bus, state: HvdcpState, waited: u32)
    requires
        waited % APSD_POLL_MS == 0,
    ensures
        session::slept_ms(wait_apsd_done_run(io, bus, state, waited).0.log)
            <= session::slept_ms(io.log) + (if waited < APSD_WAIT_MS {
            APSD_WAIT_MS - waited
        } else {
            0
        }),
    decreases APSD_WAIT_MS + APSD_POLL_MS - waited,
{
    lemma_slept_by_a_read(io, bus, state, REG_APSD_STATUS);
    let (read, status) = read_reg_run(io, bus, state, REG_APSD_STATUS);
    if let Ok(status) = status {
        let seen = HvdcpState { apsd_status: status, ..state };
        if status & BIT_APSD_DONE != 0 {
            lemma_slept_by_a_read(read, bus, seen, REG_APSD_RESULT);
        } else if waited < APSD_WAIT_MS {
            session::lemma_slept_by_a_request(read, Op::Sleep(APSD_POLL_MS));
            lemma_class_wait_ends_in_time(
                read.tell(Op::Sleep(APSD_POLL_MS)),
                bus,
                seen,
                (waited + APSD_POLL_MS) as u32,
            );
        }
    }
}

/// Reading a register does not sleep.
proof fn lemma_slept_by_a_read(io: Io<Op>, bus: Bus, state: HvdcpState, addr: u16)
    ensures
        session::slept_ms(read_reg_run(io, bus, state, addr).0.log) <= session::slept_ms(io.log),
{
    session::lemma_slept_by_a_request(io, Op::SuRead { sid: SPMI_SID_USBIN, reg: addr });
    session::lemma_slept_by_a_request(
        io,
        Op::UsbinRead { addr, big_endian: state.big_endian },
    );
}

// ---------------------------------------------------------------------------
// Laws of what reaches the registers
// ---------------------------------------------------------------------------
/// The read of a register on a path.
pub open spec fn read_request(bus: Bus, state: HvdcpState, addr: u16) -> Op {
    match bus {
        Bus::Superuser => Op::SuRead { sid: 2, reg: addr },
        Bus::Usbin => Op::UsbinRead { addr, big_endian: state.big_endian },
    }
}

/// The write of a register on a path.
pub open spec fn write_request(bus: Bus, state: HvdcpState, addr: u16, value: u8) -> Op {
    match bus {
        Bus::Superuser => Op::SuWrite { sid: 2, reg: addr, value },
        Bus::Usbin => Op::UsbinWrite { addr, value, big_endian: state.big_endian },
    }
}

/// Whether the answer to a write on a path accepts it.
pub open spec fn took(bus: Bus, reply: Reply) -> bool {
    match bus {
        Bus::Superuser => reply == Reply::Flag(true),
        Bus::Usbin => reply matches Reply::Byte(Some(_)),
    }
}

/// A register access is one request on the path in use, at the address and with the
/// value that it was asked for, and its result is the answer.
pub proof fn law_register_access_is_one_request(
    io: Io<Op>,
    bus: Bus,
    state: HvdcpState,
    addr: u16,
    value: u8,
)
    requires
        io.pending is None,
        io.next < io.replies.len(),
    ensures
        ({
            let (after, r) = read_reg_run(io, bus, state, addr);
            &&& trace::asked(io, after) == seq![read_request(bus, state, addr)]
            &&& match trace::answer(io, 0) {
                Reply::Byte(Some(byte)) => r == Ok::<u8, HvdcpError>(byte),
                _ => r == Err::<u8, HvdcpError>(HvdcpError::SpmiIo),
            }
        }),
        ({
            let (after, r) = write_reg_run(io, bus, state, addr, value);
            &&& trace::asked(io, after) == seq![write_request(bus, state, addr, value)]
            &&& trace::written(io, after) == seq![(addr, value)]
            &&& r == if took(bus, trace::answer(io, 0)) {
                Ok::<(), HvdcpError>(())
            } else {
                Err(HvdcpError::SpmiIo)
            }
        }),
{
    broadcast use trace::group_trace;

    trace::lemma_asked_nothing(io);
    trace::lemma_written_nothing(io);
}

/// A current vote that succeeds leaves the limit in the register at what it says, at
/// the target or above and never below what was there; and it makes the limit count.
/// It succeeds wherever the register can be reached. The floor does the same for
/// 500 mA.
pub proof fn law_vote_reaches_the_register(io: Io<Op>, bus: Bus, state: HvdcpState, target: u8)
    requires
        trace::honest(io),
        io.pending is None,
    ensures
        ({
            let (after, r) = ensure_icl_at_least_run(io, bus, state, target);
            &&& r matches Ok(icl) ==> {
                &&& icl >= target
                &&& trace::known(after, 0x1370) == Some(icl)
                &&& after.pending is None ==> trace::written(io, after).contains((0x1342u16, 1u8))
                &&& trace::answer(io, 0) matches Reply::Byte(Some(before)) && icl == if before
                    >= target {
                    before
                } else {
                    target
                }
            }
            &&& after.pending is None && trace::smooth(io, after) ==> r is Ok
        }),
        ({
            let (after, r) = ensure_icl_floor_500ma_run(io, bus, state);
            &&& r matches Ok(icl) ==> {
                &&& icl >= 10
                &&& trace::known(after, 0x1370) == Some(icl)
                &&& trace::answer(io, 0) matches Reply::Byte(Some(before)) && icl == if before
                    >= 10 {
                    before
                } else {
                    10
                }
            }
            &&& after.pending is None && trace::smooth(io, after) ==> r is Ok
        }),
{
    broadcast use trace::group_trace;

    trace::lemma_written_nothing(io);
    let (read, current) = read_reg_run(io, bus, state, REG_USBIN_ICL_CFG);
    if let Ok(current) = current {
        let (voted, _) = if current >= target {
            (read, Ok::<(), HvdcpError>(()))
        } else {
            write_reg_run(read, bus, state, REG_USBIN_ICL_CFG, target)
        };
        let (counted, _) = write_reg_run(voted, bus, state, REG_CMD_ICL_OVERRIDE, BIT_ICL_OVERRIDE);
        let n = trace::written(io, voted).len();
        if counted.pending is None {
            assert(trace::written(io, counted)[n as int] == (0x1342u16, 1u8));
            let after = clear_usbin_suspend_run(counted, bus, state);
            let more = trace::written(io, after);
            assert(more.len() > n && more[n as int] == (0x1342u16, 1u8));
        }
    }
}

/// Where the registers can be reached, a suspended input is released, and the rest of
/// its register kept.
pub proof fn law_suspend_is_lifted(io: Io<Op>, bus: Bus, state: HvdcpState)
    requires
        trace::honest(io),
        io.pending is None,
        clear_usbin_suspend_run(io, bus, state).pending is None,
        trace::smooth(io, clear_usbin_suspend_run(io, bus, state)),
    ensures
        trace::answer(io, 0) matches Reply::Byte(Some(before)) && trace::known(
            clear_usbin_suspend_run(io, bus, state),
            0x1340,
        ) == Some(before & 0xFE),
{
    broadcast use trace::group_trace;

    trace::lemma_written_nothing(io);
    let (read, cmd) = read_reg_run(io, bus, state, REG_USBIN_CMD_IL);
    let before = cmd->Ok_0;
    assert(before & 0x01u8 == 0 ==> before & 0xFEu8 == before) by (bit_vector);
    assert(before & !0x01u8 == before & 0xFEu8) by (bit_vector);
}

/// The hold that the connector has on classification is lifted afterwards, and
/// the rest of its register is kept. It fails only where a register cannot be reached.
pub proof fn law_gate_is_opened(io: Io<Op>, bus: Bus, state: HvdcpState)
    requires
        trace::honest(io),
        io.pending is None,
    ensures
        ({
            let (after, r) = clear_apsd_cc_gate_run(io, bus, state);
            &&& r matches Ok(cfg) ==> {
                &&& trace::known(after, 0x1358) == Some(cfg)
                &&& trace::answer(io, 0) matches Reply::Byte(Some(before)) && cfg == before & 0x7F
            }
            &&& after.pending is None && trace::smooth(io, after) ==> r is Ok
        }),
{
    broadcast use trace::group_trace;

    let cfg = read_reg_run(io, bus, state, REG_TYPE_C_CFG).1->Ok_0;
    assert((cfg & 0x80u8 == 0 ==> cfg & 0x7Fu8 == cfg) && cfg & !0x80u8 == cfg & 0x7Fu8)
        by (bit_vector);
}

/// High-voltage charging is on afterwards, driven by the host: the register holds the
/// three enables and not the autonomous mode, the rest is kept, and the state says so.
/// It fails only where a register cannot be reached.
pub proof fn law_high_voltage_is_enabled(io: Io<Op>, bus: Bus, state: HvdcpState)
    requires
        trace::honest(io),
        io.pending is None,
    ensures
        ({
            let (after, left, r) = enable_hvdcp_run(io, bus, state);
            &&& r is Ok ==> {
                &&& trace::known(after, 0x1362) == Some(left.options1)
                &&& left.options1 & 0x4C == 0x4C
                &&& left.options1 & 0x20 == 0
                &&& trace::answer(io, 0) matches Reply::Byte(Some(before)) && left.options1 & 0x93
                    == before & 0x93
                &&& left == (HvdcpState { options1: left.options1, ..state })
            }
            &&& r is Err ==> left == state
            &&& after.pending is None && trace::smooth(io, after) ==> r is Ok
        }),
{
    broadcast use trace::group_trace;

    let x = read_reg_run(io, bus, state, REG_USBIN_OPTIONS_1).1->Ok_0;
    assert(((x | (0x04u8 | 0x40u8 | 0x08u8)) & !0x20u8) & 0x4C == 0x4C && ((x | (0x04u8 | 0x40u8
        | 0x08u8)) & !0x20u8) & 0x20 == 0 && ((x | (0x04u8 | 0x40u8 | 0x08u8)) & !0x20u8) & 0x93
        == x & 0x93) by (bit_vector);
}

/// Adapters from 5 V to 12 V are allowed afterwards and QC2 is capped at 9 V, in the
/// registers themselves. It fails only where a register cannot be reached.
pub proof fn law_voltage_gates_are_set(io: Io<Op>, bus: Bus, state: HvdcpState)
    requires
        trace::honest(io),
        io.pending is None,
    ensures
        ({
            let (after, r) = ensure_hvdcp_voltage_gates_run(io, bus, state);
            &&& r matches Ok((allow, cap)) ==> {
                &&& trace::known(after, 0x1360) == Some(allow) && allow & 0x0F == 0x0C
                &&& trace::known(after, 0x135B) == Some(cap) && cap & 0xC0 == 0x40
                &&& trace::answer(io, 0) matches Reply::Byte(Some(before)) && allow & 0xF0 == before
                    & 0xF0
            }
            &&& after.pending is None && trace::smooth(io, after) ==> r is Ok
        }),
{
    broadcast use trace::group_trace;

    let (read, allow) = read_reg_run(io, bus, state, REG_USBIN_ADAPTER_ALLOW);
    if let Ok(allow) = allow {
        crate::hvdcp::law_merges_keep_the_rest(allow);
        let (merged, _) = merge_reg_run(
            read,
            bus,
            state,
            REG_USBIN_ADAPTER_ALLOW,
            allow,
            with_adapter_allow_5v_to_12v(allow),
        );
        let (_, cap) = read_reg_run(merged, bus, state, REG_HVDCP_PULSE_COUNT_MAX);
        if let Ok(cap) = cap {
            crate::hvdcp::law_merges_keep_the_rest(cap);
        }
    }
}

/// What is looked at after a negotiation is what the two registers held.
pub proof fn law_look_sees_the_registers(io: Io<Op>, bus: Bus, state: HvdcpState)
    requires
        trace::honest(io),
        io.pending is None,
    ensures
        ({
            let (after, r) = sample_qc_status_run(io, bus, state);
            &&& r matches Ok((change, pulses)) ==> trace::known(after, 0x1309) == Some(change)
                && trace::known(after, 0x130A) == Some(pulses)
            &&& after.pending is None && trace::smooth(io, after) ==> r is Ok
            &&& trace::written(io, after).len() == 0
        }),
{
    broadcast use trace::group_trace;

    trace::lemma_written_nothing(io);
}

/// A new classification is one write of the rerun bit, and it is started exactly where
/// that is accepted.
pub proof fn law_rerun_is_commanded(io: Io<Op>, bus: Bus, state: HvdcpState)
    requires
        io.pending is None,
        io.next < io.replies.len(),
    ensures
        ({
            let (after, r) = apsd_rerun_run(io, bus, state);
            &&& trace::written(io, after) == seq![(0x1341u16, 1u8)]
            &&& r is Ok <==> took(bus, trace::answer(io, 0))
        }),
{
    broadcast use trace::group_trace;

    trace::lemma_written_nothing(io);
}

/// A wait that succeeds ended with a status that says done and with the result that was
/// read after it; a wait that ran out ended with one that does not. Nothing is written.
pub proof fn law_wait_ends_with_the_class(io: Io<Op>, bus: Bus, state: HvdcpState, waited: u32)
    requires
        trace::honest(io),
    ensures
        ({
            let (after, left, r) = wait_apsd_done_run(io, bus, state, waited);
            &&& r is Ok ==> {
                &&& trace::known(after, 0x1307) == Some(left.apsd_status)
                &&& left.apsd_status & 1 != 0
                &&& trace::known(after, 0x1308) == Some(left.apsd_result)
            }
            &&& r == Err::<(), HvdcpError>(HvdcpError::ApsdTimeout) ==> trace::known(after, 0x1307)
                == Some(left.apsd_status) && left.apsd_status & 1 == 0
            &&& left == (HvdcpState {
                apsd_status: left.apsd_status,
                apsd_result: left.apsd_result,
                ..state
            })
            &&& trace::written(io, after).len() == 0
            &&& trace::follows(io, after)
        }),
    decreases APSD_WAIT_MS + APSD_POLL_MS - waited,
{
    broadcast use trace::group_trace;

    trace::lemma_written_nothing(io);
    trace::lemma_follows_at_first(io);
    let (read, status) = read_reg_run(io, bus, state, REG_APSD_STATUS);
    if let Ok(status) = status {
        let seen = HvdcpState { apsd_status: status, ..state };
        if status & BIT_APSD_DONE == 0 && waited < APSD_WAIT_MS {
            let later = read.tell(Op::Sleep(APSD_POLL_MS));
            law_wait_ends_with_the_class(
                later,
                bus,
                seen,
                (waited + APSD_POLL_MS) as u32,
            );
            trace::lemma_follows_in_turn(
                io,
                later,
                wait_apsd_done_run(later, bus, seen, (waited + APSD_POLL_MS) as u32).0,
            );
            trace::lemma_written_in_turn(
                io,
                later,
                wait_apsd_done_run(later, bus, seen, (waited + APSD_POLL_MS) as u32).0,
            );
        }
    }
}

/// A step on a bus that takes steps is one write of the command register: its own bit
/// set, the opposite one clear, the other bits as they were read. It is counted exactly
/// where it is accepted, and then given its time. Up and down are mirror images.
pub proof fn law_step_is_commanded(io: Io<Op>, bus: Bus, state: HvdcpState, gap_ms: u32)
    requires
        io.pending is None,
        !state.force9v_latched,
        state.valid(),
        io.next + 3 <= io.replies.len(),
    ensures
        ({
            let (up, raised, r) = pulse_inc_gap_run(io, bus, state, gap_ms);
            let (down, lowered, s) = pulse_dec_gap_run(io, bus, state, gap_ms);
            let before = match trace::answer(io, 0) {
                Reply::Byte(Some(byte)) => byte,
                _ => 0u8,
            };
            let done = took(bus, trace::answer(io, 1));
            &&& trace::written(io, up) == seq![(0x1343u16, before & 0xFC | 1)]
            &&& trace::written(io, down) == seq![(0x1343u16, before & 0xFC | 2)]
            &&& done ==> r == Ok::<bool, HvdcpError>(true) && s == Ok::<bool, HvdcpError>(true)
                && trace::asked(io, up).last() == Op::Sleep(gap_ms) && trace::asked(io, down).last()
                == Op::Sleep(gap_ms)
            &&& !done ==> r is Err && s is Err
            &&& raised == (HvdcpState { pulse_cnt: raised.pulse_cnt, ..state })
            &&& lowered == (HvdcpState { pulse_cnt: lowered.pulse_cnt, ..state })
            &&& raised.pulse_cnt == state.pulse_cnt + if done && state.pulse_cnt < 23 {
                1int
            } else {
                0
            }
            &&& lowered.pulse_cnt == state.pulse_cnt - if done && state.pulse_cnt > 0 {
                1int
            } else {
                0
            }
        }),
{
    broadcast use trace::group_trace;

    trace::lemma_written_nothing(io);
    trace::lemma_asked_nothing(io);
    assert(!(0x01u8 | 0x02u8) == 0xFCu8) by (bit_vector);
}

/// The 9 V request is one write of the command register with its bit added to what was
/// read. It latches the bus exactly where it is accepted, and then counts as 20 steps.
pub proof fn law_9v_request_is_commanded(io: Io<Op>, bus: Bus, state: HvdcpState)
    requires
        io.pending is None,
        io.next + 3 <= io.replies.len(),
    ensures
        ({
            let (after, left, r) = force_9v_run(io, bus, state);
            let before = match trace::answer(io, 0) {
                Reply::Byte(Some(byte)) => byte,
                _ => 0u8,
            };
            &&& trace::written(io, after) == seq![(0x1343u16, before | 0x10)]
            &&& r is Ok <==> took(bus, trace::answer(io, 1))
            &&& r is Ok ==> left == (HvdcpState { force9v_latched: true, pulse_cnt: 20, ..state })
            &&& r is Err ==> left == state
        }),
{
    broadcast use trace::group_trace;

    trace::lemma_written_nothing(io);
}

/// The return to 5 V is one write of the command register with its bit alone.
pub proof fn law_5v_is_commanded(io: Io<Op>, bus: Bus, state: HvdcpState)
    requires
        io.pending is None,
        io.next < io.replies.len(),
    ensures
        trace::written(io, safe_force_5v_run(io, bus, state).0) == seq![(0x1343u16, 0x08u8)],
        safe_force_5v_run(io, bus, state).1 == (HvdcpState { force9v_latched: false, ..state }),
{
    broadcast use trace::group_trace;

    trace::lemma_written_nothing(io);
}

/// The byte order of the resource hub is the one in which a register answers, the big
/// one tried first; one that is known is not asked for again.
pub proof fn law_order_is_the_one_that_answers(io: Io<Op>, state: HvdcpState)
    requires
        io.pending is None,
        io.next + 2 <= io.replies.len(),
    ensures
        ({
            let (after, left, r) = resolve_endian_usbin_run(io, state);
            let big = trace::answer(io, 0) matches Reply::Byte(Some(_));
            let little = trace::answer(io, 1) matches Reply::Byte(Some(_));
            &&& state.endian_known ==> after == io && left == state && r is Ok
            &&& !state.endian_known ==> {
                &&& r is Ok <==> big || little
                &&& r is Ok ==> left == (HvdcpState { big_endian: big, endian_known: true, ..state })
                &&& r is Err ==> left == state
            }
        }),
{
}

/// Whether writes are steps in one direction and nothing else: each sets the bit of that
/// direction in the command register and clears the other.
pub open spec fn only_steps(writes: Seq<(u16, u8)>, bit: u8) -> bool {
    forall|i: int|
        0 <= i < writes.len() ==> (#[trigger] writes[i]).0 == 0x1343 && writes[i].1 & 3 == bit
}

/// One step up or down, as a part of many.
pub proof fn lemma_one_step(io: Io<Op>, bus: Bus, state: HvdcpState, gap_ms: u32)
    requires
        !state.force9v_latched,
    ensures
        ({
            let (after, left, r) = pulse_inc_gap_run(io, bus, state, gap_ms);
            &&& trace::follows(io, after)
            &&& only_steps(trace::written(io, after), 1)
            &&& r is Ok ==> trace::written(io, after).len() == 1 && r == Ok::<bool, HvdcpError>(true)
            &&& r is Err ==> r == Err::<bool, HvdcpError>(HvdcpError::SpmiIo)
            &&& trace::honest(io) && after.pending is None && trace::smooth(io, after) ==> r is Ok
        }),
        ({
            let (after, left, r) = pulse_dec_gap_run(io, bus, state, gap_ms);
            &&& trace::follows(io, after)
            &&& only_steps(trace::written(io, after), 2)
            &&& r is Ok ==> trace::written(io, after).len() == 1 && r == Ok::<bool, HvdcpError>(true)
            &&& r is Err ==> r == Err::<bool, HvdcpError>(HvdcpError::SpmiIo)
            &&& trace::honest(io) && after.pending is None && trace::smooth(io, after) ==> r is Ok
        }),
{
    broadcast use trace::group_trace;

    trace::lemma_written_nothing(io);
    trace::lemma_follows_at_first(io);
    let (_, current) = read_reg_run(io, bus, state, REG_CMD_HVDCP_2);
    law_step_keeps_the_rest(match current {
        Ok(command) => command,
        Err(_) => 0,
    });
    assert(0x01u8 | 0x02u8 == 3u8) by (bit_vector);
}

/// Steps before and steps after are steps.
pub proof fn lemma_steps_in_turn(a: Io<Op>, b: Io<Op>, c: Io<Op>, bit: u8)
    requires
        trace::follows(a, b),
        trace::follows(b, c),
        only_steps(trace::written(a, b), bit),
        only_steps(trace::written(b, c), bit),
    ensures
        only_steps(trace::written(a, c), bit),
        trace::written(a, c).len() == trace::written(a, b).len() + trace::written(b, c).len(),
        trace::follows(a, c),
{
    trace::lemma_follows_in_turn(a, b, c);
    assert(a.log.len() <= b.log.len()) by {
        reveal(trace::follows);
    }
    trace::lemma_written_in_turn(a, b, c);
}

} // verus!
