//! Corrections of a negotiated bus: steps toward the transfer band, and the
//! input current that goes with the mode.
use crate::arith::{step_down, step_up};
use crate::exchange::Op;
use crate::hvdcp::{
    target_vbus_uv, trim_target_uv, window_floor_uv, HvdcpError, HvdcpPhase, HvdcpState,
    HvdcpTransport, ICL_RAW_5V_2P7A, ICL_RAW_PUMP_3A, MAX_BOOST_INC, MAX_TRIM_DEC, PULSE_GAP_MS,
    QC3_STEP_UV,
};
use crate::qc35;
use crate::session::{Io, Session};
use crate::usbin::{self, ensure_icl_at_least, error_word, pulse_dec_gap, pulse_inc_gap, Bus};
use crate::trace;
use crate::writes::{self, Rule};
use vstd::prelude::*;

verus! {

/// The path that a correction found open.
#[derive(Debug, Clone, Copy, PartialEq, Eq, Structural)]
pub enum Opened {
    /// The superuser node.
    Superuser,
    /// The resource hub.
    Usbin,
    /// Neither.
    Neither,
}

pub open spec fn open_hub_run(io: Io<Op>, usbin_id: Option<u64>) -> (Io<Op>, bool) {
    match usbin_id {
        Some(id) => io.flag(Op::UsbinOpen(id)),
        None => (io, false),
    }
}

/// Opens the resource hub, where there is a connection.
fn open_hub(io: &mut Session<Op>, usbin_id: Option<u64>) -> (open: bool)
    ensures
        (final(io)@, open) == open_hub_run(old(io)@, usbin_id),
{
    match usbin_id {
        Some(id) => io.flag(Op::UsbinOpen(id)),
        None => false,
    }
}

pub open spec fn open_any_run(io: Io<Op>, usbin_id: Option<u64>, state: HvdcpState) -> (
    Io<Op>,
    HvdcpState,
    Opened,
) {
    let (io, su) = io.outcome(Op::SuOpen);
    if su is Ok {
        (io, HvdcpState { transport: HvdcpTransport::Superuser, ..state }, Opened::Superuser)
    } else {
        let (io, hub) = open_hub_run(io, usbin_id);
        (io, state, if hub {
            Opened::Usbin
        } else {
            Opened::Neither
        })
    }
}

/// Opens whichever path can be opened, the superuser node first.
fn open_any(io: &mut Session<Op>, usbin_id: Option<u64>, state: &mut HvdcpState) -> (r: Opened)
    ensures
        (final(io)@, *final(state), r) == open_any_run(old(io)@, usbin_id, *old(state)),
        old(state).valid() ==> final(state).valid(),
{
    if io.outcome(Op::SuOpen).is_ok() {
        state.transport = HvdcpTransport::Superuser;
        return Opened::Superuser;
    }
    if open_hub(io, usbin_id) {
        Opened::Usbin
    } else {
        Opened::Neither
    }
}

pub open spec fn close_run(io: Io<Op>, opened: Opened) -> Io<Op> {
    if opened == Opened::Superuser {
        io.tell(Op::SuClose)
    } else {
        io
    }
}

fn close(io: &mut Session<Op>, opened: Opened)
    ensures
        final(io)@ == close_run(old(io)@, opened),
{
    if opened == Opened::Superuser {
        io.tell(Op::SuClose);
    }
}

// ---------------------------------------------------------------------------
// Down
// ---------------------------------------------------------------------------
/// Steps down from an estimated input while it is above the target and above
/// the floor. A failed step ends them, and so does a bus that takes none.
pub open spec fn trim_steps_run(
    io: Io<Op>,
    bus: Bus,
    state: HvdcpState,
    vbat_uv: u32,
    vin: i32,
    dec: u32,
) -> (Io<Op>, HvdcpState, u32)
    decreases qc35::left(MAX_TRIM_DEC, dec),
{
    if vin > target_vbus_uv(vbat_uv) && vin > window_floor_uv(vbat_uv) && dec < MAX_TRIM_DEC {
        let (io, state, sent) = usbin::pulse_dec_gap_run(io, bus, state, PULSE_GAP_MS);
        if sent == Ok::<bool, HvdcpError>(true) {
            trim_steps_run(
                io,
                bus,
                state,
                vbat_uv,
                step_down(vin, QC3_STEP_UV),
                (dec + 1) as u32,
            )
        } else {
            (io, state, dec)
        }
    } else {
        (io, state, dec)
    }
}

fn trim_steps(
    io: &mut Session<Op>,
    bus: Bus,
    state: &mut HvdcpState,
    vbat_uv: u32,
    first_vin: i32,
) -> (dec: u32)
    ensures
        (final(io)@, *final(state), dec) == trim_steps_run(
            old(io)@,
            bus,
            *old(state),
            vbat_uv,
            first_vin,
            0,
        ),
        old(state).valid() ==> final(state).valid(),
{
    let stop: i32 = target_vbus_uv(vbat_uv) as i32;
    let floor: i32 = window_floor_uv(vbat_uv);
    let mut vin: i32 = first_vin;
    let mut dec: u32 = 0;
    while vin > stop && vin > floor && dec < MAX_TRIM_DEC
        invariant
            old(state).valid() ==> state.valid(),
            stop == target_vbus_uv(vbat_uv),
            floor == window_floor_uv(vbat_uv),
            trim_steps_run(io@, bus, *state, vbat_uv, vin, dec) == trim_steps_run(
                old(io)@,
                bus,
                *old(state),
                vbat_uv,
                first_vin,
                0,
            ),
        decreases qc35::left(MAX_TRIM_DEC, dec),
    {
        match pulse_dec_gap(io, bus, state, PULSE_GAP_MS) {
            Ok(true) => {},
            Ok(false) => return dec,
            Err(_) => return dec,
        }
        dec = dec + 1;
        vin = step_down(vin, QC3_STEP_UV);
    }
    dec
}

pub open spec fn trim_vin_for_pump_run(
    io: Io<Op>,
    usbin_id: Option<u64>,
    state: HvdcpState,
    vin_uv: i32,
    vbat_uv: u32,
) -> (Io<Op>, HvdcpState, u32) {
    if vin_uv <= target_vbus_uv(vbat_uv) {
        (io.mark("TrimDec", 0), state, 0)
    } else {
        let (io, state, opened) = open_any_run(io, usbin_id, state);
        let (io, state, dec) = match opened {
            Opened::Superuser => trim_steps_run(io, Bus::Superuser, state, vbat_uv, vin_uv, 0),
            Opened::Usbin => trim_steps_run(io, Bus::Usbin, state, vbat_uv, vin_uv, 0),
            Opened::Neither => (io, state, 0),
        };
        (close_run(io.mark("TrimDec", dec), opened), state, dec)
    }
}

/// Lowers the bus with steps down until the estimated input is at or under
/// [`target_vbus_uv`]. No step goes out from at or below the floor of the band.
/// Returns how many steps went out.
pub fn trim_vin_for_pump(
    io: &mut Session<Op>,
    usbin_id: Option<u64>,
    state: &mut HvdcpState,
    vin_uv: i32,
    vbat_uv: u32,
) -> (dec: u32)
    ensures
        (final(io)@, *final(state), dec) == trim_vin_for_pump_run(
            old(io)@,
            usbin_id,
            *old(state),
            vin_uv,
            vbat_uv,
        ),
        old(state).valid() ==> final(state).valid(),
{
    if vin_uv <= target_vbus_uv(vbat_uv) as i32 {
        io.mark("TrimDec", 0);
        return 0;
    }
    let opened = open_any(io, usbin_id, state);
    let dec: u32 = match opened {
        Opened::Superuser => trim_steps(io, Bus::Superuser, state, vbat_uv, vin_uv),
        Opened::Usbin => trim_steps(io, Bus::Usbin, state, vbat_uv, vin_uv),
        Opened::Neither => 0,
    };
    io.mark("TrimDec", dec);
    close(io, opened);
    dec
}

// ---------------------------------------------------------------------------
// Up
// ---------------------------------------------------------------------------
/// Steps up from an estimated input while it is below the target. Passing the
/// top of the band ends them, and so does a failed step or a bus that takes
/// none.
pub open spec fn boost_steps_run(
    io: Io<Op>,
    bus: Bus,
    state: HvdcpState,
    vbat_uv: u32,
    vin: i32,
    inc: u32,
) -> (Io<Op>, HvdcpState, u32)
    decreases qc35::left(MAX_BOOST_INC, inc),
{
    if vin < target_vbus_uv(vbat_uv) && inc < MAX_BOOST_INC {
        let (io, state, sent) = usbin::pulse_inc_gap_run(io, bus, state, PULSE_GAP_MS);
        if sent == Ok::<bool, HvdcpError>(true) {
            let vin = step_up(vin, QC3_STEP_UV);
            if vin > trim_target_uv(vbat_uv) {
                (io, state, (inc + 1) as u32)
            } else {
                boost_steps_run(io, bus, state, vbat_uv, vin, (inc + 1) as u32)
            }
        } else {
            (io, state, inc)
        }
    } else {
        (io, state, inc)
    }
}

fn boost_steps(
    io: &mut Session<Op>,
    bus: Bus,
    state: &mut HvdcpState,
    vbat_uv: u32,
    first_vin: i32,
) -> (inc: u32)
    ensures
        (final(io)@, *final(state), inc) == boost_steps_run(
            old(io)@,
            bus,
            *old(state),
            vbat_uv,
            first_vin,
            0,
        ),
        old(state).valid() ==> final(state).valid(),
{
    let stop: i32 = target_vbus_uv(vbat_uv) as i32;
    let top: i32 = trim_target_uv(vbat_uv);
    let mut vin: i32 = first_vin;
    let mut inc: u32 = 0;
    while vin < stop && inc < MAX_BOOST_INC
        invariant
            old(state).valid() ==> state.valid(),
            stop == target_vbus_uv(vbat_uv),
            top == trim_target_uv(vbat_uv),
            boost_steps_run(io@, bus, *state, vbat_uv, vin, inc) == boost_steps_run(
                old(io)@,
                bus,
                *old(state),
                vbat_uv,
                first_vin,
                0,
            ),
        decreases qc35::left(MAX_BOOST_INC, inc),
    {
        match pulse_inc_gap(io, bus, state, PULSE_GAP_MS) {
            Ok(true) => {},
            Ok(false) => return inc,
            Err(_) => return inc,
        }
        inc = inc + 1;
        vin = step_up(vin, QC3_STEP_UV);
        if vin > top {
            return inc;
        }
    }
    inc
}

pub open spec fn boost_vin_for_pump_run(
    io: Io<Op>,
    usbin_id: Option<u64>,
    state: HvdcpState,
    vin_uv: i32,
    vbat_uv: u32,
) -> (Io<Op>, HvdcpState, u32) {
    if vin_uv >= target_vbus_uv(vbat_uv) {
        (io.mark("BoostInc", 0), state, 0)
    } else {
        let (io, state, opened) = open_any_run(io, usbin_id, state);
        let (io, state, inc) = match opened {
            Opened::Superuser => boost_steps_run(io, Bus::Superuser, state, vbat_uv, vin_uv, 0),
            Opened::Usbin => boost_steps_run(io, Bus::Usbin, state, vbat_uv, vin_uv, 0),
            Opened::Neither => (io, state, 0),
        };
        (close_run(io.mark("BoostInc", inc), opened), state, inc)
    }
}

/// Raises the bus with steps up until the estimated input reaches
/// [`target_vbus_uv`]. No step is sent from the target or from above the band.
/// Returns how many steps went out.
pub fn boost_vin_for_pump(
    io: &mut Session<Op>,
    usbin_id: Option<u64>,
    state: &mut HvdcpState,
    vin_uv: i32,
    vbat_uv: u32,
) -> (inc: u32)
    ensures
        (final(io)@, *final(state), inc) == boost_vin_for_pump_run(
            old(io)@,
            usbin_id,
            *old(state),
            vin_uv,
            vbat_uv,
        ),
        old(state).valid() ==> final(state).valid(),
{
    if vin_uv >= target_vbus_uv(vbat_uv) as i32 {
        io.mark("BoostInc", 0);
        return 0;
    }
    let opened = open_any(io, usbin_id, state);
    let inc: u32 = match opened {
        Opened::Superuser => boost_steps(io, Bus::Superuser, state, vbat_uv, vin_uv),
        Opened::Usbin => boost_steps(io, Bus::Usbin, state, vbat_uv, vin_uv),
        Opened::Neither => 0,
    };
    io.mark("BoostInc", inc);
    close(io, opened);
    inc
}

// ---------------------------------------------------------------------------
// Either
// ---------------------------------------------------------------------------
/// 1 where a step went out, else 0.
pub open spec fn sent_count(sent: Result<bool, HvdcpError>) -> u32 {
    match sent {
        Ok(true) => 1,
        _ => 0,
    }
}

fn count_sent(sent: Result<bool, HvdcpError>) -> (n: u32)
    ensures
        n == sent_count(sent),
{
    match sent {
        Ok(true) => 1,
        _ => 0,
    }
}

pub open spec fn one_dec_pulse_run(io: Io<Op>, usbin_id: Option<u64>, state: HvdcpState) -> (
    Io<Op>,
    HvdcpState,
    u32,
) {
    let (io, state, opened) = open_any_run(io, usbin_id, state);
    let (io, state, n) = match opened {
        Opened::Superuser => {
            let (io, state, sent) = usbin::pulse_dec_gap_run(
                io,
                Bus::Superuser,
                state,
                PULSE_GAP_MS,
            );
            (io, state, sent_count(sent))
        },
        Opened::Usbin => {
            let (io, state, sent) = usbin::pulse_dec_gap_run(io, Bus::Usbin, state, PULSE_GAP_MS);
            (io, state, sent_count(sent))
        },
        Opened::Neither => (io, state, 0),
    };
    (close_run(io, opened), state, n)
}

/// A single step down on whichever path opens: 1 where it went out, else 0.
fn one_dec_pulse(io: &mut Session<Op>, usbin_id: Option<u64>, state: &mut HvdcpState) -> (n: u32)
    ensures
        (final(io)@, *final(state), n) == one_dec_pulse_run(old(io)@, usbin_id, *old(state)),
        old(state).valid() ==> final(state).valid(),
{
    let opened = open_any(io, usbin_id, state);
    let n: u32 = match opened {
        Opened::Superuser => count_sent(pulse_dec_gap(io, Bus::Superuser, state, PULSE_GAP_MS)),
        Opened::Usbin => count_sent(pulse_dec_gap(io, Bus::Usbin, state, PULSE_GAP_MS)),
        Opened::Neither => 0,
    };
    close(io, opened);
    n
}

pub open spec fn nudge_vin_into_window_run(
    io: Io<Op>,
    usbin_id: Option<u64>,
    state: HvdcpState,
    vin_uv: i32,
    vbat_uv: u32,
    dead_current: bool,
) -> (Io<Op>, HvdcpState, u32) {
    if vin_uv <= 0 || vbat_uv == 0 || state.force9v_latched {
        (io, state, 0)
    } else if vin_uv > trim_target_uv(vbat_uv) {
        let (io, state, dec) = trim_vin_for_pump_run(io, usbin_id, state, vin_uv, vbat_uv);
        (io.mark("NudgeDec", dec), state, dec)
    } else if vin_uv < target_vbus_uv(vbat_uv) && (dead_current || vin_uv < window_floor_uv(
        vbat_uv,
    )) {
        let (io, state, inc) = boost_vin_for_pump_run(io, usbin_id, state, vin_uv, vbat_uv);
        (io.mark("NudgeInc", inc), state, inc)
    } else if dead_current && vin_uv > window_floor_uv(vbat_uv) {
        let (io, state, dec) = one_dec_pulse_run(io, usbin_id, state);
        (io.mark("NudgeDec", dec), state, dec)
    } else {
        (io, state, 0)
    }
}

/// One correction toward the transfer band.
///
/// Above the band: down to its centre. Below the centre: up, but only from
/// below the floor or where the pump carries nothing. Inside the band with a
/// pump that carries nothing: one step down. A bus that a 9 V request holds is
/// left alone. Returns how many steps went out.
pub fn nudge_vin_into_window(
    io: &mut Session<Op>,
    usbin_id: Option<u64>,
    state: &mut HvdcpState,
    vin_uv: i32,
    vbat_uv: u32,
    dead_current: bool,
) -> (sent: u32)
    ensures
        (final(io)@, *final(state), sent) == nudge_vin_into_window_run(
            old(io)@,
            usbin_id,
            *old(state),
            vin_uv,
            vbat_uv,
            dead_current,
        ),
        old(state).valid() ==> final(state).valid(),
{
    if vin_uv <= 0 || vbat_uv == 0 {
        return 0;
    }
    if state.force9v_latched {
        return 0;
    }
    let top: i32 = trim_target_uv(vbat_uv);
    let floor: i32 = window_floor_uv(vbat_uv);
    let target: i32 = target_vbus_uv(vbat_uv) as i32;
    if vin_uv > top {
        let dec: u32 = trim_vin_for_pump(io, usbin_id, state, vin_uv, vbat_uv);
        io.mark("NudgeDec", dec);
        return dec;
    }
    if vin_uv < target && (dead_current || vin_uv < floor) {
        let inc: u32 = boost_vin_for_pump(io, usbin_id, state, vin_uv, vbat_uv);
        io.mark("NudgeInc", inc);
        return inc;
    }
    if dead_current && vin_uv > floor {
        let dec: u32 = one_dec_pulse(io, usbin_id, state);
        io.mark("NudgeDec", dec);
        return dec;
    }
    0
}

// ---------------------------------------------------------------------------
// Input current
// ---------------------------------------------------------------------------
pub open spec fn raise_icl_run(
    io: Io<Op>,
    usbin_id: Option<u64>,
    state: HvdcpState,
    target: u8,
    name: &'static str,
) -> (Io<Op>, HvdcpState, u8) {
    let (io, su) = io.outcome(Op::SuOpen);
    let (io, state, voted) = if su is Ok {
        let state = HvdcpState { transport: HvdcpTransport::Superuser, ..state };
        let (io, icl) = usbin::ensure_icl_at_least_run(io, Bus::Superuser, state, target);
        match icl {
            Ok(icl) => (io.mark(name, icl as u32).tell(Op::SuClose), state, Some(icl)),
            Err(err) => (io.mark(name, error_word(err)).tell(Op::SuClose), state, None),
        }
    } else {
        (io, state, None)
    };
    match voted {
        Some(icl) => (io, state, icl),
        None => {
            let (io, hub) = open_hub_run(io, usbin_id);
            if hub {
                let (io, icl) = usbin::ensure_icl_at_least_run(io, Bus::Usbin, state, target);
                match icl {
                    Ok(icl) => (io.mark(name, icl as u32), state, icl),
                    Err(_) => (io, state, 0),
                }
            } else {
                (io, state, 0)
            }
        },
    }
}

/// Lifts the input current limit to a code on the first path that manages it.
/// Returns the code in force, or 0.
fn raise_icl(
    io: &mut Session<Op>,
    usbin_id: Option<u64>,
    state: &mut HvdcpState,
    target: u8,
    name: &'static str,
) -> (icl: u8)
    ensures
        (final(io)@, *final(state), icl) == raise_icl_run(
            old(io)@,
            usbin_id,
            *old(state),
            target,
            name,
        ),
        old(state).valid() ==> final(state).valid(),
{
    if io.outcome(Op::SuOpen).is_ok() {
        state.transport = HvdcpTransport::Superuser;
        match ensure_icl_at_least(io, Bus::Superuser, state, target) {
            Ok(icl) => {
                io.mark(name, icl as u32);
                io.tell(Op::SuClose);
                return icl;
            },
            Err(err) => {
                io.mark(name, error_word(err));
                io.tell(Op::SuClose);
            },
        }
    }
    if open_hub(io, usbin_id) {
        if let Ok(icl) = ensure_icl_at_least(io, Bus::Usbin, state, target) {
            io.mark(name, icl as u32);
            return icl;
        }
    }
    0
}

pub open spec fn raise_icl_for_pump_run(io: Io<Op>, usbin_id: Option<u64>, state: HvdcpState) -> (
    Io<Op>,
    HvdcpState,
    u8,
) {
    raise_icl_run(io, usbin_id, state, ICL_RAW_PUMP_3A, "SuIclPump")
}

/// Lifts the input current limit to the budget of 2:1.
pub fn raise_icl_for_pump(
    io: &mut Session<Op>,
    usbin_id: Option<u64>,
    state: &mut HvdcpState,
) -> (icl: u8)
    ensures
        (final(io)@, *final(state), icl) == raise_icl_for_pump_run(
            old(io)@,
            usbin_id,
            *old(state),
        ),
        old(state).valid() ==> final(state).valid(),
{
    raise_icl(io, usbin_id, state, ICL_RAW_PUMP_3A, "SuIclPump")
}

pub open spec fn raise_icl_for_5v_bypass_run(
    io: Io<Op>,
    usbin_id: Option<u64>,
    state: HvdcpState,
) -> (Io<Op>, HvdcpState, u8) {
    let state = HvdcpState { phase: HvdcpPhase::FiveVBypass, ..state };
    raise_icl_run(
        io.mark("SuAfcProto", 0)
            .mark("SuAfc5vPath", 1)
            .mark("SuApsdAfc5v", 1)
            .mark("HvdcpPhase", state.phase.code()),
        usbin_id,
        state,
        ICL_RAW_5V_2P7A,
        "SuIcl5v",
    )
}

/// Retreats to 1:1 at 5 V: lifts the input current limit to its budget.
pub fn raise_icl_for_5v_bypass(
    io: &mut Session<Op>,
    usbin_id: Option<u64>,
    state: &mut HvdcpState,
) -> (icl: u8)
    ensures
        (final(io)@, *final(state), icl) == raise_icl_for_5v_bypass_run(
            old(io)@,
            usbin_id,
            *old(state),
        ),
        old(state).valid() ==> final(state).valid(),
{
    io.mark("SuAfcProto", 0);
    io.mark("SuAfc5vPath", 1);
    io.mark("SuApsdAfc5v", 1);
    state.phase = HvdcpPhase::FiveVBypass;
    io.mark("HvdcpPhase", state.phase.code());
    raise_icl(io, usbin_id, state, ICL_RAW_5V_2P7A, "SuIcl5v")
}

// ---------------------------------------------------------------------------
// Laws
// ---------------------------------------------------------------------------
/// Steps down are bounded in number, and each is sent from an input that is
/// estimated above the target and above the floor of the band.
pub proof fn law_trim_stops_in_time(
    io: Io<Op>,
    bus: Bus,
    state: HvdcpState,
    vbat_uv: u32,
    vin: i32,
    dec: u32,
)
    requires
        dec <= MAX_TRIM_DEC,
    ensures
        ({
            let (_, after, n) = trim_steps_run(io, bus, state, vbat_uv, vin, dec);
            &&& dec <= n <= MAX_TRIM_DEC
            &&& n > dec ==> vin - (n - dec - 1) * QC3_STEP_UV > target_vbus_uv(vbat_uv)
            &&& n > dec ==> vin - (n - dec - 1) * QC3_STEP_UV > window_floor_uv(vbat_uv)
            &&& after.pulse_cnt == (if state.pulse_cnt < n - dec {
                0
            } else {
                state.pulse_cnt - (n - dec)
            })
            &&& state.force9v_latched ==> n == dec && after == state
            &&& qc35::same_adapter(state, after)
        }),
    decreases qc35::left(MAX_TRIM_DEC, dec),
{
    if vin > target_vbus_uv(vbat_uv) && vin > window_floor_uv(vbat_uv) && dec < MAX_TRIM_DEC {
        let (io, state, sent) = usbin::pulse_dec_gap_run(io, bus, state, PULSE_GAP_MS);
        if sent == Ok::<bool, HvdcpError>(true) {
            law_trim_stops_in_time(
                io,
                bus,
                state,
                vbat_uv,
                step_down(vin, QC3_STEP_UV),
                (dec + 1) as u32,
            );
        }
    }
}

/// Steps up are bounded in number, and each is sent from an input that is
/// estimated below the target.
pub proof fn law_boost_stops_in_time(
    io: Io<Op>,
    bus: Bus,
    state: HvdcpState,
    vbat_uv: u32,
    vin: i32,
    inc: u32,
)
    requires
        inc <= MAX_BOOST_INC,
    ensures
        ({
            let (_, after, n) = boost_steps_run(io, bus, state, vbat_uv, vin, inc);
            &&& inc <= n <= MAX_BOOST_INC
            &&& n > inc ==> vin + (n - inc - 1) * QC3_STEP_UV < target_vbus_uv(vbat_uv)
            &&& state.valid() ==> after.pulse_cnt == (if state.pulse_cnt + (n - inc)
                > crate::hvdcp::MAX_PULSE_CNT {
                crate::hvdcp::MAX_PULSE_CNT as int
            } else {
                state.pulse_cnt + (n - inc)
            })
            &&& state.force9v_latched ==> n == inc && after == state
            &&& qc35::same_adapter(state, after)
        }),
    decreases qc35::left(MAX_BOOST_INC, inc),
{
    if vin < target_vbus_uv(vbat_uv) && inc < MAX_BOOST_INC {
        let (io, state, sent) = usbin::pulse_inc_gap_run(io, bus, state, PULSE_GAP_MS);
        if sent == Ok::<bool, HvdcpError>(true) {
            let vin = step_up(vin, QC3_STEP_UV);
            if vin <= trim_target_uv(vbat_uv) {
                law_boost_stops_in_time(io, bus, state, vbat_uv, vin, (inc + 1) as u32);
            }
        }
    }
}

/// An input inside the band that carries current is left alone, and so is a bus
/// that takes no steps: nothing is asked, published or counted.
pub proof fn law_good_input_is_left_alone(
    io: Io<Op>,
    usbin_id: Option<u64>,
    state: HvdcpState,
    vin_uv: i32,
    vbat_uv: u32,
    dead_current: bool,
)
    requires
        state.force9v_latched || (!dead_current && window_floor_uv(vbat_uv) <= vin_uv
            <= trim_target_uv(vbat_uv)),
    ensures
        nudge_vin_into_window_run(io, usbin_id, state, vin_uv, vbat_uv, dead_current) == (
            io,
            state,
            0u32,
        ),
{
}

/// A nudge moves the bus towards the band and never past its budget: down from
/// above, up from below, and one step down where the input is inside and carries
/// nothing.
pub proof fn law_nudge_moves_towards_the_band(
    io: Io<Op>,
    usbin_id: Option<u64>,
    state: HvdcpState,
    vin_uv: i32,
    vbat_uv: u32,
    dead_current: bool,
)
    requires
        state.valid(),
    ensures
        ({
            let (_, after, n) = nudge_vin_into_window_run(
                io,
                usbin_id,
                state,
                vin_uv,
                vbat_uv,
                dead_current,
            );
            &&& vin_uv > trim_target_uv(vbat_uv) ==> after.pulse_cnt <= state.pulse_cnt && n
                <= MAX_TRIM_DEC
            &&& vin_uv <= trim_target_uv(vbat_uv) && vin_uv < target_vbus_uv(vbat_uv)
                ==> after.pulse_cnt >= state.pulse_cnt && n <= MAX_BOOST_INC
            &&& target_vbus_uv(vbat_uv) <= vin_uv <= trim_target_uv(vbat_uv) ==> after.pulse_cnt
                <= state.pulse_cnt && n <= 1
        }),
{
    let (at, opened_state, opened) = open_any_run(io, usbin_id, state);
    let bus = if opened == Opened::Superuser {
        Bus::Superuser
    } else {
        Bus::Usbin
    };
    law_trim_stops_in_time(at, bus, opened_state, vbat_uv, vin_uv, 0);
    law_boost_stops_in_time(at, bus, opened_state, vbat_uv, vin_uv, 0);
}

/// Corrections and votes leave it to be told how the last negotiation ended.
pub proof fn law_corrections_keep_the_failure(
    io: Io<Op>,
    usbin_id: Option<u64>,
    state: HvdcpState,
    vin_uv: i32,
    vbat_uv: u32,
    dead_current: bool,
)
    ensures
        nudge_vin_into_window_run(
            io,
            usbin_id,
            state,
            vin_uv,
            vbat_uv,
            dead_current,
        ).1.failure == state.failure,
        raise_icl_for_pump_run(io, usbin_id, state).1.failure == state.failure,
        raise_icl_for_5v_bypass_run(io, usbin_id, state).1.failure == state.failure,
{
    reveal(trim_vin_for_pump_run);
    reveal(boost_vin_for_pump_run);
    reveal(nudge_vin_into_window_run);
    reveal(raise_icl_run);
    let (at, state, opened) = open_any_run(io, usbin_id, state);
    let bus = if opened == Opened::Superuser {
        Bus::Superuser
    } else {
        Bus::Usbin
    };
    law_trim_stops_in_time(at, bus, state, vbat_uv, vin_uv, 0);
    law_boost_stops_in_time(at, bus, state, vbat_uv, vin_uv, 0);
}

// ---------------------------------------------------------------------------
// Laws of what goes out
// ---------------------------------------------------------------------------
/// A trim sends steps down and nothing else, as many as it counts. Where each is
/// accepted it does not stop before the input, estimated at 200 mV a step, is at the
/// target or at the floor of the band, or twenty are out.
pub proof fn law_trim_goes_all_the_way(
    io: Io<Op>,
    bus: Bus,
    state: HvdcpState,
    vbat_uv: u32,
    vin: i32,
    dec: u32,
)
    requires
        !state.force9v_latched,
        dec <= 20,
    ensures
        ({
            let (after, left, n) = trim_steps_run(io, bus, state, vbat_uv, vin, dec);
            let written = trace::written(io, after);
            let end = vin - (n - dec) * 200_000;
            &&& trace::follows(io, after)
            &&& usbin::only_steps(written, 2)
            &&& dec <= n <= 20 && written.len() >= n - dec
            &&& !left.force9v_latched
            &&& trace::honest(io) && after.pending is None && trace::smooth(io, after) ==> {
                &&& written.len() == n - dec
                &&& end <= target_vbus_uv(vbat_uv) || end <= window_floor_uv(vbat_uv) || n == 20
            }
        }),
    decreases qc35::left(MAX_TRIM_DEC, dec),
{
    broadcast use trace::group_trace;

    trace::lemma_written_nothing(io);
    trace::lemma_follows_at_first(io);
    if vin > target_vbus_uv(vbat_uv) && vin > window_floor_uv(vbat_uv) && dec < MAX_TRIM_DEC {
        usbin::lemma_one_step(io, bus, state, PULSE_GAP_MS);
        let (stepped, state1, sent) = usbin::pulse_dec_gap_run(io, bus, state, PULSE_GAP_MS);
        if sent == Ok::<bool, HvdcpError>(true) {
            let vin1 = step_down(vin, QC3_STEP_UV);
            law_trim_goes_all_the_way(stepped, bus, state1, vbat_uv, vin1, (dec + 1) as u32);
            let after = trim_steps_run(stepped, bus, state1, vbat_uv, vin1, (dec + 1) as u32).0;
            usbin::lemma_steps_in_turn(io, stepped, after, 2);
            trace::lemma_honest_after(io, stepped);
            if trace::honest(io) && after.pending is None && trace::smooth(io, after) {
                trace::lemma_smooth_parts(io, stepped, after);
            }
        }
    }
}

/// A boost sends steps up and nothing else, as many as it counts. Where each is accepted
/// it does not stop before the input, estimated at 200 mV a step, is at the target or
/// past the top of the band, or twenty-three are out.
pub proof fn law_boost_goes_all_the_way(
    io: Io<Op>,
    bus: Bus,
    state: HvdcpState,
    vbat_uv: u32,
    vin: i32,
    inc: u32,
)
    requires
        !state.force9v_latched,
        inc <= 23,
    ensures
        ({
            let (after, left, n) = boost_steps_run(io, bus, state, vbat_uv, vin, inc);
            let written = trace::written(io, after);
            let end = vin + (n - inc) * 200_000;
            &&& trace::follows(io, after)
            &&& usbin::only_steps(written, 1)
            &&& inc <= n <= 23 && written.len() >= n - inc
            &&& !left.force9v_latched
            &&& trace::honest(io) && after.pending is None && trace::smooth(io, after) ==> {
                &&& written.len() == n - inc
                &&& end >= target_vbus_uv(vbat_uv) || end > trim_target_uv(vbat_uv) || n == 23
            }
        }),
    decreases qc35::left(MAX_BOOST_INC, inc),
{
    broadcast use trace::group_trace;

    trace::lemma_written_nothing(io);
    trace::lemma_follows_at_first(io);
    if vin < target_vbus_uv(vbat_uv) && inc < MAX_BOOST_INC {
        usbin::lemma_one_step(io, bus, state, PULSE_GAP_MS);
        let (stepped, state1, sent) = usbin::pulse_inc_gap_run(io, bus, state, PULSE_GAP_MS);
        if sent == Ok::<bool, HvdcpError>(true) {
            let vin1 = step_up(vin, QC3_STEP_UV);
            if vin1 <= trim_target_uv(vbat_uv) {
                law_boost_goes_all_the_way(stepped, bus, state1, vbat_uv, vin1, (inc + 1) as u32);
                let after = boost_steps_run(
                    stepped,
                    bus,
                    state1,
                    vbat_uv,
                    vin1,
                    (inc + 1) as u32,
                ).0;
                usbin::lemma_steps_in_turn(io, stepped, after, 1);
                trace::lemma_honest_after(io, stepped);
                if trace::honest(io) && after.pending is None && trace::smooth(io, after) {
                    trace::lemma_smooth_parts(io, stepped, after);
                }
            }
        }
    }
}

/// The bus is reached over the superuser node where that opens, else over the resource
/// hub on the connection that is known, else not at all.
pub proof fn law_superuser_node_comes_first(io: Io<Op>, usbin_id: Option<u64>, state: HvdcpState)
    requires
        io.pending is None,
        open_any_run(io, usbin_id, state).0.pending is None,
    ensures
        ({
            let (after, left, opened) = open_any_run(io, usbin_id, state);
            let node = trace::good(trace::answer(io, 0));
            let hub = !node && usbin_id is Some && trace::yes(trace::answer(io, 1));
            &&& trace::asked(io, after) == if node || usbin_id is None {
                seq![Op::SuOpen]
            } else {
                seq![Op::SuOpen, Op::UsbinOpen(usbin_id->0)]
            }
            &&& node <==> opened == Opened::Superuser
            &&& hub <==> opened == Opened::Usbin
            &&& left == (HvdcpState {
                transport: if node {
                    HvdcpTransport::Superuser
                } else {
                    state.transport
                },
                ..state
            })
        }),
{
    broadcast use trace::group_trace;

    trace::lemma_asked_nothing(io);
}

/// A nudge sends steps down from above the band, steps up from below it, or from below
/// the target while no current flows, and one step down while no current flows from
/// inside. Each is counted. Where the bus can be reached it sends at least one, and it
/// goes all the way.
pub proof fn law_nudge_sends_the_steps(
    io: Io<Op>,
    usbin_id: Option<u64>,
    state: HvdcpState,
    vin_uv: i32,
    vbat_uv: u32,
    dead_current: bool,
)
    requires
        trace::honest(io),
        io.pending is None,
        nudge_vin_into_window_run(
            io,
            usbin_id,
            state,
            vin_uv,
            vbat_uv,
            dead_current,
        ).0.pending is None,
    ensures
        ({
            let (after, left, n) = nudge_vin_into_window_run(
                io,
                usbin_id,
                state,
                vin_uv,
                vbat_uv,
                dead_current,
            );
            let written = trace::written(io, after);
            let aim = target_vbus_uv(vbat_uv);
            let top = trim_target_uv(vbat_uv);
            let floor = window_floor_uv(vbat_uv);
            let takes_steps = vin_uv > 0 && vbat_uv > 0 && !state.force9v_latched;
            let down = takes_steps && vin_uv > top;
            let up = takes_steps && vin_uv <= top && vin_uv < aim && (dead_current || vin_uv
                < floor);
            let once = takes_steps && vin_uv <= top && !up && dead_current && vin_uv > floor;
            &&& trace::follows(io, after)
            &&& !down && !up && !once ==> trace::asked(io, after).len() == 0 && n == 0 && left
                == state
            &&& down || once ==> usbin::only_steps(written, 2)
            &&& up ==> usbin::only_steps(written, 1)
            &&& written.len() >= n
            &&& trace::smooth(io, after) ==> {
                &&& written.len() == n
                &&& down && vin_uv > aim ==> {
                    let end = vin_uv - n * 200_000;
                    end <= aim || end <= floor || n == 20
                }
                &&& up ==> n > 0 && {
                    let end = vin_uv + n * 200_000;
                    end >= aim || end > top || n == 23
                }
                &&& once ==> n == 1
            }
        }),
{
    broadcast use trace::group_trace;

    reveal(nudge_vin_into_window_run);
    reveal(trim_vin_for_pump_run);
    reveal(boost_vin_for_pump_run);
    reveal(one_dec_pulse_run);
    trace::lemma_asked_nothing(io);
    trace::lemma_written_nothing(io);
    trace::lemma_follows_at_first(io);
    if vin_uv > 0 && vbat_uv > 0 && !state.force9v_latched {
        let after = nudge_vin_into_window_run(
            io,
            usbin_id,
            state,
            vin_uv,
            vbat_uv,
            dead_current,
        ).0;
        let (at, open, opened) = open_any_run(io, usbin_id, state);
        let bus = if opened == Opened::Superuser {
            Bus::Superuser
        } else {
            Bus::Usbin
        };
        assert(trace::follows(io, at));
        trace::lemma_honest_after(io, at);
        assert(trace::written(io, at).len() == 0);
        law_trim_goes_all_the_way(at, bus, open, vbat_uv, vin_uv, 0);
        law_boost_goes_all_the_way(at, bus, open, vbat_uv, vin_uv, 0);
        usbin::lemma_one_step(at, bus, open, PULSE_GAP_MS);
        let trimmed = trim_steps_run(at, bus, open, vbat_uv, vin_uv, 0).0;
        let boosted = boost_steps_run(at, bus, open, vbat_uv, vin_uv, 0).0;
        let stepped = usbin::pulse_dec_gap_run(at, bus, open, PULSE_GAP_MS).0;
        trace::lemma_follows_in_turn(io, at, trimmed);
        trace::lemma_follows_in_turn(io, at, boosted);
        trace::lemma_follows_in_turn(io, at, stepped);
        trace::lemma_honest_after(at, trimmed);
        trace::lemma_honest_after(at, boosted);
        trace::lemma_honest_after(at, stepped);
        trace::lemma_written_in_turn(io, at, trimmed);
        trace::lemma_written_in_turn(io, at, boosted);
        trace::lemma_written_in_turn(io, at, stepped);
        assert(trace::written(io, trimmed) =~= trace::written(at, trimmed));
        assert(trace::written(io, boosted) =~= trace::written(at, boosted));
        assert(trace::written(io, stepped) =~= trace::written(at, stepped));
        if trace::smooth(io, after) && opened != Opened::Neither {
            if trace::smooth(io, trimmed) {
                trace::lemma_smooth_parts(io, at, trimmed);
            }
            if trace::smooth(io, boosted) {
                trace::lemma_smooth_parts(io, at, boosted);
            }
            if trace::smooth(io, stepped) {
                trace::lemma_smooth_parts(io, at, stepped);
            }
        }
    }
}

/// A raised current budget is in the register: where the superuser node opens and the
/// register can be reached, the limit is at the target or above afterwards, and the node
/// is closed again. The answer is the limit in the register, or zero.
pub proof fn law_raised_budget_is_in_the_register(
    io: Io<Op>,
    usbin_id: Option<u64>,
    state: HvdcpState,
    target: u8,
    name: &'static str,
)
    requires
        trace::honest(io),
        io.pending is None,
        raise_icl_run(io, usbin_id, state, target, name).0.pending is None,
    ensures
        ({
            let (after, left, icl) = raise_icl_run(io, usbin_id, state, target, name);
            let node = trace::good(trace::answer(io, 0));
            &&& trace::follows(io, after)
            &&& trace::asked(io, after).len() > 0 && trace::asked(io, after)[0] == Op::SuOpen
            &&& icl != 0 ==> icl >= target && trace::known(after, 0x1370) == Some(icl)
            &&& trace::smooth(io, after) ==> node && icl >= target && trace::known(after, 0x1370)
                == Some(icl) && trace::asked(io, after).last() == Op::SuClose
            &&& !node && usbin_id is None ==> icl == 0 && trace::asked(io, after).len() == 1
            &&& !node && usbin_id is Some ==> trace::asked(io, after).len() > 1 && trace::asked(
                io,
                after,
            )[1] == Op::UsbinOpen(usbin_id->0)
            &&& !node && usbin_id is Some && !trace::yes(trace::answer(io, 1)) ==> icl == 0
            &&& left == (HvdcpState {
                transport: if node {
                    HvdcpTransport::Superuser
                } else {
                    state.transport
                },
                ..state
            })
        }),
{
    broadcast use trace::group_trace;

    reveal(raise_icl_run);
    trace::lemma_asked_nothing(io);
    trace::lemma_follows_at_first(io);
    let after = raise_icl_run(io, usbin_id, state, target, name).0;
    let (at, su) = io.outcome(Op::SuOpen);
    trace::lemma_follows_at_first(at);
    assert(trace::follows(at, after));
    trace::lemma_finished_before(at, after);
    trace::lemma_asked_grows(io, at, after);
    if su is Ok {
        let open = HvdcpState { transport: HvdcpTransport::Superuser, ..state };
        usbin::law_vote_reaches_the_register(at, Bus::Superuser, open, target);
        let voted = usbin::ensure_icl_at_least_run(at, Bus::Superuser, open, target).0;
        assert(trace::follows(at, voted));
        trace::lemma_honest_after(at, voted);
        trace::lemma_follows_at_first(voted);
        assert(trace::follows(voted, after));
        trace::lemma_follows_in_turn(io, at, voted);
        trace::lemma_honest_after(io, voted);
        if trace::smooth(io, after) {
            trace::lemma_finished_before(voted, after);
            trace::lemma_smooth_parts(io, voted, after);
            trace::lemma_smooth_parts(io, at, voted);
        }
    }
    if let Some(id) = usbin_id {
        if su is Err {
            let (hub, there) = at.flag(Op::UsbinOpen(id));
            trace::lemma_follows_at_first(hub);
            assert(trace::follows(hub, after));
            trace::lemma_finished_before(hub, after);
            trace::lemma_asked_grows(io, hub, after);
            if there {
                usbin::law_vote_reaches_the_register(hub, Bus::Usbin, state, target);
            }
        }
    }
}

/// The budget of the pump is 3 A, that of a 5 V input 2.7 A, in steps of 50 mA.
pub proof fn law_budgets_are_what_the_paths_carry(
    io: Io<Op>,
    usbin_id: Option<u64>,
    state: HvdcpState,
)
    requires
        trace::honest(io),
        io.pending is None,
    ensures
        ({
            let (after, left, icl) = raise_icl_for_pump_run(io, usbin_id, state);
            after.pending is None ==> {
                &&& trace::follows(io, after)
                &&& trace::asked(io, after).len() > 0 && trace::asked(io, after)[0] == Op::SuOpen
                &&& trace::smooth(io, after) ==> trace::known(after, 0x1370) == Some(icl) && icl
                    >= 60
            }
        }),
        ({
            let (after, left, icl) = raise_icl_for_5v_bypass_run(io, usbin_id, state);
            &&& left.phase == HvdcpPhase::FiveVBypass
            &&& after.pending is None ==> {
                &&& trace::follows(io, after)
                &&& trace::asked(io, after).len() > 0 && trace::asked(io, after)[0] == Op::SuOpen
                &&& trace::smooth(io, after) ==> trace::known(after, 0x1370) == Some(icl) && icl
                    >= 54
            }
        }),
{
    broadcast use trace::group_trace;

    trace::lemma_asked_nothing(io);
    trace::lemma_follows_at_first(io);
    if raise_icl_for_pump_run(io, usbin_id, state).0.pending is None {
        law_raised_budget_is_in_the_register(io, usbin_id, state, ICL_RAW_PUMP_3A, "SuIclPump");
    }
    let low = HvdcpState { phase: HvdcpPhase::FiveVBypass, ..state };
    let marked = io.mark("SuAfcProto", 0)
        .mark("SuAfc5vPath", 1)
        .mark("SuApsdAfc5v", 1)
        .mark("HvdcpPhase", low.phase.code());
    reveal(raise_icl_run);
    let after = raise_icl_for_5v_bypass_run(io, usbin_id, state).0;
    if after.pending is None {
        assert(trace::follows(io, marked));
        trace::lemma_honest_after(io, marked);
        law_raised_budget_is_in_the_register(marked, usbin_id, low, ICL_RAW_5V_2P7A, "SuIcl5v");
        trace::lemma_follows_in_turn(io, marked, after);
        trace::lemma_asked_in_turn(io, marked, after);
        if trace::smooth(io, after) {
            trace::lemma_smooth_parts(io, marked, after);
        }
    }
}

/// A trim of an input at or under the target touches nothing. Any other opens the
/// superuser node first and, where that opened, closes it again at the very end. How many
/// steps went out is published either way.
pub proof fn law_trim_closes_the_node(
    io: Io<Op>,
    usbin_id: Option<u64>,
    state: HvdcpState,
    vin_uv: i32,
    vbat_uv: u32,
)
    requires
        io.pending is None,
        trim_vin_for_pump_run(io, usbin_id, state, vin_uv, vbat_uv).0.pending is None,
    ensures
        ({
            let (after, left, n) = trim_vin_for_pump_run(io, usbin_id, state, vin_uv, vbat_uv);
            let asked = trace::asked(io, after);
            let aim = target_vbus_uv(vbat_uv);
            &&& vin_uv <= aim ==> asked.len() == 0 && left == state && n == 0
            &&& vin_uv > aim ==> asked.len() > 0 && asked[0] == Op::SuOpen
            &&& vin_uv > aim && trace::good(trace::answer(io, 0)) ==> asked.len() > 1
                && asked.last() == Op::SuClose
            &&& trace::published(io, after).len() > 0 && trace::published(io, after).last() == (
                "TrimDec",
                n,
            )
        }),
{
    broadcast use trace::group_marks;

    trace::lemma_published_nothing(io);
    trace::lemma_asked_nothing(io);
    let after = trim_vin_for_pump_run(io, usbin_id, state, vin_uv, vbat_uv).0;
    if vin_uv > target_vbus_uv(vbat_uv) {
        let (at, open_state, opened) = open_any_run(io, usbin_id, state);
        let stepped = match opened {
            Opened::Superuser => trim_steps_run(
                at,
                Bus::Superuser,
                open_state,
                vbat_uv,
                vin_uv,
                0,
            ).0,
            Opened::Usbin => trim_steps_run(at, Bus::Usbin, open_state, vbat_uv, vin_uv, 0).0,
            Opened::Neither => at,
        };
        assert(writes::obeys(io, at, Rule::Free) && writes::obeys(at, stepped, Rule::Free)) by {
            broadcast use {writes::group_obeys, writes::lemma_trim_steps_obeys};

            writes::lemma_obeys_at_first(io, Rule::Free);
            writes::lemma_obeys_at_first(at, Rule::Free);
        }
        lemma_node_is_closed(io, usbin_id, state, stepped, after, "TrimDec");
    } else {
        assert(trace::asked(io, after) =~= Seq::<Op>::empty()) by {
            broadcast use trace::group_trace;

        }
    }
}

/// What was opened for a correction is closed after it.
proof fn lemma_node_is_closed(
    io: Io<Op>,
    usbin_id: Option<u64>,
    state: HvdcpState,
    stepped: Io<Op>,
    after: Io<Op>,
    name: &'static str,
)
    requires
        io.pending is None,
        after.pending is None,
        ({
            let (at, _, opened) = open_any_run(io, usbin_id, state);
            &&& writes::obeys(io, at, Rule::Free) && writes::obeys(at, stepped, Rule::Free)
            &&& exists|n: u32| after == #[trigger] close_run(stepped.mark(name, n), opened)
        }),
    ensures
        ({
            let asked = trace::asked(io, after);
            &&& asked.len() > 0 && asked[0] == Op::SuOpen
            &&& trace::good(trace::answer(io, 0)) ==> asked.len() > 1 && asked.last()
                == Op::SuClose
            &&& io.log.len() <= stepped.log.len()
        }),
{
    broadcast use trace::group_trace;

    let (at, _, opened) = open_any_run(io, usbin_id, state);
    let n = choose|n: u32| after == #[trigger] close_run(stepped.mark(name, n), opened);
    writes::lemma_obeys_follows(io, at, Rule::Free);
    writes::lemma_obeys_follows(at, stepped, Rule::Free);
    trace::lemma_follows_at_first(stepped);
    assert(trace::follows(stepped, after));
    trace::lemma_finished_before(stepped, after);
    trace::lemma_finished_before(at, stepped);
    trace::lemma_finished_before(io, at);
    law_superuser_node_comes_first(io, usbin_id, state);
    trace::lemma_asked_in_turn(io, at, stepped);
    trace::lemma_asked_in_turn(io, stepped, after);
    trace::lemma_asked_nothing(stepped);
}

/// A boost of an input at or over the target touches nothing. Any other opens the
/// superuser node first and, where that opened, closes it again at the very end. How many
/// steps went out is published either way.
pub proof fn law_boost_closes_the_node(
    io: Io<Op>,
    usbin_id: Option<u64>,
    state: HvdcpState,
    vin_uv: i32,
    vbat_uv: u32,
)
    requires
        io.pending is None,
        boost_vin_for_pump_run(io, usbin_id, state, vin_uv, vbat_uv).0.pending is None,
    ensures
        ({
            let (after, left, n) = boost_vin_for_pump_run(io, usbin_id, state, vin_uv, vbat_uv);
            let asked = trace::asked(io, after);
            let aim = target_vbus_uv(vbat_uv);
            &&& vin_uv >= aim ==> asked.len() == 0 && left == state && n == 0
            &&& vin_uv < aim ==> asked.len() > 0 && asked[0] == Op::SuOpen
            &&& vin_uv < aim && trace::good(trace::answer(io, 0)) ==> asked.len() > 1
                && asked.last() == Op::SuClose
            &&& trace::published(io, after).len() > 0 && trace::published(io, after).last() == (
                "BoostInc",
                n,
            )
        }),
{
    broadcast use trace::group_marks;

    trace::lemma_published_nothing(io);
    trace::lemma_asked_nothing(io);
    let after = boost_vin_for_pump_run(io, usbin_id, state, vin_uv, vbat_uv).0;
    if vin_uv < target_vbus_uv(vbat_uv) {
        let (at, open_state, opened) = open_any_run(io, usbin_id, state);
        let stepped = match opened {
            Opened::Superuser => boost_steps_run(
                at,
                Bus::Superuser,
                open_state,
                vbat_uv,
                vin_uv,
                0,
            ).0,
            Opened::Usbin => boost_steps_run(at, Bus::Usbin, open_state, vbat_uv, vin_uv, 0).0,
            Opened::Neither => at,
        };
        assert(writes::obeys(io, at, Rule::Free) && writes::obeys(at, stepped, Rule::Free)) by {
            broadcast use {writes::group_obeys, writes::lemma_boost_steps_obeys};

            writes::lemma_obeys_at_first(io, Rule::Free);
            writes::lemma_obeys_at_first(at, Rule::Free);
        }
        lemma_node_is_closed(io, usbin_id, state, stepped, after, "BoostInc");
    } else {
        assert(trace::asked(io, after) =~= Seq::<Op>::empty()) by {
            broadcast use trace::group_trace;

        }
    }
}

} // verus!
