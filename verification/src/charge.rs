//! The charge loop: attempts, their spacing, and recovery from failures.
use crate::arith::distance;
use crate::exchange::{Op, Reply};
use crate::landing::{
    self, attempt, is_mode, note_attempt, recover_ln_shutdown, reset_and_charge,
};
use crate::observe::Tick;
use crate::pump::{self, pump_error_code, OpMode, Tuning, SWITCHING_MIN_VIN_UV};
use crate::session::{Io, Session};
use crate::state::ChargeLoop;
use crate::steer::mode_settled;
use crate::steer;
use crate::trace;
use crate::writes::{self, Rule};
use vstd::prelude::*;

verus! {

/// Distance of two attempts at the same input (ms).
pub const CHARGE_RETRY_MS: u64 = 30_000;

/// A change of the input that asks for an earlier attempt (µV).
pub const CHARGE_RETRY_DELTA_UV: u32 = 300_000;

/// The shortest distance of such an attempt (ms).
pub const CHARGE_RETRY_FAST_MS: u64 = 5_000;

/// Failures in a row before the chip is reset.
pub const CHARGE_FAILS_BEFORE_RESET: u32 = 3;

/// Whether an attempt is due: after the retry distance, earlier at an input that
/// changed (unless a repeated elevation owns it), and at once to leave 1:1 for
/// 2:1.
#[verifier::allow_in_spec]
pub fn attempt_due(
    charge: ChargeLoop,
    now_ms: u64,
    vbus_uv: u32,
    elevation_owns: bool,
    upgrade: bool,
) -> (r: bool)
    returns
        now_ms.saturating_sub(charge.last_attempt_ms) >= CHARGE_RETRY_MS || (distance(
            charge.last_attempt_vbus_uv,
            vbus_uv,
        ) >= CHARGE_RETRY_DELTA_UV && now_ms.saturating_sub(charge.last_attempt_ms)
            >= CHARGE_RETRY_FAST_MS && !elevation_owns) || upgrade,
{
    let since: u64 = now_ms.saturating_sub(charge.last_attempt_ms);
    let cooled = since >= CHARGE_RETRY_MS;
    let changed = distance(charge.last_attempt_vbus_uv, vbus_uv) >= CHARGE_RETRY_DELTA_UV && since
        >= CHARGE_RETRY_FAST_MS && !elevation_owns;
    cooled || changed || upgrade
}

#[verifier::opaque]
pub open spec fn after_failures_run(
    io: Io<Op>,
    charge: ChargeLoop,
    vbus: i32,
    device_ready: bool,
    tuning: Tuning,
) -> (Io<Op>, ChargeLoop) {
    let (io, recovery) = landing::recover_ln_shutdown_run(io, tuning);
    match recovery {
        Some(outcome) => {
            let (io, now) = io.millis(Op::Now);
            landing::note_attempt_run(
                io,
                ChargeLoop { last_attempt_ms: now, ..charge },
                outcome,
                device_ready,
            )
        },
        None => if vbus < SWITCHING_MIN_VIN_UV {
            let (io, outcome) = landing::reset_and_charge_run(io, tuning);
            landing::note_attempt_run(io, charge, outcome, device_ready)
        } else {
            (io.tell(Op::PumpClearFaults), charge)
        },
    }
}

/// What is done after too many failures: a chip that shut down is brought back;
/// else it is reset, but never under an elevated bus, where only the latches
/// are cleared.
fn after_failures(
    io: &mut Session<Op>,
    charge: &mut ChargeLoop,
    vbus: i32,
    device_ready: bool,
    tuning: &Tuning,
)
    ensures
        (final(io)@, *final(charge)) == after_failures_run(
            old(io)@,
            *old(charge),
            vbus,
            device_ready,
            *tuning,
        ),
{
    proof {
        reveal(after_failures_run);
    }
    match recover_ln_shutdown(io, tuning) {
        Some(outcome) => {
            charge.last_attempt_ms = io.millis(Op::Now);
            note_attempt(io, charge, outcome, device_ready);
        },
        None => {
            if vbus < SWITCHING_MIN_VIN_UV {
                let outcome = reset_and_charge(io, tuning);
                note_attempt(io, charge, outcome, device_ready);
            } else {
                io.tell(Op::PumpClearFaults);
            }
        },
    }
}

#[verifier::opaque]
pub open spec fn settle_attempt_run(
    io: Io<Op>,
    charge: ChargeLoop,
    started: landing::Started,
    vbus: i32,
    device_ready: bool,
    tuning: Tuning,
) -> (Io<Op>, ChargeLoop) {
    match started.result {
        Ok(_) => (
            io,
            ChargeLoop {
                auto_starts: charge.auto_starts.saturating_add(1),
                failed_attempts: 0,
                last_error: 0,
                ..charge
            },
        ),
        Err(err) => {
            let failed = charge.failed_attempts.saturating_add(1);
            let charge = ChargeLoop { last_error: pump::spec_pump_error_code(err), ..charge };
            if failed >= CHARGE_FAILS_BEFORE_RESET {
                let charge = ChargeLoop { failed_attempts: 0, ..charge };
                if started.recovered {
                    (io, charge)
                } else {
                    after_failures_run(io, charge, vbus, device_ready, tuning)
                }
            } else {
                (io, ChargeLoop { failed_attempts: failed, ..charge })
            }
        },
    }
}

/// Keeps the outcome of an attempt. A tick that has just recovered the chip does
/// not reset it again.
fn settle_attempt(
    io: &mut Session<Op>,
    charge: &mut ChargeLoop,
    started: &landing::Started,
    vbus: i32,
    device_ready: bool,
    tuning: &Tuning,
)
    ensures
        (final(io)@, *final(charge)) == settle_attempt_run(
            old(io)@,
            *old(charge),
            *started,
            vbus,
            device_ready,
            *tuning,
        ),
{
    proof {
        reveal(settle_attempt_run);
    }
    match started.result {
        Ok(_) => {
            charge.auto_starts = charge.auto_starts.saturating_add(1);
            charge.failed_attempts = 0;
            charge.last_error = 0;
        },
        Err(err) => {
            charge.last_error = pump_error_code(err);
            charge.failed_attempts = charge.failed_attempts.saturating_add(1);
            if charge.failed_attempts >= CHARGE_FAILS_BEFORE_RESET {
                charge.failed_attempts = 0;
                if !started.recovered {
                    after_failures(io, charge, vbus, device_ready, tuning);
                }
            }
        },
    }
}

/// What the charge loop depends on.
#[derive(Debug, Clone, Copy)]
pub struct Demand {
    /// The mode that is called for.
    pub desired: Option<OpMode>,
    /// Whether the protection changed something on this tick.
    pub guarded: bool,
    /// Whether 1:1 was left for a correction on this tick.
    pub left_bypass: bool,
    /// Whether a repeated elevation owns the input.
    pub elevation_owns: bool,
    /// Whether there is a device to publish on.
    pub device_ready: bool,
}

#[verifier::opaque]
pub open spec fn try_charge_run(
    io: Io<Op>,
    charge: ChargeLoop,
    tick: Tick,
    demand: Demand,
    tuning: Tuning,
) -> (Io<Op>, ChargeLoop) {
    let (io, now) = io.millis(Op::Now);
    let vbus_uv = tick.sample.vbus_uv;
    let upgrade = demand.desired == Some(OpMode::Switching) && tick.status.op_mode
        == OpMode::Bypass;
    if attempt_due(charge, now, vbus_uv, demand.elevation_owns, upgrade) {
        let (io, charge, started) = landing::attempt_run(
            io,
            ChargeLoop { last_attempt_ms: now, last_attempt_vbus_uv: vbus_uv, ..charge },
            demand.device_ready,
            tuning,
        );
        settle_attempt_run(io, charge, started, tick.vbus, demand.device_ready, tuning)
    } else {
        (io, charge)
    }
}

/// Makes an attempt if one is due.
fn try_charge(
    io: &mut Session<Op>,
    charge: &mut ChargeLoop,
    tick: &Tick,
    demand: &Demand,
    tuning: &Tuning,
)
    ensures
        (final(io)@, *final(charge)) == try_charge_run(
            old(io)@,
            *old(charge),
            *tick,
            *demand,
            *tuning,
        ),
{
    proof {
        reveal(try_charge_run);
    }
    let now: u64 = io.millis(Op::Now);
    let vbus_uv: u32 = tick.sample.vbus_uv;
    let upgrade = is_mode(demand.desired, OpMode::Switching) && tick.status.op_mode
        == OpMode::Bypass;
    if attempt_due(*charge, now, vbus_uv, demand.elevation_owns, upgrade) {
        charge.last_attempt_ms = now;
        charge.last_attempt_vbus_uv = vbus_uv;
        let started = attempt(io, charge, demand.device_ready, tuning);
        settle_attempt(io, charge, &started, tick.vbus, demand.device_ready, tuning);
    }
}

#[verifier::opaque]
pub open spec fn run_charge_run(
    io: Io<Op>,
    charge: ChargeLoop,
    tick: Tick,
    demand: Demand,
    tuning: Tuning,
) -> (Io<Op>, ChargeLoop) {
    let mode = tick.status.op_mode;
    if mode_settled(demand.desired, mode) && !demand.left_bypass {
        let (io, now) = io.millis(Op::Now);
        (
            io,
            ChargeLoop {
                last_attempt_ms: now,
                last_attempt_vbus_uv: tick.sample.vbus_uv,
                ..charge
            },
        )
    } else if demand.desired is Some && !demand.guarded && !demand.left_bypass {
        try_charge_run(io, charge, tick, demand, tuning)
    } else if demand.desired is None && (mode == OpMode::Switching || mode == OpMode::Bypass)
        && !demand.guarded {
        (io.tell(Op::PumpCharge(false)), charge)
    } else {
        (io, charge)
    }
}

/// The charge loop of a tick: a settled mode restarts the retry clock; a mode
/// that is called for is tried; one that is not is left. The protection and a
/// correction in progress come first.
pub fn run_charge(
    io: &mut Session<Op>,
    charge: &mut ChargeLoop,
    tick: &Tick,
    demand: &Demand,
    tuning: &Tuning,
)
    ensures
        (final(io)@, *final(charge)) == run_charge_run(
            old(io)@,
            *old(charge),
            *tick,
            *demand,
            *tuning,
        ),
{
    proof {
        reveal(run_charge_run);
    }
    let mode = tick.status.op_mode;
    if mode_settled(demand.desired, mode) && !demand.left_bypass {
        charge.last_attempt_ms = io.millis(Op::Now);
        charge.last_attempt_vbus_uv = tick.sample.vbus_uv;
    } else if demand.desired.is_some() && !demand.guarded && !demand.left_bypass {
        try_charge(io, charge, tick, demand, tuning);
    } else if demand.desired.is_none() && (mode == OpMode::Switching || mode == OpMode::Bypass)
        && !demand.guarded {
        io.tell(Op::PumpCharge(false));
    }
}

/// A tick on which the protection acted, or on which 1:1 was left for a
/// correction, starts no charge.
pub proof fn law_protection_comes_first(
    io: Io<Op>,
    charge: ChargeLoop,
    tick: Tick,
    demand: Demand,
    tuning: Tuning,
)
    requires
        demand.guarded || demand.left_bypass,
    ensures
        ({
            let (after, loop_after) = run_charge_run(io, charge, tick, demand, tuning);
            &&& after == io || after == io.tell(Op::Now) || (after == io.tell(Op::PumpCharge(false))
                && !demand.guarded)
            &&& loop_after.charge_attempts == charge.charge_attempts
            &&& loop_after.failed_attempts == charge.failed_attempts
        }),
{
    reveal(run_charge_run);
}

/// The failure counter stays below the reset threshold.
pub proof fn law_failures_are_bounded(
    io: Io<Op>,
    charge: ChargeLoop,
    started: landing::Started,
    vbus: i32,
    device_ready: bool,
    tuning: Tuning,
)
    requires
        charge.failed_attempts < CHARGE_FAILS_BEFORE_RESET,
    ensures
        settle_attempt_run(io, charge, started, vbus, device_ready, tuning).1.failed_attempts
            < CHARGE_FAILS_BEFORE_RESET,
        started.result is Ok ==> settle_attempt_run(
            io,
            charge,
            started,
            vbus,
            device_ready,
            tuning,
        ).1.failed_attempts == 0,
{
    reveal(settle_attempt_run);
    reveal(after_failures_run);
    reveal(landing::note_attempt_run);
}

/// Under an elevated bus a chip that did not shut down is never reset.
pub proof fn law_no_reset_under_an_elevated_bus(
    io: Io<Op>,
    charge: ChargeLoop,
    vbus: i32,
    device_ready: bool,
    tuning: Tuning,
)
    requires
        vbus >= SWITCHING_MIN_VIN_UV,
        io.register(Op::PumpSysSts).1 matches Ok(sys) ==> sys & pump::SYS_STS_SHUTDOWN == 0,
    ensures
        after_failures_run(io, charge, vbus, device_ready, tuning) == (
            io.register(Op::PumpSysSts).0.tell(Op::PumpClearFaults),
            charge,
        ),
{
    reveal(after_failures_run);
    reveal(landing::recover_ln_shutdown_run);
}

// ---------------------------------------------------------------------------
// Laws of what the loop does
// ---------------------------------------------------------------------------
/// An attempt is due half a minute after the last one, after five seconds at an input
/// that moved by 300 mV and that no repeated elevation owns, and at once to leave 1:1
/// for 2:1.
pub proof fn law_attempts_are_spaced(
    charge: ChargeLoop,
    now_ms: u64,
    vbus_uv: u32,
    elevation_owns: bool,
    upgrade: bool,
)
    ensures
        attempt_due(charge, now_ms, vbus_uv, elevation_owns, upgrade) <==> {
            ||| upgrade
            ||| now_ms - charge.last_attempt_ms >= 30_000
            ||| now_ms - charge.last_attempt_ms >= 5_000 && !elevation_owns && (vbus_uv
                - charge.last_attempt_vbus_uv >= 300_000 || charge.last_attempt_vbus_uv - vbus_uv
                >= 300_000)
        },
{
}

/// Too many failures are answered by what the pump reports: one that shut itself down is
/// reset, given its time, set up and started again, and so is any below 8 V; above that
/// only its faults are cleared. An attempt that this makes is counted.
pub proof fn law_failures_are_recovered(
    io: Io<Op>,
    charge: ChargeLoop,
    vbus: i32,
    device_ready: bool,
    tuning: Tuning,
)
    requires
        io.pending is None,
        after_failures_run(io, charge, vbus, device_ready, tuning).0.pending is None,
    ensures
        ({
            let (after, left) = after_failures_run(io, charge, vbus, device_ready, tuning);
            let down = trace::answer(io, 0) matches Reply::Register(Ok(sys)) && sys & 0x01 != 0;
            let counted = if charge.charge_attempts == u32::MAX {
                u32::MAX as int
            } else {
                charge.charge_attempts + 1
            };
            let reset = seq![
                Op::PumpSysSts,
                Op::PumpSoftReset,
                Op::Sleep(landing::por_delay_ms(tuning.soft_reset_delay_ms)),
                Op::PumpConfigure,
                Op::PumpCharge(true),
                Op::Now,
            ];
            &&& down ==> {
                &&& trace::asked(io, after) == reset.push(Op::Now)
                &&& left.charge_attempts == counted
                &&& left.last_attempt_ms == steer::time_of(trace::answer(io, 5))
                &&& left.last_enable_ms == steer::time_of(trace::answer(io, 6))
            }
            &&& !down && vbus < 8_000_000 ==> {
                &&& trace::asked(io, after) == reset
                &&& left.charge_attempts == counted
                &&& left.last_attempt_ms == charge.last_attempt_ms
                &&& left.last_enable_ms == steer::time_of(trace::answer(io, 5))
            }
            &&& !down && vbus >= 8_000_000 ==> trace::asked(io, after) == seq![
                Op::PumpSysSts,
                Op::PumpClearFaults,
            ] && left == charge
            &&& left == (ChargeLoop {
                charge_attempts: left.charge_attempts,
                last_attempt_ms: left.last_attempt_ms,
                last_enable_ms: left.last_enable_ms,
                ..charge
            })
            &&& trace::written(io, after).len() == 0
        }),
{
    broadcast use trace::group_trace;

    reveal(after_failures_run);
    reveal(landing::recover_ln_shutdown_run);
    reveal(landing::reset_and_charge_run);
    reveal(landing::note_attempt_run);
    trace::lemma_asked_nothing(io);
    trace::lemma_written_nothing(io);
}

/// A started charge clears the count of failures and is counted as a start. A failure is
/// counted with its error, and the third in a row starts the count anew: the pump is
/// looked after then, unless it was reset for this very attempt.
pub proof fn law_outcome_is_counted(
    io: Io<Op>,
    charge: ChargeLoop,
    started: landing::Started,
    vbus: i32,
    device_ready: bool,
    tuning: Tuning,
)
    requires
        io.pending is None,
        settle_attempt_run(io, charge, started, vbus, device_ready, tuning).0.pending is None,
    ensures
        ({
            let (after, left) = settle_attempt_run(
                io,
                charge,
                started,
                vbus,
                device_ready,
                tuning,
            );
            let asked = trace::asked(io, after);
            &&& started.result is Ok ==> {
                &&& asked.len() == 0
                &&& left.auto_starts == if charge.auto_starts == u32::MAX {
                    u32::MAX as int
                } else {
                    charge.auto_starts + 1
                }
                &&& left.failed_attempts == 0 && left.last_error == 0
                &&& left == (ChargeLoop {
                    auto_starts: left.auto_starts,
                    failed_attempts: 0,
                    last_error: 0,
                    ..charge
                })
            }
            &&& started.result is Err ==> {
                let counted = ChargeLoop {
                    last_error: pump::spec_pump_error_code(started.result->Err_0),
                    failed_attempts: if charge.failed_attempts < 2 {
                        (charge.failed_attempts + 1) as u32
                    } else {
                        0
                    },
                    ..charge
                };
                &&& charge.failed_attempts < 2 || started.recovered ==> asked.len() == 0 && left
                    == counted
                &&& charge.failed_attempts >= 2 && !started.recovered ==> {
                    &&& asked.len() > 1 && asked[0] == Op::PumpSysSts
                    &&& (after, left) == after_failures_run(
                        io,
                        counted,
                        vbus,
                        device_ready,
                        tuning,
                    )
                }
            }
        }),
{
    broadcast use trace::group_trace;

    reveal(settle_attempt_run);
    trace::lemma_asked_nothing(io);
    if started.result is Err && charge.failed_attempts >= 2 && !started.recovered {
        law_failures_are_recovered(
            io,
            ChargeLoop {
                last_error: pump::spec_pump_error_code(started.result->Err_0),
                failed_attempts: 0,
                ..charge
            },
            vbus,
            device_ready,
            tuning,
        );
    }
}

/// Each tick the loop does one thing. In the mode that is called for, it only notes the
/// time and the input. In another, it attempts that mode when an attempt is due, unless
/// the protection acted or a 1:1 was just left. Where no mode is called for, a running
/// transfer is stopped, unless the protection acted.
pub proof fn law_loop_does_what_is_called_for(
    io: Io<Op>,
    charge: ChargeLoop,
    tick: Tick,
    demand: Demand,
    tuning: Tuning,
)
    requires
        io.pending is None,
        run_charge_run(io, charge, tick, demand, tuning).0.pending is None,
    ensures
        ({
            let (after, left) = run_charge_run(io, charge, tick, demand, tuning);
            let asked = trace::asked(io, after);
            let mode = tick.status.op_mode;
            let idle = mode != OpMode::Switching && mode != OpMode::Bypass;
            let settled = match demand.desired {
                None => idle,
                Some(wanted) => !idle && mode == wanted,
            };
            let vbus = tick.sample.vbus_uv;
            let now = steer::time_of(trace::answer(io, 0));
            let notes = settled && !demand.left_bypass;
            let tries = !settled && demand.desired is Some && !demand.guarded
                && !demand.left_bypass;
            let stops = demand.desired is None && !idle && !demand.guarded;
            let due = attempt_due(
                charge,
                now,
                vbus,
                demand.elevation_owns,
                demand.desired == Some(OpMode::Switching) && mode == OpMode::Bypass,
            );
            &&& notes ==> asked == seq![Op::Now] && left == (ChargeLoop {
                last_attempt_ms: now,
                last_attempt_vbus_uv: vbus,
                ..charge
            })
            &&& tries && !due ==> asked == seq![Op::Now] && left == charge
            &&& tries && due ==> {
                &&& asked.len() > 2 && asked[0] == Op::Now && asked[1] == Op::PumpSysSts
                &&& asked.contains(Op::PumpCharge(true))
                &&& left.last_attempt_vbus_uv == vbus
                &&& left.charge_attempts > charge.charge_attempts || left.charge_attempts
                    == u32::MAX
            }
            &&& stops ==> asked == seq![Op::PumpCharge(false)] && left == charge
            &&& !notes && !tries && !stops ==> asked.len() == 0 && left == charge
            &&& trace::written(io, after).len() == 0
        }),
{
    broadcast use trace::group_trace;

    reveal(run_charge_run);
    reveal(try_charge_run);
    trace::lemma_asked_nothing(io);
    trace::lemma_written_nothing(io);
    let (after, left) = run_charge_run(io, charge, tick, demand, tuning);
    let mode = tick.status.op_mode;
    let (timed, now) = io.millis(Op::Now);
    let vbus = tick.sample.vbus_uv;
    let upgrade = demand.desired == Some(OpMode::Switching) && mode == OpMode::Bypass;
    if !mode_settled(demand.desired, mode) && demand.desired is Some && !demand.guarded
        && !demand.left_bypass && attempt_due(charge, now, vbus, demand.elevation_owns, upgrade) {
        let before = ChargeLoop { last_attempt_ms: now, last_attempt_vbus_uv: vbus, ..charge };
        let (tried, counted, started) = landing::attempt_run(
            timed,
            before,
            demand.device_ready,
            tuning,
        );
        lemma_settling_follows(
            tried,
            counted,
            started,
            tick.vbus,
            demand.device_ready,
            tuning,
        );
        trace::lemma_finished_before(tried, after);
        landing::lemma_attempt_follows(timed, before, demand.device_ready, tuning);
        trace::lemma_finished_before(timed, tried);
        landing::law_attempt_is_counted(timed, before, demand.device_ready, tuning);
        landing::law_shut_down_pump_is_reset(timed, tuning);
        law_outcome_is_counted(
            tried,
            counted,
            started,
            tick.vbus,
            demand.device_ready,
            tuning,
        );
        trace::lemma_honest_after(timed, tried);
        trace::lemma_asked_in_turn(io, timed, tried);
        trace::lemma_asked_in_turn(io, tried, after);
        trace::lemma_written_in_turn(io, timed, tried);
        trace::lemma_written_in_turn(io, tried, after);
        let charged = landing::start_charge_run(timed, tuning).0;
        let n = trace::asked(timed, charged).len();
        assert(trace::asked(timed, charged)[n - 1] == Op::PumpCharge(true));
        assert(trace::asked(io, after)[n as int] == Op::PumpCharge(true));
        lemma_settling_counts(tried, counted, started, tick.vbus, demand.device_ready, tuning);
    }
}

proof fn lemma_settling_follows(
    io: Io<Op>,
    charge: ChargeLoop,
    started: landing::Started,
    vbus: i32,
    device_ready: bool,
    tuning: Tuning,
)
    ensures
        trace::follows(
            io,
            settle_attempt_run(io, charge, started, vbus, device_ready, tuning).0,
        ),
{
    broadcast use writes::lemma_settle_attempt_obeys;

    let after = settle_attempt_run(io, charge, started, vbus, device_ready, tuning).0;
    writes::lemma_obeys_at_first(io, Rule::Free);
    assert(writes::obeys(io, after, Rule::Free));
    writes::lemma_obeys_follows(io, after, Rule::Free);
}

proof fn lemma_settling_counts(
    io: Io<Op>,
    charge: ChargeLoop,
    started: landing::Started,
    vbus: i32,
    device_ready: bool,
    tuning: Tuning,
)
    requires
        io.pending is None,
        settle_attempt_run(io, charge, started, vbus, device_ready, tuning).0.pending is None,
    ensures
        ({
            let (after, left) = settle_attempt_run(
                io,
                charge,
                started,
                vbus,
                device_ready,
                tuning,
            );
            &&& left.charge_attempts >= charge.charge_attempts
            &&& left.last_attempt_vbus_uv == charge.last_attempt_vbus_uv
            &&& trace::written(io, after).len() == 0
        }),
{
    reveal(settle_attempt_run);
    trace::lemma_written_nothing(io);
    if started.result is Err && charge.failed_attempts >= 2 && !started.recovered {
        law_failures_are_recovered(
            io,
            ChargeLoop {
                last_error: pump::spec_pump_error_code(started.result->Err_0),
                failed_attempts: 0,
                ..charge
            },
            vbus,
            device_ready,
            tuning,
        );
    }
}

/// An attempt takes the time and is made only when it is due. It is spaced from this
/// time, or from the one after a recovery, and fares as its outcome says: the count of
/// failures and the last error are those of this attempt.
pub proof fn law_attempt_restarts_its_clock(
    io: Io<Op>,
    charge: ChargeLoop,
    tick: Tick,
    demand: Demand,
    tuning: Tuning,
)
    requires
        io.pending is None,
        try_charge_run(io, charge, tick, demand, tuning).0.pending is None,
    ensures
        ({
            let (after, left) = try_charge_run(io, charge, tick, demand, tuning);
            let now = steer::time_of(trace::answer(io, 0));
            let vbus = tick.sample.vbus_uv;
            let due = {
                ||| demand.desired == Some(OpMode::Switching) && tick.status.op_mode
                    == OpMode::Bypass
                ||| now - charge.last_attempt_ms >= 30_000
                ||| now - charge.last_attempt_ms >= 5_000 && !demand.elevation_owns && (vbus
                    - charge.last_attempt_vbus_uv >= 300_000 || charge.last_attempt_vbus_uv - vbus
                    >= 300_000)
            };
            &&& !due ==> trace::asked(io, after) == seq![Op::Now] && left == charge
            &&& due ==> left.last_attempt_vbus_uv == vbus && exists|at: Io<Op>|
                #![trigger landing::start_charge_run(at, tuning)]
                {
                    let (started_at, started) = landing::start_charge_run(at, tuning);
                    &&& trace::asked(io, at) == seq![Op::Now] && at.replies == io.replies
                    &&& at.next == io.next + 1
                    &&& started.result is Ok ==> {
                        &&& left.failed_attempts == 0 && left.last_error == 0
                        &&& left.auto_starts > charge.auto_starts || left.auto_starts == u32::MAX
                        &&& !started.recovered ==> left.last_attempt_ms == now
                    }
                    &&& started.result is Err && charge.failed_attempts < 2 ==> {
                        &&& left.failed_attempts == charge.failed_attempts + 1
                        &&& left.auto_starts == charge.auto_starts
                        &&& left.last_error == pump::spec_pump_error_code(started.result->Err_0)
                        &&& !started.recovered ==> left.last_attempt_ms == now
                    }
                }
        }),
{
    broadcast use trace::group_trace;

    reveal(try_charge_run);
    trace::lemma_asked_nothing(io);
    let (after, left) = try_charge_run(io, charge, tick, demand, tuning);
    let (timed, now) = io.millis(Op::Now);
    let vbus = tick.sample.vbus_uv;
    let upgrade = demand.desired == Some(OpMode::Switching) && tick.status.op_mode
        == OpMode::Bypass;
    law_attempts_are_spaced(charge, now, vbus, demand.elevation_owns, upgrade);
    if attempt_due(charge, now, vbus, demand.elevation_owns, upgrade) {
        let before = ChargeLoop { last_attempt_ms: now, last_attempt_vbus_uv: vbus, ..charge };
        let (tried, counted, started) = landing::attempt_run(
            timed,
            before,
            demand.device_ready,
            tuning,
        );
        lemma_settling_follows(
            tried,
            counted,
            started,
            tick.vbus,
            demand.device_ready,
            tuning,
        );
        trace::lemma_finished_before(tried, after);
        landing::lemma_attempt_follows(timed, before, demand.device_ready, tuning);
        trace::lemma_finished_before(timed, tried);
        landing::law_attempt_is_counted(timed, before, demand.device_ready, tuning);
        law_outcome_is_counted(tried, counted, started, tick.vbus, demand.device_ready, tuning);
        lemma_settling_counts(tried, counted, started, tick.vbus, demand.device_ready, tuning);
        assert(landing::start_charge_run(timed, tuning).1 == started);
    }
}

} // verus!
