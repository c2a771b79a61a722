//! The periodic tick: measure, publish, protect, steer, charge, renegotiate.
use crate::charge::{self, run_charge, Demand};
use crate::exchange::{Op, Reply};
use crate::fcc::{self, buck_tick, BuckInputs};
use crate::gauge::{GaugePoll, GAUGE_POLL_MS};
use crate::guard::{self, action_word, apply_guard};
use crate::hvdcp::HvdcpState;
use crate::landing::{self, arm_telemetry_timer, negotiate_and_rearm};
use crate::observe::{
    self, adc_power, feed_battery, iin_window, mark_chip, mark_state, mark_tick, observe as measure_chip,
    take_gauge, Tick,
};
use crate::pump::{ChipStatus, Tuning, FAULT1_VBAT_OV, FAULT1_WATCHDOG};
use crate::session::{Io, Session};
use crate::state::{ChargeLoop, DriverState, InputEdge, ReElevate, RetrySlot};
use crate::steer::{
    self, desired_mode, engage_state, keep_in_window, lacks_elevation, Steering,
};
use crate::trace;
use crate::writes::{self, Rule};
use vstd::prelude::*;

verus! {

/// First delay of a repeated elevation (ms).
pub const RE_ELEVATE_FIRST_MS: u64 = 60_000;

/// Longest delay of a repeated elevation (ms).
pub const RE_ELEVATE_BACKOFF_MAX_MS: u64 = 300_000;

/// What [`evt_telemetry_timer`] keeps under `last_error` when the status
/// registers cannot be read.
pub const ERROR_STATUS_UNREADABLE: i32 = -10;

// ---------------------------------------------------------------------------
// Measure
// ---------------------------------------------------------------------------
#[verifier::opaque]
pub open spec fn measure_run(
    io: Io<Op>,
    state: DriverState,
    status: ChipStatus,
    tuning: Tuning,
) -> (Io<Op>, DriverState, Tick) {
    let (io, tick) = observe::observe_run(io, status);
    let (io, adc) = observe::adc_power_run(io, state.adc, tick.usable, tick.vac_unplug);
    let (io, battery) = observe::feed_battery_run(
        io,
        state.battery,
        tick,
        state.iin.max_ua,
        tuning,
    );
    if state.device_ready {
        let (io, iin) = observe::iin_window_run(
            observe::mark_tick_run(io, battery, adc, tick),
            state.iin,
            tick.sample.iin_ua,
            tick.sample.ts_ms,
        );
        (io, DriverState { adc, battery, iin, ..state }, tick)
    } else {
        (io, DriverState { adc, battery, ..state }, tick)
    }
}

/// Takes the sample and publishes it.
fn measure(
    io: &mut Session<Op>,
    state: &mut DriverState,
    status: ChipStatus,
    tuning: &Tuning,
) -> (tick: Tick)
    ensures
        (final(io)@, *final(state), tick) == measure_run(old(io)@, *old(state), status, *tuning),
        old(state).valid() ==> final(state).valid(),
{
    proof {
        reveal(measure_run);
    }
    let tick = measure_chip(io, status);
    adc_power(io, &mut state.adc, tick.usable, tick.vac_unplug);
    feed_battery(io, &mut state.battery, &tick, state.iin.max_ua, tuning);
    if state.device_ready {
        mark_tick(io, &state.battery, &state.adc, &tick);
        iin_window(io, &mut state.iin, tick.sample.iin_ua, tick.sample.ts_ms);
    }
    tick
}

// ---------------------------------------------------------------------------
// Report
// ---------------------------------------------------------------------------
/// What the buck section sees of a tick.
pub open spec fn buck_inputs(tick: Tick) -> BuckInputs {
    BuckInputs {
        now_ms: tick.sample.ts_ms,
        vbat_uv: tick.sample.vbat_uv,
        pump_alive: tick.pump_alive,
        critical: tick.status.critical,
    }
}

#[verifier::opaque]
pub open spec fn report_run(io: Io<Op>, state: DriverState, tick: Tick, poll: GaugePoll) -> (
    Io<Op>,
    DriverState,
) {
    if state.device_ready {
        let (io, battery) = observe::take_gauge_run(io, state.battery, poll, tick.sample.ts_ms);
        let io = observe::mark_chip_run(
            observe::mark_state_run(io, battery, tick),
            tick.status,
        );
        let (io, fcc) = fcc::buck_tick_run(
            io,
            state.fcc,
            buck_inputs(tick),
            GAUGE_POLL_MS as u64,
        );
        (io, DriverState { battery, fcc, ..state })
    } else {
        (io, state)
    }
}

/// Takes the gauge poll, publishes battery and chip, and runs the buck section.
fn report(io: &mut Session<Op>, state: &mut DriverState, tick: &Tick, poll: GaugePoll)
    ensures
        (final(io)@, *final(state)) == report_run(old(io)@, *old(state), *tick, poll),
        old(state).valid() ==> final(state).valid(),
{
    proof {
        reveal(report_run);
    }
    if state.device_ready {
        take_gauge(io, &mut state.battery, poll, tick.sample.ts_ms);
        mark_state(io, &state.battery, tick);
        mark_chip(io, &tick.status);
        let inputs = BuckInputs {
            now_ms: tick.sample.ts_ms,
            vbat_uv: tick.sample.vbat_uv,
            pump_alive: tick.pump_alive,
            critical: tick.status.critical,
        };
        buck_tick(io, &mut state.fcc, &inputs, GAUGE_POLL_MS as u64);
    }
}

// ---------------------------------------------------------------------------
// Protect
// ---------------------------------------------------------------------------
/// The number under which a die temperature is published.
#[verifier::allow_in_spec]
pub fn temperature_word(valid: bool, temp_dc: i32) -> (word: u32)
    returns
        (if valid && temp_dc >= 0 {
            temp_dc as u32
        } else {
            u32::MAX
        }),
{
    if valid && temp_dc >= 0 {
        temp_dc as u32
    } else {
        u32::MAX
    }
}

#[verifier::opaque]
pub open spec fn clear_latches_run(io: Io<Op>, fault1: u8) -> Io<Op> {
    if fault1 & FAULT1_WATCHDOG != 0 {
        io.tell(Op::PumpClearFaults).tell(Op::PumpWatchdog)
    } else if fault1 & FAULT1_VBAT_OV != 0 {
        io.tell(Op::PumpClearFaults)
    } else {
        io
    }
}

/// Clears a latched watchdog or over-voltage fault.
fn clear_latches(io: &mut Session<Op>, fault1: u8)
    ensures
        final(io)@ == clear_latches_run(old(io)@, fault1),
{
    proof {
        reveal(clear_latches_run);
    }
    if fault1 & FAULT1_WATCHDOG != 0 || fault1 & FAULT1_VBAT_OV != 0 {
        io.tell(Op::PumpClearFaults);
        if fault1 & FAULT1_WATCHDOG != 0 {
            io.tell(Op::PumpWatchdog);
        }
    }
}

#[verifier::opaque]
pub open spec fn protect_run(io: Io<Op>, state: DriverState, tick: Tick) -> (
    Io<Op>,
    DriverState,
    bool,
) {
    let (io, expired) = io.flag(Op::StrikesExpired(tick.sample));
    let strikes = if expired {
        0
    } else {
        state.bypass_denied_strikes
    };
    let (io, asked) = io.guard(
        Op::Guard {
            sample: tick.sample,
            ov_latched: tick.status.fault1_sts & FAULT1_VBAT_OV != 0,
        },
    );
    let (action, change) = asked;
    let io = if state.device_ready {
        io.mark("GuardAct", action_word(action)).mark(
            "DieTempDc",
            temperature_word(tick.sample.die_temp_valid, tick.sample.die_temp_dc),
        )
    } else {
        io
    };
    let (io, strikes, actions) = if change {
        let (io, strikes) = guard::apply_guard_run(
            io,
            action,
            tick.vbus,
            tick.sample.vbat_uv,
            strikes,
        );
        (io, strikes, state.actions.saturating_add(1))
    } else {
        (io, strikes, state.actions)
    };
    (
        clear_latches_run(io, tick.status.fault1_sts),
        DriverState { bypass_denied_strikes: strikes, actions, ..state },
        change,
    )
}

/// Asks the protection and carries its action out. The result says whether it
/// changed something.
fn protect(io: &mut Session<Op>, state: &mut DriverState, tick: &Tick) -> (change: bool)
    ensures
        (final(io)@, *final(state), change) == protect_run(old(io)@, *old(state), *tick),
        old(state).valid() ==> final(state).valid(),
{
    proof {
        reveal(protect_run);
    }
    if io.flag(Op::StrikesExpired(tick.sample)) {
        state.bypass_denied_strikes = 0;
    }
    let (action, change) = io.guard(
        Op::Guard {
            sample: tick.sample,
            ov_latched: tick.status.fault1_sts & FAULT1_VBAT_OV != 0,
        },
    );
    if state.device_ready {
        io.mark("GuardAct", action_word(action));
        io.mark(
            "DieTempDc",
            temperature_word(tick.sample.die_temp_valid, tick.sample.die_temp_dc),
        );
    }
    if change {
        apply_guard(
            io,
            action,
            tick.vbus,
            tick.sample.vbat_uv,
            &mut state.bypass_denied_strikes,
        );
        state.actions = state.actions.saturating_add(1);
    }
    clear_latches(io, tick.status.fault1_sts);
    change
}

// ---------------------------------------------------------------------------
// Steer and charge
// ---------------------------------------------------------------------------
#[verifier::opaque]
pub open spec fn drive_run(
    io: Io<Op>,
    state: DriverState,
    tick: Tick,
    guarded: bool,
    tuning: Tuning,
) -> (Io<Op>, DriverState) {
    let (io, desired) = steer::desired_mode_run(io, tick);
    let io = if state.device_ready {
        let (io, engaged) = steer::engage_state_run(
            io,
            tick.sample.input_present,
            tick.vbus,
            tick.sample.vbat_uv,
            tick.status.op_mode,
        );
        io.mark("EngageState", engaged)
    } else {
        io
    };
    let steering = Steering {
        usbin_id: state.usbin_id,
        desired,
        peak_ua: state.iin.max_ua,
        device_ready: state.device_ready,
    };
    let (io, window, hvdcp, walk) = steer::keep_in_window_run(
        io,
        state.window,
        state.hvdcp,
        tick,
        steering,
    );
    let charge = if walk.moved {
        ChargeLoop { last_attempt_ms: 0, ..state.charge }
    } else {
        state.charge
    };
    let demand = Demand {
        desired,
        guarded,
        left_bypass: walk.left_bypass,
        elevation_owns: lacks_elevation(tick, state.iin.max_ua, tuning.charge_min_vin_uv),
        device_ready: state.device_ready,
    };
    let (io, charge) = charge::run_charge_run(io, charge, tick, demand, tuning);
    (io.tell(Op::PumpWatchdog), DriverState { window, hvdcp, charge, ..state })
}

/// Steers the bus, runs the charge loop and services the watchdog. A step on the
/// bus makes the next attempt due at once.
fn drive(
    io: &mut Session<Op>,
    state: &mut DriverState,
    tick: &Tick,
    guarded: bool,
    tuning: &Tuning,
)
    ensures
        (final(io)@, *final(state)) == drive_run(old(io)@, *old(state), *tick, guarded, *tuning),
        old(state).valid() ==> final(state).valid(),
{
    proof {
        reveal(drive_run);
    }
    let desired = desired_mode(io, tick);
    if state.device_ready {
        let engaged: u32 = engage_state(
            io,
            tick.sample.input_present,
            tick.vbus,
            tick.sample.vbat_uv,
            tick.status.op_mode,
        );
        io.mark("EngageState", engaged);
    }
    let steering = Steering {
        usbin_id: state.usbin_id,
        desired,
        peak_ua: state.iin.max_ua,
        device_ready: state.device_ready,
    };
    let walk = keep_in_window(io, &mut state.window, &mut state.hvdcp, tick, &steering);
    if walk.moved {
        state.charge.last_attempt_ms = 0;
    }
    let demand = Demand {
        desired,
        guarded,
        left_bypass: walk.left_bypass,
        elevation_owns: lacks_elevation(*tick, state.iin.max_ua, tuning.charge_min_vin_uv),
        device_ready: state.device_ready,
    };
    run_charge(io, &mut state.charge, tick, &demand, tuning);
    io.tell(Op::PumpWatchdog);
}

// ---------------------------------------------------------------------------
// Renegotiate
// ---------------------------------------------------------------------------
/// The next delay of a repeated elevation: the first one, then twice the last
/// one up to the longest.
#[verifier::allow_in_spec]
pub fn next_backoff_ms(backoff_ms: u64) -> (r: u64)
    returns
        (if backoff_ms == 0 {
            RE_ELEVATE_FIRST_MS
        } else if backoff_ms >= 150_000 {
            RE_ELEVATE_BACKOFF_MAX_MS
        } else {
            (2 * backoff_ms) as u64
        }),
{
    if backoff_ms == 0 {
        RE_ELEVATE_FIRST_MS
    } else if backoff_ms >= RE_ELEVATE_BACKOFF_MAX_MS / 2 {
        RE_ELEVATE_BACKOFF_MAX_MS
    } else {
        2 * backoff_ms
    }
}

/// The schedule of the repeated elevation after a tick, and whether one is due:
/// an input that starts to lack nothing else schedules the first, a due one
/// schedules the next, and any other input ends the episode.
#[verifier::allow_in_spec]
pub fn reelevate_step(slot: ReElevate, now_ms: u64, lacks: bool) -> (r: (ReElevate, bool))
    returns
        (if !lacks && (slot.next_ms != 0 || slot.attempts != 0) {
            (ReElevate { attempts: 0, next_ms: 0, backoff_ms: 0 }, false)
        } else if !lacks {
            (slot, false)
        } else if slot.next_ms == 0 {
            (
                ReElevate { next_ms: now_ms.saturating_add(RE_ELEVATE_FIRST_MS), ..slot },
                false,
            )
        } else if now_ms >= slot.next_ms {
            (
                ReElevate {
                    attempts: slot.attempts.saturating_add(1),
                    next_ms: now_ms.saturating_add(next_backoff_ms(slot.backoff_ms)),
                    backoff_ms: next_backoff_ms(slot.backoff_ms),
                },
                true,
            )
        } else {
            (slot, false)
        }),
{
    if !lacks {
        if slot.next_ms != 0 || slot.attempts != 0 {
            (ReElevate { attempts: 0, next_ms: 0, backoff_ms: 0 }, false)
        } else {
            (slot, false)
        }
    } else if slot.next_ms == 0 {
        (
            ReElevate {
                attempts: slot.attempts,
                next_ms: now_ms.saturating_add(RE_ELEVATE_FIRST_MS),
                backoff_ms: slot.backoff_ms,
            },
            false,
        )
    } else if now_ms >= slot.next_ms {
        let backoff_ms: u64 = next_backoff_ms(slot.backoff_ms);
        (
            ReElevate {
                attempts: slot.attempts.saturating_add(1),
                next_ms: now_ms.saturating_add(backoff_ms),
                backoff_ms,
            },
            true,
        )
    } else {
        (slot, false)
    }
}

/// The delays start at the first one, never shrink within an episode, never pass
/// the longest, and a repetition is never made before it is due.
pub proof fn law_elevation_backs_off(slot: ReElevate, now_ms: u64, lacks: bool)
    requires
        slot.backoff_ms <= RE_ELEVATE_BACKOFF_MAX_MS,
    ensures
        RE_ELEVATE_FIRST_MS <= next_backoff_ms(0) <= RE_ELEVATE_BACKOFF_MAX_MS,
        slot.backoff_ms <= next_backoff_ms(slot.backoff_ms) <= RE_ELEVATE_BACKOFF_MAX_MS,
        reelevate_step(slot, now_ms, lacks).0.backoff_ms <= RE_ELEVATE_BACKOFF_MAX_MS,
        reelevate_step(slot, now_ms, lacks).1 ==> lacks && slot.next_ms != 0 && now_ms
            >= slot.next_ms,
        !lacks ==> reelevate_step(slot, now_ms, lacks).0.next_ms == 0 && reelevate_step(
            slot,
            now_ms,
            lacks,
        ).0.attempts == 0,
{
}

/// What a tick asks for after its own work.
#[derive(Debug, Clone, Copy, PartialEq, Eq, Structural)]
pub struct Wanted {
    /// A negotiation after an input edge.
    pub replug: bool,
    /// A retry of a negotiation that found its slot busy.
    pub retry: bool,
    /// A repeated elevation.
    pub reelevate: bool,
}

#[verifier::opaque]
pub open spec fn look_ahead_run(io: Io<Op>, state: DriverState, vbus: i32, lacks: bool) -> (
    Io<Op>,
    DriverState,
    Wanted,
) {
    let (io, present) = io.flag(Op::InputPresent(vbus));
    let (io, replug) = if state.edge.armed {
        io.flag(
            Op::RenegotiateOnEdge {
                phase: state.hvdcp.phase.code(),
                before: state.edge.last_present,
                now: present,
            },
        )
    } else {
        (io, false)
    };
    let (io, now) = io.millis(Op::Now);
    let (io, retry) = io.flag(
        Op::RetryDue {
            pending: state.retry.pending,
            attempts: state.retry.attempts,
            now_ms: now,
            next_ms: state.retry.next_ms,
        },
    );
    let (reelevate, again) = reelevate_step(state.reelevate, now, lacks);
    (
        io,
        DriverState {
            reelevate,
            edge: InputEdge { last_present: present, ..state.edge },
            ..state
        },
        Wanted { replug, retry, reelevate: again },
    )
}

/// Decides what follows the tick.
fn look_ahead(io: &mut Session<Op>, state: &mut DriverState, vbus: i32, lacks: bool) -> (wanted: Wanted)
    ensures
        (final(io)@, *final(state), wanted) == look_ahead_run(old(io)@, *old(state), vbus, lacks),
        old(state).valid() ==> final(state).valid(),
{
    proof {
        reveal(look_ahead_run);
    }
    let present = io.flag(Op::InputPresent(vbus));
    let mut replug = false;
    if state.edge.armed {
        replug =
        io.flag(
            Op::RenegotiateOnEdge {
                phase: state.hvdcp.phase.code(),
                before: state.edge.last_present,
                now: present,
            },
        );
    }
    let now: u64 = io.millis(Op::Now);
    let retry = io.flag(
        Op::RetryDue {
            pending: state.retry.pending,
            attempts: state.retry.attempts,
            now_ms: now,
            next_ms: state.retry.next_ms,
        },
    );
    let (reelevate, again) = reelevate_step(state.reelevate, now, lacks);
    state.reelevate = reelevate;
    state.edge.last_present = present;
    Wanted { replug, retry, reelevate: again }
}

#[verifier::opaque]
pub open spec fn follow_up_run(io: Io<Op>, state: DriverState, wanted: Wanted, tuning: Tuning) -> (
    Io<Op>,
    DriverState,
) {
    if wanted.replug {
        let state = DriverState {
            hvdcp: HvdcpState { force9v_latched: false, ..state.hvdcp },
            ..state
        };
        let (io, state, _) = landing::negotiate_and_rearm_run(
            io.mark("HvdcpReplug", 1),
            state,
            true,
            tuning,
        );
        (io, state)
    } else if wanted.retry {
        let (io, now) = io.millis(Op::Now);
        let retry = RetrySlot {
            attempts: state.retry.attempts.saturating_add(1),
            next_ms: now.saturating_add(tuning.superuser_retry_ms),
            ..state.retry
        };
        let (io, state, _) = landing::negotiate_and_rearm_run(
            io.mark("HvdcpRetryN", retry.attempts),
            DriverState { retry, ..state },
            false,
            tuning,
        );
        (io, state)
    } else if wanted.reelevate {
        let (io, state, _) = landing::negotiate_and_rearm_run(
            io.mark("ReElevateN", state.reelevate.attempts),
            state,
            true,
            tuning,
        );
        (io, state)
    } else {
        (io, state)
    }
}

/// Negotiates where that is wanted: after an edge (with the 9 V latch of the old
/// adapter forgotten), else for a due retry, else to elevate again.
fn follow_up(io: &mut Session<Op>, state: &mut DriverState, wanted: &Wanted, tuning: &Tuning)
    requires
        tuning.valid(),
    ensures
        (final(io)@, *final(state)) == follow_up_run(old(io)@, *old(state), *wanted, *tuning),
        old(state).valid() ==> final(state).valid(),
{
    proof {
        reveal(follow_up_run);
    }
    if wanted.replug {
        io.mark("HvdcpReplug", 1);
        state.hvdcp.force9v_latched = false;
        let _ = negotiate_and_rearm(io, state, true, tuning);
    } else if wanted.retry {
        state.retry.attempts = state.retry.attempts.saturating_add(1);
        let now: u64 = io.millis(Op::Now);
        state.retry.next_ms = now.saturating_add(tuning.superuser_retry_ms);
        io.mark("HvdcpRetryN", state.retry.attempts);
        let _ = negotiate_and_rearm(io, state, false, tuning);
    } else if wanted.reelevate {
        io.mark("ReElevateN", state.reelevate.attempts);
        let _ = negotiate_and_rearm(io, state, true, tuning);
    }
}

// ---------------------------------------------------------------------------
// The tick
// ---------------------------------------------------------------------------
#[verifier::opaque]
pub open spec fn work_run(
    io: Io<Op>,
    state: DriverState,
    status: ChipStatus,
    poll: GaugePoll,
    tuning: Tuning,
) -> (Io<Op>, DriverState) {
    let (io, state, tick) = measure_run(io, state, status, tuning);
    let (io, state) = report_run(io, state, tick, poll);
    let (io, state, guarded) = protect_run(io, state, tick);
    let lacks = lacks_elevation(tick, state.iin.max_ua, tuning.charge_min_vin_uv);
    let (io, state) = drive_run(io, state, tick, guarded, tuning);
    let (io, state, wanted) = look_ahead_run(io, state, tick.vbus, lacks);
    if state.device_ready {
        let (io, state) = follow_up_run(io, state, wanted, tuning);
        (landing::arm_telemetry_timer_run(io, state.timer_ready, state.telemetry_ms), state)
    } else {
        (io, state)
    }
}

/// A tick with readable status registers.
fn work(
    io: &mut Session<Op>,
    state: &mut DriverState,
    status: ChipStatus,
    poll: GaugePoll,
    tuning: &Tuning,
)
    requires
        tuning.valid(),
    ensures
        (final(io)@, *final(state)) == work_run(old(io)@, *old(state), status, poll, *tuning),
        old(state).valid() ==> final(state).valid(),
{
    proof {
        reveal(work_run);
    }
    let tick = measure(io, state, status, tuning);
    report(io, state, &tick, poll);
    let guarded = protect(io, state, &tick);
    let lacks = lacks_elevation(tick, state.iin.max_ua, tuning.charge_min_vin_uv);
    drive(io, state, &tick, guarded, tuning);
    let wanted = look_ahead(io, state, tick.vbus, lacks);
    if state.device_ready {
        follow_up(io, state, &wanted, tuning);
        arm_telemetry_timer(io, state.timer_ready, state.telemetry_ms);
    }
}

#[verifier::opaque]
pub open spec fn evt_telemetry_timer_run(
    io: Io<Op>,
    state: DriverState,
    poll: GaugePoll,
    tuning: Tuning,
) -> (Io<Op>, DriverState) {
    if !state.pump_open {
        (io, state)
    } else {
        let (io, status) = io.chip(Op::PumpStatus);
        match status {
            None => (
                landing::arm_telemetry_timer_run(io, state.timer_ready, state.telemetry_ms),
                DriverState {
                    charge: ChargeLoop { last_error: ERROR_STATUS_UNREADABLE, ..state.charge },
                    ..state
                },
            ),
            Some(status) => work_run(io, state, status, poll, tuning),
        }
    }
}

/// The telemetry timer: collects, publishes, protects and charges, and starts
/// itself again. Without a pump it does nothing and stays stopped; without
/// status registers it only tries again later.
pub fn evt_telemetry_timer(
    io: &mut Session<Op>,
    state: &mut DriverState,
    poll: GaugePoll,
    tuning: &Tuning,
)
    requires
        tuning.valid(),
    ensures
        (final(io)@, *final(state)) == evt_telemetry_timer_run(
            old(io)@,
            *old(state),
            poll,
            *tuning,
        ),
        old(state).valid() ==> final(state).valid(),
{
    proof {
        reveal(evt_telemetry_timer_run);
    }
    if !state.pump_open {
        return;
    }
    match io.chip(Op::PumpStatus) {
        None => {
            state.charge.last_error = ERROR_STATUS_UNREADABLE;
            arm_telemetry_timer(io, state.timer_ready, state.telemetry_ms);
        },
        Some(status) => {
            work(io, state, status, poll, tuning);
        },
    }
}

/// Without a pump the timer has no effect at all; with one whose status cannot
/// be read it only notes that and starts itself again.
pub proof fn law_timer_needs_the_chip(
    io: Io<Op>,
    state: DriverState,
    poll: GaugePoll,
    tuning: Tuning,
)
    ensures
        !state.pump_open ==> evt_telemetry_timer_run(io, state, poll, tuning) == (io, state),
        state.pump_open && io.chip(Op::PumpStatus).1 is None ==> {
            &&& evt_telemetry_timer_run(io, state, poll, tuning).1 == (DriverState {
                charge: ChargeLoop { last_error: ERROR_STATUS_UNREADABLE, ..state.charge },
                ..state
            })
            &&& evt_telemetry_timer_run(io, state, poll, tuning).0
                == landing::arm_telemetry_timer_run(
                io.tell(Op::PumpStatus),
                state.timer_ready,
                state.telemetry_ms,
            )
        },
{
    reveal(evt_telemetry_timer_run);
}

/// Of several reasons to negotiate, an edge of the input comes first, and a
/// negotiation for an edge never inherits the latch of the adapter before it.
pub proof fn law_edge_comes_first(io: Io<Op>, state: DriverState, wanted: Wanted, tuning: Tuning)
    requires
        wanted.replug,
    ensures
        follow_up_run(io, state, wanted, tuning) == follow_up_run(
            io,
            DriverState {
                hvdcp: HvdcpState { force9v_latched: false, ..state.hvdcp },
                ..state
            },
            Wanted { replug: true, retry: false, reelevate: false },
            tuning,
        ),
{
    reveal(follow_up_run);
}

// ---------------------------------------------------------------------------
// Laws of what a tick does
// ---------------------------------------------------------------------------
/// A temperature is published as it is where it was read and is not below zero.
pub proof fn law_temperature_is_published(valid: bool, temp_dc: i32)
    ensures
        valid && temp_dc >= 0 ==> temperature_word(valid, temp_dc) == temp_dc,
        !valid || temp_dc < 0 ==> temperature_word(valid, temp_dc) == 0xFFFF_FFFF,
{
}

/// A latched watchdog is cleared and armed again, a latched overvoltage of the cell is
/// cleared, and nothing else is.
pub proof fn law_latches_are_cleared(io: Io<Op>, fault1: u8)
    requires
        io.pending is None,
        clear_latches_run(io, fault1).pending is None,
    ensures
        trace::asked(io, clear_latches_run(io, fault1)) == latches(fault1),
        trace::follows(io, clear_latches_run(io, fault1)),
{
    broadcast use trace::group_trace;

    reveal(clear_latches_run);
    trace::lemma_asked_nothing(io);
    trace::lemma_follows_at_first(io);
}

/// What is sent for the latches of a fault register.
pub open spec fn latches(fault1: u8) -> Seq<Op> {
    if fault1 & 0x80 != 0 {
        seq![Op::PumpClearFaults, Op::PumpWatchdog]
    } else if fault1 & 0x40 != 0 {
        seq![Op::PumpClearFaults]
    } else {
        Seq::empty()
    }
}

/// The action and the change in a verdict of the protection.
pub open spec fn verdict_of(reply: Reply) -> (crate::pump::GuardAction, bool) {
    match reply {
        Reply::Guard(action, change) => (action, change),
        _ => (crate::pump::GuardAction::Keep, false),
    }
}

/// Every tick is judged by the core, on the whole sample, with the overvoltage latch of
/// the chip. A change is carried out and counted, on strikes that the core may have
/// expired; without one only latches are cleared.
pub proof fn law_every_tick_is_guarded(io: Io<Op>, state: DriverState, tick: Tick)
    requires
        io.pending is None,
        protect_run(io, state, tick).0.pending is None,
    ensures
        ({
            let (after, left, changed) = protect_run(io, state, tick);
            let fault1 = tick.status.fault1_sts;
            let asked = trace::asked(io, after);
            let first = seq![
                Op::StrikesExpired(tick.sample),
                Op::Guard { sample: tick.sample, ov_latched: fault1 & 0x40 != 0 },
            ];
            let (action, change) = verdict_of(trace::answer(io, 1));
            let strikes = if trace::yes(trace::answer(io, 0)) {
                0
            } else {
                state.bypass_denied_strikes
            };
            &&& trace::follows(io, after)
            &&& changed == change
            &&& !change ==> asked == first + latches(fault1) && left.bypass_denied_strikes
                == strikes && left.actions == state.actions
            &&& change ==> left.actions == (if state.actions == u32::MAX {
                u32::MAX as int
            } else {
                state.actions + 1
            }) && exists|start: Io<Op>|
                #![trigger trace::follows(io, start)]
                {
                    let (end, n) = guard::apply_guard_run(
                        start,
                        action,
                        tick.vbus,
                        tick.sample.vbat_uv,
                        strikes,
                    );
                    &&& trace::follows(io, start) && start.next == io.next + 2
                    &&& asked == first + trace::asked(start, end) + latches(fault1)
                    &&& left.bypass_denied_strikes == n
                }
            &&& left == (DriverState {
                bypass_denied_strikes: left.bypass_denied_strikes,
                actions: left.actions,
                ..state
            })
        }),
{
    broadcast use trace::group_trace;

    reveal(protect_run);
    trace::lemma_asked_nothing(io);
    trace::lemma_follows_at_first(io);
    let after = protect_run(io, state, tick).0;
    let fault1 = tick.status.fault1_sts;
    let (io1, expired) = io.flag(Op::StrikesExpired(tick.sample));
    let strikes = if expired {
        0
    } else {
        state.bypass_denied_strikes
    };
    let (io2, verdict) = io1.guard(
        Op::Guard { sample: tick.sample, ov_latched: fault1 & FAULT1_VBAT_OV != 0 },
    );
    let (action, change) = verdict;
    let start = if state.device_ready {
        io2.mark("GuardAct", action_word(action)).mark(
            "DieTempDc",
            temperature_word(tick.sample.die_temp_valid, tick.sample.die_temp_dc),
        )
    } else {
        io2
    };
    let first = seq![
        Op::StrikesExpired(tick.sample),
        Op::Guard { sample: tick.sample, ov_latched: fault1 & 0x40 != 0 },
    ];
    assert(trace::follows(io, start));
    let end = if change {
        guard::apply_guard_run(start, action, tick.vbus, tick.sample.vbat_uv, strikes).0
    } else {
        start
    };
    assert(trace::follows(start, end) && trace::follows(end, after)) by {
        reveal(guard::apply_guard_run);
        reveal(clear_latches_run);
        trace::lemma_follows_at_first(start);
        trace::lemma_follows_at_first(end);
    }
    trace::lemma_finished_before(end, after);
    trace::lemma_finished_before(start, end);
    law_latches_are_cleared(end, fault1);
    trace::lemma_follows_in_turn(io, start, end);
    trace::lemma_follows_in_turn(io, end, after);
    trace::lemma_honest_after(io, start);
    trace::lemma_honest_after(io, end);
    assert(trace::asked(io, start) =~= first);
    trace::lemma_asked_nothing(start);
    trace::lemma_asked_in_turn(io, start, end);
    trace::lemma_asked_in_turn(io, end, after);
    assert(!change ==> trace::asked(io, after) =~= first + latches(fault1));
}

/// The numbers of the protection are published where there is a device.
pub proof fn law_verdict_is_published(io: Io<Op>, state: DriverState, tick: Tick)
    requires
        io.pending is None,
        protect_run(io, state, tick).0.pending is None,
        state.device_ready,
    ensures
        ({
            let published = trace::published(io, protect_run(io, state, tick).0);
            let action = verdict_of(trace::answer(io, 1)).0;
            &&& published == seq![
                ("GuardAct", action_word(action)),
                (
                    "DieTempDc",
                    temperature_word(tick.sample.die_temp_valid, tick.sample.die_temp_dc),
                ),
            ]
        }),
{
    broadcast use trace::group_marks;

    reveal(protect_run);
    reveal(guard::apply_guard_run);
    reveal(clear_latches_run);
    trace::lemma_published_nothing(io);
}

/// A tick steers by one mode. It asks for it, keeps the bus in the band for it, runs the
/// charge loop for it, and ends with the watchdog. A bus that was moved lets the next
/// attempt come at once.
pub proof fn law_tick_steers_by_one_mode(
    io: Io<Op>,
    state: DriverState,
    tick: Tick,
    guarded: bool,
    tuning: Tuning,
)
    requires
        io.pending is None,
        drive_run(io, state, tick, guarded, tuning).0.pending is None,
    ensures
        ({
            let (after, left) = drive_run(io, state, tick, guarded, tuning);
            let asked = trace::asked(io, after);
            let runs = tick.pump_alive && tick.sample.vbus_uv >= 8_000_000;
            let desired = if runs {
                Some(crate::pump::OpMode::Switching)
            } else {
                steer::mode_of(trace::answer(io, 0))
            };
            &&& trace::follows(io, after)
            &&& asked.len() > 0 && asked.last() == Op::PumpWatchdog
            &&& !runs ==> asked[0] == (Op::ChargeMode {
                vin_uv: tick.vbus,
                vbat_uv: tick.sample.vbat_uv,
            })
            &&& left == (DriverState {
                window: left.window,
                hvdcp: left.hvdcp,
                charge: left.charge,
                ..state
            })
            &&& exists|start: Io<Op>, mid: Io<Op>|
                #![trigger trace::follows(start, mid)]
                {
                    let (kept, window, hvdcp, walk) = steer::keep_in_window_run(
                        start,
                        state.window,
                        state.hvdcp,
                        tick,
                        Steering {
                            usbin_id: state.usbin_id,
                            desired,
                            peak_ua: state.iin.max_ua,
                            device_ready: state.device_ready,
                        },
                    );
                    let (ran, charge) = charge::run_charge_run(
                        mid,
                        ChargeLoop {
                            last_attempt_ms: if walk.moved {
                                0
                            } else {
                                state.charge.last_attempt_ms
                            },
                            ..state.charge
                        },
                        tick,
                        Demand {
                            desired,
                            guarded,
                            left_bypass: walk.left_bypass,
                            elevation_owns: lacks_elevation(
                                tick,
                                state.iin.max_ua,
                                tuning.charge_min_vin_uv,
                            ),
                            device_ready: state.device_ready,
                        },
                        tuning,
                    );
                    &&& trace::follows(io, start) && trace::follows(start, mid)
                        && trace::follows(mid, ran)
                    &&& mid == kept
                    &&& trace::asked(io, start).len() <= 2 && trace::written(io, start).len() == 0
                    &&& left.window == window && left.hvdcp == hvdcp && left.charge == charge
                    &&& asked == trace::asked(io, start) + trace::asked(start, mid) + trace::asked(
                        mid,
                        ran,
                    ).push(Op::PumpWatchdog)
                }
        }),
{
    broadcast use trace::group_trace;

    reveal(drive_run);
    trace::lemma_asked_nothing(io);
    trace::lemma_written_nothing(io);
    trace::lemma_follows_at_first(io);
    let (after, left) = drive_run(io, state, tick, guarded, tuning);
    let (judged, desired) = steer::desired_mode_run(io, tick);
    let start = if state.device_ready {
        let (shown, engaged) = steer::engage_state_run(
            judged,
            tick.sample.input_present,
            tick.vbus,
            tick.sample.vbat_uv,
            tick.status.op_mode,
        );
        shown.mark("EngageState", engaged)
    } else {
        judged
    };
    assert(trace::follows(io, start));
    let steering = Steering {
        usbin_id: state.usbin_id,
        desired,
        peak_ua: state.iin.max_ua,
        device_ready: state.device_ready,
    };
    let (mid, window, hvdcp, walk) = steer::keep_in_window_run(
        start,
        state.window,
        state.hvdcp,
        tick,
        steering,
    );
    let before = if walk.moved {
        ChargeLoop { last_attempt_ms: 0, ..state.charge }
    } else {
        state.charge
    };
    let demand = Demand {
        desired,
        guarded,
        left_bypass: walk.left_bypass,
        elevation_owns: lacks_elevation(tick, state.iin.max_ua, tuning.charge_min_vin_uv),
        device_ready: state.device_ready,
    };
    let (ran, charge) = charge::run_charge_run(mid, before, tick, demand, tuning);
    lemma_drive_follows(start, state.window, state.hvdcp, tick, steering, mid, before, demand, tuning);
    trace::lemma_follows_at_first(ran);
    assert(trace::follows(ran, after));
    trace::lemma_finished_before(ran, after);
    trace::lemma_finished_before(mid, ran);
    trace::lemma_finished_before(start, mid);
    trace::lemma_follows_in_turn(io, start, mid);
    trace::lemma_follows_in_turn(io, mid, ran);
    trace::lemma_follows_in_turn(io, ran, after);
    trace::lemma_honest_after(io, start);
    trace::lemma_honest_after(io, mid);
    trace::lemma_honest_after(io, ran);
    trace::lemma_asked_in_turn(io, start, mid);
    trace::lemma_asked_in_turn(io, mid, ran);
    assert(trace::asked(io, after) =~= trace::asked(io, start) + trace::asked(start, mid)
        + trace::asked(mid, ran).push(Op::PumpWatchdog));
    assert(before == (ChargeLoop {
        last_attempt_ms: if walk.moved {
            0
        } else {
            state.charge.last_attempt_ms
        },
        ..state.charge
    }));
    if !(tick.pump_alive && tick.sample.vbus_uv >= 8_000_000) {
        trace::lemma_follows_at_first(judged);
        assert(trace::follows(judged, start));
        trace::lemma_follows_in_turn(judged, start, mid);
        trace::lemma_follows_in_turn(judged, mid, ran);
        trace::lemma_follows_in_turn(judged, ran, after);
        trace::lemma_asked_grows(io, judged, after);
    }
}

proof fn lemma_drive_follows(
    io: Io<Op>,
    window: crate::state::WindowLoop,
    hvdcp: HvdcpState,
    tick: Tick,
    steering: Steering,
    mid: Io<Op>,
    before: ChargeLoop,
    demand: Demand,
    tuning: Tuning,
)
    ensures
        trace::follows(io, steer::keep_in_window_run(io, window, hvdcp, tick, steering).0),
        trace::follows(mid, charge::run_charge_run(mid, before, tick, demand, tuning).0),
{
    broadcast use {writes::lemma_keep_in_window_obeys, writes::lemma_run_charge_obeys};

    let kept = steer::keep_in_window_run(io, window, hvdcp, tick, steering).0;
    let ran = charge::run_charge_run(mid, before, tick, demand, tuning).0;
    writes::lemma_obeys_at_first(io, Rule::Free);
    writes::lemma_obeys_at_first(mid, Rule::Free);
    assert(writes::obeys(io, kept, Rule::Free));
    assert(writes::obeys(mid, ran, Rule::Free));
    writes::lemma_obeys_follows(io, kept, Rule::Free);
    writes::lemma_obeys_follows(mid, ran, Rule::Free);
}

/// A repeated elevation is scheduled a minute after an input starts to lack one, comes
/// when it is due, and then waits a minute, two, four and at last five. An input that
/// lacks nothing ends it.
pub proof fn law_elevation_is_repeated(slot: ReElevate, now_ms: u64, lacks: bool)
    ensures
        ({
            let (left, again) = reelevate_step(slot, now_ms, lacks);
            let wait = if slot.backoff_ms == 0 {
                60_000
            } else if slot.backoff_ms >= 150_000 {
                300_000
            } else {
                2 * slot.backoff_ms
            };
            let later = |ms: int|
                if now_ms + ms > u64::MAX {
                    u64::MAX as int
                } else {
                    now_ms + ms
                };
            &&& again <==> lacks && slot.next_ms != 0 && now_ms >= slot.next_ms
            &&& !lacks ==> left.attempts == 0 && left.next_ms == 0 && (slot.next_ms != 0
                || slot.attempts != 0 ==> left.backoff_ms == 0)
            &&& lacks && slot.next_ms == 0 ==> left.next_ms == later(60_000) && left.attempts
                == slot.attempts && left.backoff_ms == slot.backoff_ms
            &&& lacks && 0 < now_ms < slot.next_ms ==> left == slot
            &&& again ==> left.next_ms == later(wait) && left.backoff_ms == wait
                && left.attempts == if slot.attempts == u32::MAX {
                u32::MAX as int
            } else {
                slot.attempts + 1
            }
        }),
{
}

/// After its work a tick looks for a reason to negotiate: an edge where edges are armed,
/// a retry, and a repeated elevation. It remembers whether the input was there.
pub proof fn law_tick_looks_ahead(io: Io<Op>, state: DriverState, vbus: i32, lacks: bool)
    requires
        io.pending is None,
        look_ahead_run(io, state, vbus, lacks).0.pending is None,
    ensures
        ({
            let (after, left, wanted) = look_ahead_run(io, state, vbus, lacks);
            let present = trace::yes(trace::answer(io, 0));
            let k: int = if state.edge.armed {
                2
            } else {
                1
            };
            let now = steer::time_of(trace::answer(io, k));
            let edge = Op::RenegotiateOnEdge {
                phase: state.hvdcp.phase.code(),
                before: state.edge.last_present,
                now: present,
            };
            let retry = Op::RetryDue {
                pending: state.retry.pending,
                attempts: state.retry.attempts,
                now_ms: now,
                next_ms: state.retry.next_ms,
            };
            &&& trace::follows(io, after)
            &&& trace::asked(io, after) == if state.edge.armed {
                seq![Op::InputPresent(vbus), edge, Op::Now, retry]
            } else {
                seq![Op::InputPresent(vbus), Op::Now, retry]
            }
            &&& wanted.replug <==> state.edge.armed && trace::yes(trace::answer(io, 1))
            &&& wanted.retry <==> trace::yes(trace::answer(io, k + 1))
            &&& (left.reelevate, wanted.reelevate) == reelevate_step(state.reelevate, now, lacks)
            &&& left.edge == (InputEdge { last_present: present, ..state.edge })
            &&& left == (DriverState { reelevate: left.reelevate, edge: left.edge, ..state })
        }),
{
    broadcast use trace::group_trace;

    reveal(look_ahead_run);
    trace::lemma_asked_nothing(io);
    trace::lemma_follows_at_first(io);
}

/// Each reason leads to a negotiation, and none to nothing. One for an edge starts
/// without the latch of the adapter before, and it and a repeated elevation always arm
/// the edge again. A retry is counted, and the next is put off.
pub proof fn law_reason_leads_to_negotiation(
    io: Io<Op>,
    state: DriverState,
    wanted: Wanted,
    tuning: Tuning,
)
    requires
        trace::honest(io),
        io.pending is None,
        follow_up_run(io, state, wanted, tuning).0.pending is None,
    ensures
        ({
            let (after, left) = follow_up_run(io, state, wanted, tuning);
            let asked = trace::asked(io, after);
            let retries = wanted.retry && !wanted.replug;
            let later = steer::time_of(trace::answer(io, 0)) + tuning.superuser_retry_ms;
            &&& trace::follows(io, after)
            &&& !wanted.replug && !wanted.retry && !wanted.reelevate ==> asked.len() == 0 && left
                == state
            &&& wanted.replug || wanted.retry || wanted.reelevate ==> asked.contains(Op::SuOpen)
            &&& wanted.replug || (wanted.reelevate && !wanted.retry) ==> left.edge.armed
                && asked.last() is InputPresent
            &&& retries ==> asked[0] == Op::Now
            &&& retries && left.retry.pending ==> left.retry.attempts == if state.retry.attempts
                == u32::MAX {
                u32::MAX as int
            } else {
                state.retry.attempts + 1
            }
            &&& retries && left.retry.pending && 0 < later <= u64::MAX ==> left.retry.next_ms
                == later
        }),
{
    broadcast use trace::group_trace;

    reveal(follow_up_run);
    trace::lemma_asked_nothing(io);
    trace::lemma_follows_at_first(io);
    let (after, left) = follow_up_run(io, state, wanted, tuning);
    if wanted.replug {
        let unlatched = DriverState {
            hvdcp: HvdcpState { force9v_latched: false, ..state.hvdcp },
            ..state
        };
        lemma_negotiates(io, io.mark("HvdcpReplug", 1), unlatched, true, tuning);
    } else if wanted.retry {
        let (timed, now) = io.millis(Op::Now);
        let retry = RetrySlot {
            attempts: state.retry.attempts.saturating_add(1),
            next_ms: now.saturating_add(tuning.superuser_retry_ms),
            ..state.retry
        };
        lemma_negotiates(
            io,
            timed.mark("HvdcpRetryN", retry.attempts),
            DriverState { retry, ..state },
            false,
            tuning,
        );
    } else if wanted.reelevate {
        lemma_negotiates(io, io.mark("ReElevateN", state.reelevate.attempts), state, true, tuning);
    }
}

proof fn lemma_negotiates(
    io: Io<Op>,
    start: Io<Op>,
    state: DriverState,
    always: bool,
    tuning: Tuning,
)
    requires
        trace::honest(io),
        trace::follows(io, start),
        landing::negotiate_and_rearm_run(start, state, always, tuning).0.pending is None,
    ensures
        ({
            let (after, left, code) = landing::negotiate_and_rearm_run(
                start,
                state,
                always,
                tuning,
            );
            let asked = trace::asked(io, after);
            &&& trace::follows(io, after)
            &&& start.pending is None
            &&& asked == trace::asked(io, start) + trace::asked(start, after)
            &&& asked.contains(Op::SuOpen)
            &&& always ==> left.edge.armed && asked.last() is InputPresent
            &&& left.retry.pending ==> left.retry.attempts == state.retry.attempts
            &&& left.retry.pending && state.retry.next_ms != 0 ==> left.retry.next_ms
                == state.retry.next_ms
        }),
{
    let (after, left, code) = landing::negotiate_and_rearm_run(start, state, always, tuning);
    landing::lemma_negotiation_follows(start, state, always, tuning);
    trace::lemma_finished_before(start, after);
    trace::lemma_honest_after(io, start);
    landing::law_negotiation_is_landed(start, state, always, tuning);
    trace::lemma_follows_in_turn(io, start, after);
    trace::lemma_asked_in_turn(io, start, after);
    let n = trace::asked(io, start).len();
    if state.pump_open {
        assert(trace::asked(io, after)[n as int + 1] == Op::SuOpen);
    } else {
        assert(trace::asked(io, after)[n as int] == Op::SuOpen);
    }
    landing::lemma_retry_is_kept(start, state, always, tuning);
}

/// A tick does its work in order. After the measurement comes the protection, on the
/// sample that was taken; only then is the pump driven, with what the protection decided.
/// The look ahead comes after that. A device negotiates for a reason that was found and
/// starts the timer again at the very end; without one nothing follows.
#[verifier::rlimit(60)]
pub proof fn law_tick_is_worked_through(
    io: Io<Op>,
    state: DriverState,
    status: ChipStatus,
    poll: GaugePoll,
    tuning: Tuning,
)
    requires
        trace::honest(io),
        io.pending is None,
        work_run(io, state, status, poll, tuning).0.pending is None,
    ensures
        ({
            let (after, left) = work_run(io, state, status, poll, tuning);
            let (_, measured, tick) = measure_run(io, state, status, tuning);
            let lacks = lacks_elevation(tick, measured.iin.max_ua, tuning.charge_min_vin_uv);
            exists|p: Io<Op>, d: Io<Op>, l: Io<Op>|
                #![trigger trace::follows(p, d), trace::follows(d, l)]
                {
                    let protection = trace::asked(p, d);
                    let driving = trace::asked(d, l);
                    let rest = trace::asked(l, after);
                    let k: int = if state.edge.armed {
                        2
                    } else {
                        1
                    };
                    let now = steer::time_of(trace::answer(l, k));
                    let edge = state.edge.armed && trace::yes(trace::answer(l, 1));
                    let again = reelevate_step(state.reelevate, now, lacks).1;
                    &&& trace::follows(io, p) && trace::follows(p, d) && trace::follows(d, l)
                    &&& trace::asked(io, after) == trace::asked(io, p) + protection + driving + rest
                    &&& protection.len() >= 2 && protection[0] == Op::StrikesExpired(tick.sample)
                    &&& protection[1] == (Op::Guard {
                        sample: tick.sample,
                        ov_latched: tick.status.fault1_sts & 0x40 != 0,
                    })
                    &&& driving.len() > 0 && driving.last() == Op::PumpWatchdog
                    &&& exists|s: DriverState|
                        (#[trigger] drive_run(
                            d,
                            s,
                            tick,
                            verdict_of(trace::answer(p, 1)).1,
                            tuning,
                        )).0 == l && s.iin == measured.iin && s.charge == state.charge
                            && s.window == state.window
                    &&& rest.len() >= 3 && rest[0] == Op::InputPresent(tick.vbus)
                    &&& !state.device_ready ==> rest.last() is RetryDue && rest.len() == k + 2
                    &&& state.device_ready && left.timer_ready ==> rest.last() == Op::TimerStart(
                        if left.telemetry_ms < 100 {
                            100
                        } else {
                            left.telemetry_ms
                        },
                    )
                    &&& state.device_ready && (edge || again || trace::yes(
                        trace::answer(l, k + 1),
                    )) ==> rest.contains(Op::SuOpen)
                }
        }),
{
    reveal(work_run);
    let (after, left) = work_run(io, state, status, poll, tuning);
    let (m, measured, tick) = measure_run(io, state, status, tuning);
    let (p, reported) = report_run(m, measured, tick, poll);
    let (d, protected, guarded) = protect_run(p, reported, tick);
    let lacks = lacks_elevation(tick, protected.iin.max_ua, tuning.charge_min_vin_uv);
    let (l, driven) = drive_run(d, protected, tick, guarded, tuning);
    let (f, looked, wanted) = look_ahead_run(l, driven, tick.vbus, lacks);
    let (g, followed) = if looked.device_ready {
        follow_up_run(f, looked, wanted, tuning)
    } else {
        (f, looked)
    };
    lemma_work_follows(io, state, status, poll, tuning);
    trace::lemma_finished_before(g, after);
    trace::lemma_finished_before(f, g);
    trace::lemma_finished_before(l, f);
    trace::lemma_finished_before(d, l);
    trace::lemma_finished_before(p, d);
    assert(measured == (DriverState {
        adc: measured.adc,
        battery: measured.battery,
        iin: measured.iin,
        ..state
    })) by {
        reveal(measure_run);
    }
    assert(reported == (DriverState {
        battery: reported.battery,
        fcc: reported.fcc,
        ..measured
    })) by {
        reveal(report_run);
    }
    law_every_tick_is_guarded(p, reported, tick);
    law_tick_steers_by_one_mode(d, protected, tick, guarded, tuning);
    assert(guarded == verdict_of(trace::answer(p, 1)).1);
    assert(drive_run(d, protected, tick, guarded, tuning).0 == l);
    law_tick_looks_ahead(l, driven, tick.vbus, lacks);
    trace::lemma_follows_in_turn(io, p, d);
    trace::lemma_follows_in_turn(io, d, l);
    trace::lemma_follows_in_turn(io, l, f);
    trace::lemma_follows_in_turn(l, f, g);
    trace::lemma_follows_in_turn(l, g, after);
    trace::lemma_finished_before(io, p);
    trace::lemma_honest_after(io, p);
    trace::lemma_honest_after(io, f);
    trace::lemma_asked_in_turn(io, p, d);
    trace::lemma_asked_in_turn(io, d, l);
    trace::lemma_asked_in_turn(io, l, after);
    trace::lemma_asked_in_turn(l, f, g);
    trace::lemma_asked_in_turn(l, g, after);
    trace::lemma_asked_nothing(f);
    trace::lemma_asked_nothing(g);
    if looked.device_ready {
        law_reason_leads_to_negotiation(f, looked, wanted, tuning);
        landing::law_timer_is_not_started_early(g, followed.timer_ready, followed.telemetry_ms);
        if wanted.replug || wanted.retry || wanted.reelevate {
            let i = choose|i: int|
                0 <= i < trace::asked(f, g).len() && trace::asked(f, g)[i] == Op::SuOpen;
            assert(trace::asked(l, after)[trace::asked(l, f).len() + i] == Op::SuOpen);
        }
    }
}

/// The parts of a tick follow each other.
proof fn lemma_work_follows(
    io: Io<Op>,
    state: DriverState,
    status: ChipStatus,
    poll: GaugePoll,
    tuning: Tuning,
)
    ensures
        ({
            let after = work_run(io, state, status, poll, tuning).0;
            let (m, measured, tick) = measure_run(io, state, status, tuning);
            let (p, reported) = report_run(m, measured, tick, poll);
            let (d, protected, guarded) = protect_run(p, reported, tick);
            let lacks = lacks_elevation(tick, protected.iin.max_ua, tuning.charge_min_vin_uv);
            let (l, driven) = drive_run(d, protected, tick, guarded, tuning);
            let (f, looked, wanted) = look_ahead_run(l, driven, tick.vbus, lacks);
            let (g, followed) = if looked.device_ready {
                follow_up_run(f, looked, wanted, tuning)
            } else {
                (f, looked)
            };
            &&& trace::follows(io, p) && trace::follows(p, d) && trace::follows(d, l)
            &&& trace::follows(l, f) && trace::follows(f, g) && trace::follows(g, after)
        }),
{
    broadcast use {
        writes::group_obeys,
        writes::lemma_measure_obeys,
        writes::lemma_report_obeys,
        writes::lemma_protect_obeys,
        writes::lemma_drive_obeys,
        writes::lemma_look_ahead_obeys,
        writes::lemma_follow_up_obeys,
    };

    reveal(work_run);
    let after = work_run(io, state, status, poll, tuning).0;
    let (m, measured, tick) = measure_run(io, state, status, tuning);
    let (p, reported) = report_run(m, measured, tick, poll);
    let (d, protected, guarded) = protect_run(p, reported, tick);
    let lacks = lacks_elevation(tick, protected.iin.max_ua, tuning.charge_min_vin_uv);
    let (l, driven) = drive_run(d, protected, tick, guarded, tuning);
    let (f, looked, wanted) = look_ahead_run(l, driven, tick.vbus, lacks);
    let (g, followed) = if looked.device_ready {
        follow_up_run(f, looked, wanted, tuning)
    } else {
        (f, looked)
    };
    writes::lemma_obeys_at_first(io, Rule::Free);
    writes::lemma_obeys_at_first(p, Rule::Free);
    writes::lemma_obeys_at_first(d, Rule::Free);
    writes::lemma_obeys_at_first(l, Rule::Free);
    writes::lemma_obeys_at_first(f, Rule::Free);
    writes::lemma_obeys_at_first(g, Rule::Free);
    assert(writes::obeys(io, m, Rule::Free));
    assert(writes::obeys(io, p, Rule::Free));
    assert(writes::obeys(p, d, Rule::Free));
    assert(writes::obeys(d, l, Rule::Free));
    assert(writes::obeys(l, f, Rule::Free));
    assert(writes::obeys(f, g, Rule::Free));
    assert(writes::obeys(g, after, Rule::Free));
    writes::lemma_obeys_follows(io, p, Rule::Free);
    writes::lemma_obeys_follows(p, d, Rule::Free);
    writes::lemma_obeys_follows(d, l, Rule::Free);
    writes::lemma_obeys_follows(l, f, Rule::Free);
    writes::lemma_obeys_follows(f, g, Rule::Free);
    writes::lemma_obeys_follows(g, after, Rule::Free);
}

/// A tick with a device is reported: the gauge is taken at the time of the sample, the
/// battery and the chip are published, and the buck section runs on what the tick saw,
/// with half a minute between its turns. Without a device nothing is.
pub proof fn law_tick_is_reported(io: Io<Op>, state: DriverState, tick: Tick, poll: GaugePoll)
    requires
        io.pending is None,
        report_run(io, state, tick, poll).0.pending is None,
    ensures
        ({
            let (after, left) = report_run(io, state, tick, poll);
            &&& !state.device_ready ==> after == io && left == state
            &&& state.device_ready ==> {
                &&& left.battery == observe::take_gauge_run(
                    io,
                    state.battery,
                    poll,
                    tick.sample.ts_ms,
                ).1
                &&& left == (DriverState { battery: left.battery, fcc: left.fcc, ..state })
                &&& exists|b: Io<Op>|
                    #![trigger trace::follows(io, b)]
                    {
                        &&& trace::follows(io, b)
                        &&& fcc::buck_tick_run(
                            b,
                            state.fcc,
                            BuckInputs {
                                now_ms: tick.sample.ts_ms,
                                vbat_uv: tick.sample.vbat_uv,
                                pump_alive: tick.pump_alive,
                                critical: tick.status.critical,
                            },
                            30_000,
                        ) == (after, left.fcc)
                        &&& exists|g: Io<Op>|
                            #![trigger trace::follows(g, b)]
                            trace::follows(io, g) && trace::follows(g, b) && trace::published(g, b)
                                == trace::published(
                                g,
                                observe::mark_state_run(g, left.battery, tick),
                            ) + trace::published(
                                observe::mark_state_run(g, left.battery, tick),
                                b,
                            ) && b == observe::mark_chip_run(
                                observe::mark_state_run(g, left.battery, tick),
                                tick.status,
                            )
                    }
            }
        }),
{
    broadcast use {
        writes::group_obeys,
        writes::lemma_take_gauge_obeys,
        writes::lemma_mark_state_obeys,
        writes::lemma_mark_chip_obeys,
        writes::lemma_buck_tick_obeys,
    };

    reveal(report_run);
    if state.device_ready {
        let (g, battery) = observe::take_gauge_run(io, state.battery, poll, tick.sample.ts_ms);
        let s = observe::mark_state_run(g, battery, tick);
        let b = observe::mark_chip_run(s, tick.status);
        let after = report_run(io, state, tick, poll).0;
        writes::lemma_obeys_at_first(io, Rule::Free);
        writes::lemma_obeys_at_first(g, Rule::Free);
        writes::lemma_obeys_at_first(s, Rule::Free);
        writes::lemma_obeys_at_first(b, Rule::Free);
        assert(writes::obeys(io, g, Rule::Free));
        assert(writes::obeys(g, s, Rule::Free));
        assert(writes::obeys(s, b, Rule::Free));
        assert(writes::obeys(b, after, Rule::Free));
        writes::lemma_obeys_follows(io, g, Rule::Free);
        writes::lemma_obeys_follows(g, s, Rule::Free);
        writes::lemma_obeys_follows(s, b, Rule::Free);
        writes::lemma_obeys_follows(b, after, Rule::Free);
        trace::lemma_follows_in_turn(g, s, b);
        trace::lemma_follows_in_turn(io, g, b);
        trace::lemma_finished_before(b, after);
        trace::lemma_finished_before(s, b);
        trace::lemma_finished_before(g, s);
        trace::lemma_published_in_turn(g, s, b);
    }
}

/// A tick measures in order: the sample, then what it means for the ADC, then for the
/// battery, with the peak of the window before. A device publishes all that and takes the
/// sample into the window.
pub proof fn law_tick_is_measured(
    io: Io<Op>,
    state: DriverState,
    status: ChipStatus,
    tuning: Tuning,
)
    ensures
        ({
            let (after, left, tick) = measure_run(io, state, status, tuning);
            let (sampled, sample) = observe::observe_run(io, status);
            let (powered, adc) = observe::adc_power_run(
                sampled,
                state.adc,
                sample.usable,
                sample.vac_unplug,
            );
            let (fed, battery) = observe::feed_battery_run(
                powered,
                state.battery,
                sample,
                state.iin.max_ua,
                tuning,
            );
            let (windowed, iin) = observe::iin_window_run(
                observe::mark_tick_run(fed, battery, adc, sample),
                state.iin,
                sample.sample.iin_ua,
                sample.sample.ts_ms,
            );
            &&& tick == sample && left.adc == adc && left.battery == battery
            &&& state.device_ready ==> after == windowed && left.iin == iin
            &&& !state.device_ready ==> after == fed && left.iin == state.iin
            &&& left == (DriverState {
                adc: left.adc,
                battery: left.battery,
                iin: left.iin,
                ..state
            })
        }),
{
    reveal(measure_run);
}

} // verus!
