//! QC3.5: the pulse trains with which an adapter is asked for its power class.
//!
//! A failed attempt leaves the adapter on the QC3 path; nothing here requests
//! a new classification.
use crate::arith::nonneg;
use crate::exchange::{Op, Reply};
use crate::hvdcp::{HvdcpState, QC35_AUTH_PULSE_GAP_MS, QC35_STEP_UV};
use crate::pump::{Qc35AuthGate, Qc35AuthPulse, Tuning};
use crate::session::{self, Io, Session};
use crate::usbin::{
    self, ensure_icl_at_least, ensure_icl_floor_500ma, pulse_dec_gap, pulse_inc_gap, Bus,
};
use crate::writes::{self, Rule};
use crate::trace;
use crate::landing;
use crate::pmic;
use vstd::prelude::*;

verus! {

/// A window that the input has to enter.
#[derive(Debug, Clone, Copy, PartialEq, Eq, Structural)]
pub enum Window {
    /// The adapter is ready for the trains.
    Detect,
    /// The adapter shows its power class.
    Capability,
}

impl Window {
    /// The question whether an input (µV) lies in the window.
    #[verifier::allow_in_spec]
    pub fn question(self, vin_uv: i32) -> (op: Op)
        returns
            (match self {
                Window::Detect => Op::DetectWindow(vin_uv),
                Window::Capability => Op::CapWindow(vin_uv),
            }),
    {
        match self {
            Window::Detect => Op::DetectWindow(vin_uv),
            Window::Capability => Op::CapWindow(vin_uv),
        }
    }
}

/// A train of pulses.
#[derive(Debug, Clone, Copy, PartialEq, Eq, Structural)]
pub enum Train {
    /// `+-+-+-`: asks for the power class.
    SourceCapability,
    /// `++--`: confirms QC3.5.
    Confirm,
}

impl Train {
    /// How many pulses it has.
    #[verifier::allow_in_spec]
    pub fn length(self) -> (n: u32)
        returns
            (match self {
                Train::SourceCapability => 6u32,
                Train::Confirm => 4u32,
            }),
    {
        match self {
            Train::SourceCapability => 6,
            Train::Confirm => 4,
        }
    }

    /// The pulse at an index.
    #[verifier::allow_in_spec]
    pub fn pulse(self, index: u32) -> (pulse: Qc35AuthPulse)
        returns
            (match self {
                Train::SourceCapability => if index % 2 == 0 {
                    Qc35AuthPulse::Inc
                } else {
                    Qc35AuthPulse::Dec
                },
                Train::Confirm => if index < 2 {
                    Qc35AuthPulse::Inc
                } else {
                    Qc35AuthPulse::Dec
                },
            }),
    {
        match self {
            Train::SourceCapability => if index % 2 == 0 {
                Qc35AuthPulse::Inc
            } else {
                Qc35AuthPulse::Dec
            },
            Train::Confirm => if index < 2 {
                Qc35AuthPulse::Inc
            } else {
                Qc35AuthPulse::Dec
            },
        }
    }
}

pub open spec fn sample_vin_run(io: Io<Op>) -> (Io<Op>, i32) {
    let (io, vin) = io.reading(Op::SampleVin);
    (io, match vin {
        Some(vin) => vin,
        None => 0,
    })
}

/// Samples the input (µV); a missing reading is 0.
pub fn sample_vin(io: &mut Session<Op>) -> (vin: i32)
    ensures
        (final(io)@, vin) == sample_vin_run(old(io)@),
{
    match io.reading(Op::SampleVin) {
        Some(vin) => vin,
        None => 0,
    }
}

/// What is left of a patience.
pub open spec fn left(timeout_ms: u32, waited_ms: u32) -> int {
    if waited_ms >= timeout_ms {
        0
    } else {
        timeout_ms - waited_ms
    }
}

pub open spec fn wait_vin_window_run(
    io: Io<Op>,
    window: Window,
    timeout_ms: u32,
    poll_ms: u32,
    waited: u32,
) -> (Io<Op>, Option<i32>)
    decreases left(timeout_ms, waited),
{
    let (io, vin) = sample_vin_run(io);
    let (io, inside) = io.flag(window.question(vin));
    if inside {
        (io, Some(vin))
    } else if waited >= timeout_ms || poll_ms == 0 {
        (io, None)
    } else {
        wait_vin_window_run(
            io.tell(Op::Sleep(poll_ms)),
            window,
            timeout_ms,
            poll_ms,
            waited.saturating_add(poll_ms),
        )
    }
}

/// Polls the input until it enters a window, and returns it; `None` where it
/// does not in time.
pub fn wait_vin_window(
    io: &mut Session<Op>,
    window: Window,
    timeout_ms: u32,
    poll_ms: u32,
) -> (vin: Option<i32>)
    requires
        poll_ms > 0,
    ensures
        (final(io)@, vin) == wait_vin_window_run(old(io)@, window, timeout_ms, poll_ms, 0),
{
    let mut waited: u32 = 0;
    loop
        invariant
            poll_ms > 0,
            wait_vin_window_run(io@, window, timeout_ms, poll_ms, waited) == wait_vin_window_run(
                old(io)@,
                window,
                timeout_ms,
                poll_ms,
                0,
            ),
        decreases left(timeout_ms, waited),
    {
        let vin: i32 = sample_vin(io);
        if io.flag(window.question(vin)) {
            return Some(vin);
        }
        if waited >= timeout_ms {
            return None;
        }
        io.tell(Op::Sleep(poll_ms));
        waited = waited.saturating_add(poll_ms);
    }
}

pub open spec fn pulse_auth_step_run(
    io: Io<Op>,
    bus: Bus,
    state: HvdcpState,
    pulse: Qc35AuthPulse,
) -> (Io<Op>, HvdcpState, bool) {
    let (io, state, sent) = match pulse {
        Qc35AuthPulse::Inc => usbin::pulse_inc_gap_run(io, bus, state, QC35_AUTH_PULSE_GAP_MS),
        Qc35AuthPulse::Dec => usbin::pulse_dec_gap_run(io, bus, state, QC35_AUTH_PULSE_GAP_MS),
    };
    (io, state, sent is Ok)
}

/// Sends one pulse of a train; returns whether the register access succeeded.
pub fn pulse_auth_step(
    io: &mut Session<Op>,
    bus: Bus,
    state: &mut HvdcpState,
    pulse: Qc35AuthPulse,
) -> (ok: bool)
    ensures
        (final(io)@, *final(state), ok) == pulse_auth_step_run(old(io)@, bus, *old(state), pulse),
        old(state).valid() ==> final(state).valid(),
{
    let sent = match pulse {
        Qc35AuthPulse::Inc => pulse_inc_gap(io, bus, state, QC35_AUTH_PULSE_GAP_MS),
        Qc35AuthPulse::Dec => pulse_dec_gap(io, bus, state, QC35_AUTH_PULSE_GAP_MS),
    };
    sent.is_ok()
}

pub open spec fn pulse_train_run(
    io: Io<Op>,
    bus: Bus,
    state: HvdcpState,
    train: Train,
    index: u32,
) -> (Io<Op>, HvdcpState, bool)
    decreases train.length() - index,
{
    if index >= train.length() {
        (io, state, true)
    } else {
        let (io, state, ok) = pulse_auth_step_run(io, bus, state, train.pulse(index));
        if ok {
            pulse_train_run(io, bus, state, train, (index + 1) as u32)
        } else {
            (io, state, false)
        }
    }
}

/// Sends a whole train; returns whether every register access succeeded.
pub fn pulse_train(
    io: &mut Session<Op>,
    bus: Bus,
    state: &mut HvdcpState,
    train: Train,
) -> (ok: bool)
    ensures
        (final(io)@, *final(state), ok) == pulse_train_run(old(io)@, bus, *old(state), train, 0),
        old(state).valid() ==> final(state).valid(),
{
    let mut index: u32 = 0;
    while index < train.length()
        invariant
            old(state).valid() ==> state.valid(),
            pulse_train_run(io@, bus, *state, train, index) == pulse_train_run(
                old(io)@,
                bus,
                *old(state),
                train,
                0,
            ),
        decreases train.length() - index,
    {
        if !pulse_auth_step(io, bus, state, train.pulse(index)) {
            return false;
        }
        index = index + 1;
    }
    true
}

pub open spec fn auth_allowed_run(io: Io<Op>, vin: i32) -> (Io<Op>, bool) {
    let (io, gate) = io.gate(Op::AuthGate(vin));
    (io, gate == Qc35AuthGate::Attempt)
}

/// Whether the trains may be tried at an input (µV).
fn auth_allowed(io: &mut Session<Op>, vin: i32) -> (allowed: bool)
    ensures
        (final(io)@, allowed) == auth_allowed_run(old(io)@, vin),
{
    match io.gate(Op::AuthGate(vin)) {
        Qc35AuthGate::Attempt => true,
        Qc35AuthGate::SkipVinInvalid => false,
        Qc35AuthGate::SkipVinTooHigh => false,
    }
}

/// The steps up before the trains: until the input lies in the detection
/// window, at most a given number, and as long as the input allows.
pub open spec fn prep_steps_run(
    io: Io<Op>,
    bus: Bus,
    state: HvdcpState,
    vin: i32,
    prep: u32,
    max_inc: u32,
) -> (Io<Op>, HvdcpState, bool)
    decreases left(max_inc, prep),
{
    let (io, inside) = io.flag(Op::DetectWindow(vin));
    if inside || prep >= max_inc {
        (io, state, true)
    } else {
        let (io, state, sent) = usbin::pulse_inc_gap_run(io, bus, state, QC35_AUTH_PULSE_GAP_MS);
        match sent {
            Err(_) => (io, state, false),
            Ok(_) => {
                let (io, vin) = sample_vin_run(io);
                let (io, allowed) = auth_allowed_run(io, vin);
                if allowed {
                    prep_steps_run(io, bus, state, vin, (prep + 1) as u32, max_inc)
                } else {
                    (io, state, false)
                }
            },
        }
    }
}

fn prep_steps(
    io: &mut Session<Op>,
    bus: Bus,
    state: &mut HvdcpState,
    first_vin: i32,
    max_inc: u32,
) -> (ok: bool)
    ensures
        (final(io)@, *final(state), ok) == prep_steps_run(
            old(io)@,
            bus,
            *old(state),
            first_vin,
            0,
            max_inc,
        ),
        old(state).valid() ==> final(state).valid(),
{
    let mut vin: i32 = first_vin;
    let mut prep: u32 = 0;
    loop
        invariant
            old(state).valid() ==> state.valid(),
            prep_steps_run(io@, bus, *state, vin, prep, max_inc) == prep_steps_run(
                old(io)@,
                bus,
                *old(state),
                first_vin,
                0,
                max_inc,
            ),
        decreases left(max_inc, prep),
    {
        let inside = io.flag(Op::DetectWindow(vin));
        if inside || prep >= max_inc {
            return true;
        }
        if pulse_inc_gap(io, bus, state, QC35_AUTH_PULSE_GAP_MS).is_err() {
            return false;
        }
        vin = sample_vin(io);
        if !auth_allowed(io, vin) {
            return false;
        }
        prep = prep + 1;
    }
}

#[verifier::opaque]
pub open spec fn prep_qc35_detect_window_run(
    io: Io<Op>,
    bus: Bus,
    state: HvdcpState,
    tuning: Tuning,
) -> (Io<Op>, HvdcpState, Option<i32>) {
    let (io, vin) = sample_vin_run(io);
    let (io, allowed) = auth_allowed_run(io, vin);
    if !allowed {
        (io, state, None)
    } else {
        let (io, state, ok) = prep_steps_run(io, bus, state, vin, 0, tuning.qc35_prep_max_inc);
        if !ok {
            (io, state, None)
        } else {
            let (io, vin) = wait_vin_window_run(
                io,
                Window::Detect,
                tuning.qc35_detect_timeout_ms,
                tuning.qc35_vin_poll_ms,
                0,
            );
            (io, state, vin)
        }
    }
}

/// Brings the input into the detection window and returns it; `None` where the
/// attempt is ruled out, a step fails or the window is not reached in time.
pub fn prep_qc35_detect_window(
    io: &mut Session<Op>,
    bus: Bus,
    state: &mut HvdcpState,
    tuning: &Tuning,
) -> (vin: Option<i32>)
    requires
        tuning.valid(),
    ensures
        (final(io)@, *final(state), vin) == prep_qc35_detect_window_run(
            old(io)@,
            bus,
            *old(state),
            *tuning,
        ),
        old(state).valid() ==> final(state).valid(),
{
    proof {
        reveal(prep_qc35_detect_window_run);
    }
    let vin: i32 = sample_vin(io);
    if !auth_allowed(io, vin) {
        return None;
    }
    if !prep_steps(io, bus, state, vin, tuning.qc35_prep_max_inc) {
        return None;
    }
    wait_vin_window(io, Window::Detect, tuning.qc35_detect_timeout_ms, tuning.qc35_vin_poll_ms)
}

/// The part of the attempt that follows the capability window: classify,
/// confirm, vote the current.
#[verifier::opaque]
pub open spec fn confirm_class_run(io: Io<Op>, bus: Bus, state: HvdcpState, cap_vin: i32) -> (
    Io<Op>,
    HvdcpState,
    Option<u32>,
) {
    let (io, power) = io.mark("SuQc35CapVin", nonneg(cap_vin)).number(Op::PowerLimit(cap_vin));
    match power {
        None => (io.mark("SuQc35Fail", 4), state, None),
        Some(power_w) => {
            let (io, state, ok) = pulse_train_run(io, bus, state, Train::Confirm, 0);
            if !ok {
                (io.mark("SuQc35Fail", 5), state, None)
            } else {
                let (io, icl) = io.byte(Op::IclForPower(power_w));
                let icl = match icl {
                    Some(icl) => icl,
                    None => 0,
                };
                let (io, _) = usbin::ensure_icl_at_least_run(io, bus, state, icl);
                (
                    io.mark("SuQc35Auth", 1)
                        .mark("SuQc35Fail", 0)
                        .mark("SuQc35PowerW", power_w)
                        .mark("SuIclQc35", icl as u32)
                        .mark("SuQc35StepUv", QC35_STEP_UV),
                    state,
                    Some(power_w),
                )
            }
        },
    }
}

fn confirm_class(io: &mut Session<Op>, bus: Bus, state: &mut HvdcpState, cap_vin: i32) -> (power:
    Option<u32>)
    ensures
        (final(io)@, *final(state), power) == confirm_class_run(
            old(io)@,
            bus,
            *old(state),
            cap_vin,
        ),
        old(state).valid() ==> final(state).valid(),
{
    proof {
        reveal(confirm_class_run);
    }
    io.mark("SuQc35CapVin", nonneg(cap_vin));
    let power_w: u32 = match io.number(Op::PowerLimit(cap_vin)) {
        Some(power_w) => power_w,
        None => {
            io.mark("SuQc35Fail", 4);
            return None;
        },
    };
    if !pulse_train(io, bus, state, Train::Confirm) {
        io.mark("SuQc35Fail", 5);
        return None;
    }
    let icl: u8 = match io.byte(Op::IclForPower(power_w)) {
        Some(icl) => icl,
        None => 0,
    };
    let _ = ensure_icl_at_least(io, bus, state, icl);
    io.mark("SuQc35Auth", 1);
    io.mark("SuQc35Fail", 0);
    io.mark("SuQc35PowerW", power_w);
    io.mark("SuIclQc35", icl as u32);
    io.mark("SuQc35StepUv", QC35_STEP_UV);
    Some(power_w)
}

#[verifier::opaque]
pub open spec fn attempt_qc35_authenticate_run(
    io: Io<Op>,
    bus: Bus,
    state: HvdcpState,
    tuning: Tuning,
) -> (Io<Op>, HvdcpState, Option<u32>) {
    let (io, _) = usbin::ensure_icl_floor_500ma_run(
        io.mark("SuQc35Auth", 0).mark("SuQc35PowerW", 0),
        bus,
        state,
    );
    let (io, state, detect) = prep_qc35_detect_window_run(io, bus, state, tuning);
    match detect {
        None => (io.mark("SuQc35Fail", 1), state, None),
        Some(vin) => {
            let (io, state, ok) = pulse_train_run(
                io.mark("SuQc35DetVin", nonneg(vin)),
                bus,
                state,
                Train::SourceCapability,
                0,
            );
            if !ok {
                (io.mark("SuQc35Fail", 2), state, None)
            } else {
                let (io, cap) = wait_vin_window_run(
                    io,
                    Window::Capability,
                    tuning.qc35_cap_timeout_ms,
                    tuning.qc35_vin_poll_ms,
                    0,
                );
                match cap {
                    None => {
                        let (io, vin) = sample_vin_run(io.mark("SuQc35Fail", 3));
                        (io.mark("SuQc35CapVin", nonneg(vin)), state, None)
                    },
                    Some(vin) => confirm_class_run(io, bus, state, vin),
                }
            }
        },
    }
}

/// Tries QC3.5: bring the input into the detection window, ask for the power
/// class, confirm it and vote its current. Returns the class (W), or `None`
/// with the reason published.
pub fn attempt_qc35_authenticate(
    io: &mut Session<Op>,
    bus: Bus,
    state: &mut HvdcpState,
    tuning: &Tuning,
) -> (power: Option<u32>)
    requires
        tuning.valid(),
    ensures
        (final(io)@, *final(state), power) == attempt_qc35_authenticate_run(
            old(io)@,
            bus,
            *old(state),
            *tuning,
        ),
        old(state).valid() ==> final(state).valid(),
{
    proof {
        reveal(attempt_qc35_authenticate_run);
    }
    io.mark("SuQc35Auth", 0);
    io.mark("SuQc35PowerW", 0);
    let _ = ensure_icl_floor_500ma(io, bus, state);
    let vin: i32 = match prep_qc35_detect_window(io, bus, state, tuning) {
        Some(vin) => vin,
        None => {
            io.mark("SuQc35Fail", 1);
            return None;
        },
    };
    io.mark("SuQc35DetVin", nonneg(vin));
    if !pulse_train(io, bus, state, Train::SourceCapability) {
        io.mark("SuQc35Fail", 2);
        return None;
    }
    match wait_vin_window(io, Window::Capability, tuning.qc35_cap_timeout_ms, tuning.qc35_vin_poll_ms) {
        Some(cap_vin) => confirm_class(io, bus, state, cap_vin),
        None => {
            io.mark("SuQc35Fail", 3);
            let vin: i32 = sample_vin(io);
            io.mark("SuQc35CapVin", nonneg(vin));
            None
        },
    }
}

// ---------------------------------------------------------------------------
// Laws
// ---------------------------------------------------------------------------
/// The fields of a state that a QC3.5 attempt leaves alone: all but the counter.
pub open spec fn same_adapter(a: HvdcpState, b: HvdcpState) -> bool {
    b == (HvdcpState { pulse_cnt: b.pulse_cnt, ..a })
}

/// A train of steps changes nothing but the counter.
proof fn lemma_train_keeps_adapter(
    io: Io<Op>,
    bus: Bus,
    state: HvdcpState,
    train: Train,
    index: u32,
)
    ensures
        same_adapter(state, pulse_train_run(io, bus, state, train, index).1),
    decreases train.length() - index,
{
    if index < train.length() {
        let (io, state, ok) = pulse_auth_step_run(io, bus, state, train.pulse(index));
        if ok {
            lemma_train_keeps_adapter(io, bus, state, train, (index + 1) as u32);
        }
    }
}

/// Neither do the steps before it.
proof fn lemma_prep_keeps_adapter(
    io: Io<Op>,
    bus: Bus,
    state: HvdcpState,
    vin: i32,
    prep: u32,
    max_inc: u32,
)
    ensures
        same_adapter(state, prep_steps_run(io, bus, state, vin, prep, max_inc).1),
    decreases left(max_inc, prep),
{
    let (io, inside) = io.flag(Op::DetectWindow(vin));
    if !inside && prep < max_inc {
        let (io, state, sent) = usbin::pulse_inc_gap_run(io, bus, state, QC35_AUTH_PULSE_GAP_MS);
        if sent is Ok {
            let (io, vin) = sample_vin_run(io);
            let (io, allowed) = auth_allowed_run(io, vin);
            if allowed {
                lemma_prep_keeps_adapter(io, bus, state, vin, (prep + 1) as u32, max_inc);
            }
        }
    }
}

/// A QC3.5 attempt never starts a new classification, whether it succeeds or
/// not: an adapter that was QC3 before is QC3 after.
pub proof fn law_attempt_keeps_the_class(io: Io<Op>, bus: Bus, state: HvdcpState, tuning: Tuning)
    ensures
        usbin::keeps_class(io, attempt_qc35_authenticate_run(io, bus, state, tuning).0),
        same_adapter(state, attempt_qc35_authenticate_run(io, bus, state, tuning).1),
{
    broadcast use writes::lemma_attempt_obeys;

    writes::lemma_obeys_at_first(io, Rule::KeepClass);
    reveal(attempt_qc35_authenticate_run);
    reveal(prep_qc35_detect_window_run);
    reveal(confirm_class_run);
    let io = io.mark("SuQc35Auth", 0).mark("SuQc35PowerW", 0);
    let (io, _) = usbin::ensure_icl_floor_500ma_run(io, bus, state);
    let (sampled, vin) = sample_vin_run(io);
    let (asked, _) = auth_allowed_run(sampled, vin);
    lemma_prep_keeps_adapter(asked, bus, state, vin, 0, tuning.qc35_prep_max_inc);
    let (io, state, detect) = prep_qc35_detect_window_run(io, bus, state, tuning);
    if detect is Some {
        let io = io.mark("SuQc35DetVin", nonneg(detect->0));
        lemma_train_keeps_adapter(io, bus, state, Train::SourceCapability, 0);
        let (io, state, _) = pulse_train_run(io, bus, state, Train::SourceCapability, 0);
        let (io, cap) = wait_vin_window_run(
            io,
            Window::Capability,
            tuning.qc35_cap_timeout_ms,
            tuning.qc35_vin_poll_ms,
            0,
        );
        if cap is Some {
            let (io, _) = io.mark("SuQc35CapVin", nonneg(cap->0)).number(Op::PowerLimit(cap->0));
            lemma_train_keeps_adapter(io, bus, state, Train::Confirm, 0);
        }
    }
}

/// A wait for a window sleeps no longer than its patience and one poll, whatever
/// the adapter does.
pub proof fn law_window_wait_ends_in_time(
    io: Io<Op>,
    window: Window,
    timeout_ms: u32,
    poll_ms: u32,
)
    ensures
        session::slept_ms(wait_vin_window_run(io, window, timeout_ms, poll_ms, 0).0.log)
            <= session::slept_ms(io.log) + timeout_ms + poll_ms,
{
    lemma_window_wait_ends_in_time(io, window, timeout_ms, poll_ms, 0);
}

proof fn lemma_window_wait_ends_in_time(
    io: Io<Op>,
    window: Window,
    timeout_ms: u32,
    poll_ms: u32,
    waited: u32,
)
    ensures
        session::slept_ms(wait_vin_window_run(io, window, timeout_ms, poll_ms, waited).0.log)
            <= session::slept_ms(io.log) + left(timeout_ms, waited) + (if waited < timeout_ms {
            poll_ms as int
        } else {
            0
        }),
    decreases left(timeout_ms, waited),
{
    session::lemma_slept_by_a_request(io, Op::SampleVin);
    let (sampled, vin) = sample_vin_run(io);
    session::lemma_slept_by_a_request(sampled, window.question(vin));
    let (asked, inside) = sampled.flag(window.question(vin));
    if !inside && waited < timeout_ms && poll_ms > 0 {
        session::lemma_slept_by_a_request(asked, Op::Sleep(poll_ms));
        lemma_window_wait_ends_in_time(
            asked.tell(Op::Sleep(poll_ms)),
            window,
            timeout_ms,
            poll_ms,
            waited.saturating_add(poll_ms),
        );
    }
}

/// The capability train alternates six steps, up first; the confirmation is two steps up
/// and two down. An input lies in a window where the core says so of that window.
pub proof fn law_trains_have_their_pulses(train: Train, index: u32, window: Window, vin_uv: i32)
    ensures
        train is SourceCapability ==> train.length() == 6 && (train.pulse(index) is Inc <==> index
            % 2 == 0),
        train is Confirm ==> train.length() == 4 && (train.pulse(index) is Inc <==> index < 2),
        window is Detect ==> window.question(vin_uv) == Op::DetectWindow(vin_uv),
        window is Capability ==> window.question(vin_uv) == Op::CapWindow(vin_uv),
{
}

/// A train sends its steps in order, each in its own direction, and none after one that
/// failed. It succeeds where each does.
pub proof fn law_train_is_sent_in_order(
    io: Io<Op>,
    bus: Bus,
    state: HvdcpState,
    train: Train,
    index: u32,
)
    requires
        !state.force9v_latched,
        index <= train.length(),
    ensures
        ({
            let (after, left, ok) = pulse_train_run(io, bus, state, train, index);
            let written = trace::written(io, after);
            &&& trace::follows(io, after)
            &&& written.len() <= train.length() - index
            &&& ok ==> written.len() == train.length() - index
            &&& forall|k: int|
                0 <= k < written.len() ==> (#[trigger] written[k]).0 == 0x1343 && written[k].1 & 3
                    == if train.pulse((index + k) as u32) is Inc {
                    1
                } else {
                    2u8
                }
            &&& trace::honest(io) && after.pending is None && trace::smooth(io, after) ==> ok
            &&& ok && after.pending is None && index < train.length() ==> trace::asked(
                io,
                after,
            ).last() == Op::Sleep(5)
            &&& !left.force9v_latched
        }),
    decreases train.length() - index,
{
    broadcast use trace::group_trace;

    trace::lemma_written_nothing(io);
    trace::lemma_follows_at_first(io);
    trace::lemma_asked_nothing(io);
    if index < train.length() {
        usbin::lemma_one_step(io, bus, state, QC35_AUTH_PULSE_GAP_MS);
        let (stepped, state1, ok) = pulse_auth_step_run(io, bus, state, train.pulse(index));
        assert(trace::follows(io, stepped));
        trace::lemma_honest_after(io, stepped);
        if ok {
            law_train_is_sent_in_order(stepped, bus, state1, train, (index + 1) as u32);
            let after = pulse_train_run(stepped, bus, state1, train, (index + 1) as u32).0;
            trace::lemma_follows_in_turn(io, stepped, after);
            trace::lemma_written_in_turn(io, stepped, after);
            trace::lemma_asked_in_turn(io, stepped, after);
            let first = trace::written(io, stepped);
            let rest = trace::written(stepped, after);
            let written = trace::written(io, after);
            assert(first.len() == 1);
            assert forall|k: int| 0 <= k < written.len() implies (#[trigger] written[k]).0
                == 0x1343 && written[k].1 & 3 == if train.pulse((index + k) as u32) is Inc {
                1
            } else {
                2u8
            } by {
                if k > 0 {
                    assert(written[k] == rest[k - 1]);
                    assert((index + k) as u32 == ((index + 1) as u32 + (k - 1)) as u32);
                } else {
                    assert(written[k] == first[0]);
                }
            }
            if trace::honest(io) && after.pending is None && trace::smooth(io, after) {
                trace::lemma_finished_before(stepped, after);
                trace::lemma_smooth_parts(io, stepped, after);
            }
            if after.pending is None {
                trace::lemma_finished_before(stepped, after);
                if index + 1 == train.length() {
                    assert(trace::asked(io, after).last() == Op::Sleep(5));
                }
            }
        }
    }
}

/// A wait ends with the input that the core finds in the window, as it was sampled right
/// before, or without one where the last was not; nothing is written for it.
pub proof fn law_wait_ends_inside_the_window(
    io: Io<Op>,
    window: Window,
    timeout_ms: u32,
    poll_ms: u32,
    waited: u32,
)
    requires
        io.pending is None,
    ensures
        ({
            let (after, r) = wait_vin_window_run(io, window, timeout_ms, poll_ms, waited);
            let asked = trace::asked(io, after);
            let sampled = landing::reading_of(io.replies[after.next - 2]);
            let vin = match sampled {
                Some(vin) => vin,
                None => 0,
            };
            &&& trace::follows(io, after)
            &&& trace::written(io, after).len() == 0
            &&& after.pending is None ==> {
                &&& asked.len() >= 2 && asked[0] == Op::SampleVin
                &&& asked.last() == window.question(vin)
                &&& r is Some <==> trace::yes(io.replies[after.next - 1])
                &&& r matches Some(found) ==> found == vin
            }
        }),
    decreases left(timeout_ms, waited),
{
    broadcast use trace::group_trace;

    trace::lemma_written_nothing(io);
    trace::lemma_follows_at_first(io);
    trace::lemma_asked_nothing(io);
    let (sampled, vin) = sample_vin_run(io);
    let (judged, inside) = sampled.flag(window.question(vin));
    if !inside && waited < timeout_ms && poll_ms > 0 {
        let slept = judged.tell(Op::Sleep(poll_ms));
        assert(trace::follows(io, slept));
        trace::lemma_honest_after(io, slept);
        let more = waited.saturating_add(poll_ms);
        let after = wait_vin_window_run(slept, window, timeout_ms, poll_ms, more).0;
        assert(trace::written(io, slept).len() == 0);
        if slept.pending is None {
            law_wait_ends_inside_the_window(slept, window, timeout_ms, poll_ms, more);
            trace::lemma_follows_in_turn(io, slept, after);
            trace::lemma_written_in_turn(io, slept, after);
            trace::lemma_asked_in_turn(io, slept, after);
        } else {
            lemma_silent_wait(slept, window, timeout_ms, poll_ms, more);
        }
    }
}

/// A wait that gets no answer does nothing more.
proof fn lemma_silent_wait(
    io: Io<Op>,
    window: Window,
    timeout_ms: u32,
    poll_ms: u32,
    waited: u32,
)
    requires
        io.pending is Some,
    ensures
        wait_vin_window_run(io, window, timeout_ms, poll_ms, waited).0 == io,
    decreases left(timeout_ms, waited),
{
    if waited < timeout_ms && poll_ms > 0 {
        lemma_silent_wait(io, window, timeout_ms, poll_ms, waited.saturating_add(poll_ms));
    }
}

/// The steps before the trains go up and are bounded. They end well where the core finds
/// the input in the window or they are used up, and badly where one fails or the core no
/// longer allows the attempt.
pub proof fn law_preparation_goes_up(
    io: Io<Op>,
    bus: Bus,
    state: HvdcpState,
    vin: i32,
    prep: u32,
    max_inc: u32,
)
    requires
        io.pending is None,
        !state.force9v_latched,
        prep <= max_inc,
    ensures
        ({
            let (after, left, ok) = prep_steps_run(io, bus, state, vin, prep, max_inc);
            let written = trace::written(io, after);
            &&& trace::follows(io, after)
            &&& usbin::only_steps(written, 1)
            &&& written.len() <= max_inc - prep
            &&& !left.force9v_latched
            &&& after.pending is None ==> {
                &&& trace::asked(io, after).len() > 0
                &&& ok ==> trace::asked(io, after).last() is DetectWindow
                &&& ok && written.len() < max_inc - prep ==> trace::yes(io.replies[after.next - 1])
                &&& trace::asked(io, after)[0] == Op::DetectWindow(vin)
                &&& trace::yes(trace::answer(io, 0)) ==> ok && written.len() == 0
            }
        }),
    decreases left(max_inc, prep),
{
    broadcast use trace::group_trace;

    trace::lemma_written_nothing(io);
    trace::lemma_follows_at_first(io);
    trace::lemma_asked_nothing(io);
    let (looked, inside) = io.flag(Op::DetectWindow(vin));
    if !inside && prep < max_inc {
        usbin::lemma_one_step(looked, bus, state, QC35_AUTH_PULSE_GAP_MS);
        let (stepped, state1, sent) = usbin::pulse_inc_gap_run(
            looked,
            bus,
            state,
            QC35_AUTH_PULSE_GAP_MS,
        );
        assert(trace::follows(io, looked));
        trace::lemma_honest_after(io, looked);
        trace::lemma_follows_in_turn(io, looked, stepped);
        trace::lemma_written_in_turn(io, looked, stepped);
        trace::lemma_honest_after(io, stepped);
        assert(trace::written(io, stepped) =~= trace::written(looked, stepped));
        trace::lemma_asked_in_turn(io, looked, stepped);
        if sent is Ok {
            let (sampled, vin1) = sample_vin_run(stepped);
            let (gated, allowed) = auth_allowed_run(sampled, vin1);
            assert(trace::follows(io, gated));
            trace::lemma_honest_after(io, gated);
            assert(trace::written(io, gated) =~= trace::written(io, stepped));
            if allowed {
                assert(gated.pending is None);
                law_preparation_goes_up(gated, bus, state1, vin1, (prep + 1) as u32, max_inc);
                let after = prep_steps_run(
                    gated,
                    bus,
                    state1,
                    vin1,
                    (prep + 1) as u32,
                    max_inc,
                ).0;
                usbin::lemma_steps_in_turn(io, gated, after, 1);
                trace::lemma_asked_in_turn(io, gated, after);
            }
        }
    }
}

/// A class is confirmed with the power that the core reads from the input: the
/// confirmation goes out, and where the registers can be reached the input current limit
/// is at what the core names for that power or above. Without a power nothing is sent.
pub proof fn law_class_is_confirmed(io: Io<Op>, bus: Bus, state: HvdcpState, cap_vin: i32)
    requires
        trace::honest(io),
        io.pending is None,
        !state.force9v_latched,
        confirm_class_run(io, bus, state, cap_vin).0.pending is None,
    ensures
        ({
            let (after, left, r) = confirm_class_run(io, bus, state, cap_vin);
            let asked = trace::asked(io, after);
            let power = match trace::answer(io, 0) {
                Reply::Number(power) => power,
                _ => None,
            };
            &&& asked.len() > 0 && asked[0] == Op::PowerLimit(cap_vin)
            &&& power is None ==> r is None && asked.len() == 1
            &&& r is Some ==> r == power
            &&& power is Some && trace::smooth(io, after) ==> {
                &&& r == power
                &&& asked.contains(Op::IclForPower(power->0))
                &&& trace::known(after, 0x1370) is Some
                &&& trace::written(io, after).len() >= 4
                &&& trace::written(io, after)[0].0 == 0x1343 && trace::written(io, after)[0].1 & 3
                    == 1
                &&& trace::written(io, after)[3].0 == 0x1343 && trace::written(io, after)[3].1 & 3
                    == 2
            }
            &&& r is Some ==> exists|start: Io<Op>|
                #![trigger trace::follows(io, start)]
                {
                    let icl = match pmic::byte_of(io.replies[start.next as int]) {
                        Some(icl) => icl,
                        None => 0,
                    };
                    &&& trace::follows(io, start)
                    &&& trace::asked(io, start).push(Op::IclForPower(power->0)).is_prefix_of(asked)
                    &&& trace::smooth(io, after) ==> trace::known(after, 0x1370) is Some
                        && trace::known(after, 0x1370)->0 >= icl
                }
        }),
{
    broadcast use trace::group_trace;

    reveal(confirm_class_run);
    trace::lemma_asked_nothing(io);
    trace::lemma_written_nothing(io);
    trace::lemma_follows_at_first(io);
    let (after, left, r) = confirm_class_run(io, bus, state, cap_vin);
    let (named, power) = io.mark("SuQc35CapVin", nonneg(cap_vin)).number(Op::PowerLimit(cap_vin));
    trace::lemma_follows_at_first(named);
    if let Some(power_w) = power {
        let (sent, state1, ok) = pulse_train_run(named, bus, state, Train::Confirm, 0);
        law_train_is_sent_in_order(named, bus, state, Train::Confirm, 0);
        assert(trace::follows(io, named));
        trace::lemma_honest_after(io, named);
        trace::lemma_follows_in_turn(io, named, sent);
        trace::lemma_honest_after(io, sent);
        trace::lemma_asked_in_turn(io, named, sent);
        trace::lemma_written_in_turn(io, named, sent);
        trace::lemma_follows_at_first(sent);
        assert(trace::follows(sent, after));
        trace::lemma_finished_before(sent, after);
        trace::lemma_follows_in_turn(named, sent, after);
        trace::lemma_finished_before(named, after);
        trace::lemma_asked_grows(io, named, after);
        trace::lemma_written_grows(io, sent, after);
        trace::lemma_follows_in_turn(io, sent, after);
        trace::lemma_honest_after(io, after);
        if trace::smooth(io, after) {
            trace::lemma_smooth_parts(io, sent, after);
            trace::lemma_smooth_parts(io, named, sent);
        }
        if ok {
            let (priced, icl) = sent.byte(Op::IclForPower(power_w));
            let icl = match icl {
                Some(icl) => icl,
                None => 0,
            };
            let voted = usbin::ensure_icl_at_least_run(priced, bus, state1, icl).0;
            trace::lemma_follows_at_first(priced);
            assert(trace::follows(priced, voted) && trace::follows(priced, after));
            trace::lemma_finished_before(priced, after);
            trace::lemma_honest_after(sent, priced);
            trace::lemma_honest_after(priced, voted);
            usbin::law_vote_reaches_the_register(priced, bus, state1, icl);
            trace::lemma_asked_grows(io, priced, after);
            let n = trace::asked(io, sent).len();
            assert(trace::asked(io, priced)[n as int] == Op::IclForPower(power_w));
            assert(trace::asked(io, after)[n as int] == Op::IclForPower(power_w));
            assert(trace::asked(io, priced) =~= trace::asked(io, sent).push(
                Op::IclForPower(power_w),
            ));
            if trace::smooth(io, after) {
                trace::lemma_smooth_parts(io, priced, after);
                trace::lemma_follows_at_first(voted);
                assert(trace::follows(voted, after));
                trace::lemma_smooth_parts(priced, voted, after);
            }
        }
    }
}

} // verus!
