//! What reaches the registers of the PMIC.
//!
//! A procedure is held to a rule on its writes, from one point of its run to
//! another. The lemmas carry a rule through every procedure that a tick is made of;
//! the laws at the end put them together.
use crate::battery::{self, Battery, Readings};
use crate::charge::{self, Demand};
use crate::correction;
use crate::exchange::Op;
use crate::fcc::{self, BuckInputs, raw_for, FCC_PROBE_UA, FCC_WRITE_MAX_UA, RE_ELEVATE_MAX_VBAT_UV};
use crate::gauge::GaugePoll;
use crate::guard;
use crate::hvdcp::{HvdcpError, HvdcpState, REG_CMD_APSD};
use crate::landing::{self, Approach};
use crate::negotiate::{self, PreScan};
use crate::observe::{self, Tick};
use crate::pmic::{self, SPMI_REG_CHGR_FCC};
use crate::pump::{ChipStatus, Force9vWait, GuardAction, OpMode, PumpError, Tuning};
use crate::qc35::{self, Train, Window};
use crate::session::{Event, Io};
use crate::state::{AdcPower, ChargeLoop, DriverState, FccPolicy, IinWindow, RetrySlot, WindowLoop};
use crate::steer::{self, Steering};
use crate::tick::{self, Wanted};
use crate::trace;
use crate::usbin::{self, Bus};
use vstd::prelude::*;

verus! {

/// A rule on the writes to the PMIC.
pub enum Rule {
    /// Everything may be written.
    Free,
    /// No classification is started.
    KeepClass,
    /// The buck's fast charge current is not written.
    LeaveBuck,
    /// The buck's fast charge current is never written with a zero, and above a cap
    /// only with what was captured.
    BoundBuck {
        /// The cap.
        cap: u8,
        /// What was captured.
        captured: u8,
    },
}

impl Rule {
    /// Whether a register may be written with a value.
    pub open spec fn permits(self, reg: u16, value: u8) -> bool {
        match self {
            Rule::Free => true,
            Rule::KeepClass => reg != REG_CMD_APSD,
            Rule::LeaveBuck => reg != SPMI_REG_CHGR_FCC,
            Rule::BoundBuck { cap, captured } => reg == SPMI_REG_CHGR_FCC ==> value != 0 && (value
                <= cap || value == captured),
        }
    }

    /// Whether a line of a log may be there.
    pub open spec fn admits(self, line: Event<Op>) -> bool {
        match line {
            Event::Did(Op::SuWrite { reg, value, .. }) => self.permits(reg, value),
            Event::Did(Op::UsbinWrite { addr, value, .. }) => self.permits(addr, value),
            _ => true,
        }
    }
}

/// One point of a run comes after another, and every line that the log grew by follows
/// the rule.
#[verifier::opaque]
pub open spec fn obeys(from: Io<Op>, to: Io<Op>, rule: Rule) -> bool {
    &&& trace::follows(from, to)
    &&& forall|i: int| from.log.len() <= i < to.log.len() ==> rule.admits(#[trigger] to.log[i])
}

pub proof fn lemma_obeys_at_first(io: Io<Op>, rule: Rule)
    ensures
        obeys(io, io, rule),
{
    reveal(obeys);
    trace::lemma_follows_at_first(io);
}

/// What obeys a rule follows.
pub proof fn lemma_obeys_follows(from: Io<Op>, to: Io<Op>, rule: Rule)
    requires
        obeys(from, to, rule),
    ensures
        trace::follows(from, to),
{
    reveal(obeys);
}

pub broadcast proof fn lemma_ask_obeys(from: Io<Op>, io: Io<Op>, op: Op, rule: Rule)
    requires
        obeys(from, io, rule),
        rule.admits(Event::Did(op)),
    ensures
        #[trigger] obeys(from, io.ask(op).0, rule),
{
    reveal(obeys);
    trace::lemma_ask_follows(from, io, op);
}

pub broadcast proof fn lemma_record_obeys(from: Io<Op>, io: Io<Op>, line: Event<Op>, rule: Rule)
    requires
        obeys(from, io, rule),
        rule.admits(line),
        line !is Did,
    ensures
        #[trigger] obeys(from, io.record(line), rule),
{
    reveal(obeys);
    trace::lemma_record_follows(from, io, line);
}

pub broadcast group group_requests_obey {
    lemma_ask_obeys,
    lemma_record_obeys,
}

pub broadcast proof fn lemma_publish_marks_obeys(
    from: Io<Op>,
    io: Io<Op>,
    state: HvdcpState,
    err: Option<HvdcpError>,
    rule: Rule,
)
    requires
        obeys(from, io, rule),
    ensures
        #[trigger] obeys(from, usbin::publish_marks_run(io, state, err), rule),
{
    broadcast use group_requests_obey;

    reveal(usbin::publish_marks_run);
}

pub broadcast group group_obeys {
    group_requests_obey,
    lemma_publish_marks_obeys,
}

// ---------------------------------------------------------------------------
// Classification and authentication
// ---------------------------------------------------------------------------
pub broadcast proof fn lemma_wait_apsd_done_obeys(
    from: Io<Op>,
    io: Io<Op>,
    bus: Bus,
    state: HvdcpState,
    waited: u32,
    rule: Rule,
)
    requires
        obeys(from, io, rule),
    ensures
        #[trigger] obeys(from, usbin::wait_apsd_done_run(io, bus, state, waited).0, rule),
    decreases crate::hvdcp::APSD_WAIT_MS + crate::hvdcp::APSD_POLL_MS - waited,
{
    broadcast use group_obeys;

    let (io, status) = usbin::read_reg_run(io, bus, state, crate::hvdcp::REG_APSD_STATUS);
    if status is Ok && status->Ok_0 & crate::hvdcp::BIT_APSD_DONE == 0 && waited
        < crate::hvdcp::APSD_WAIT_MS {
        lemma_wait_apsd_done_obeys(
            from,
            io.tell(Op::Sleep(crate::hvdcp::APSD_POLL_MS)),
            bus,
            HvdcpState { apsd_status: status->Ok_0, ..state },
            (waited + crate::hvdcp::APSD_POLL_MS) as u32,
            rule,
        );
    }
}

pub broadcast proof fn lemma_wait_vin_window_obeys(
    from: Io<Op>,
    io: Io<Op>,
    window: Window,
    timeout_ms: u32,
    poll_ms: u32,
    waited: u32,
    rule: Rule,
)
    requires
        obeys(from, io, rule),
    ensures
        #[trigger] obeys(
            from,
            qc35::wait_vin_window_run(io, window, timeout_ms, poll_ms, waited).0,
            rule,
        ),
    decreases qc35::left(timeout_ms, waited),
{
    broadcast use group_obeys;

    let (io, vin) = qc35::sample_vin_run(io);
    let (io, inside) = io.flag(window.question(vin));
    if !inside && waited < timeout_ms && poll_ms != 0 {
        lemma_wait_vin_window_obeys(
            from,
            io.tell(Op::Sleep(poll_ms)),
            window,
            timeout_ms,
            poll_ms,
            waited.saturating_add(poll_ms),
            rule,
        );
    }
}

pub broadcast proof fn lemma_pulse_train_obeys(
    from: Io<Op>,
    io: Io<Op>,
    bus: Bus,
    state: HvdcpState,
    train: Train,
    index: u32,
    rule: Rule,
)
    requires
        obeys(from, io, rule),
    ensures
        #[trigger] obeys(from, qc35::pulse_train_run(io, bus, state, train, index).0, rule),
    decreases train.length() - index,
{
    broadcast use group_obeys;

    if index < train.length() {
        let (io, state, ok) = qc35::pulse_auth_step_run(io, bus, state, train.pulse(index));
        if ok {
            lemma_pulse_train_obeys(from, io, bus, state, train, (index + 1) as u32, rule);
        }
    }
}

pub broadcast proof fn lemma_prep_steps_obeys(
    from: Io<Op>,
    io: Io<Op>,
    bus: Bus,
    state: HvdcpState,
    vin: i32,
    prep: u32,
    max_inc: u32,
    rule: Rule,
)
    requires
        obeys(from, io, rule),
    ensures
        #[trigger] obeys(from, qc35::prep_steps_run(io, bus, state, vin, prep, max_inc).0, rule),
    decreases qc35::left(max_inc, prep),
{
    broadcast use group_obeys;

    let (io, inside) = io.flag(Op::DetectWindow(vin));
    if !inside && prep < max_inc {
        let (io, state, sent) = usbin::pulse_inc_gap_run(
            io,
            bus,
            state,
            crate::hvdcp::QC35_AUTH_PULSE_GAP_MS,
        );
        if sent is Ok {
            let (io, vin) = qc35::sample_vin_run(io);
            let (io, allowed) = qc35::auth_allowed_run(io, vin);
            if allowed {
                lemma_prep_steps_obeys(from, io, bus, state, vin, (prep + 1) as u32, max_inc, rule);
            }
        }
    }
}

pub broadcast proof fn lemma_detect_obeys(
    from: Io<Op>,
    io: Io<Op>,
    bus: Bus,
    state: HvdcpState,
    tuning: Tuning,
    rule: Rule,
)
    requires
        obeys(from, io, rule),
    ensures
        #[trigger] obeys(from, qc35::prep_qc35_detect_window_run(io, bus, state, tuning).0, rule),
{
    broadcast use {group_obeys, lemma_prep_steps_obeys, lemma_wait_vin_window_obeys};

    reveal(qc35::prep_qc35_detect_window_run);
}

pub broadcast proof fn lemma_confirm_obeys(
    from: Io<Op>,
    io: Io<Op>,
    bus: Bus,
    state: HvdcpState,
    cap_vin: i32,
    rule: Rule,
)
    requires
        obeys(from, io, rule),
    ensures
        #[trigger] obeys(from, qc35::confirm_class_run(io, bus, state, cap_vin).0, rule),
{
    broadcast use {group_obeys, lemma_pulse_train_obeys};

    reveal(qc35::confirm_class_run);
}

pub broadcast proof fn lemma_attempt_obeys(
    from: Io<Op>,
    io: Io<Op>,
    bus: Bus,
    state: HvdcpState,
    tuning: Tuning,
    rule: Rule,
)
    requires
        obeys(from, io, rule),
    ensures
        #[trigger] obeys(from, qc35::attempt_qc35_authenticate_run(io, bus, state, tuning).0, rule),
{
    broadcast use {
        group_obeys,
        lemma_pulse_train_obeys,
        lemma_wait_vin_window_obeys,
        lemma_detect_obeys,
        lemma_confirm_obeys,
    };

    reveal(qc35::attempt_qc35_authenticate_run);
}

// ---------------------------------------------------------------------------
// Negotiation
// ---------------------------------------------------------------------------
pub broadcast proof fn lemma_ramp_obeys(
    from: Io<Op>,
    io: Io<Op>,
    tuning: Tuning,
    last: i32,
    peak: i32,
    confirm: u32,
    waited: u32,
    deadline: u32,
    extended: bool,
    rule: Rule,
)
    requires
        obeys(from, io, rule),
    ensures
        #[trigger] obeys(
            from,
            negotiate::ramp_run(io, tuning, last, peak, confirm, waited, deadline, extended).0,
            rule,
        ),
    decreases qc35::left(tuning.force9v_hard_cap_ms, waited),
{
    broadcast use group_obeys;

    let high = negotiate::higher(last, peak);
    let later = waited.saturating_add(crate::hvdcp::FORCE9V_POLL_MS);
    let pause = Op::Sleep(crate::hvdcp::FORCE9V_POLL_MS);
    if last >= crate::pump::SWITCHING_MIN_VIN_UV {
        let confirm = confirm.saturating_add(1);
        if confirm < crate::hvdcp::FORCE9V_CONFIRM_N && waited < tuning.force9v_hard_cap_ms {
            let (io, next) = qc35::sample_vin_run(io.tell(pause));
            lemma_ramp_obeys(
                from,
                io,
                tuning,
                next,
                negotiate::higher(next, high),
                confirm,
                later,
                deadline,
                extended,
                rule,
            );
        }
    } else {
        let (io, step) = io.force9v(
            Op::Force9vStep { last_uv: last, waited_ms: waited, deadline_ms: deadline, extended },
        );
        if step != Force9vWait::Stop && waited < tuning.force9v_hard_cap_ms {
            let (io, deadline, extended) = if step == Force9vWait::Extend {
                let (io, moved) = io.word(Op::Force9vExtend(deadline));
                (io, moved, true)
            } else {
                (io, deadline, extended)
            };
            let (io, next) = qc35::sample_vin_run(io.tell(pause));
            lemma_ramp_obeys(
                from,
                io,
                tuning,
                next,
                negotiate::higher(next, high),
                0,
                later,
                deadline,
                extended,
                rule,
            );
        }
    }
}

pub broadcast proof fn lemma_wait_force9v_rise_obeys(
    from: Io<Op>,
    io: Io<Op>,
    tuning: Tuning,
    rule: Rule,
)
    requires
        obeys(from, io, rule),
    ensures
        #[trigger] obeys(from, negotiate::wait_force9v_rise_run(io, tuning).0, rule),
{
    broadcast use {group_obeys, lemma_ramp_obeys};

    reveal(negotiate::wait_force9v_rise_run);
}

pub broadcast proof fn lemma_hold_obeys(
    from: Io<Op>,
    io: Io<Op>,
    vin: i32,
    hold: u32,
    polls: u32,
    rule: Rule,
)
    requires
        obeys(from, io, rule),
    ensures
        #[trigger] obeys(from, negotiate::hold_run(io, vin, hold, polls).0, rule),
    decreases polls,
{
    broadcast use group_obeys;

    if polls > 0 {
        let held: u32 = if vin >= crate::pump::SWITCHING_MIN_VIN_UV {
            hold.saturating_add(1)
        } else {
            0
        };
        if held < 2 {
            let (io, next) = qc35::sample_vin_run(
                io.tell(Op::Sleep(crate::hvdcp::FORCE9V_POLL_MS)),
            );
            lemma_hold_obeys(from, io, next, held, (polls - 1) as u32, rule);
        }
    }
}

pub broadcast proof fn lemma_settled_level_obeys(from: Io<Op>, io: Io<Op>, rule: Rule)
    requires
        obeys(from, io, rule),
    ensures
        #[trigger] obeys(from, negotiate::settled_level_run(io).0, rule),
{
    broadcast use {group_obeys, lemma_hold_obeys};

    reveal(negotiate::settled_level_run);
}

pub broadcast proof fn lemma_prepare_block_obeys(
    from: Io<Op>,
    io: Io<Op>,
    bus: Bus,
    state: HvdcpState,
    rule: Rule,
)
    requires
        obeys(from, io, rule),
    ensures
        #[trigger] obeys(from, negotiate::prepare_block_run(io, bus, state).0, rule),
{
    broadcast use group_obeys;

    reveal(negotiate::prepare_block_run);
}

pub broadcast proof fn lemma_enable_block_obeys(
    from: Io<Op>,
    io: Io<Op>,
    bus: Bus,
    state: HvdcpState,
    rule: Rule,
)
    requires
        obeys(from, io, rule),
    ensures
        #[trigger] obeys(from, negotiate::enable_block_run(io, bus, state).0, rule),
{
    broadcast use group_obeys;

    reveal(negotiate::enable_block_run);
}

pub broadcast proof fn lemma_reclassify_obeys(
    from: Io<Op>,
    io: Io<Op>,
    bus: Bus,
    state: HvdcpState,
    pre: PreScan,
    rule: Rule,
)
    requires
        obeys(from, io, rule),
        rule !is KeepClass,
    ensures
        #[trigger] obeys(from, negotiate::reclassify_run(io, bus, state, pre).0, rule),
{
    broadcast use {group_obeys, lemma_wait_apsd_done_obeys};

    reveal(negotiate::reclassify_run);
}

pub broadcast proof fn lemma_classify_obeys(
    from: Io<Op>,
    io: Io<Op>,
    bus: Bus,
    state: HvdcpState,
    pre: PreScan,
    rule: Rule,
)
    requires
        obeys(from, io, rule),
        pre.skips_rerun() || rule !is KeepClass,
    ensures
        #[trigger] obeys(from, negotiate::classify_run(io, bus, state, pre).0, rule),
{
    broadcast use {group_obeys, lemma_reclassify_obeys};

}

pub broadcast proof fn lemma_qc3_steps_obeys(
    from: Io<Op>,
    io: Io<Op>,
    bus: Bus,
    state: HvdcpState,
    vbat_uv: u32,
    vin: i32,
    steps: u32,
    rule: Rule,
)
    requires
        obeys(from, io, rule),
    ensures
        #[trigger] obeys(
            from,
            negotiate::qc3_steps_run(io, bus, state, vbat_uv, vin, steps).0,
            rule,
        ),
    decreases steps,
{
    broadcast use group_obeys;

    if steps > 0 && state.pulse_cnt < crate::hvdcp::MAX_PULSE_CNT && vin
        < crate::hvdcp::target_vbus_uv(vbat_uv) {
        let (io, state, sent) = usbin::pulse_inc_gap_run(
            io,
            bus,
            state,
            crate::hvdcp::PULSE_GAP_MS,
        );
        if sent is Ok {
            let (io, vin) = qc35::sample_vin_run(
                io.mark("PulseCnt", state.pulse_cnt).mark("SuPulseCnt", state.pulse_cnt),
            );
            if vin <= crate::hvdcp::trim_target_uv(vbat_uv) {
                lemma_qc3_steps_obeys(
                    from,
                    io,
                    bus,
                    state,
                    vbat_uv,
                    vin,
                    (steps - 1) as u32,
                    rule,
                );
            }
        }
    }
}

pub broadcast proof fn lemma_climb_obeys(
    from: Io<Op>,
    io: Io<Op>,
    bus: Bus,
    state: HvdcpState,
    vbat_uv: u32,
    rule: Rule,
)
    requires
        obeys(from, io, rule),
    ensures
        #[trigger] obeys(from, negotiate::climb_run(io, bus, state, vbat_uv).0, rule),
{
    broadcast use {group_obeys, lemma_qc3_steps_obeys};

    reveal(negotiate::climb_run);
}

pub broadcast proof fn lemma_raise_qc3_obeys(
    from: Io<Op>,
    io: Io<Op>,
    bus: Bus,
    state: HvdcpState,
    vbat_uv: u32,
    tuning: Tuning,
    rule: Rule,
)
    requires
        obeys(from, io, rule),
    ensures
        #[trigger] obeys(from, negotiate::raise_qc3_run(io, bus, state, vbat_uv, tuning).0, rule),
{
    broadcast use {group_obeys, lemma_attempt_obeys, lemma_climb_obeys};

    reveal(negotiate::raise_qc3_run);
}

pub broadcast proof fn lemma_request_9v_obeys(
    from: Io<Op>,
    io: Io<Op>,
    bus: Bus,
    state: HvdcpState,
    icl_name: &'static str,
    rule: Rule,
)
    requires
        obeys(from, io, rule),
    ensures
        #[trigger] obeys(from, negotiate::request_9v_run(io, bus, state, icl_name).0, rule),
{
    broadcast use group_obeys;

    reveal(negotiate::request_9v_run);
}

pub broadcast proof fn lemma_dcp_steps_obeys(
    from: Io<Op>,
    io: Io<Op>,
    bus: Bus,
    state: HvdcpState,
    vbat_uv: u32,
    vin: i32,
    inc: u32,
    rule: Rule,
)
    requires
        obeys(from, io, rule),
    ensures
        #[trigger] obeys(from, negotiate::dcp_steps_run(io, bus, state, vbat_uv, vin, inc).0, rule),
    decreases qc35::left(crate::hvdcp::MAX_PULSE_CNT, inc),
{
    broadcast use group_obeys;

    if vin < crate::hvdcp::target_vbus_uv(vbat_uv) && inc < crate::hvdcp::MAX_PULSE_CNT
        && state.pulse_cnt < crate::hvdcp::MAX_PULSE_CNT {
        let (io, state, sent) = usbin::pulse_inc_gap_run(
            io,
            bus,
            state,
            crate::hvdcp::PULSE_GAP_MS,
        );
        if sent is Ok {
            let (io, vin) = qc35::sample_vin_run(io);
            lemma_dcp_steps_obeys(from, io, bus, state, vbat_uv, vin, (inc + 1) as u32, rule);
        }
    }
}

pub broadcast proof fn lemma_drive_by_steps_obeys(
    from: Io<Op>,
    io: Io<Op>,
    bus: Bus,
    state: HvdcpState,
    vbat_uv: u32,
    vin: i32,
    tuning: Tuning,
    rule: Rule,
)
    requires
        obeys(from, io, rule),
    ensures
        #[trigger] obeys(
            from,
            negotiate::drive_by_steps_run(io, bus, state, vbat_uv, vin, tuning).0,
            rule,
        ),
{
    broadcast use {group_obeys, lemma_dcp_steps_obeys};

    reveal(negotiate::drive_by_steps_run);
}

pub broadcast proof fn lemma_raise_dcp_obeys(
    from: Io<Op>,
    io: Io<Op>,
    bus: Bus,
    state: HvdcpState,
    vbat_uv: u32,
    tuning: Tuning,
    rule: Rule,
)
    requires
        obeys(from, io, rule),
    ensures
        #[trigger] obeys(from, negotiate::raise_dcp_run(io, bus, state, vbat_uv, tuning).0, rule),
{
    broadcast use {
        group_obeys,
        lemma_request_9v_obeys,
        lemma_wait_force9v_rise_obeys,
        lemma_settled_level_obeys,
        lemma_drive_by_steps_obeys,
    };

    reveal(negotiate::raise_dcp_run);
}

pub broadcast proof fn lemma_elevate_obeys(
    from: Io<Op>,
    io: Io<Op>,
    bus: Bus,
    state: HvdcpState,
    vbat_uv: u32,
    continuous: bool,
    tuning: Tuning,
    rule: Rule,
)
    requires
        obeys(from, io, rule),
    ensures
        #[trigger] obeys(
            from,
            negotiate::elevate_run(io, bus, state, vbat_uv, continuous, tuning).0,
            rule,
        ),
{
    broadcast use {
        group_obeys,
        lemma_raise_qc3_obeys,
        lemma_request_9v_obeys,
        lemma_raise_dcp_obeys,
    };

    reveal(negotiate::elevate_run);
}

pub broadcast proof fn lemma_finish_obeys(
    from: Io<Op>,
    io: Io<Op>,
    bus: Bus,
    state: HvdcpState,
    rule: Rule,
)
    requires
        obeys(from, io, rule),
    ensures
        #[trigger] obeys(from, negotiate::finish_run(io, bus, state).0, rule),
{
    broadcast use group_obeys;

    reveal(negotiate::finish_run);
}

pub broadcast proof fn lemma_negotiate_on_bus_obeys(
    from: Io<Op>,
    io: Io<Op>,
    bus: Bus,
    state: HvdcpState,
    vbat_uv: u32,
    tuning: Tuning,
    rule: Rule,
)
    requires
        obeys(from, io, rule),
        rule is KeepClass ==> {
            let (prepared, readied, _) = negotiate::prepare_block_run(io, bus, state);
            negotiate::pre_scan_run(prepared, bus, readied).1.skips_rerun()
        },
    ensures
        #[trigger] obeys(
            from,
            negotiate::negotiate_on_bus_run(io, bus, state, vbat_uv, tuning).0,
            rule,
        ),
{
    broadcast use {
        group_obeys,
        lemma_prepare_block_obeys,
        lemma_enable_block_obeys,
        lemma_classify_obeys,
        lemma_elevate_obeys,
        lemma_finish_obeys,
    };

    reveal(negotiate::negotiate_on_bus_run);
}

pub broadcast proof fn lemma_negotiate_via_hub_obeys(
    from: Io<Op>,
    io: Io<Op>,
    usbin_id: Option<u64>,
    state: HvdcpState,
    vbat_uv: u32,
    tuning: Tuning,
    rule: Rule,
)
    requires
        obeys(from, io, rule),
        rule !is KeepClass,
    ensures
        #[trigger] obeys(
            from,
            negotiate::negotiate_via_hub_run(io, usbin_id, state, vbat_uv, tuning).0,
            rule,
        ),
{
    broadcast use {group_obeys, lemma_negotiate_on_bus_obeys};

    reveal(negotiate::negotiate_via_hub_run);
}

pub broadcast proof fn lemma_run_negotiate_obeys(
    from: Io<Op>,
    io: Io<Op>,
    usbin_id: Option<u64>,
    state: HvdcpState,
    vbat_uv: u32,
    tuning: Tuning,
    rule: Rule,
)
    requires
        obeys(from, io, rule),
        rule !is KeepClass,
    ensures
        #[trigger] obeys(
            from,
            negotiate::run_negotiate_run(io, usbin_id, state, vbat_uv, tuning).0,
            rule,
        ),
{
    broadcast use {group_obeys, lemma_negotiate_on_bus_obeys, lemma_negotiate_via_hub_obeys};

    reveal(negotiate::run_negotiate_run);
}

// ---------------------------------------------------------------------------
// Corrections
// ---------------------------------------------------------------------------
pub broadcast proof fn lemma_trim_steps_obeys(
    from: Io<Op>,
    io: Io<Op>,
    bus: Bus,
    state: HvdcpState,
    vbat_uv: u32,
    vin: i32,
    dec: u32,
    rule: Rule,
)
    requires
        obeys(from, io, rule),
    ensures
        #[trigger] obeys(
            from,
            correction::trim_steps_run(io, bus, state, vbat_uv, vin, dec).0,
            rule,
        ),
    decreases qc35::left(crate::hvdcp::MAX_TRIM_DEC, dec),
{
    broadcast use group_obeys;

    if vin > crate::hvdcp::target_vbus_uv(vbat_uv) && vin > crate::hvdcp::window_floor_uv(vbat_uv)
        && dec < crate::hvdcp::MAX_TRIM_DEC {
        let (io, state, sent) = usbin::pulse_dec_gap_run(
            io,
            bus,
            state,
            crate::hvdcp::PULSE_GAP_MS,
        );
        if sent is Ok && sent->Ok_0 {
            lemma_trim_steps_obeys(
                from,
                io,
                bus,
                state,
                vbat_uv,
                crate::arith::step_down(vin, crate::hvdcp::QC3_STEP_UV),
                (dec + 1) as u32,
                rule,
            );
        }
    }
}

pub broadcast proof fn lemma_boost_steps_obeys(
    from: Io<Op>,
    io: Io<Op>,
    bus: Bus,
    state: HvdcpState,
    vbat_uv: u32,
    vin: i32,
    inc: u32,
    rule: Rule,
)
    requires
        obeys(from, io, rule),
    ensures
        #[trigger] obeys(
            from,
            correction::boost_steps_run(io, bus, state, vbat_uv, vin, inc).0,
            rule,
        ),
    decreases qc35::left(crate::hvdcp::MAX_BOOST_INC, inc),
{
    broadcast use group_obeys;

    if vin < crate::hvdcp::target_vbus_uv(vbat_uv) && inc < crate::hvdcp::MAX_BOOST_INC {
        let (io, state, sent) = usbin::pulse_inc_gap_run(
            io,
            bus,
            state,
            crate::hvdcp::PULSE_GAP_MS,
        );
        if sent is Ok && sent->Ok_0 {
            lemma_boost_steps_obeys(
                from,
                io,
                bus,
                state,
                vbat_uv,
                crate::arith::step_up(vin, crate::hvdcp::QC3_STEP_UV),
                (inc + 1) as u32,
                rule,
            );
        }
    }
}

pub broadcast proof fn lemma_trim_obeys(
    from: Io<Op>,
    io: Io<Op>,
    usbin_id: Option<u64>,
    state: HvdcpState,
    vin_uv: i32,
    vbat_uv: u32,
    rule: Rule,
)
    requires
        obeys(from, io, rule),
    ensures
        #[trigger] obeys(
            from,
            correction::trim_vin_for_pump_run(io, usbin_id, state, vin_uv, vbat_uv).0,
            rule,
        ),
{
    broadcast use {group_obeys, lemma_trim_steps_obeys};

}

pub broadcast proof fn lemma_boost_obeys(
    from: Io<Op>,
    io: Io<Op>,
    usbin_id: Option<u64>,
    state: HvdcpState,
    vin_uv: i32,
    vbat_uv: u32,
    rule: Rule,
)
    requires
        obeys(from, io, rule),
    ensures
        #[trigger] obeys(
            from,
            correction::boost_vin_for_pump_run(io, usbin_id, state, vin_uv, vbat_uv).0,
            rule,
        ),
{
    broadcast use {group_obeys, lemma_boost_steps_obeys};

}

pub broadcast proof fn lemma_nudge_obeys(
    from: Io<Op>,
    io: Io<Op>,
    usbin_id: Option<u64>,
    state: HvdcpState,
    vin_uv: i32,
    vbat_uv: u32,
    dead_current: bool,
    rule: Rule,
)
    requires
        obeys(from, io, rule),
    ensures
        #[trigger] obeys(
            from,
            correction::nudge_vin_into_window_run(
                io,
                usbin_id,
                state,
                vin_uv,
                vbat_uv,
                dead_current,
            ).0,
            rule,
        ),
{
    broadcast use {group_obeys, lemma_trim_obeys, lemma_boost_obeys};

}

pub broadcast proof fn lemma_raise_icl_obeys(
    from: Io<Op>,
    io: Io<Op>,
    usbin_id: Option<u64>,
    state: HvdcpState,
    target: u8,
    name: &'static str,
    rule: Rule,
)
    requires
        obeys(from, io, rule),
    ensures
        #[trigger] obeys(
            from,
            correction::raise_icl_run(io, usbin_id, state, target, name).0,
            rule,
        ),
{
    broadcast use group_obeys;

}

// ---------------------------------------------------------------------------
// Landing
// ---------------------------------------------------------------------------
pub broadcast proof fn lemma_reset_and_charge_obeys(
    from: Io<Op>,
    io: Io<Op>,
    tuning: Tuning,
    rule: Rule,
)
    requires
        obeys(from, io, rule),
    ensures
        #[trigger] obeys(from, landing::reset_and_charge_run(io, tuning).0, rule),
{
    broadcast use group_obeys;

    reveal(landing::reset_and_charge_run);
}

pub broadcast proof fn lemma_recover_ln_shutdown_obeys(
    from: Io<Op>,
    io: Io<Op>,
    tuning: Tuning,
    rule: Rule,
)
    requires
        obeys(from, io, rule),
    ensures
        #[trigger] obeys(from, landing::recover_ln_shutdown_run(io, tuning).0, rule),
{
    broadcast use {group_obeys, lemma_reset_and_charge_obeys};

    reveal(landing::recover_ln_shutdown_run);
}

pub broadcast proof fn lemma_start_charge_obeys(
    from: Io<Op>,
    io: Io<Op>,
    tuning: Tuning,
    rule: Rule,
)
    requires
        obeys(from, io, rule),
    ensures
        #[trigger] obeys(from, landing::start_charge_run(io, tuning).0, rule),
{
    broadcast use {group_obeys, lemma_recover_ln_shutdown_obeys};

    reveal(landing::start_charge_run);
}

pub broadcast proof fn lemma_note_attempt_obeys(
    from: Io<Op>,
    io: Io<Op>,
    charge: ChargeLoop,
    result: Result<OpMode, PumpError>,
    device_ready: bool,
    rule: Rule,
)
    requires
        obeys(from, io, rule),
    ensures
        #[trigger] obeys(from, landing::note_attempt_run(io, charge, result, device_ready).0, rule),
{
    broadcast use group_obeys;

    reveal(landing::note_attempt_run);
}

pub broadcast proof fn lemma_charge_attempt_obeys(
    from: Io<Op>,
    io: Io<Op>,
    charge: ChargeLoop,
    device_ready: bool,
    tuning: Tuning,
    rule: Rule,
)
    requires
        obeys(from, io, rule),
    ensures
        #[trigger] obeys(from, landing::attempt_run(io, charge, device_ready, tuning).0, rule),
{
    broadcast use {group_obeys, lemma_start_charge_obeys, lemma_note_attempt_obeys};

    reveal(landing::attempt_run);
}

pub broadcast proof fn lemma_approach_obeys(
    from: Io<Op>,
    io: Io<Op>,
    usbin_id: Option<u64>,
    hvdcp: HvdcpState,
    vbat_uv: u32,
    rule: Rule,
)
    requires
        obeys(from, io, rule),
    ensures
        #[trigger] obeys(from, landing::approach_run(io, usbin_id, hvdcp, vbat_uv).0, rule),
{
    broadcast use {group_obeys, lemma_nudge_obeys};

    reveal(landing::approach_run);
}

pub broadcast proof fn lemma_open_current_obeys(
    from: Io<Op>,
    io: Io<Op>,
    usbin_id: Option<u64>,
    hvdcp: HvdcpState,
    at: Approach,
    rule: Rule,
)
    requires
        obeys(from, io, rule),
    ensures
        #[trigger] obeys(from, landing::open_current_run(io, usbin_id, hvdcp, at).0, rule),
{
    broadcast use {group_obeys, lemma_nudge_obeys, lemma_raise_icl_obeys};

    reveal(landing::open_current_run);
}

pub broadcast proof fn lemma_settle_obeys(
    from: Io<Op>,
    io: Io<Op>,
    charge: ChargeLoop,
    result: Result<OpMode, PumpError>,
    rule: Rule,
)
    requires
        obeys(from, io, rule),
    ensures
        #[trigger] obeys(from, landing::settle_run(io, charge, result).0, rule),
{
    broadcast use group_obeys;

    reveal(landing::settle_run);
}

pub broadcast proof fn lemma_land_obeys(
    from: Io<Op>,
    io: Io<Op>,
    usbin_id: Option<u64>,
    hvdcp: HvdcpState,
    charge: ChargeLoop,
    vbat_uv: u32,
    tuning: Tuning,
    rule: Rule,
)
    requires
        obeys(from, io, rule),
    ensures
        #[trigger] obeys(
            from,
            landing::land_run(io, usbin_id, hvdcp, charge, vbat_uv, tuning).0,
            rule,
        ),
{
    broadcast use {
        lemma_approach_obeys,
        lemma_open_current_obeys,
        lemma_charge_attempt_obeys,
        lemma_settle_obeys,
    };

    reveal(landing::land_run);
}

pub broadcast proof fn lemma_run_hvdcp_and_land_obeys(
    from: Io<Op>,
    io: Io<Op>,
    state: DriverState,
    tuning: Tuning,
    rule: Rule,
)
    requires
        obeys(from, io, rule),
        rule !is KeepClass,
    ensures
        #[trigger] obeys(from, landing::run_hvdcp_and_land_run(io, state, tuning).0, rule),
{
    broadcast use {group_obeys, lemma_run_negotiate_obeys, lemma_land_obeys};

    reveal(landing::run_hvdcp_and_land_run);
}

pub broadcast proof fn lemma_schedule_obeys(
    from: Io<Op>,
    io: Io<Op>,
    retry: RetrySlot,
    code: i32,
    tuning: Tuning,
    rule: Rule,
)
    requires
        obeys(from, io, rule),
    ensures
        #[trigger] obeys(
            from,
            landing::schedule_or_clear_superuser_retry_run(io, retry, code, tuning).0,
            rule,
        ),
{
    broadcast use group_obeys;

    reveal(landing::schedule_or_clear_superuser_retry_run);
}

pub broadcast proof fn lemma_arm_edge_obeys(from: Io<Op>, io: Io<Op>, pump_open: bool, rule: Rule)
    requires
        obeys(from, io, rule),
    ensures
        #[trigger] obeys(from, landing::arm_hvdcp_input_edge_run(io, pump_open).0, rule),
{
    broadcast use group_obeys;

    reveal(landing::arm_hvdcp_input_edge_run);
}

pub broadcast proof fn lemma_negotiate_and_rearm_obeys(
    from: Io<Op>,
    io: Io<Op>,
    state: DriverState,
    always: bool,
    tuning: Tuning,
    rule: Rule,
)
    requires
        obeys(from, io, rule),
        rule !is KeepClass,
    ensures
        #[trigger] obeys(from, landing::negotiate_and_rearm_run(io, state, always, tuning).0, rule),
{
    broadcast use {lemma_run_hvdcp_and_land_obeys, lemma_schedule_obeys, lemma_arm_edge_obeys};

    reveal(landing::negotiate_and_rearm_run);
}

// ---------------------------------------------------------------------------
// Parts of a tick
// ---------------------------------------------------------------------------
pub broadcast proof fn lemma_update_battery_obeys(
    from: Io<Op>,
    io: Io<Op>,
    battery: Battery,
    readings: Readings,
    tuning: Tuning,
    rule: Rule,
)
    requires
        obeys(from, io, rule),
    ensures
        #[trigger] obeys(
            from,
            battery::update_from_telemetry_run(io, battery, readings, tuning).0,
            rule,
        ),
{
    broadcast use group_obeys;

    reveal(battery::held_flags_run);
}

pub broadcast proof fn lemma_observe_obeys(from: Io<Op>, io: Io<Op>, status: ChipStatus, rule: Rule)
    requires
        obeys(from, io, rule),
    ensures
        #[trigger] obeys(from, observe::observe_run(io, status).0, rule),
{
    broadcast use group_obeys;

    reveal(observe::observe_run);
}

pub broadcast proof fn lemma_adc_power_obeys(
    from: Io<Op>,
    io: Io<Op>,
    adc: AdcPower,
    usable: bool,
    vac_unplug: bool,
    rule: Rule,
)
    requires
        obeys(from, io, rule),
    ensures
        #[trigger] obeys(from, observe::adc_power_run(io, adc, usable, vac_unplug).0, rule),
{
    broadcast use group_obeys;

    reveal(observe::adc_power_run);
}

pub broadcast proof fn lemma_feed_battery_obeys(
    from: Io<Op>,
    io: Io<Op>,
    battery: Battery,
    tick: Tick,
    iin_peak_ua: u32,
    tuning: Tuning,
    rule: Rule,
)
    requires
        obeys(from, io, rule),
    ensures
        #[trigger] obeys(
            from,
            observe::feed_battery_run(io, battery, tick, iin_peak_ua, tuning).0,
            rule,
        ),
{
    broadcast use lemma_update_battery_obeys;

    reveal(observe::feed_battery_run);
}

pub broadcast proof fn lemma_mark_tick_obeys(
    from: Io<Op>,
    io: Io<Op>,
    battery: Battery,
    adc: AdcPower,
    tick: Tick,
    rule: Rule,
)
    requires
        obeys(from, io, rule),
    ensures
        #[trigger] obeys(from, observe::mark_tick_run(io, battery, adc, tick), rule),
{
    broadcast use group_obeys;

    reveal(observe::mark_tick_run);
}

pub broadcast proof fn lemma_iin_window_obeys(
    from: Io<Op>,
    io: Io<Op>,
    iin: IinWindow,
    iin_ua: u32,
    now_ms: u64,
    rule: Rule,
)
    requires
        obeys(from, io, rule),
    ensures
        #[trigger] obeys(from, observe::iin_window_run(io, iin, iin_ua, now_ms).0, rule),
{
    broadcast use group_obeys;

    reveal(observe::iin_window_run);
}

pub broadcast proof fn lemma_take_gauge_obeys(
    from: Io<Op>,
    io: Io<Op>,
    battery: Battery,
    poll: GaugePoll,
    now_ms: u64,
    rule: Rule,
)
    requires
        obeys(from, io, rule),
    ensures
        #[trigger] obeys(from, observe::take_gauge_run(io, battery, poll, now_ms).0, rule),
{
    broadcast use group_obeys;

    reveal(observe::take_gauge_run);
}

pub broadcast proof fn lemma_mark_state_obeys(
    from: Io<Op>,
    io: Io<Op>,
    battery: Battery,
    tick: Tick,
    rule: Rule,
)
    requires
        obeys(from, io, rule),
    ensures
        #[trigger] obeys(from, observe::mark_state_run(io, battery, tick), rule),
{
    broadcast use group_obeys;

    reveal(observe::mark_state_run);
}

pub broadcast proof fn lemma_mark_chip_obeys(
    from: Io<Op>,
    io: Io<Op>,
    status: ChipStatus,
    rule: Rule,
)
    requires
        obeys(from, io, rule),
    ensures
        #[trigger] obeys(from, observe::mark_chip_run(io, status), rule),
{
    broadcast use group_obeys;

    reveal(observe::mark_chip_run);
}

pub broadcast proof fn lemma_apply_guard_obeys(
    from: Io<Op>,
    io: Io<Op>,
    action: GuardAction,
    vin_uv: i32,
    vbat_uv: u32,
    strikes: u32,
    rule: Rule,
)
    requires
        obeys(from, io, rule),
    ensures
        #[trigger] obeys(
            from,
            guard::apply_guard_run(io, action, vin_uv, vbat_uv, strikes).0,
            rule,
        ),
{
    broadcast use group_obeys;

    reveal(guard::apply_guard_run);
}

pub broadcast proof fn lemma_walk_obeys(
    from: Io<Op>,
    io: Io<Op>,
    usbin_id: Option<u64>,
    hvdcp: HvdcpState,
    tick: Tick,
    outside: bool,
    dead: bool,
    device_ready: bool,
    rule: Rule,
)
    requires
        obeys(from, io, rule),
    ensures
        #[trigger] obeys(
            from,
            steer::walk_run(io, usbin_id, hvdcp, tick, outside, dead, device_ready).0,
            rule,
        ),
{
    broadcast use {group_obeys, lemma_nudge_obeys};

    reveal(steer::walk_run);
}

pub broadcast proof fn lemma_keep_in_window_obeys(
    from: Io<Op>,
    io: Io<Op>,
    window: WindowLoop,
    hvdcp: HvdcpState,
    tick: Tick,
    steering: Steering,
    rule: Rule,
)
    requires
        obeys(from, io, rule),
    ensures
        #[trigger] obeys(
            from,
            steer::keep_in_window_run(io, window, hvdcp, tick, steering).0,
            rule,
        ),
{
    broadcast use {group_obeys, lemma_walk_obeys};

    reveal(steer::keep_in_window_run);
}

pub broadcast proof fn lemma_after_failures_obeys(
    from: Io<Op>,
    io: Io<Op>,
    charge: ChargeLoop,
    vbus: i32,
    device_ready: bool,
    tuning: Tuning,
    rule: Rule,
)
    requires
        obeys(from, io, rule),
    ensures
        #[trigger] obeys(
            from,
            charge::after_failures_run(io, charge, vbus, device_ready, tuning).0,
            rule,
        ),
{
    broadcast use {
        group_obeys,
        lemma_recover_ln_shutdown_obeys,
        lemma_note_attempt_obeys,
        lemma_reset_and_charge_obeys,
    };

    reveal(charge::after_failures_run);
}

pub broadcast proof fn lemma_settle_attempt_obeys(
    from: Io<Op>,
    io: Io<Op>,
    charge: ChargeLoop,
    started: landing::Started,
    vbus: i32,
    device_ready: bool,
    tuning: Tuning,
    rule: Rule,
)
    requires
        obeys(from, io, rule),
    ensures
        #[trigger] obeys(
            from,
            charge::settle_attempt_run(io, charge, started, vbus, device_ready, tuning).0,
            rule,
        ),
{
    broadcast use lemma_after_failures_obeys;

    reveal(charge::settle_attempt_run);
}

pub broadcast proof fn lemma_try_charge_obeys(
    from: Io<Op>,
    io: Io<Op>,
    charge: ChargeLoop,
    tick: Tick,
    demand: Demand,
    tuning: Tuning,
    rule: Rule,
)
    requires
        obeys(from, io, rule),
    ensures
        #[trigger] obeys(from, charge::try_charge_run(io, charge, tick, demand, tuning).0, rule),
{
    broadcast use {group_obeys, lemma_charge_attempt_obeys, lemma_settle_attempt_obeys};

    reveal(charge::try_charge_run);
}

pub broadcast proof fn lemma_run_charge_obeys(
    from: Io<Op>,
    io: Io<Op>,
    charge: ChargeLoop,
    tick: Tick,
    demand: Demand,
    tuning: Tuning,
    rule: Rule,
)
    requires
        obeys(from, io, rule),
    ensures
        #[trigger] obeys(from, charge::run_charge_run(io, charge, tick, demand, tuning).0, rule),
{
    broadcast use {group_obeys, lemma_try_charge_obeys};

    reveal(charge::run_charge_run);
}

pub broadcast proof fn lemma_measure_obeys(
    from: Io<Op>,
    io: Io<Op>,
    state: DriverState,
    status: ChipStatus,
    tuning: Tuning,
    rule: Rule,
)
    requires
        obeys(from, io, rule),
    ensures
        #[trigger] obeys(from, tick::measure_run(io, state, status, tuning).0, rule),
{
    broadcast use {
        lemma_observe_obeys,
        lemma_adc_power_obeys,
        lemma_feed_battery_obeys,
        lemma_mark_tick_obeys,
        lemma_iin_window_obeys,
    };

    reveal(tick::measure_run);
}

pub broadcast proof fn lemma_clear_latches_obeys(from: Io<Op>, io: Io<Op>, fault1: u8, rule: Rule)
    requires
        obeys(from, io, rule),
    ensures
        #[trigger] obeys(from, tick::clear_latches_run(io, fault1), rule),
{
    broadcast use group_obeys;

    reveal(tick::clear_latches_run);
}

pub broadcast proof fn lemma_protect_obeys(
    from: Io<Op>,
    io: Io<Op>,
    state: DriverState,
    tick: Tick,
    rule: Rule,
)
    requires
        obeys(from, io, rule),
    ensures
        #[trigger] obeys(from, tick::protect_run(io, state, tick).0, rule),
{
    broadcast use {group_obeys, lemma_apply_guard_obeys, lemma_clear_latches_obeys};

    reveal(tick::protect_run);
}

pub broadcast proof fn lemma_drive_obeys(
    from: Io<Op>,
    io: Io<Op>,
    state: DriverState,
    tick: Tick,
    guarded: bool,
    tuning: Tuning,
    rule: Rule,
)
    requires
        obeys(from, io, rule),
    ensures
        #[trigger] obeys(from, tick::drive_run(io, state, tick, guarded, tuning).0, rule),
{
    broadcast use {group_obeys, lemma_keep_in_window_obeys, lemma_run_charge_obeys};

    reveal(tick::drive_run);
}

pub broadcast proof fn lemma_look_ahead_obeys(
    from: Io<Op>,
    io: Io<Op>,
    state: DriverState,
    vbus: i32,
    lacks: bool,
    rule: Rule,
)
    requires
        obeys(from, io, rule),
    ensures
        #[trigger] obeys(from, tick::look_ahead_run(io, state, vbus, lacks).0, rule),
{
    broadcast use group_obeys;

    reveal(tick::look_ahead_run);
}

pub broadcast proof fn lemma_follow_up_obeys(
    from: Io<Op>,
    io: Io<Op>,
    state: DriverState,
    wanted: Wanted,
    tuning: Tuning,
    rule: Rule,
)
    requires
        obeys(from, io, rule),
        rule !is KeepClass,
    ensures
        #[trigger] obeys(from, tick::follow_up_run(io, state, wanted, tuning).0, rule),
{
    broadcast use {group_obeys, lemma_negotiate_and_rearm_obeys};

    reveal(tick::follow_up_run);
}

// ---------------------------------------------------------------------------
// The buck
// ---------------------------------------------------------------------------
pub broadcast proof fn lemma_read_each_obeys(
    from: Io<Op>,
    io: Io<Op>,
    regs: Seq<u16>,
    read: Seq<u8>,
    rule: Rule,
)
    requires
        obeys(from, io, rule),
    ensures
        #[trigger] obeys(from, pmic::read_each_run(io, regs, read).0, rule),
    decreases regs.len() - read.len(),
{
    broadcast use group_obeys;

    if read.len() < regs.len() {
        let (io, value) = pmic::su_read_run(io, regs[read.len() as int]);
        if value is Some {
            lemma_read_each_obeys(from, io, regs, read.push(value->0), rule);
        }
    }
}

pub broadcast proof fn lemma_read_charge_regs_obeys(from: Io<Op>, io: Io<Op>, rule: Rule)
    requires
        obeys(from, io, rule),
    ensures
        #[trigger] obeys(from, pmic::read_charge_regs_run(io).0, rule),
{
    broadcast use {group_obeys, lemma_read_each_obeys};

}

pub broadcast proof fn lemma_write_fcc_raw_obeys(from: Io<Op>, io: Io<Op>, raw: u8, rule: Rule)
    requires
        obeys(from, io, rule),
        rule.permits(SPMI_REG_CHGR_FCC, raw),
    ensures
        #[trigger] obeys(from, pmic::write_fcc_raw_run(io, raw).0, rule),
{
    broadcast use group_obeys;

}

/// Whether the buck section of a tick was the one that settled the probe by writing:
/// what was captured is above the probe's setting, and no transfer was there to take the
/// register over.
pub open spec fn probe_wrote(fcc: FccPolicy, left: FccPolicy, inputs: BuckInputs) -> bool {
    &&& !fcc.probe_done && left.probe_done
    &&& left.boot_raw > raw_for(FCC_PROBE_UA)
    &&& !(inputs.pump_alive && inputs.vbat_uv < RE_ELEVATE_MAX_VBAT_UV)
}

/// Whether the buck section of a tick follows a rule. With neither a setting nor a raise
/// it leaves the register alone but for the probe. It is bounded by what was captured:
/// in any case with the highest setting as the cap, and with the probe's where there is
/// neither a setting nor a raise.
pub open spec fn buck_follows(
    fcc: FccPolicy,
    left: FccPolicy,
    inputs: BuckInputs,
    rule: Rule,
) -> bool {
    match rule {
        Rule::Free => true,
        Rule::KeepClass => true,
        Rule::LeaveBuck => fcc.cfg_raw == 0 && !fcc.raised && !probe_wrote(fcc, left, inputs),
        Rule::BoundBuck { cap, captured } => {
            &&& fcc.valid()
            &&& captured == left.boot_raw
            &&& cap >= raw_for(FCC_WRITE_MAX_UA) || (cap >= raw_for(FCC_PROBE_UA) && fcc.cfg_raw
                == 0 && !fcc.raised)
        },
    }
}

pub broadcast proof fn lemma_buck_tick_obeys(
    from: Io<Op>,
    io: Io<Op>,
    fcc: FccPolicy,
    inputs: BuckInputs,
    period_ms: u64,
    rule: Rule,
)
    requires
        obeys(from, io, rule),
        buck_follows(fcc, fcc::buck_tick_run(io, fcc, inputs, period_ms).1, inputs, rule),
    ensures
        #[trigger] obeys(from, fcc::buck_tick_run(io, fcc, inputs, period_ms).0, rule),
{
    broadcast use {group_obeys, lemma_read_charge_regs_obeys, lemma_write_fcc_raw_obeys};

    if fcc::buck_due(fcc.last_mark_ms, inputs.now_ms, period_ms) {
        let marked = FccPolicy { last_mark_ms: inputs.now_ms, ..fcc };
        let (seen, taken) = fcc::snapshot_run(io, marked, inputs);
        assert(obeys(from, seen, rule));
        fcc::law_policy_is_bounded(taken, inputs);
    }
}

pub broadcast proof fn lemma_report_obeys(
    from: Io<Op>,
    io: Io<Op>,
    state: DriverState,
    tick: Tick,
    poll: GaugePoll,
    rule: Rule,
)
    requires
        obeys(from, io, rule),
        buck_follows(
            state.fcc,
            tick::report_run(io, state, tick, poll).1.fcc,
            tick::buck_inputs(tick),
            rule,
        ),
    ensures
        #[trigger] obeys(from, tick::report_run(io, state, tick, poll).0, rule),
{
    broadcast use {
        group_obeys,
        lemma_take_gauge_obeys,
        lemma_mark_state_obeys,
        lemma_mark_chip_obeys,
        lemma_buck_tick_obeys,
    };

    reveal(tick::report_run);
}

pub broadcast proof fn lemma_work_obeys(
    from: Io<Op>,
    io: Io<Op>,
    state: DriverState,
    status: ChipStatus,
    poll: GaugePoll,
    tuning: Tuning,
    rule: Rule,
)
    requires
        obeys(from, io, rule),
        rule !is KeepClass,
        buck_follows(
            state.fcc,
            tick::work_run(io, state, status, poll, tuning).1.fcc,
            tick::buck_inputs(tick::measure_run(io, state, status, tuning).2),
            rule,
        ),
    ensures
        #[trigger] obeys(from, tick::work_run(io, state, status, poll, tuning).0, rule),
{
    broadcast use {
        group_obeys,
        lemma_measure_obeys,
        lemma_report_obeys,
        lemma_protect_obeys,
        lemma_drive_obeys,
        lemma_look_ahead_obeys,
        lemma_follow_up_obeys,
    };

    reveal(tick::work_run);
    lemma_work_keeps_the_policy(io, state, status, poll, tuning);
}

/// After its buck section a tick leaves the policy alone.
proof fn lemma_work_keeps_the_policy(
    io: Io<Op>,
    state: DriverState,
    status: ChipStatus,
    poll: GaugePoll,
    tuning: Tuning,
)
    ensures
        ({
            let (measured, before, seen) = tick::measure_run(io, state, status, tuning);
            &&& before.fcc == state.fcc
            &&& tick::work_run(io, state, status, poll, tuning).1.fcc == tick::report_run(
                measured,
                before,
                seen,
                poll,
            ).1.fcc
        }),
{
    reveal(tick::work_run);
    reveal(tick::measure_run);
    reveal(tick::protect_run);
    reveal(tick::drive_run);
    reveal(tick::look_ahead_run);
    reveal(tick::follow_up_run);
    reveal(landing::negotiate_and_rearm_run);
    reveal(landing::run_hvdcp_and_land_run);
}

// ---------------------------------------------------------------------------
// Laws
// ---------------------------------------------------------------------------
/// With neither a setting nor a raise the buck section of a tick writes the buck's
/// current nowhere, but for the one in which the probe is settled by writing; and it
/// stays so.
pub proof fn law_buck_section_leaves_the_buck(
    io: Io<Op>,
    fcc: FccPolicy,
    inputs: BuckInputs,
    period_ms: u64,
)
    requires
        fcc.cfg_raw == 0,
        !fcc.raised,
    ensures
        ({
            let (after, left) = fcc::buck_tick_run(io, fcc, inputs, period_ms);
            &&& !probe_wrote(fcc, left, inputs) ==> obeys(io, after, Rule::LeaveBuck)
            &&& fcc.probe_done ==> obeys(io, after, Rule::LeaveBuck) && left.probe_done
            &&& left.cfg_raw == 0 && !left.raised
        }),
{
    broadcast use lemma_buck_tick_obeys;

    lemma_obeys_at_first(io, Rule::LeaveBuck);
}

/// The buck section of a tick never writes a zero, and above the highest setting only
/// what was captured; a raise always has something to go back to.
pub proof fn law_buck_section_is_bounded(
    io: Io<Op>,
    fcc: FccPolicy,
    inputs: BuckInputs,
    period_ms: u64,
)
    requires
        fcc.valid(),
    ensures
        ({
            let (after, left) = fcc::buck_tick_run(io, fcc, inputs, period_ms);
            &&& obeys(io, after, Rule::BoundBuck { cap: 60, captured: left.boot_raw })
            &&& left.valid()
        }),
{
    broadcast use lemma_buck_tick_obeys;

    let left = fcc::buck_tick_run(io, fcc, inputs, period_ms).1;
    lemma_obeys_at_first(io, Rule::BoundBuck { cap: 60, captured: left.boot_raw });
}

/// With neither a setting nor a raise a whole tick, whatever it finds and does, writes
/// the buck's current nowhere, but for the one in which the probe is settled by writing.
/// It stays so, and a settled probe stays settled: no later tick writes it either.
pub proof fn law_tick_leaves_the_buck(
    io: Io<Op>,
    state: DriverState,
    poll: GaugePoll,
    tuning: Tuning,
)
    requires
        state.fcc.cfg_raw == 0,
        !state.fcc.raised,
    ensures
        ({
            let (after, left) = tick::evt_telemetry_timer_run(io, state, poll, tuning);
            let (asked, status) = io.chip(Op::PumpStatus);
            let seen = tick::measure_run(asked, state, status->0, tuning).2;
            &&& !probe_wrote(state.fcc, left.fcc, tick::buck_inputs(seen)) ==> obeys(
                io,
                after,
                Rule::LeaveBuck,
            )
            &&& state.fcc.probe_done ==> obeys(io, after, Rule::LeaveBuck) && left.fcc.probe_done
            &&& left.fcc.cfg_raw == 0 && !left.fcc.raised
        }),
{
    broadcast use {group_obeys, lemma_work_obeys};

    lemma_obeys_at_first(io, Rule::LeaveBuck);
    lemma_tick_policy(io, state, poll, tuning);
    reveal(tick::evt_telemetry_timer_run);
}

/// The state after some ticks. Each starts a session of its own and has its own poll of
/// the gauge.
pub open spec fn after_ticks(
    turns: Seq<(Io<Op>, GaugePoll)>,
    state: DriverState,
    tuning: Tuning,
) -> DriverState
    decreases turns.len(),
{
    if turns.len() == 0 {
        state
    } else {
        let before = after_ticks(turns.drop_last(), state, tuning);
        tick::evt_telemetry_timer_run(turns.last().0, before, turns.last().1, tuning).1
    }
}

/// Once the probe is settled and there is neither a setting nor a raise, no tick of any
/// number of them writes the buck's current.
pub proof fn law_no_later_tick_writes_the_buck(
    turns: Seq<(Io<Op>, GaugePoll)>,
    io: Io<Op>,
    state: DriverState,
    poll: GaugePoll,
    tuning: Tuning,
)
    requires
        state.fcc.cfg_raw == 0,
        !state.fcc.raised,
        state.fcc.probe_done,
    ensures
        ({
            let reached = after_ticks(turns, state, tuning);
            let (after, left) = tick::evt_telemetry_timer_run(io, reached, poll, tuning);
            &&& obeys(io, after, Rule::LeaveBuck)
            &&& left.fcc.cfg_raw == 0 && !left.fcc.raised && left.fcc.probe_done
        }),
    decreases turns.len(),
{
    if turns.len() > 0 {
        let last = turns.last();
        law_no_later_tick_writes_the_buck(turns.drop_last(), last.0, state, last.1, tuning);
    }
    law_tick_leaves_the_buck(io, after_ticks(turns, state, tuning), poll, tuning);
}

/// A whole tick never writes a zero to the buck's current, and above the highest
/// setting only what was captured. Without a setting and a raise it writes only the
/// probe's setting or less and what was captured, and nothing is raised.
pub proof fn law_tick_bounds_the_buck(
    io: Io<Op>,
    state: DriverState,
    poll: GaugePoll,
    tuning: Tuning,
)
    requires
        state.fcc.valid(),
    ensures
        ({
            let (after, left) = tick::evt_telemetry_timer_run(io, state, poll, tuning);
            &&& obeys(io, after, Rule::BoundBuck { cap: 60, captured: left.fcc.boot_raw })
            &&& state.fcc.cfg_raw == 0 && !state.fcc.raised ==> {
                &&& obeys(io, after, Rule::BoundBuck { cap: 20, captured: left.fcc.boot_raw })
                &&& left.fcc.cfg_raw == 0 && !left.fcc.raised
            }
            &&& left.fcc.valid()
        }),
{
    broadcast use {group_obeys, lemma_work_obeys};

    let left = tick::evt_telemetry_timer_run(io, state, poll, tuning).1;
    lemma_obeys_at_first(io, Rule::BoundBuck { cap: 60, captured: left.fcc.boot_raw });
    lemma_obeys_at_first(io, Rule::BoundBuck { cap: 20, captured: left.fcc.boot_raw });
    lemma_tick_policy(io, state, poll, tuning);
    reveal(tick::evt_telemetry_timer_run);
}

/// What a tick makes of the policy.
proof fn lemma_tick_policy(io: Io<Op>, state: DriverState, poll: GaugePoll, tuning: Tuning)
    ensures
        ({
            let left = tick::evt_telemetry_timer_run(io, state, poll, tuning).1.fcc;
            &&& left.cfg_raw == state.fcc.cfg_raw
            &&& state.fcc.probe_done ==> left.probe_done
            &&& state.fcc.cfg_raw == 0 && !state.fcc.raised ==> !left.raised
            &&& state.fcc.valid() ==> left.valid()
        }),
{
    reveal(tick::evt_telemetry_timer_run);
    let (asked, status) = io.chip(Op::PumpStatus);
    if state.pump_open && status is Some {
        lemma_work_keeps_the_policy(asked, state, status->0, poll, tuning);
        reveal(tick::report_run);
    }
}

} // verus!
