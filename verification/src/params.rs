//! The driver's parameters in the registry.
use crate::exchange::{Key, Op, Reply};
use crate::fcc::FCC_POLICY_VALUE_NAME;
use crate::session::{Io, Session};
use crate::state::TELEMETRY_MS_DEFAULT;
use crate::usbin::flag_word;
use crate::trace;
use vstd::prelude::*;

verus! {

/// What is published for a profile that was not selected.
pub const PROFILE_NOT_SET: u32 = u32::MAX;

/// Shortest accepted telemetry period (ms).
pub const TELEMETRY_MS_LOW: u32 = 100;

/// Longest accepted telemetry period (ms).
pub const TELEMETRY_MS_HIGH: u32 = 60_000;

/// What the driver itself takes from the registry; the pump profile and the
/// guard limits stay with the pump core.
#[derive(Debug, Clone, Copy, PartialEq, Eq, Structural)]
pub struct DriverParams {
    /// Telemetry period (ms).
    pub telemetry_ms: u32,
    /// What the fast charge current is raised to, in steps; 0 for no policy.
    pub fcc_raw: u32,
}

#[verifier::opaque]
pub open spec fn mark_profile_run(io: Io<Op>, selected: Option<u32>) -> Io<Op> {
    let (io, disabled) = io.loops(Op::ProfileLoops);
    io.mark("ProfLoops", flag_word(!disabled.0 && !disabled.1)).mark("ProfSel", match selected {
        Some(profile) => profile,
        None => PROFILE_NOT_SET,
    })
}

/// Publishes whether both regulation loops are on, and the selected profile.
pub fn mark_profile(io: &mut Session<Op>, selected: Option<u32>)
    ensures
        final(io)@ == mark_profile_run(old(io)@, selected),
{
    proof {
        reveal(mark_profile_run);
    }
    let (vbat_off, iin_off): (bool, bool) = io.loops(Op::ProfileLoops);
    io.mark("ProfLoops", flag_word(!vbat_off && !iin_off));
    let profile: u32 = match selected {
        Some(profile) => profile,
        None => PROFILE_NOT_SET,
    };
    io.mark("ProfSel", profile);
}

pub open spec fn offer_profile_run(io: Io<Op>, name: &'static str) -> (Io<Op>, Option<u32>) {
    let (io, value) = io.number(Op::KeyQuery(name));
    match value {
        None => (io, None),
        Some(value) => {
            let (io, accepted) = io.flag(Op::ProfileApply(name, value));
            (io, if accepted {
                Some(value)
            } else {
                None
            })
        },
    }
}

/// Offers a value of the registry to the pump profile; the result is the value
/// if it was there and accepted.
fn offer_profile(io: &mut Session<Op>, name: &'static str) -> (accepted: Option<u32>)
    ensures
        (final(io)@, accepted) == offer_profile_run(old(io)@, name),
{
    match io.number(Op::KeyQuery(name)) {
        None => None,
        Some(value) => {
            if io.flag(Op::ProfileApply(name, value)) {
                Some(value)
            } else {
                None
            }
        },
    }
}

#[verifier::opaque]
pub open spec fn read_profile_run(io: Io<Op>) -> (Io<Op>, Option<u32>) {
    let (io, selected) = offer_profile_run(io, "ProtectionProfile");
    let (io, _) = offer_profile_run(io, "IinLimitUa");
    let (io, _) = offer_profile_run(io, "VbatFloatUv");
    let (io, _) = offer_profile_run(io, "VacOvpUv");
    let (io, _) = offer_profile_run(io, "NtcAlarmCfg");
    let (io, _) = offer_profile_run(io, "WatchdogEnabled");
    (io.tell(Op::ProfileToGuard), selected)
}

/// Reads the pump profile. The selection comes first: it replaces the whole
/// profile, and the values after it refine it.
fn read_profile(io: &mut Session<Op>) -> (selected: Option<u32>)
    ensures
        (final(io)@, selected) == read_profile_run(old(io)@),
{
    proof {
        reveal(read_profile_run);
    }
    let selected = offer_profile(io, "ProtectionProfile");
    let _ = offer_profile(io, "IinLimitUa");
    let _ = offer_profile(io, "VbatFloatUv");
    let _ = offer_profile(io, "VacOvpUv");
    let _ = offer_profile(io, "NtcAlarmCfg");
    let _ = offer_profile(io, "WatchdogEnabled");
    io.tell(Op::ProfileToGuard);
    selected
}

/// A telemetry period of the registry, or the default where it is missing or out
/// of bounds.
#[verifier::allow_in_spec]
pub fn telemetry_period(value: Option<u32>) -> (ms: u32)
    returns
        (match value {
            Some(ms) => if TELEMETRY_MS_LOW <= ms && ms <= TELEMETRY_MS_HIGH {
                ms
            } else {
                TELEMETRY_MS_DEFAULT
            },
            None => TELEMETRY_MS_DEFAULT,
        }),
{
    match value {
        Some(ms) => if TELEMETRY_MS_LOW <= ms && ms <= TELEMETRY_MS_HIGH {
            ms
        } else {
            TELEMETRY_MS_DEFAULT
        },
        None => TELEMETRY_MS_DEFAULT,
    }
}

pub open spec fn offer_limit_run(io: Io<Op>, name: &'static str) -> Io<Op> {
    let (io, value) = io.number(Op::KeyQuery(name));
    match value {
        None => io,
        Some(value) => io.tell(Op::LimitsApply(name, value)),
    }
}

/// Offers a value of the registry to the guard limits.
fn offer_limit(io: &mut Session<Op>, name: &'static str)
    ensures
        final(io)@ == offer_limit_run(old(io)@, name),
{
    match io.number(Op::KeyQuery(name)) {
        None => {},
        Some(value) => {
            io.tell(Op::LimitsApply(name, value));
        },
    }
}

#[verifier::opaque]
pub open spec fn read_limits_run(io: Io<Op>) -> Io<Op> {
    let io = io.tell(Op::LimitsSave);
    let io = offer_limit_run(io, "TempReduceDc");
    let io = offer_limit_run(io, "TempBypassDc");
    let io = offer_limit_run(io, "TempStopDc");
    let io = offer_limit_run(io, "IinMaxUa");
    let io = offer_limit_run(io, "IinTargetUa");
    let io = offer_limit_run(io, "IinFloorUa");
    let io = offer_limit_run(io, "VbatReduceUv");
    let (io, consistent) = io.flag(Op::LimitsValid);
    if consistent {
        io
    } else {
        io.tell(Op::LimitsRestore)
    }
}

/// Reads the guard limits. They are judged as a set, after the last of them: an
/// inconsistent set is dropped as a whole.
fn read_limits(io: &mut Session<Op>)
    ensures
        final(io)@ == read_limits_run(old(io)@),
{
    proof {
        reveal(read_limits_run);
    }
    io.tell(Op::LimitsSave);
    offer_limit(io, "TempReduceDc");
    offer_limit(io, "TempBypassDc");
    offer_limit(io, "TempStopDc");
    offer_limit(io, "IinMaxUa");
    offer_limit(io, "IinTargetUa");
    offer_limit(io, "IinFloorUa");
    offer_limit(io, "VbatReduceUv");
    if !io.flag(Op::LimitsValid) {
        io.tell(Op::LimitsRestore);
    }
}

#[verifier::opaque]
pub open spec fn read_values_run(io: Io<Op>) -> (Io<Op>, DriverParams) {
    let (io, selected) = read_profile_run(io);
    let (io, period) = io.number(Op::KeyQuery("TelemetryMs"));
    let (io, fcc) = io.number(Op::KeyQuery(FCC_POLICY_VALUE_NAME));
    let fcc_raw = match fcc {
        Some(raw) => raw,
        None => 0,
    };
    let io = read_limits_run(io.mark("FccCfgRaw", fcc_raw));
    let io = io.tell(Op::KeyClose(Key::Parameters)).tell(Op::KeyClose(Key::Device));
    (
        mark_profile_run(io, selected),
        DriverParams { telemetry_ms: telemetry_period(period), fcc_raw },
    )
}

/// Reads the values under two open keys, and closes them.
fn read_values(io: &mut Session<Op>) -> (params: DriverParams)
    ensures
        (final(io)@, params) == read_values_run(old(io)@),
{
    proof {
        reveal(read_values_run);
    }
    let selected = read_profile(io);
    let period = io.number(Op::KeyQuery("TelemetryMs"));
    let fcc_raw: u32 = match io.number(Op::KeyQuery(FCC_POLICY_VALUE_NAME)) {
        Some(raw) => raw,
        None => 0,
    };
    io.mark("FccCfgRaw", fcc_raw);
    read_limits(io);
    io.tell(Op::KeyClose(Key::Parameters));
    io.tell(Op::KeyClose(Key::Device));
    mark_profile(io, selected);
    DriverParams { telemetry_ms: telemetry_period(period), fcc_raw }
}

/// What holds where no parameter can be read.
#[verifier::allow_in_spec]
pub fn default_params() -> (params: DriverParams)
    returns
        (DriverParams { telemetry_ms: TELEMETRY_MS_DEFAULT, fcc_raw: 0 }),
{
    DriverParams { telemetry_ms: TELEMETRY_MS_DEFAULT, fcc_raw: 0 }
}

#[verifier::opaque]
pub open spec fn read_parameters_run(io: Io<Op>) -> (Io<Op>, DriverParams) {
    let io = io.tell(Op::ProfileReset).tell(Op::ProfileToGuard);
    let (io, device) = io.status(Op::KeyOpen(Key::Device));
    if device < 0 {
        (mark_profile_run(io.mark("FccCfgRaw", 0), None), default_params())
    } else {
        let (io, parameters) = io.status(Op::KeyOpen(Key::Parameters));
        if parameters < 0 {
            let io = io.tell(Op::KeyClose(Key::Device)).mark("FccCfgRaw", 0);
            (mark_profile_run(io, None), default_params())
        } else {
            read_values_run(io)
        }
    }
}

/// Reads the parameters: the pump profile, the guard limits and the driver's own
/// numbers. A key that does not open leaves the defaults, and a key that opened
/// is closed.
pub fn read_parameters(io: &mut Session<Op>) -> (params: DriverParams)
    ensures
        (final(io)@, params) == read_parameters_run(old(io)@),
{
    proof {
        reveal(read_parameters_run);
    }
    io.tell(Op::ProfileReset);
    io.tell(Op::ProfileToGuard);
    if io.status(Op::KeyOpen(Key::Device)) < 0 {
        io.mark("FccCfgRaw", 0);
        mark_profile(io, None);
        return default_params();
    }
    if io.status(Op::KeyOpen(Key::Parameters)) < 0 {
        io.tell(Op::KeyClose(Key::Device));
        io.mark("FccCfgRaw", 0);
        mark_profile(io, None);
        return default_params();
    }
    read_values(io)
}

/// The telemetry period always lies within its bounds.
pub proof fn law_telemetry_period_is_bounded(value: Option<u32>, io: Io<Op>)
    ensures
        TELEMETRY_MS_LOW <= telemetry_period(value) <= TELEMETRY_MS_HIGH,
        TELEMETRY_MS_LOW <= read_parameters_run(io).1.telemetry_ms <= TELEMETRY_MS_HIGH,
{
    reveal(read_parameters_run);
    reveal(read_values_run);
}

/// The number in an answer.
pub open spec fn number_of(reply: Reply) -> Option<u32> {
    match reply {
        Reply::Number(value) => value,
        _ => None,
    }
}

/// A period of the registry counts from 100 ms to a minute; any other, and a missing one,
/// is 250 ms.
pub proof fn law_period_is_taken_within_bounds(value: Option<u32>)
    ensures
        value is Some && 100 <= value->0 <= 60_000 ==> telemetry_period(value) == value->0,
        value is None ==> telemetry_period(value) == 250,
        value is Some && (value->0 < 100 || value->0 > 60_000) ==> telemetry_period(value) == 250,
{
}

/// A value of the registry is offered to the profile where it is there, under its name,
/// and is selected where it is accepted; and to the limits in the same way.
pub proof fn law_values_are_offered(io: Io<Op>, name: &'static str)
    requires
        io.pending is None,
    ensures
        ({
            let (after, selected) = offer_profile_run(io, name);
            let value = number_of(trace::answer(io, 0));
            &&& trace::follows(io, after)
            &&& after.pending is None ==> {
                &&& trace::asked(io, after) == match value {
                    Some(value) => seq![Op::KeyQuery(name), Op::ProfileApply(name, value)],
                    None => seq![Op::KeyQuery(name)],
                }
                &&& selected == if trace::yes(trace::answer(io, 1)) {
                    value
                } else {
                    None
                }
            }
        }),
        ({
            let after = offer_limit_run(io, name);
            &&& trace::follows(io, after)
            &&& after.pending is None ==> trace::asked(io, after) == match number_of(
                trace::answer(io, 0),
            ) {
                Some(value) => seq![Op::KeyQuery(name), Op::LimitsApply(name, value)],
                None => seq![Op::KeyQuery(name)],
            }
        }),
{
    broadcast use trace::group_trace;

    trace::lemma_asked_nothing(io);
    trace::lemma_follows_at_first(io);
}

/// The profile is read with all its names, its selection first, and then handed to the
/// protection.
pub proof fn law_profile_is_read_in_full(io: Io<Op>)
    requires
        io.pending is None,
        read_profile_run(io).0.pending is None,
    ensures
        ({
            let (after, selected) = read_profile_run(io);
            let asked = trace::asked(io, after);
            &&& trace::follows(io, after)
            &&& asked[0] == Op::KeyQuery("ProtectionProfile")
            &&& asked.contains(Op::KeyQuery("IinLimitUa"))
            &&& asked.contains(Op::KeyQuery("VbatFloatUv"))
            &&& asked.contains(Op::KeyQuery("VacOvpUv"))
            &&& asked.contains(Op::KeyQuery("NtcAlarmCfg"))
            &&& asked.contains(Op::KeyQuery("WatchdogEnabled"))
            &&& asked.last() == Op::ProfileToGuard
            &&& selected == if trace::yes(trace::answer(io, 1)) {
                number_of(trace::answer(io, 0))
            } else {
                None
            }
        }),
{
    reveal(read_profile_run);
    let after = read_profile_run(io).0;
    let (a, _) = offer_profile_run(io, "ProtectionProfile");
    let (b, _) = offer_profile_run(a, "IinLimitUa");
    let (c, _) = offer_profile_run(b, "VbatFloatUv");
    let (d, _) = offer_profile_run(c, "VacOvpUv");
    let (e, _) = offer_profile_run(d, "NtcAlarmCfg");
    let (f, _) = offer_profile_run(e, "WatchdogEnabled");
    lemma_offer_follows(io, "ProtectionProfile");
    lemma_offer_follows(a, "IinLimitUa");
    lemma_offer_follows(b, "VbatFloatUv");
    lemma_offer_follows(c, "VacOvpUv");
    lemma_offer_follows(d, "NtcAlarmCfg");
    lemma_offer_follows(e, "WatchdogEnabled");
    trace::lemma_follows_at_first(f);
    trace::lemma_ask_follows(f, f, Op::ProfileToGuard);
    trace::lemma_finished_before(f, after);
    trace::lemma_finished_before(e, f);
    trace::lemma_finished_before(d, e);
    trace::lemma_finished_before(c, d);
    trace::lemma_finished_before(b, c);
    trace::lemma_finished_before(a, b);
    law_values_are_offered(io, "ProtectionProfile");
    law_values_are_offered(a, "IinLimitUa");
    law_values_are_offered(b, "VbatFloatUv");
    law_values_are_offered(c, "VacOvpUv");
    law_values_are_offered(d, "NtcAlarmCfg");
    law_values_are_offered(e, "WatchdogEnabled");
    trace::lemma_follows_in_turn(e, f, after);
    trace::lemma_follows_in_turn(d, e, after);
    trace::lemma_follows_in_turn(c, d, after);
    trace::lemma_follows_in_turn(b, c, after);
    trace::lemma_follows_in_turn(a, b, after);
    trace::lemma_follows_in_turn(io, a, b);
    trace::lemma_follows_in_turn(io, b, c);
    trace::lemma_follows_in_turn(io, c, d);
    trace::lemma_follows_in_turn(io, d, e);
    trace::lemma_follows_in_turn(io, e, f);
    trace::lemma_follows_in_turn(io, f, after);
    assert(trace::asked(a, b)[0] == Op::KeyQuery("IinLimitUa"));
    assert(trace::asked(b, c)[0] == Op::KeyQuery("VbatFloatUv"));
    assert(trace::asked(c, d)[0] == Op::KeyQuery("VacOvpUv"));
    assert(trace::asked(d, e)[0] == Op::KeyQuery("NtcAlarmCfg"));
    assert(trace::asked(e, f)[0] == Op::KeyQuery("WatchdogEnabled"));
    trace::lemma_asked_within(io, a, b, after, Op::KeyQuery("IinLimitUa"));
    trace::lemma_asked_within(io, b, c, after, Op::KeyQuery("VbatFloatUv"));
    trace::lemma_asked_within(io, c, d, after, Op::KeyQuery("VacOvpUv"));
    trace::lemma_asked_within(io, d, e, after, Op::KeyQuery("NtcAlarmCfg"));
    trace::lemma_asked_within(io, e, f, after, Op::KeyQuery("WatchdogEnabled"));
    trace::lemma_asked_grows(io, a, after);
    trace::lemma_honest_after(io, f);
    trace::lemma_asked_ask(io, f, Op::ProfileToGuard);
}

proof fn lemma_offer_follows(io: Io<Op>, name: &'static str)
    ensures
        trace::follows(io, offer_profile_run(io, name).0),
        trace::follows(io, offer_limit_run(io, name)),
{
    broadcast use trace::lemma_ask_follows;

    trace::lemma_follows_at_first(io);
}

/// The limits are saved first and read with all their names; where the result is not
/// consistent, what was saved comes back.
pub proof fn law_limits_are_read_in_full(io: Io<Op>)
    requires
        io.pending is None,
        read_limits_run(io).pending is None,
    ensures
        ({
            let after = read_limits_run(io);
            let asked = trace::asked(io, after);
            &&& trace::follows(io, after)
            &&& asked[0] == Op::LimitsSave
            &&& asked.contains(Op::KeyQuery("TempReduceDc"))
            &&& asked.contains(Op::KeyQuery("TempBypassDc"))
            &&& asked.contains(Op::KeyQuery("TempStopDc"))
            &&& asked.contains(Op::KeyQuery("IinMaxUa"))
            &&& asked.contains(Op::KeyQuery("IinTargetUa"))
            &&& asked.contains(Op::KeyQuery("IinFloorUa"))
            &&& asked.contains(Op::KeyQuery("VbatReduceUv"))
            &&& asked.contains(Op::LimitsValid)
            &&& asked.last() == Op::LimitsValid || asked.last() == Op::LimitsRestore
            &&& asked.last() == Op::LimitsValid ==> trace::yes(io.replies[after.next - 1])
            &&& asked.last() == Op::LimitsRestore ==> !trace::yes(io.replies[after.next - 2])
        }),
{
    reveal(read_limits_run);
    let after = read_limits_run(io);
    let s = io.tell(Op::LimitsSave);
    let a = offer_limit_run(s, "TempReduceDc");
    let b = offer_limit_run(a, "TempBypassDc");
    let c = offer_limit_run(b, "TempStopDc");
    let d = offer_limit_run(c, "IinMaxUa");
    let e = offer_limit_run(d, "IinTargetUa");
    let f = offer_limit_run(e, "IinFloorUa");
    let g = offer_limit_run(f, "VbatReduceUv");
    let (h, consistent) = g.flag(Op::LimitsValid);
    lemma_offer_follows(s, "TempReduceDc");
    lemma_offer_follows(a, "TempBypassDc");
    lemma_offer_follows(b, "TempStopDc");
    lemma_offer_follows(c, "IinMaxUa");
    lemma_offer_follows(d, "IinTargetUa");
    lemma_offer_follows(e, "IinFloorUa");
    lemma_offer_follows(f, "VbatReduceUv");
    trace::lemma_follows_at_first(io);
    trace::lemma_ask_follows(io, io, Op::LimitsSave);
    trace::lemma_follows_at_first(g);
    trace::lemma_ask_follows(g, g, Op::LimitsValid);
    trace::lemma_follows_at_first(h);
    trace::lemma_ask_follows(h, h, Op::LimitsRestore);
    assert(trace::follows(h, after));
    trace::lemma_finished_before(h, after);
    trace::lemma_finished_before(g, h);
    trace::lemma_finished_before(f, g);
    trace::lemma_finished_before(e, f);
    trace::lemma_finished_before(d, e);
    trace::lemma_finished_before(c, d);
    trace::lemma_finished_before(b, c);
    trace::lemma_finished_before(a, b);
    trace::lemma_finished_before(s, a);
    law_values_are_offered(s, "TempReduceDc");
    law_values_are_offered(a, "TempBypassDc");
    law_values_are_offered(b, "TempStopDc");
    law_values_are_offered(c, "IinMaxUa");
    law_values_are_offered(d, "IinTargetUa");
    law_values_are_offered(e, "IinFloorUa");
    law_values_are_offered(f, "VbatReduceUv");
    trace::lemma_follows_in_turn(g, h, after);
    trace::lemma_follows_in_turn(f, g, after);
    trace::lemma_follows_in_turn(e, f, after);
    trace::lemma_follows_in_turn(d, e, after);
    trace::lemma_follows_in_turn(c, d, after);
    trace::lemma_follows_in_turn(b, c, after);
    trace::lemma_follows_in_turn(a, b, after);
    trace::lemma_follows_in_turn(s, a, after);
    trace::lemma_follows_in_turn(io, s, a);
    trace::lemma_follows_in_turn(io, a, b);
    trace::lemma_follows_in_turn(io, b, c);
    trace::lemma_follows_in_turn(io, c, d);
    trace::lemma_follows_in_turn(io, d, e);
    trace::lemma_follows_in_turn(io, e, f);
    trace::lemma_follows_in_turn(io, f, g);
    trace::lemma_follows_in_turn(io, g, h);
    trace::lemma_follows_in_turn(io, h, after);
    assert(trace::asked(s, a)[0] == Op::KeyQuery("TempReduceDc"));
    assert(trace::asked(a, b)[0] == Op::KeyQuery("TempBypassDc"));
    assert(trace::asked(b, c)[0] == Op::KeyQuery("TempStopDc"));
    assert(trace::asked(c, d)[0] == Op::KeyQuery("IinMaxUa"));
    assert(trace::asked(d, e)[0] == Op::KeyQuery("IinTargetUa"));
    assert(trace::asked(e, f)[0] == Op::KeyQuery("IinFloorUa"));
    assert(trace::asked(f, g)[0] == Op::KeyQuery("VbatReduceUv"));
    trace::lemma_asked_within(io, s, a, after, Op::KeyQuery("TempReduceDc"));
    trace::lemma_asked_within(io, a, b, after, Op::KeyQuery("TempBypassDc"));
    trace::lemma_asked_within(io, b, c, after, Op::KeyQuery("TempStopDc"));
    trace::lemma_asked_within(io, c, d, after, Op::KeyQuery("IinMaxUa"));
    trace::lemma_asked_within(io, d, e, after, Op::KeyQuery("IinTargetUa"));
    trace::lemma_asked_within(io, e, f, after, Op::KeyQuery("IinFloorUa"));
    trace::lemma_asked_within(io, f, g, after, Op::KeyQuery("VbatReduceUv"));
    trace::lemma_asked_nothing(io);
    trace::lemma_asked_ask(io, io, Op::LimitsSave);
    trace::lemma_asked_grows(io, s, after);
    trace::lemma_honest_after(io, g);
    trace::lemma_honest_after(io, h);
    trace::lemma_asked_ask(io, g, Op::LimitsValid);
    trace::lemma_asked_ask(io, h, Op::LimitsRestore);
    let n = trace::asked(io, g).len();
    trace::lemma_asked_grows(io, h, after);
    assert(trace::asked(io, h)[n as int] == Op::LimitsValid);
    assert(trace::asked(io, after)[n as int] == Op::LimitsValid);
}

/// The parameters are read from the driver's two keys, which are closed again. Where a
/// key cannot be opened, everything keeps its default; the profile was reset before.
pub proof fn law_parameters_need_their_keys(io: Io<Op>)
    requires
        io.pending is None,
        read_parameters_run(io).0.pending is None,
    ensures
        ({
            let (after, params) = read_parameters_run(io);
            let asked = trace::asked(io, after);
            let device = trace::status_of(trace::answer(io, 2));
            let parameters = trace::status_of(trace::answer(io, 3));
            let reset = seq![Op::ProfileReset, Op::ProfileToGuard, Op::KeyOpen(Key::Device)];
            &&& device < 0 ==> asked == reset.push(Op::ProfileLoops) && params.telemetry_ms == 250
                && params.fcc_raw == 0
            &&& device >= 0 && parameters < 0 ==> asked == reset.push(
                Op::KeyOpen(Key::Parameters),
            ).push(Op::KeyClose(Key::Device)).push(Op::ProfileLoops) && params.telemetry_ms == 250
                && params.fcc_raw == 0
            &&& device >= 0 && parameters >= 0 ==> {
                let start = io.tell(Op::ProfileReset).tell(Op::ProfileToGuard).tell(
                    Op::KeyOpen(Key::Device),
                ).tell(Op::KeyOpen(Key::Parameters));
                (after, params) == read_values_run(start)
            }
        }),
{
    broadcast use trace::group_trace;

    reveal(read_parameters_run);
    reveal(mark_profile_run);
    trace::lemma_asked_nothing(io);
}

/// The values are the period and the charge current setting that the keys hold, under
/// their names.
pub proof fn law_values_are_read(io: Io<Op>)
    requires
        io.pending is None,
        read_values_run(io).0.pending is None,
    ensures
        ({
            let (after, params) = read_values_run(io);
            let start = read_profile_run(io).0;
            let period = number_of(io.replies[start.next as int]);
            let setting = number_of(io.replies[start.next as int + 1]);
            let asked = trace::asked(start, after);
            &&& params.telemetry_ms == telemetry_period(period)
            &&& params.fcc_raw == match setting {
                Some(raw) => raw,
                None => 0,
            }
            &&& asked.len() >= 2 && asked[0] == Op::KeyQuery("TelemetryMs") && asked[1]
                == Op::KeyQuery("FccRaw")
            &&& asked.contains(Op::KeyClose(Key::Parameters))
            &&& asked.contains(Op::KeyClose(Key::Device))
        }),
{
    reveal(read_values_run);
    let (after, params) = read_values_run(io);
    let start = read_profile_run(io).0;
    let (a, _) = start.number(Op::KeyQuery("TelemetryMs"));
    let (b, setting) = a.number(Op::KeyQuery("FccRaw"));
    let raw = match setting {
        Some(raw) => raw,
        None => 0,
    };
    let m = b.mark("FccCfgRaw", raw);
    let l = read_limits_run(m);
    let c = l.tell(Op::KeyClose(Key::Parameters));
    let d = c.tell(Op::KeyClose(Key::Device));
    lemma_limits_follow(m);
    assert(trace::follows(start, b) && trace::follows(b, m) && trace::follows(d, after)
        && trace::follows(l, d) && trace::follows(l, c) && trace::follows(c, d)) by {
        broadcast use {trace::lemma_ask_follows, trace::lemma_record_follows};

        trace::lemma_follows_at_first(start);
        trace::lemma_follows_at_first(b);
        trace::lemma_follows_at_first(l);
        trace::lemma_follows_at_first(c);
        trace::lemma_follows_at_first(d);
        reveal(mark_profile_run);
    }
    trace::lemma_finished_before(d, after);
    trace::lemma_finished_before(c, d);
    trace::lemma_finished_before(l, c);
    trace::lemma_finished_before(m, l);
    trace::lemma_finished_before(b, m);
    trace::lemma_finished_before(start, b);
    lemma_profile_follows(io);
    trace::lemma_finished_before(io, start);
    trace::lemma_follows_in_turn(b, m, l);
    trace::lemma_follows_in_turn(b, l, d);
    trace::lemma_follows_in_turn(b, d, after);
    trace::lemma_asked_nothing(start);
    trace::lemma_asked_ask(start, start, Op::KeyQuery("TelemetryMs"));
    trace::lemma_asked_ask(start, a, Op::KeyQuery("FccRaw"));
    trace::lemma_asked_grows(start, b, after);
    trace::lemma_follows_in_turn(start, b, l);
    trace::lemma_asked_nothing(l);
    trace::lemma_asked_nothing(c);
    trace::lemma_asked_ask(l, l, Op::KeyClose(Key::Parameters));
    trace::lemma_asked_ask(c, c, Op::KeyClose(Key::Device));
    assert(trace::asked(l, c)[0] == Op::KeyClose(Key::Parameters));
    assert(trace::asked(c, d)[0] == Op::KeyClose(Key::Device));
    trace::lemma_follows_in_turn(c, d, after);
    trace::lemma_asked_within(start, l, c, after, Op::KeyClose(Key::Parameters));
    trace::lemma_follows_in_turn(start, l, c);
    trace::lemma_asked_within(start, c, d, after, Op::KeyClose(Key::Device));
}

proof fn lemma_profile_follows(io: Io<Op>)
    ensures
        trace::follows(io, read_profile_run(io).0),
{
    broadcast use trace::lemma_ask_follows;

    reveal(read_profile_run);
    trace::lemma_follows_at_first(io);
}

proof fn lemma_limits_follow(io: Io<Op>)
    ensures
        trace::follows(io, read_limits_run(io)),
{
    broadcast use trace::lemma_ask_follows;

    reveal(read_limits_run);
    trace::lemma_follows_at_first(io);
}

/// The profile is published with whether both loops run, and all ones where none is set.
pub proof fn law_profile_is_published(io: Io<Op>, selected: Option<u32>)
    requires
        io.pending is None,
        mark_profile_run(io, selected).pending is None,
    ensures
        ({
            let after = mark_profile_run(io, selected);
            let disabled = match trace::answer(io, 0) {
                Reply::Loops(voltage, current) => voltage || current,
                _ => false,
            };
            &&& trace::asked(io, after) == seq![Op::ProfileLoops]
            &&& trace::published(io, after) == seq![
                (
                    "ProfLoops",
                    if disabled {
                        0u32
                    } else {
                        1
                    },
                ),
                (
                    "ProfSel",
                    match selected {
                        Some(profile) => profile,
                        None => PROFILE_NOT_SET,
                    },
                ),
            ]
        }),
{
    broadcast use {trace::group_trace, trace::group_marks};

    reveal(mark_profile_run);
    trace::lemma_asked_nothing(io);
    trace::lemma_published_nothing(io);
}

} // verus!
