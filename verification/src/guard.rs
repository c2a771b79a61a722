//! What the protection asks for, carried out.
use crate::exchange::{Op, Reply};
use crate::pump::{BypassResolution, GuardAction};
use crate::session::{Io, Session};
use crate::trace;
use vstd::prelude::*;

verus! {

/// The number under which an action is published.
#[verifier::allow_in_spec]
pub fn action_word(action: GuardAction) -> (word: u32)
    returns
        (match action {
            GuardAction::Keep => 0u32,
            GuardAction::ReduceCurrent { .. } => 1u32,
            GuardAction::RestoreCurrent { .. } => 2u32,
            GuardAction::FallbackToBypass => 3u32,
            GuardAction::Stop => 4u32,
            GuardAction::Other => 5u32,
        }),
{
    match action {
        GuardAction::Keep => 0,
        GuardAction::ReduceCurrent { .. } => 1,
        GuardAction::RestoreCurrent { .. } => 2,
        GuardAction::FallbackToBypass => 3,
        GuardAction::Stop => 4,
        GuardAction::Other => 5,
    }
}

#[verifier::opaque]
pub open spec fn apply_guard_run(
    io: Io<Op>,
    action: GuardAction,
    vin_uv: i32,
    vbat_uv: u32,
    strikes: u32,
) -> (Io<Op>, u32) {
    match action {
        GuardAction::Keep => (io, 0),
        GuardAction::ReduceCurrent { to_ua } => (io.tell(Op::PumpIinLimit(to_ua)), 0),
        GuardAction::RestoreCurrent { to_ua } => (io.tell(Op::PumpIinLimit(to_ua)), 0),
        GuardAction::FallbackToBypass => {
            let (io, verdict) = io.bypass(Op::ResolveBypass { vin_uv, vbat_uv, strikes });
            match verdict {
                BypassResolution::Allowed => (io.tell(Op::PumpBypass), 0),
                BypassResolution::ReduceCurrent { to_ua } => (
                    io.tell(Op::PumpIinLimit(to_ua)),
                    strikes.saturating_add(1),
                ),
                BypassResolution::Stop => (io.tell(Op::PumpStandby), strikes),
                BypassResolution::Other => (io, strikes),
            }
        },
        GuardAction::Stop => (io.tell(Op::PumpStandby), 0),
        GuardAction::Other => (io, strikes),
    }
}

/// Carries out an action. A fallback to 1:1 is resolved at the present input
/// first: where 1:1 is forbidden the current is lowered and a strike counted,
/// or the charge stopped; an unknown verdict enables nothing.
pub fn apply_guard(
    io: &mut Session<Op>,
    action: GuardAction,
    vin_uv: i32,
    vbat_uv: u32,
    strikes: &mut u32,
)
    ensures
        (final(io)@, *final(strikes)) == apply_guard_run(
            old(io)@,
            action,
            vin_uv,
            vbat_uv,
            *old(strikes),
        ),
{
    proof {
        reveal(apply_guard_run);
    }
    match action {
        GuardAction::Keep => {
            *strikes = 0;
        },
        GuardAction::ReduceCurrent { to_ua } => {
            *strikes = 0;
            io.tell(Op::PumpIinLimit(to_ua));
        },
        GuardAction::RestoreCurrent { to_ua } => {
            *strikes = 0;
            io.tell(Op::PumpIinLimit(to_ua));
        },
        GuardAction::FallbackToBypass => {
            match io.bypass(Op::ResolveBypass { vin_uv, vbat_uv, strikes: *strikes }) {
                BypassResolution::Allowed => {
                    *strikes = 0;
                    io.tell(Op::PumpBypass);
                },
                BypassResolution::ReduceCurrent { to_ua } => {
                    *strikes = (*strikes).saturating_add(1);
                    io.tell(Op::PumpIinLimit(to_ua));
                },
                BypassResolution::Stop => {
                    io.tell(Op::PumpStandby);
                },
                BypassResolution::Other => {},
            }
        },
        GuardAction::Stop => {
            *strikes = 0;
            io.tell(Op::PumpStandby);
        },
        GuardAction::Other => {},
    }
}

/// 1:1 is enabled only where the verdict on the present input allows it: every
/// other outcome of an action leaves the pump's mode alone or stops it.
pub proof fn law_bypass_needs_a_verdict(
    io: Io<Op>,
    action: GuardAction,
    vin_uv: i32,
    vbat_uv: u32,
    strikes: u32,
)
    ensures
        ({
            let (after, n) = apply_guard_run(io, action, vin_uv, vbat_uv, strikes);
            let (asked, verdict) = io.bypass(Op::ResolveBypass { vin_uv, vbat_uv, strikes });
            ||| after == io
            ||| after == io.tell(Op::PumpStandby)
            ||| exists|ua: u32| after == #[trigger] io.tell(Op::PumpIinLimit(ua))
            ||| action is FallbackToBypass && verdict is Allowed && after == asked.tell(
                Op::PumpBypass,
            ) && n == 0
            ||| action is FallbackToBypass && verdict is Stop && after == asked.tell(
                Op::PumpStandby,
            ) && n == strikes
            ||| action is FallbackToBypass && verdict is Other && after == asked && n == strikes
            ||| action is FallbackToBypass && (verdict matches BypassResolution::ReduceCurrent {
                to_ua,
            } && after == asked.tell(Op::PumpIinLimit(to_ua)) && n == strikes.saturating_add(1))
        }),
{
    reveal(apply_guard_run);
}

/// A current that the protection asks for, lower or higher, becomes the pump's limit,
/// and a stop its standby; neither sends anything else. Only an action that asks for
/// nothing, or that is not known, leaves the pump alone. A fallback to 1:1 puts the
/// question at the present input and carries out what is answered, and nothing else.
pub proof fn law_protection_reaches_the_pump(
    io: Io<Op>,
    action: GuardAction,
    vin_uv: i32,
    vbat_uv: u32,
    strikes: u32,
)
    requires
        io.pending is None,
        apply_guard_run(io, action, vin_uv, vbat_uv, strikes).0.pending is None,
    ensures
        ({
            let (after, n) = apply_guard_run(io, action, vin_uv, vbat_uv, strikes);
            let sent = trace::asked(io, after);
            let question = Op::ResolveBypass { vin_uv, vbat_uv, strikes };
            &&& action matches GuardAction::ReduceCurrent { to_ua } ==> sent == seq![
                Op::PumpIinLimit(to_ua),
            ] && n == 0
            &&& action matches GuardAction::RestoreCurrent { to_ua } ==> sent == seq![
                Op::PumpIinLimit(to_ua),
            ] && n == 0
            &&& action is Stop ==> sent == seq![Op::PumpStandby] && n == 0
            &&& action is Keep ==> sent.len() == 0 && n == 0
            &&& action is Other ==> sent.len() == 0 && n == strikes
            &&& sent.len() == 0 ==> action is Keep || action is Other
            &&& action is FallbackToBypass ==> match trace::answer(io, 0) {
                Reply::Bypass(BypassResolution::Allowed) => sent == seq![question, Op::PumpBypass]
                    && n == 0,
                Reply::Bypass(BypassResolution::ReduceCurrent { to_ua }) => sent == seq![
                    question,
                    Op::PumpIinLimit(to_ua),
                ] && (strikes < u32::MAX ==> n == strikes + 1),
                Reply::Bypass(BypassResolution::Stop) => sent == seq![question, Op::PumpStandby]
                    && n == strikes,
                _ => sent == seq![question] && n == strikes,
            }
        }),
{
    broadcast use trace::group_trace;

    reveal(apply_guard_run);
    trace::lemma_asked_nothing(io);
}

/// Each action has a number of its own.
pub proof fn law_actions_have_their_numbers(action: GuardAction)
    ensures
        action is Keep <==> action_word(action) == 0,
        action is ReduceCurrent <==> action_word(action) == 1,
        action is RestoreCurrent <==> action_word(action) == 2,
        action is FallbackToBypass <==> action_word(action) == 3,
        action is Stop <==> action_word(action) == 4,
{
}

} // verus!
