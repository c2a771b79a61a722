//! Polls of the fuel gauge.
//!
//! A poll takes about two seconds, so it is made outside the state lock: this
//! procedure touches no driver state.
use crate::exchange::Op;
use crate::pmic::{self, read_batt_soc_raw};
use crate::session::{Io, Session};
use crate::trace;
use crate::steer;
use vstd::prelude::*;

verus! {

/// Distance of two polls (ms).
pub const GAUGE_POLL_MS: u32 = 30_000;

/// What a tick learned from the gauge.
#[derive(Debug, Clone, Copy, PartialEq, Eq, Structural)]
pub enum GaugePoll {
    /// It was not asked.
    Skipped,
    /// Its raw value.
    Raw(u8),
    /// It did not answer, or its copies did not match.
    Failed,
}

/// Whether a poll is due: at first, and then once per period.
#[verifier::allow_in_spec]
pub fn poll_due(last_ms: u64, now_ms: u64) -> (due: bool)
    returns
        last_ms == 0 || now_ms.saturating_sub(last_ms) >= 30_000,
{
    last_ms == 0 || now_ms.saturating_sub(last_ms) >= GAUGE_POLL_MS as u64
}

pub open spec fn read_gauge_if_due_run(io: Io<Op>, device_ready: bool) -> (Io<Op>, GaugePoll) {
    let (io, armed) = io.flag(Op::GaugeArmed);
    if !armed || !device_ready {
        (io, GaugePoll::Skipped)
    } else {
        let (io, now_ms) = io.millis(Op::Now);
        let (io, last_ms) = io.millis(Op::GaugeLast);
        if !poll_due(last_ms, now_ms) {
            (io, GaugePoll::Skipped)
        } else {
            let (io, claimed) = io.flag(Op::GaugeClaim { last_ms, now_ms });
            if !claimed {
                (io, GaugePoll::Skipped)
            } else {
                let (io, raw) = pmic::read_batt_soc_raw_run(io);
                (io, match raw {
                    Some(raw) => GaugePoll::Raw(raw),
                    None => GaugePoll::Failed,
                })
            }
        }
    }
}

/// Polls the gauge where that is allowed and due, and where no other run has
/// claimed the same period.
pub fn read_gauge_if_due(io: &mut Session<Op>, device_ready: bool) -> (poll: GaugePoll)
    ensures
        (final(io)@, poll) == read_gauge_if_due_run(old(io)@, device_ready),
{
    if !io.flag(Op::GaugeArmed) || !device_ready {
        return GaugePoll::Skipped;
    }
    let now_ms: u64 = io.millis(Op::Now);
    let last_ms: u64 = io.millis(Op::GaugeLast);
    if !poll_due(last_ms, now_ms) {
        return GaugePoll::Skipped;
    }
    if !io.flag(Op::GaugeClaim { last_ms, now_ms }) {
        return GaugePoll::Skipped;
    }
    match read_batt_soc_raw(io) {
        Some(raw) => GaugePoll::Raw(raw),
        None => GaugePoll::Failed,
    }
}

/// Two polls that are both made lie at least one period apart, unless the first
/// of them was made at time 0.
pub proof fn law_polls_are_spaced(first_ms: u64, second_ms: u64)
    requires
        poll_due(first_ms, second_ms),
        first_ms != 0,
    ensures
        second_ms - first_ms >= GAUGE_POLL_MS,
{
}

/// The gauge is left alone where it is not armed, where the device is not ready
/// and where another run has claimed the period; a poll is then no failure.
pub proof fn law_poll_needs_its_claim(io: Io<Op>, device_ready: bool)
    ensures
        !device_ready || !io.flag(Op::GaugeArmed).1 ==> read_gauge_if_due_run(io, device_ready) == (
            io.tell(Op::GaugeArmed),
            GaugePoll::Skipped,
        ),
        ({
            let (armed, _) = io.flag(Op::GaugeArmed);
            let (at, now_ms) = armed.millis(Op::Now);
            let (at, last_ms) = at.millis(Op::GaugeLast);
            let claim = Op::GaugeClaim { last_ms, now_ms };
            !at.flag(claim).1 || !poll_due(last_ms, now_ms) ==> read_gauge_if_due_run(
                io,
                device_ready,
            ).1 == GaugePoll::Skipped
        }),
{
}

/// A poll is made where the gauge is armed and there is a device, thirty seconds after
/// the last one or at first, and where this run gets the claim. Its outcome is what the
/// gauge answered.
pub proof fn law_poll_reads_the_gauge(io: Io<Op>, device_ready: bool)
    requires
        io.pending is None,
        read_gauge_if_due_run(io, device_ready).0.pending is None,
    ensures
        ({
            let (after, poll) = read_gauge_if_due_run(io, device_ready);
            let asked = trace::asked(io, after);
            let allowed = trace::yes(trace::answer(io, 0)) && device_ready;
            let now_ms = steer::time_of(trace::answer(io, 1));
            let last_ms = steer::time_of(trace::answer(io, 2));
            let due = allowed && (last_ms == 0 || now_ms - last_ms >= 30_000);
            let claimed = due && trace::yes(trace::answer(io, 3));
            &&& !allowed ==> asked == seq![Op::GaugeArmed]
            &&& allowed && !due ==> asked == seq![Op::GaugeArmed, Op::Now, Op::GaugeLast]
            &&& due && !claimed ==> asked == seq![
                Op::GaugeArmed,
                Op::Now,
                Op::GaugeLast,
                Op::GaugeClaim { last_ms, now_ms },
            ]
            &&& poll is Skipped <==> !claimed
            &&& claimed ==> exists|start: Io<Op>|
                #![trigger trace::follows(io, start)]
                {
                    let (end, raw) = pmic::read_batt_soc_raw_run(start);
                    &&& trace::follows(io, start) && start.next == io.next + 4 && start.pending
                        is None
                    &&& asked == seq![
                        Op::GaugeArmed,
                        Op::Now,
                        Op::GaugeLast,
                        Op::GaugeClaim { last_ms, now_ms },
                    ] + trace::asked(start, end)
                    &&& raw matches Some(value) ==> poll == GaugePoll::Raw(value)
                    &&& raw is None ==> poll is Failed
                }
        }),
{
    broadcast use trace::group_trace;

    trace::lemma_asked_nothing(io);
    trace::lemma_follows_at_first(io);
    let after = read_gauge_if_due_run(io, device_ready).0;
    let (io1, _) = io.flag(Op::GaugeArmed);
    let (io2, now_ms) = io1.millis(Op::Now);
    let (io3, last_ms) = io2.millis(Op::GaugeLast);
    let (start, claimed) = io3.flag(Op::GaugeClaim { last_ms, now_ms });
    if trace::yes(trace::answer(io, 0)) && device_ready && poll_due(last_ms, now_ms) && claimed {
        trace::lemma_follows_at_first(start);
        assert(trace::follows(start, after));
        trace::lemma_finished_before(start, after);
        assert(trace::follows(io, start));
        trace::lemma_asked_in_turn(io, start, after);
    }
}

} // verus!
