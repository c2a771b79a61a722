//! Which mode the input calls for, and corrections of the bus toward it.
use crate::arith::distance;
use crate::correction::{self, nudge_vin_into_window};
use crate::exchange::{Op, Reply};
use crate::fcc::RE_ELEVATE_MAX_VBAT_UV;
use crate::hvdcp::{
    target_vbus_uv, HvdcpState, FIVE_V_STAY_MAX_UV, IIN_DEAD_FLOOR_UA, WINDOW_NUDGE_MS,
};
use crate::landing::is_mode;
use crate::observe::Tick;
use crate::pump::{OpMode, SWITCHING_MIN_VIN_UV};
use crate::session::{Io, Session};
use crate::state::WindowLoop;
use crate::usbin::flag_word;
use crate::trace;
use crate::writes::{self, Rule};
use vstd::prelude::*;

verus! {

/// The smallest step toward the target that counts as progress (µV).
pub const WINDOW_PROGRESS_UV: u32 = 50_000;

/// Corrections without progress before they become rare.
pub const WINDOW_STALL_MAX: u32 = 4;

/// Distance of two rare corrections (ms).
pub const WINDOW_STALL_MS: u64 = 60_000;

/// No input.
pub const ENGAGE_NO_INPUT: u32 = 0;

/// An input, and the pump idle.
pub const ENGAGE_STANDBY: u32 = 1;

/// 1:1 is running.
pub const ENGAGE_BYPASS: u32 = 2;

/// 2:1 is running.
pub const ENGAGE_SWITCHING: u32 = 3;

/// An elevated input that allows no mode.
pub const ENGAGE_NO_HEADROOM: u32 = 4;

pub open spec fn engage_state_run(
    io: Io<Op>,
    input_present: bool,
    vin_uv: i32,
    vbat_uv: u32,
    mode: OpMode,
) -> (Io<Op>, u32) {
    if !input_present {
        (io, ENGAGE_NO_INPUT)
    } else {
        let (io, allowed) = if vin_uv >= SWITCHING_MIN_VIN_UV {
            io.mode(Op::ChargeMode { vin_uv, vbat_uv })
        } else {
            (io, Some(mode))
        };
        (io, if allowed is None {
            ENGAGE_NO_HEADROOM
        } else {
            match mode {
                OpMode::Switching => ENGAGE_SWITCHING,
                OpMode::Bypass => ENGAGE_BYPASS,
                _ => ENGAGE_STANDBY,
            }
        })
    }
}

/// Sums up where the charge stands.
pub fn engage_state(
    io: &mut Session<Op>,
    input_present: bool,
    vin_uv: i32,
    vbat_uv: u32,
    mode: OpMode,
) -> (state: u32)
    ensures
        (final(io)@, state) == engage_state_run(old(io)@, input_present, vin_uv, vbat_uv, mode),
{
    if !input_present {
        return ENGAGE_NO_INPUT;
    }
    if vin_uv >= SWITCHING_MIN_VIN_UV && io.mode(Op::ChargeMode { vin_uv, vbat_uv }).is_none() {
        return ENGAGE_NO_HEADROOM;
    }
    match mode {
        OpMode::Switching => ENGAGE_SWITCHING,
        OpMode::Bypass => ENGAGE_BYPASS,
        _ => ENGAGE_STANDBY,
    }
}

pub open spec fn desired_mode_run(io: Io<Op>, tick: Tick) -> (Io<Op>, Option<OpMode>) {
    if tick.pump_alive && tick.sample.vbus_uv >= SWITCHING_MIN_VIN_UV {
        (io, Some(OpMode::Switching))
    } else {
        io.mode(Op::ChargeMode { vin_uv: tick.vbus, vbat_uv: tick.sample.vbat_uv })
    }
}

/// The mode that the input calls for. A 2:1 transfer that carries current is
/// never called off over a sagging bus while that stays elevated.
pub fn desired_mode(io: &mut Session<Op>, tick: &Tick) -> (desired: Option<OpMode>)
    ensures
        (final(io)@, desired) == desired_mode_run(old(io)@, *tick),
{
    if tick.pump_alive && tick.sample.vbus_uv >= SWITCHING_MIN_VIN_UV as u32 {
        Some(OpMode::Switching)
    } else {
        io.mode(Op::ChargeMode { vin_uv: tick.vbus, vbat_uv: tick.sample.vbat_uv })
    }
}

/// Whether the pump is in the mode that is called for; idle counts where none
/// is.
#[verifier::allow_in_spec]
pub fn mode_settled(desired: Option<OpMode>, mode: OpMode) -> (r: bool)
    returns
        (match desired {
            Some(OpMode::Switching) => mode == OpMode::Switching,
            Some(OpMode::Bypass) => mode == OpMode::Bypass,
            Some(_) => false,
            None => mode == OpMode::Standby || mode == OpMode::Unknown,
        }),
{
    match desired {
        Some(OpMode::Switching) => mode == OpMode::Switching,
        Some(OpMode::Bypass) => mode == OpMode::Bypass,
        Some(_) => false,
        None => mode == OpMode::Standby || mode == OpMode::Unknown,
    }
}

/// Whether the bus may be corrected: it is elevated, or it stands between 5 V
/// and the transfer band with no 2:1 to show for it.
#[verifier::allow_in_spec]
pub fn correctable(vbat_uv: u32, vbus_uv: u32, desired: Option<OpMode>) -> (r: bool)
    returns
        vbat_uv > 0 && (vbus_uv >= 8_000_000 || (vbus_uv >= 6_000_000 && (desired is None
            || desired == Some(OpMode::Bypass)))),
{
    let elevated = vbus_uv >= SWITCHING_MIN_VIN_UV as u32;
    let above_five = vbus_uv >= FIVE_V_STAY_MAX_UV as u32;
    vbat_uv > 0 && (elevated || (above_five && (desired.is_none() || is_mode(
        desired,
        OpMode::Bypass,
    ))))
}

/// Whether 2:1 is on without carrying current, now and over the window.
#[verifier::allow_in_spec]
pub fn dead_transfer(mode: OpMode, iin_ua: u32, peak_ua: u32) -> (r: bool)
    returns
        mode == OpMode::Switching && iin_ua <= IIN_DEAD_FLOOR_UA && peak_ua <= IIN_DEAD_FLOOR_UA,
{
    mode == OpMode::Switching && iin_ua <= IIN_DEAD_FLOOR_UA && peak_ua <= IIN_DEAD_FLOOR_UA
}

/// The episode after a look at the distance from the target: progress resets
/// its stall counter.
#[verifier::allow_in_spec]
pub fn progressed(window: WindowLoop, err_uv: u32) -> (r: WindowLoop)
    returns
        (if err_uv.saturating_add(WINDOW_PROGRESS_UV) < window.best_err_uv {
            WindowLoop { best_err_uv: err_uv, stall_n: 0, ..window }
        } else {
            window
        }),
{
    if err_uv.saturating_add(WINDOW_PROGRESS_UV) < window.best_err_uv {
        WindowLoop { last_nudge_ms: window.last_nudge_ms, best_err_uv: err_uv, stall_n: 0 }
    } else {
        window
    }
}

/// Whether a correction is due: after the short distance while it helps, after
/// the long one otherwise. A 1:1 that has to be left for the walk does not wait
/// for the first one.
#[verifier::allow_in_spec]
pub fn correction_due(window: WindowLoop, now_ms: u64, urgent: bool) -> (r: bool)
    returns
        (urgent && window.stall_n == 0) || now_ms.saturating_sub(window.last_nudge_ms) >= if window.stall_n
            < WINDOW_STALL_MAX {
            WINDOW_NUDGE_MS
        } else {
            WINDOW_STALL_MS
        },
{
    let cooldown: u64 = if window.stall_n < WINDOW_STALL_MAX {
        WINDOW_NUDGE_MS
    } else {
        WINDOW_STALL_MS
    };
    (urgent && window.stall_n == 0) || now_ms.saturating_sub(window.last_nudge_ms) >= cooldown
}

/// The episode is over.
#[verifier::allow_in_spec]
pub fn episode_closed(window: WindowLoop) -> (r: WindowLoop)
    returns
        (WindowLoop { best_err_uv: u32::MAX, stall_n: 0, ..window }),
{
    WindowLoop { last_nudge_ms: window.last_nudge_ms, best_err_uv: u32::MAX, stall_n: 0 }
}

/// What a correction did.
#[derive(Debug, Clone, Copy, PartialEq, Eq, Structural)]
pub struct Walk {
    /// Whether 1:1 was left for it.
    pub left_bypass: bool,
    /// Whether a step went out.
    pub moved: bool,
}

#[verifier::opaque]
pub open spec fn walk_run(
    io: Io<Op>,
    usbin_id: Option<u64>,
    hvdcp: HvdcpState,
    tick: Tick,
    outside: bool,
    dead: bool,
    device_ready: bool,
) -> (Io<Op>, HvdcpState, Walk) {
    let (io, left_bypass) = if tick.status.op_mode == OpMode::Bypass {
        let (io, left) = io.effect(Op::PumpStandby);
        (
            if device_ready {
                io.mark("WalkStandby", flag_word(left is Ok))
            } else {
                io
            },
            left is Ok,
        )
    } else {
        (io, false)
    };
    let (io, hvdcp, sent) = correction::nudge_vin_into_window_run(
        io,
        usbin_id,
        hvdcp,
        tick.vbus,
        tick.sample.vbat_uv,
        dead,
    );
    let io = if device_ready {
        io.mark("WindowOut", flag_word(outside)).mark("WindowDead", flag_word(dead))
    } else {
        io
    };
    (io, hvdcp, Walk { left_bypass, moved: sent > 0 })
}

/// One correction. 1:1 is left first: the chip must not see the bus move under
/// it.
fn walk(
    io: &mut Session<Op>,
    usbin_id: Option<u64>,
    hvdcp: &mut HvdcpState,
    tick: &Tick,
    outside: bool,
    dead: bool,
    device_ready: bool,
) -> (r: Walk)
    ensures
        (final(io)@, *final(hvdcp), r) == walk_run(
            old(io)@,
            usbin_id,
            *old(hvdcp),
            *tick,
            outside,
            dead,
            device_ready,
        ),
        old(hvdcp).valid() ==> final(hvdcp).valid(),
{
    proof {
        reveal(walk_run);
    }
    let mut left_bypass = false;
    if tick.status.op_mode == OpMode::Bypass {
        left_bypass = io.effect(Op::PumpStandby).is_ok();
        if device_ready {
            io.mark("WalkStandby", flag_word(left_bypass));
        }
    }
    let sent: u32 = nudge_vin_into_window(
        io,
        usbin_id,
        hvdcp,
        tick.vbus,
        tick.sample.vbat_uv,
        dead,
    );
    if device_ready {
        io.mark("WindowOut", flag_word(outside));
        io.mark("WindowDead", flag_word(dead));
    }
    Walk { left_bypass, moved: sent > 0 }
}

/// What the corrections of a tick depend on.
#[derive(Debug, Clone, Copy)]
pub struct Steering {
    /// Resource-hub connection of the USBIN block.
    pub usbin_id: Option<u64>,
    /// The mode that is called for.
    pub desired: Option<OpMode>,
    /// Peak of the input current (µA).
    pub peak_ua: u32,
    /// Whether there is a device to publish on.
    pub device_ready: bool,
}

#[verifier::opaque]
pub open spec fn keep_in_window_run(
    io: Io<Op>,
    window: WindowLoop,
    hvdcp: HvdcpState,
    tick: Tick,
    steering: Steering,
) -> (Io<Op>, WindowLoop, HvdcpState, Walk) {
    let still = Walk { left_bypass: false, moved: false };
    let vbat_uv = tick.sample.vbat_uv;
    if !correctable(vbat_uv, tick.sample.vbus_uv, steering.desired) {
        (io, episode_closed(window), hvdcp, still)
    } else {
        let dead = dead_transfer(tick.status.op_mode, tick.sample.iin_ua, steering.peak_ua);
        let (io, inside) = io.flag(Op::VinInWindow { vin_uv: tick.vbus, vbat_uv });
        if inside && !dead {
            (io, episode_closed(window), hvdcp, still)
        } else {
            let (io, now) = io.millis(Op::Now);
            let window = progressed(
                window,
                distance(tick.sample.vbus_uv, target_vbus_uv(vbat_uv)),
            );
            let urgent = steering.desired == Some(OpMode::Bypass) && tick.status.op_mode
                == OpMode::Bypass;
            if correction_due(window, now, urgent) {
                let window = WindowLoop {
                    last_nudge_ms: now,
                    stall_n: window.stall_n.saturating_add(1),
                    ..window
                };
                let (io, hvdcp, done) = walk_run(
                    io,
                    steering.usbin_id,
                    hvdcp,
                    tick,
                    !inside,
                    dead,
                    steering.device_ready,
                );
                (io, window, hvdcp, done)
            } else {
                (io, window, hvdcp, still)
            }
        }
    }
}

/// Keeps the bus in the transfer band: where it stands outside, or where the
/// transfer is dead, it is corrected once a correction is due. An episode ends
/// when there is nothing left to correct.
pub fn keep_in_window(
    io: &mut Session<Op>,
    window: &mut WindowLoop,
    hvdcp: &mut HvdcpState,
    tick: &Tick,
    steering: &Steering,
) -> (r: Walk)
    ensures
        (final(io)@, *final(window), *final(hvdcp), r) == keep_in_window_run(
            old(io)@,
            *old(window),
            *old(hvdcp),
            *tick,
            *steering,
        ),
        old(hvdcp).valid() ==> final(hvdcp).valid(),
{
    proof {
        reveal(keep_in_window_run);
    }
    let vbat_uv: u32 = tick.sample.vbat_uv;
    if !correctable(vbat_uv, tick.sample.vbus_uv, steering.desired) {
        *window = episode_closed(*window);
        return Walk { left_bypass: false, moved: false };
    }
    let dead = dead_transfer(tick.status.op_mode, tick.sample.iin_ua, steering.peak_ua);
    let inside = io.flag(Op::VinInWindow { vin_uv: tick.vbus, vbat_uv });
    if inside && !dead {
        *window = episode_closed(*window);
        return Walk { left_bypass: false, moved: false };
    }
    let now: u64 = io.millis(Op::Now);
    *window = progressed(*window, distance(tick.sample.vbus_uv, target_vbus_uv(vbat_uv)));
    let urgent = is_mode(steering.desired, OpMode::Bypass) && tick.status.op_mode
        == OpMode::Bypass;
    if correction_due(*window, now, urgent) {
        window.last_nudge_ms = now;
        window.stall_n = window.stall_n.saturating_add(1);
        walk(io, steering.usbin_id, hvdcp, tick, !inside, dead, steering.device_ready)
    } else {
        Walk { left_bypass: false, moved: false }
    }
}

/// Corrections of one episode never come closer than the short distance, except
/// for the first one of a 1:1 that has to be left.
pub proof fn law_corrections_are_spaced(window: WindowLoop, now_ms: u64, urgent: bool)
    ensures
        correction_due(window, now_ms, urgent) && window.stall_n > 0 ==> now_ms
            >= window.last_nudge_ms + WINDOW_NUDGE_MS,
        correction_due(window, now_ms, urgent) && window.stall_n >= WINDOW_STALL_MAX ==> now_ms
            >= window.last_nudge_ms + WINDOW_STALL_MS,
{
}

/// Whether the input lacks nothing but an elevation: it is present at 5 V,
/// measured, carries nothing, and the cell can still take a fast charge.
#[verifier::allow_in_spec]
pub fn lacks_elevation(tick: Tick, peak_ua: u32, charge_min_vin_uv: i32) -> (r: bool)
    returns
        tick.sample.input_present && tick.vbat_ok && tick.iin_ok && tick.sample.vbus_uv
            >= charge_min_vin_uv && tick.sample.vbus_uv < FIVE_V_STAY_MAX_UV && !(
        tick.status.op_mode == OpMode::Bypass && (tick.sample.iin_ua > IIN_DEAD_FLOOR_UA || peak_ua
            > IIN_DEAD_FLOOR_UA)) && !tick.pump_alive && tick.sample.vbat_uv
            < RE_ELEVATE_MAX_VBAT_UV,
{
    let lowest: u32 = if charge_min_vin_uv < 0 {
        0
    } else {
        charge_min_vin_uv as u32
    };
    let five_v = tick.sample.vbus_uv >= lowest && tick.sample.vbus_uv < FIVE_V_STAY_MAX_UV as u32;
    let carrying = tick.status.op_mode == OpMode::Bypass && (tick.sample.iin_ua > IIN_DEAD_FLOOR_UA
        || peak_ua > IIN_DEAD_FLOOR_UA);
    tick.sample.input_present && tick.vbat_ok && tick.iin_ok && five_v && !carrying
        && !tick.pump_alive && tick.sample.vbat_uv < RE_ELEVATE_MAX_VBAT_UV
}

/// The time in an answer.
pub open spec fn time_of(reply: Reply) -> u64 {
    match reply {
        Reply::Millis(ms) => ms,
        _ => 0,
    }
}

/// The mode in an answer.
pub open spec fn mode_of(reply: Reply) -> Option<OpMode> {
    match reply {
        Reply::Mode(mode) => mode,
        _ => None,
    }
}

/// The bus is kept in the band of the pump, tick by tick. It is left alone where it may
/// not be corrected, where the core finds it inside the band while current flows, and
/// until the next correction is due; an episode ends with the first two. Otherwise the
/// time of the correction is noted, a 1:1 is left for it, and the bus is moved as one
/// correction from where it was measured moves it.
pub proof fn law_window_is_kept(
    io: Io<Op>,
    window: WindowLoop,
    hvdcp: HvdcpState,
    tick: Tick,
    steering: Steering,
)
    requires
        io.pending is None,
        keep_in_window_run(io, window, hvdcp, tick, steering).0.pending is None,
    ensures
        ({
            let (after, left, bus, walk) = keep_in_window_run(io, window, hvdcp, tick, steering);
            let cell = tick.sample.vbat_uv;
            let v = tick.sample.vbus_uv;
            let asked = trace::asked(io, after);
            let open = cell > 0 && (v >= 8_000_000 || v >= 6_000_000 && (steering.desired is None
                || steering.desired == Some(OpMode::Bypass)));
            let dead = tick.status.op_mode == OpMode::Switching && tick.sample.iin_ua <= 60_000
                && steering.peak_ua <= 60_000;
            let inside = trace::yes(trace::answer(io, 0));
            let now = time_of(trace::answer(io, 1));
            let aim = target_vbus_uv(cell);
            let err = if v >= aim {
                v - aim
            } else {
                aim - v
            };
            let closer = err + 50_000 < window.best_err_uv;
            let best = if closer {
                err
            } else {
                window.best_err_uv as int
            };
            let stalled = if closer {
                0
            } else {
                window.stall_n as int
            };
            let urgent = steering.desired == Some(OpMode::Bypass) && tick.status.op_mode
                == OpMode::Bypass;
            let due = urgent && stalled == 0 || now - window.last_nudge_ms >= (if stalled < 4 {
                10_000int
            } else {
                60_000
            });
            let look = Op::VinInWindow { vin_uv: tick.vbus, vbat_uv: cell };
            let still = bus == hvdcp && !walk.left_bypass && !walk.moved && trace::written(
                io,
                after,
            ).len() == 0;
            let closed = left.last_nudge_ms == window.last_nudge_ms && left.best_err_uv == u32::MAX
                && left.stall_n == 0;
            &&& !open ==> asked == Seq::<Op>::empty() && closed && still
            &&& open && inside && !dead ==> asked == seq![look] && closed && still
            &&& open && (!inside || dead) && !due ==> {
                &&& asked == seq![look, Op::Now]
                &&& left.last_nudge_ms == window.last_nudge_ms
                &&& left.best_err_uv == best
                &&& left.stall_n == stalled
                &&& still
            }
            &&& open && (!inside || dead) && due ==> {
                let bypass = tick.status.op_mode == OpMode::Bypass;
                let first = if bypass {
                    seq![look, Op::Now, Op::PumpStandby]
                } else {
                    seq![look, Op::Now]
                };
                &&& left.last_nudge_ms == now
                &&& left.best_err_uv == best
                &&& left.stall_n == stalled + 1 || left.stall_n == u32::MAX
                &&& walk.left_bypass <==> bypass && trace::done(trace::answer(io, 2))
                &&& exists|start: Io<Op>|
                    #![trigger trace::follows(io, start)]
                    {
                        let (end, moved, sent) = correction::nudge_vin_into_window_run(
                            start,
                            steering.usbin_id,
                            hvdcp,
                            tick.vbus,
                            cell,
                            dead,
                        );
                        &&& trace::follows(io, start)
                        &&& trace::asked(io, start) == first
                        &&& asked == first + trace::asked(start, end)
                        &&& trace::written(io, after) == trace::written(start, end)
                        &&& bus == moved
                        &&& walk.moved <==> sent > 0
                    }
            }
        }),
{
    broadcast use trace::group_trace;

    reveal(keep_in_window_run);
    reveal(walk_run);
    trace::lemma_asked_nothing(io);
    trace::lemma_written_nothing(io);
    trace::lemma_follows_at_first(io);
    let (after, left, bus, walk) = keep_in_window_run(io, window, hvdcp, tick, steering);
    let cell = tick.sample.vbat_uv;
    let dead = dead_transfer(tick.status.op_mode, tick.sample.iin_ua, steering.peak_ua);
    let look = Op::VinInWindow { vin_uv: tick.vbus, vbat_uv: cell };
    if correctable(cell, tick.sample.vbus_uv, steering.desired) {
        let (looked, inside) = io.flag(look);
        if !inside || dead {
            let (timed, now) = looked.millis(Op::Now);
            let forward = progressed(window, distance(tick.sample.vbus_uv, target_vbus_uv(cell)));
            let urgent = steering.desired == Some(OpMode::Bypass) && tick.status.op_mode
                == OpMode::Bypass;
            if correction_due(forward, now, urgent) {
                let bypass = tick.status.op_mode == OpMode::Bypass;
                let (left_at, left_it) = timed.effect(Op::PumpStandby);
                let start = if !bypass {
                    timed
                } else if steering.device_ready {
                    left_at.mark("WalkStandby", flag_word(left_it is Ok))
                } else {
                    left_at
                };
                let end = correction::nudge_vin_into_window_run(
                    start,
                    steering.usbin_id,
                    hvdcp,
                    tick.vbus,
                    cell,
                    dead,
                ).0;
                lemma_nudge_follows(start, steering.usbin_id, hvdcp, tick.vbus, cell, dead);
                trace::lemma_honest_after(start, end);
                trace::lemma_finished_before(start, end);
                assert(trace::follows(io, start));
                trace::lemma_honest_after(io, start);
                assert(trace::asked(io, start) =~= if bypass {
                    seq![look, Op::Now, Op::PumpStandby]
                } else {
                    seq![look, Op::Now]
                });
                assert(trace::written(io, start).len() == 0);
                trace::lemma_asked_in_turn(io, start, end);
                trace::lemma_written_in_turn(io, start, end);
                assert(trace::written(io, end) =~= trace::written(start, end));
            }
        }
    }
}

/// A correction belongs to the run that it stands in.
pub proof fn lemma_nudge_follows(
    io: Io<Op>,
    usbin_id: Option<u64>,
    state: HvdcpState,
    vin_uv: i32,
    vbat_uv: u32,
    dead_current: bool,
)
    ensures
        trace::follows(
            io,
            correction::nudge_vin_into_window_run(
                io,
                usbin_id,
                state,
                vin_uv,
                vbat_uv,
                dead_current,
            ).0,
        ),
{
    broadcast use writes::lemma_nudge_obeys;

    writes::lemma_obeys_at_first(io, Rule::Free);
    let after = correction::nudge_vin_into_window_run(
        io,
        usbin_id,
        state,
        vin_uv,
        vbat_uv,
        dead_current,
    ).0;
    assert(writes::obeys(io, after, Rule::Free));
    writes::lemma_obeys_follows(io, after, Rule::Free);
}

/// The published number of the pump: none without an input, its mode with one, and no
/// headroom where the core allows none at 8 V or above.
pub proof fn law_engagement_has_its_number(
    io: Io<Op>,
    input_present: bool,
    vin_uv: i32,
    vbat_uv: u32,
    mode: OpMode,
)
    requires
        io.pending is None,
        io.next < io.replies.len(),
    ensures
        ({
            let (after, r) = engage_state_run(io, input_present, vin_uv, vbat_uv, mode);
            let shut = vin_uv >= 8_000_000 && mode_of(trace::answer(io, 0)) is None;
            &&& !input_present <==> r == 0
            &&& input_present && shut <==> r == 4
            &&& input_present && !shut ==> {
                &&& mode == OpMode::Switching <==> r == 3
                &&& mode == OpMode::Bypass <==> r == 2
                &&& mode != OpMode::Switching && mode != OpMode::Bypass <==> r == 1
            }
            &&& trace::asked(io, after) == if input_present && vin_uv >= 8_000_000 {
                seq![Op::ChargeMode { vin_uv, vbat_uv }]
            } else {
                Seq::<Op>::empty()
            }
        }),
{
    broadcast use trace::group_trace;

    trace::lemma_asked_nothing(io);
}

/// The core is asked which mode an input calls for, except while 2:1 carries current on
/// a bus of 8 V or above: that stays 2:1.
pub proof fn law_running_transfer_stays(io: Io<Op>, tick: Tick)
    requires
        io.pending is None,
        io.next < io.replies.len(),
    ensures
        ({
            let (after, r) = desired_mode_run(io, tick);
            if tick.pump_alive && tick.sample.vbus_uv >= 8_000_000 {
                r == Some(OpMode::Switching) && trace::asked(io, after).len() == 0
            } else {
                r == mode_of(trace::answer(io, 0)) && trace::asked(io, after) == seq![
                    Op::ChargeMode { vin_uv: tick.vbus, vbat_uv: tick.sample.vbat_uv },
                ]
            }
        }),
{
    broadcast use trace::group_trace;

    trace::lemma_asked_nothing(io);
}

/// A pump is settled exactly in the mode that is called for; without one, exactly while
/// it transfers nothing.
pub proof fn law_settled_is_the_called_mode(desired: Option<OpMode>, mode: OpMode)
    ensures
        desired is None ==> (mode_settled(desired, mode) <==> mode != OpMode::Switching && mode
            != OpMode::Bypass),
        desired is Some ==> (mode_settled(desired, mode) <==> desired == Some(mode) && (mode
            == OpMode::Switching || mode == OpMode::Bypass)),
{
}

/// An elevation is missing exactly at a measured 5 V input that carries nothing, below
/// a nearly full cell.
pub proof fn law_elevation_is_missing_at_5v(tick: Tick, peak_ua: u32, charge_min_vin_uv: i32)
    ensures
        lacks_elevation(tick, peak_ua, charge_min_vin_uv) <==> {
            &&& tick.sample.input_present && tick.vbat_ok && tick.iin_ok && !tick.pump_alive
            &&& charge_min_vin_uv <= tick.sample.vbus_uv < 6_000_000
            &&& tick.status.op_mode == OpMode::Bypass ==> tick.sample.iin_ua <= 60_000 && peak_ua
                <= 60_000
            &&& tick.sample.vbat_uv < 4_350_000
        },
{
}

} // verus!
