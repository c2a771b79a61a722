//! The fast charge current of the buck charger.
//!
//! The driver captures what the firmware left, proves once that the register
//! can be written, raises it while the pump carries current if it is told to,
//! and puts it back afterwards. No raise exceeds [`FCC_WRITE_MAX_UA`], and a zero is
//! never written.
use crate::arith::saturating_product;
use crate::exchange::Op;
use crate::pmic::{self, write_fcc_raw, ChargeRegs};
use crate::session::{Io, Session};
use crate::state::FccPolicy;
use crate::usbin::flag_word;
use crate::trace;
use vstd::prelude::*;

verus! {

/// One step of the register (µA).
pub const FCC_STEP_UA: u32 = 50_000;

/// Registry name of the policy's value.
pub const FCC_POLICY_VALUE_NAME: &'static str = "FccRaw";

/// Setting of the one-shot write probe (µA).
pub const FCC_PROBE_UA: u32 = 1_000_000;

/// How long a raise outlives the transfer (ms).
pub const FCC_RESTORE_GRACE_MS: u64 = 120_000;

/// The highest setting that the policy writes (µA).
pub const FCC_WRITE_MAX_UA: u32 = 3_000_000;

/// Cell level from which on neither raising nor elevating makes sense (µV).
pub const RE_ELEVATE_MAX_VBAT_UV: u32 = 4_350_000;

/// What is published for a register that could not be read.
pub const UNREAD: u32 = 0xFFFF_FFFF;

/// The register value of a setting (µA), at most that of
/// [`FCC_WRITE_MAX_UA`].
#[verifier::allow_in_spec]
pub fn raw_for(ua: u32) -> (raw: u8)
    returns
        (if ua / FCC_STEP_UA > 60 {
            60u8
        } else {
            (ua / FCC_STEP_UA) as u8
        }),
{
    let raw: u32 = ua / FCC_STEP_UA;
    let cap: u32 = FCC_WRITE_MAX_UA / FCC_STEP_UA;
    if raw > cap {
        cap as u8
    } else {
        raw as u8
    }
}

/// The register value of a number of steps, under the same cap.
#[verifier::allow_in_spec]
pub fn raw_of_steps(steps: u32) -> (raw: u8)
    returns
        raw_for(saturating_product(steps, FCC_STEP_UA)),
{
    raw_for(saturating_product(steps, FCC_STEP_UA))
}

/// No setting is written above the cap, and below it the register value
/// survives the way through the current and back.
pub proof fn law_fcc_is_capped(ua: u32, steps: u32)
    ensures
        raw_for(ua) * FCC_STEP_UA <= FCC_WRITE_MAX_UA,
        raw_for(ua) * FCC_STEP_UA <= ua,
        raw_of_steps(steps) == if steps <= 60 {
            steps as int
        } else {
            60
        },
{
    assert(steps <= 85899 ==> steps * 50_000 <= u32::MAX);
}

pub open spec fn write_fcc_and_publish_run(io: Io<Op>, want: u8) -> (Io<Op>, bool) {
    let (io, kept) = pmic::write_fcc_raw_run(io, want);
    match kept {
        Some(kept) => (
            io.mark("ChgrFccSet", kept as u32).mark("ChgrFccErr", flag_word(kept != want)),
            kept == want,
        ),
        None => (io.mark("ChgrFccErr", 1), false),
    }
}

/// Writes the register and publishes what came of it; true where the value
/// really ended up there.
pub fn write_fcc_and_publish(io: &mut Session<Op>, want: u8) -> (taken: bool)
    ensures
        (final(io)@, taken) == write_fcc_and_publish_run(old(io)@, want),
{
    match write_fcc_raw(io, want) {
        Some(kept) => {
            io.mark("ChgrFccSet", kept as u32);
            io.mark("ChgrFccErr", flag_word(kept != want));
            kept == want
        },
        None => {
            io.mark("ChgrFccErr", 1);
            false
        },
    }
}

/// The number that is published for a written register.
pub open spec fn kept_word(kept: Option<u8>) -> u32 {
    match kept {
        Some(kept) => kept as u32,
        None => UNREAD,
    }
}

fn published_kept(kept: Option<u8>) -> (word: u32)
    ensures
        word == kept_word(kept),
{
    match kept {
        Some(kept) => kept as u32,
        None => UNREAD,
    }
}

pub open spec fn probe_run(io: Io<Op>, fcc: FccPolicy, policy_owns: bool) -> (Io<Op>, FccPolicy) {
    let done = FccPolicy { probe_done: true, ..fcc };
    if policy_owns {
        (io.mark("ChgrProbeOk", 3), done)
    } else if raw_for(FCC_PROBE_UA) >= fcc.boot_raw {
        (io.mark("ChgrProbeOk", 2), done)
    } else {
        let (io, wrote) = pmic::write_fcc_raw_run(io, raw_for(FCC_PROBE_UA));
        let (io, restored) = pmic::write_fcc_raw_run(io, fcc.boot_raw);
        (
            io.mark("ChgrProbeWrote", kept_word(wrote))
                .mark("ChgrProbeRestored", kept_word(restored))
                .mark("ChgrProbeErr", flag_word(wrote is None || restored is None))
                .mark("ChgrProbeOk", flag_word(wrote == Some(raw_for(FCC_PROBE_UA)))),
            done,
        )
    }
}

/// The one-shot write probe: a setting strictly below the captured one is
/// written and the captured one put back at once. It gives way to the policy
/// and to a captured value that is not above it.
fn probe(io: &mut Session<Op>, fcc: &mut FccPolicy, policy_owns: bool)
    ensures
        (final(io)@, *final(fcc)) == probe_run(old(io)@, *old(fcc), policy_owns),
{
    let setting: u8 = raw_for(FCC_PROBE_UA);
    if policy_owns {
        io.mark("ChgrProbeOk", 3);
    } else if setting >= fcc.boot_raw {
        io.mark("ChgrProbeOk", 2);
    } else {
        let wrote = write_fcc_raw(io, setting);
        let restored = write_fcc_raw(io, fcc.boot_raw);
        let failed = wrote.is_none() || restored.is_none();
        let taken = match wrote {
            Some(kept) => kept == setting,
            None => false,
        };
        io.mark("ChgrProbeWrote", published_kept(wrote));
        io.mark("ChgrProbeRestored", published_kept(restored));
        io.mark("ChgrProbeErr", flag_word(failed));
        io.mark("ChgrProbeOk", flag_word(taken));
    }
    fcc.probe_done = true;
}

pub open spec fn publish_regs_run(io: Io<Op>, regs: ChargeRegs, vbat_mv: u32) -> Io<Op> {
    io.mark("ChgrFccRaw", regs.fcc_raw as u32)
        .mark("ChgrEn", regs.charge_enable as u32)
        .mark("ChgrInhibit", regs.inhibit as u32)
        .mark("ChgrStatus", regs.chgr_status as u32)
        .mark("ChgrFvRaw", regs.fv_raw as u32)
        .mark("ChgrIclRaw", regs.icl_raw as u32)
        .mark("ChgrAllow", regs.usbin_allow as u32)
        .mark("FgIbatUa", regs.ibatt_ua)
        .mark("FgVbattMv", regs.fg_vbatt_uv / 1000)
        .mark("VbatAdcMv", vbat_mv)
        .mark("ChgrErr", 0)
}

fn publish_regs(io: &mut Session<Op>, regs: &ChargeRegs, vbat_mv: u32)
    ensures
        final(io)@ == publish_regs_run(old(io)@, *regs, vbat_mv),
{
    io.mark("ChgrFccRaw", regs.fcc_raw as u32);
    io.mark("ChgrEn", regs.charge_enable as u32);
    io.mark("ChgrInhibit", regs.inhibit as u32);
    io.mark("ChgrStatus", regs.chgr_status as u32);
    io.mark("ChgrFvRaw", regs.fv_raw as u32);
    io.mark("ChgrIclRaw", regs.icl_raw as u32);
    io.mark("ChgrAllow", regs.usbin_allow as u32);
    io.mark("FgIbatUa", regs.ibatt_ua);
    io.mark("FgVbattMv", regs.fg_vbatt_uv / 1000);
    io.mark("VbatAdcMv", vbat_mv);
    io.mark("ChgrErr", 0);
}

pub open spec fn publish_unread_run(io: Io<Op>, vbat_mv: u32) -> Io<Op> {
    io.mark("ChgrFccRaw", UNREAD)
        .mark("ChgrEn", UNREAD)
        .mark("ChgrInhibit", UNREAD)
        .mark("ChgrStatus", UNREAD)
        .mark("ChgrFvRaw", UNREAD)
        .mark("ChgrIclRaw", UNREAD)
        .mark("ChgrAllow", UNREAD)
        .mark("FgIbatUa", UNREAD)
        .mark("FgVbattMv", UNREAD)
        .mark("VbatAdcMv", vbat_mv)
        .mark("ChgrErr", 1)
}

fn publish_unread(io: &mut Session<Op>, vbat_mv: u32)
    ensures
        final(io)@ == publish_unread_run(old(io)@, vbat_mv),
{
    io.mark("ChgrFccRaw", UNREAD);
    io.mark("ChgrEn", UNREAD);
    io.mark("ChgrInhibit", UNREAD);
    io.mark("ChgrStatus", UNREAD);
    io.mark("ChgrFvRaw", UNREAD);
    io.mark("ChgrIclRaw", UNREAD);
    io.mark("ChgrAllow", UNREAD);
    io.mark("FgIbatUa", UNREAD);
    io.mark("FgVbattMv", UNREAD);
    io.mark("VbatAdcMv", vbat_mv);
    io.mark("ChgrErr", 1);
}

/// What the buck section of a tick depends on.
#[derive(Debug, Clone, Copy)]
pub struct BuckInputs {
    /// Time of the tick (ms).
    pub now_ms: u64,
    /// Cell (µV).
    pub vbat_uv: u32,
    /// Whether 2:1 carries current.
    pub pump_alive: bool,
    /// Whether the chip reports a critical fault.
    pub critical: bool,
}

pub open spec fn snapshot_run(io: Io<Op>, fcc: FccPolicy, inputs: BuckInputs) -> (
    Io<Op>,
    FccPolicy,
) {
    let (io, regs) = pmic::read_charge_regs_run(io);
    match regs {
        None => (publish_unread_run(io, inputs.vbat_uv / 1000), fcc),
        Some(regs) => {
            let fcc = if fcc.boot_raw == 0 {
                FccPolicy { boot_raw: regs.fcc_raw, ..fcc }
            } else {
                fcc
            };
            let io = publish_regs_run(io, regs, inputs.vbat_uv / 1000);
            if !fcc.probe_done && fcc.boot_raw != 0 && !inputs.critical {
                probe_run(
                    io,
                    fcc,
                    fcc.raised || (inputs.pump_alive && inputs.vbat_uv < RE_ELEVATE_MAX_VBAT_UV),
                )
            } else {
                (io, fcc)
            }
        },
    }
}

/// Reads and publishes the buck's registers, captures what the firmware left,
/// and settles the write probe.
fn snapshot(io: &mut Session<Op>, fcc: &mut FccPolicy, inputs: &BuckInputs)
    ensures
        (final(io)@, *final(fcc)) == snapshot_run(old(io)@, *old(fcc), *inputs),
{
    match pmic::read_charge_regs(io) {
        Some(regs) => {
            if fcc.boot_raw == 0 {
                fcc.boot_raw = regs.fcc_raw;
            }
            publish_regs(io, &regs, inputs.vbat_uv / 1000);
            if !fcc.probe_done && fcc.boot_raw != 0 && !inputs.critical {
                let owns = fcc.raised || (inputs.pump_alive && inputs.vbat_uv
                    < RE_ELEVATE_MAX_VBAT_UV);
                probe(io, fcc, owns);
            }
        },
        None => {
            publish_unread(io, inputs.vbat_uv / 1000);
        },
    }
}

/// What the policy does on a tick.
#[derive(Debug, Clone, Copy, PartialEq, Eq, Structural)]
pub enum FccStep {
    /// Nothing.
    Keep,
    /// Write the configured setting.
    Raise(u8),
    /// Start the grace before the captured setting comes back.
    Schedule(u64),
    /// Write the captured setting.
    Restore(u8),
}

/// The policy's decision: raise while the pump carries current below the cell
/// limit and there is something to go back to; go back a grace after the
/// transfer ended; do neither under a critical fault.
#[verifier::allow_in_spec]
pub fn policy_step(fcc: FccPolicy, inputs: BuckInputs) -> (step: FccStep)
    returns
        (if inputs.critical {
            FccStep::Keep
        } else if inputs.pump_alive {
            if fcc.cfg_raw != 0 && !fcc.raised && fcc.boot_raw != 0 && inputs.vbat_uv
                < RE_ELEVATE_MAX_VBAT_UV {
                FccStep::Raise(raw_of_steps(fcc.cfg_raw))
            } else {
                FccStep::Keep
            }
        } else if fcc.raised {
            if fcc.restore_at_ms == 0 {
                FccStep::Schedule(inputs.now_ms.saturating_add(FCC_RESTORE_GRACE_MS))
            } else if inputs.now_ms >= fcc.restore_at_ms {
                FccStep::Restore(raw_of_steps(fcc.boot_raw as u32))
            } else {
                FccStep::Keep
            }
        } else {
            FccStep::Keep
        }),
{
    if inputs.critical {
        return FccStep::Keep;
    }
    if inputs.pump_alive {
        if fcc.cfg_raw != 0 && !fcc.raised && fcc.boot_raw != 0 && inputs.vbat_uv
            < RE_ELEVATE_MAX_VBAT_UV {
            FccStep::Raise(raw_of_steps(fcc.cfg_raw))
        } else {
            FccStep::Keep
        }
    } else if fcc.raised {
        if fcc.restore_at_ms == 0 {
            FccStep::Schedule(inputs.now_ms.saturating_add(FCC_RESTORE_GRACE_MS))
        } else if inputs.now_ms >= fcc.restore_at_ms {
            FccStep::Restore(raw_of_steps(fcc.boot_raw as u32))
        } else {
            FccStep::Keep
        }
    } else {
        FccStep::Keep
    }
}

pub open spec fn policy_run(io: Io<Op>, fcc: FccPolicy, inputs: BuckInputs) -> (Io<Op>, FccPolicy) {
    let step = policy_step(fcc, inputs);
    let fcc = if !inputs.critical && inputs.pump_alive {
        FccPolicy { restore_at_ms: 0, ..fcc }
    } else {
        fcc
    };
    match step {
        FccStep::Keep => (io, fcc),
        FccStep::Raise(want) => {
            let (io, taken) = write_fcc_and_publish_run(io, want);
            (io, if taken {
                FccPolicy { raised: true, ..fcc }
            } else {
                fcc
            })
        },
        FccStep::Schedule(at) => (io, FccPolicy { restore_at_ms: at, ..fcc }),
        FccStep::Restore(want) => {
            let (io, taken) = write_fcc_and_publish_run(io, want);
            (io, if taken {
                FccPolicy { raised: false, restore_at_ms: 0, ..fcc }
            } else {
                fcc
            })
        },
    }
}

/// Carries out the policy's decision. A write that did not take is tried again
/// on a later tick.
fn policy(io: &mut Session<Op>, fcc: &mut FccPolicy, inputs: &BuckInputs)
    ensures
        (final(io)@, *final(fcc)) == policy_run(old(io)@, *old(fcc), *inputs),
{
    let step = policy_step(*fcc, *inputs);
    if !inputs.critical && inputs.pump_alive {
        fcc.restore_at_ms = 0;
    }
    match step {
        FccStep::Keep => {},
        FccStep::Raise(want) => {
            if write_fcc_and_publish(io, want) {
                fcc.raised = true;
            }
        },
        FccStep::Schedule(at) => {
            fcc.restore_at_ms = at;
        },
        FccStep::Restore(want) => {
            if write_fcc_and_publish(io, want) {
                fcc.raised = false;
                fcc.restore_at_ms = 0;
            }
        },
    }
}

/// Whether the buck section is due: at first, and then once per period.
#[verifier::allow_in_spec]
pub fn buck_due(last_mark_ms: u64, now_ms: u64, period_ms: u64) -> (due: bool)
    returns
        last_mark_ms == 0 || now_ms.saturating_sub(last_mark_ms) >= period_ms,
{
    last_mark_ms == 0 || now_ms.saturating_sub(last_mark_ms) >= period_ms
}

pub open spec fn buck_tick_run(
    io: Io<Op>,
    fcc: FccPolicy,
    inputs: BuckInputs,
    period_ms: u64,
) -> (Io<Op>, FccPolicy) {
    if buck_due(fcc.last_mark_ms, inputs.now_ms, period_ms) {
        let (io, fcc) = snapshot_run(
            io,
            FccPolicy { last_mark_ms: inputs.now_ms, ..fcc },
            inputs,
        );
        policy_run(io, fcc, inputs)
    } else {
        (io, fcc)
    }
}

/// The buck section of a telemetry tick.
pub fn buck_tick(io: &mut Session<Op>, fcc: &mut FccPolicy, inputs: &BuckInputs, period_ms: u64)
    ensures
        (final(io)@, *final(fcc)) == buck_tick_run(old(io)@, *old(fcc), *inputs, period_ms),
        old(fcc).valid() ==> final(fcc).valid(),
{
    if buck_due(fcc.last_mark_ms, inputs.now_ms, period_ms) {
        fcc.last_mark_ms = inputs.now_ms;
        snapshot(io, fcc, inputs);
        policy(io, fcc, inputs);
    }
}

/// Without a configured setting, or without a captured one, or under a
/// critical fault, the policy never raises; it never writes above the cap; and
/// it goes back only to what was captured, which is never a zero.
pub proof fn law_policy_is_bounded(fcc: FccPolicy, inputs: BuckInputs)
    ensures
        policy_step(fcc, inputs) is Raise ==> fcc.cfg_raw != 0 && fcc.boot_raw != 0
            && !inputs.critical && inputs.pump_alive && inputs.vbat_uv < RE_ELEVATE_MAX_VBAT_UV,
        policy_step(fcc, inputs) matches FccStep::Raise(want) ==> 0 < want <= 60,
        fcc.valid() ==> (policy_step(fcc, inputs) matches FccStep::Restore(want) ==> want != 0),
        policy_step(fcc, inputs) matches FccStep::Restore(want) ==> fcc.raised && want == if fcc.boot_raw
            <= 60 {
            fcc.boot_raw as int
        } else {
            60
        },
{
    law_fcc_is_capped(0, fcc.boot_raw as u32);
    law_fcc_is_capped(0, fcc.cfg_raw);
}

/// The probe writes only below the captured setting, puts that back, and is
/// done once.
pub proof fn law_probe_is_downward(io: Io<Op>, fcc: FccPolicy, policy_owns: bool)
    ensures
        probe_run(io, fcc, policy_owns).1 == (FccPolicy { probe_done: true, ..fcc }),
        !policy_owns && raw_for(FCC_PROBE_UA) < fcc.boot_raw ==> ({
            let (io1, _) = pmic::write_fcc_raw_run(io, 20);
            let (io2, _) = pmic::write_fcc_raw_run(io1, fcc.boot_raw);
            20 < fcc.boot_raw && exists|a: u32, b: u32, c: u32, d: u32|
                probe_run(io, fcc, policy_owns).0 == #[trigger] io2.mark("ChgrProbeWrote", a).mark(
                    "ChgrProbeRestored",
                    b,
                ).mark("ChgrProbeErr", c).mark("ChgrProbeOk", d)
        }),
        policy_owns || raw_for(FCC_PROBE_UA) >= fcc.boot_raw ==> exists|v: u32|
            probe_run(io, fcc, policy_owns).0 == #[trigger] io.mark("ChgrProbeOk", v),
{
}

/// Without a configured setting the policy asks for nothing, and it stays off.
pub proof fn law_no_setting_no_policy(io: Io<Op>, fcc: FccPolicy, inputs: BuckInputs)
    requires
        fcc.cfg_raw == 0,
        !fcc.raised,
    ensures
        policy_run(io, fcc, inputs).0 == io,
        policy_run(io, fcc, inputs).1.cfg_raw == 0,
        !policy_run(io, fcc, inputs).1.raised,
{
}

/// What was captured first stays, and a settled probe stays settled, whatever a
/// tick reads.
pub proof fn law_capture_is_final(
    io: Io<Op>,
    fcc: FccPolicy,
    inputs: BuckInputs,
    period_ms: u64,
)
    ensures
        fcc.boot_raw != 0 ==> buck_tick_run(io, fcc, inputs, period_ms).1.boot_raw == fcc.boot_raw,
        fcc.probe_done ==> buck_tick_run(io, fcc, inputs, period_ms).1.probe_done,
        buck_tick_run(io, fcc, inputs, period_ms).1.cfg_raw == fcc.cfg_raw,
{
}

// ---------------------------------------------------------------------------
// Laws of what the buck section does
// ---------------------------------------------------------------------------
/// A register value counts 50 mA a step and ends at 3 A, which is 60 steps.
pub proof fn law_current_has_its_steps(ua: u32)
    ensures
        ua >= 3_000_000 ==> raw_for(ua) == 60,
        ua < 3_000_000 ==> raw_for(ua) * 50_000 <= ua < raw_for(ua) * 50_000 + 50_000,
{
}

/// The policy writes the configured setting, at most 60 steps, while the pump carries
/// current below 4.35 V and there is a captured one to go back to; two minutes after
/// the transfer ended it writes that back; and it does neither under a critical fault.
/// A raise counts, and a return, only where the register kept what was written.
pub proof fn law_policy_writes_its_setting(io: Io<Op>, fcc: FccPolicy, inputs: BuckInputs)
    requires
        io.pending is None,
        policy_run(io, fcc, inputs).0.pending is None,
    ensures
        ({
            let (after, left) = policy_run(io, fcc, inputs);
            let asked = trace::asked(io, after);
            let calm = !inputs.critical;
            let raises = calm && inputs.pump_alive && fcc.cfg_raw != 0 && !fcc.raised
                && fcc.boot_raw != 0 && inputs.vbat_uv < 4_350_000;
            let ended = calm && !inputs.pump_alive && fcc.raised;
            let schedules = ended && fcc.restore_at_ms == 0;
            let restores = ended && fcc.restore_at_ms != 0 && inputs.now_ms >= fcc.restore_at_ms;
            let steps = if raises {
                fcc.cfg_raw
            } else {
                fcc.boot_raw as u32
            };
            let want = if steps > 60 {
                60
            } else {
                steps as u8
            };
            let granted = trace::good(trace::answer(io, 0)) && trace::good(trace::answer(io, 1));
            let taken = granted && trace::yes(trace::answer(io, 2)) && pmic::byte_of(
                trace::answer(io, 3),
            ) == Some(want);
            &&& raises || restores ==> asked.len() > 0 && asked[0] == Op::SuOpen
                && trace::written(io, after) == if granted {
                seq![(0x1061u16, want)]
            } else {
                Seq::<(u16, u8)>::empty()
            }
            &&& !raises && !restores ==> asked.len() == 0
            &&& raises ==> (left.raised <==> taken)
            &&& restores ==> (left.raised <==> !taken) && (taken ==> left.restore_at_ms == 0) && (
            !taken ==> left.restore_at_ms == fcc.restore_at_ms)
            &&& !raises && !restores ==> left.raised == fcc.raised
            &&& schedules ==> left.restore_at_ms == if inputs.now_ms + 120_000 > u64::MAX {
                u64::MAX as int
            } else {
                inputs.now_ms + 120_000
            }
            &&& calm && inputs.pump_alive ==> left.restore_at_ms == 0
            &&& !schedules && !restores && !(calm && inputs.pump_alive) ==> left.restore_at_ms
                == fcc.restore_at_ms
            &&& left == (FccPolicy {
                raised: left.raised,
                restore_at_ms: left.restore_at_ms,
                ..fcc
            })
        }),
{
    broadcast use trace::group_trace;

    trace::lemma_asked_nothing(io);
    law_fcc_is_capped(0, fcc.boot_raw as u32);
    law_fcc_is_capped(0, fcc.cfg_raw);
    let step = policy_step(fcc, inputs);
    let want = match step {
        FccStep::Raise(want) => want,
        FccStep::Restore(want) => want,
        _ => 0,
    };
    if step is Raise || step is Restore {
        let (at, kept) = pmic::write_fcc_raw_run(io, want);
        pmic::law_charge_current_is_written(io, want);
        trace::lemma_honest_after(io, at);
    }
}

/// The probe writes 1 A and then what was captured, where that is more and the policy
/// does not own the register; otherwise it writes nothing. It succeeds where the
/// register kept the 1 A.
pub proof fn law_probe_writes_and_restores(io: Io<Op>, fcc: FccPolicy, policy_owns: bool)
    requires
        trace::honest(io),
        io.pending is None,
        probe_run(io, fcc, policy_owns).0.pending is None,
    ensures
        ({
            let (after, left) = probe_run(io, fcc, policy_owns);
            let probes = !policy_owns && fcc.boot_raw > 20;
            let published = trace::published(io, after);
            &&& trace::follows(io, after)
            &&& left == (FccPolicy { probe_done: true, ..fcc })
            &&& !probes ==> trace::asked(io, after).len() == 0 && published == seq![
                ("ChgrProbeOk", if policy_owns {
                    3u32
                } else {
                    2u32
                }),
            ]
            &&& probes && trace::smooth(io, after) ==> trace::written(io, after) == seq![
                (0x1061u16, 20u8),
                (0x1061u16, fcc.boot_raw),
            ]
            &&& probes ==> published.len() == 4 && published.last().0 == "ChgrProbeOk"
            &&& probes && published.last().1 != 0 ==> published.last().1 == 1 && pmic::byte_of(
                trace::answer(io, 3),
            ) == Some(20u8)
        }),
{
    broadcast use {trace::group_trace, trace::group_marks};

    trace::lemma_asked_nothing(io);
    trace::lemma_written_nothing(io);
    trace::lemma_published_nothing(io);
    trace::lemma_follows_at_first(io);
    if !policy_owns && fcc.boot_raw > 20 {
        let after = probe_run(io, fcc, policy_owns).0;
        let (first, wrote) = pmic::write_fcc_raw_run(io, 20);
        let (second, restored) = pmic::write_fcc_raw_run(first, fcc.boot_raw);
        trace::lemma_follows_at_first(first);
        assert(trace::follows(first, second));
        trace::lemma_finished_before(first, second);
        pmic::law_charge_current_is_written(io, 20);
        pmic::law_charge_current_is_written(first, fcc.boot_raw);
        trace::lemma_honest_after(io, first);
        trace::lemma_honest_after(first, second);
        trace::lemma_written_in_turn(io, first, second);
        trace::lemma_published_in_turn(io, first, second);
        trace::lemma_follows_in_turn(io, first, second);
        if trace::smooth(io, after) {
            trace::lemma_smooth_parts(io, first, second);
            lemma_smooth_write(io, 20);
            lemma_smooth_write(first, fcc.boot_raw);
        }
    }
}

proof fn lemma_smooth_write(io: Io<Op>, raw: u8)
    requires
        trace::honest(io),
        io.pending is None,
        pmic::write_fcc_raw_run(io, raw).0.pending is None,
        trace::smooth(io, pmic::write_fcc_raw_run(io, raw).0),
    ensures
        trace::written(io, pmic::write_fcc_raw_run(io, raw).0) == seq![(0x1061u16, raw)],
{
    broadcast use trace::group_trace;

    pmic::law_charge_current_is_written(io, raw);
}

/// The section comes once per period, and at first. Then it looks at the registers, and
/// what it reads first of the charge current is what it goes back to.
pub proof fn law_buck_comes_once_per_period(
    io: Io<Op>,
    fcc: FccPolicy,
    inputs: BuckInputs,
    period_ms: u64,
)
    requires
        io.pending is None,
        buck_tick_run(io, fcc, inputs, period_ms).0.pending is None,
    ensures
        ({
            let (after, left) = buck_tick_run(io, fcc, inputs, period_ms);
            let due = fcc.last_mark_ms == 0 || inputs.now_ms - fcc.last_mark_ms >= period_ms
                || period_ms == 0;
            let (read, regs) = pmic::read_charge_regs_run(io);
            &&& !due ==> trace::asked(io, after).len() == 0 && left == fcc && after == io
            &&& due ==> {
                &&& left.last_mark_ms == inputs.now_ms
                &&& trace::asked(io, after).len() > 0 && trace::asked(io, after)[0] == Op::SuOpen
                &&& fcc.boot_raw == 0 ==> left.boot_raw == match regs {
                    Some(regs) => regs.fcc_raw,
                    None => 0,
                }
                &&& fcc.boot_raw != 0 ==> left.boot_raw == fcc.boot_raw
                &&& left.probe_done <==> fcc.probe_done || regs is Some && left.boot_raw != 0
                    && !inputs.critical
                &&& left.cfg_raw == fcc.cfg_raw
            }
        }),
{
    if buck_due(fcc.last_mark_ms, inputs.now_ms, period_ms) {
        let after = buck_tick_run(io, fcc, inputs, period_ms).0;
        lemma_buck_follows(io, fcc, inputs, period_ms);
        trace::lemma_finished_before(io.tell(Op::SuOpen), after);
        trace::lemma_asked_grows(io, io.tell(Op::SuOpen), after);
        trace::lemma_asked_ask(io, io, Op::SuOpen);
        trace::lemma_asked_nothing(io);
    } else {
        trace::lemma_asked_nothing(io);
    }
}

proof fn lemma_buck_follows(io: Io<Op>, fcc: FccPolicy, inputs: BuckInputs, period_ms: u64)
    requires
        buck_due(fcc.last_mark_ms, inputs.now_ms, period_ms),
    ensures
        trace::follows(io.tell(Op::SuOpen), buck_tick_run(io, fcc, inputs, period_ms).0),
{
    broadcast use {trace::lemma_ask_follows, trace::lemma_record_follows};

    let at = io.tell(Op::SuOpen);
    trace::lemma_follows_at_first(at);
    let marked = FccPolicy { last_mark_ms: inputs.now_ms, ..fcc };
    let read = pmic::read_charge_regs_run(io).0;
    reveal_with_fuel(pmic::read_each_run, 8);
    assert(trace::follows(at, read));
    let (seen, kept) = snapshot_run(io, marked, inputs);
    assert(trace::follows(at, seen));
}

/// What is published of the registers, in order; a register that could not be read is
/// all ones.
#[verifier::rlimit(60)]
pub proof fn law_registers_are_published(io: Io<Op>, regs: ChargeRegs, vbat_mv: u32)
    requires
        io.pending is None,
    ensures
        trace::published(io, publish_regs_run(io, regs, vbat_mv)) == seq![
            ("ChgrFccRaw", regs.fcc_raw as u32),
            ("ChgrEn", regs.charge_enable as u32),
            ("ChgrInhibit", regs.inhibit as u32),
            ("ChgrStatus", regs.chgr_status as u32),
            ("ChgrFvRaw", regs.fv_raw as u32),
            ("ChgrIclRaw", regs.icl_raw as u32),
            ("ChgrAllow", regs.usbin_allow as u32),
            ("FgIbatUa", regs.ibatt_ua),
            ("FgVbattMv", regs.fg_vbatt_uv / 1000),
            ("VbatAdcMv", vbat_mv),
            ("ChgrErr", 0u32),
        ],
        trace::published(io, publish_unread_run(io, vbat_mv)) == seq![
            ("ChgrFccRaw", 0xFFFF_FFFFu32),
            ("ChgrEn", 0xFFFF_FFFFu32),
            ("ChgrInhibit", 0xFFFF_FFFFu32),
            ("ChgrStatus", 0xFFFF_FFFFu32),
            ("ChgrFvRaw", 0xFFFF_FFFFu32),
            ("ChgrIclRaw", 0xFFFF_FFFFu32),
            ("ChgrAllow", 0xFFFF_FFFFu32),
            ("FgIbatUa", 0xFFFF_FFFFu32),
            ("FgVbattMv", 0xFFFF_FFFFu32),
            ("VbatAdcMv", vbat_mv),
            ("ChgrErr", 1u32),
        ],
{
    broadcast use trace::group_marks;

    trace::lemma_published_nothing(io);
}

/// A current that is written is published as the register kept it, with whether that is
/// what was wanted; one that could not be written is an error.
pub proof fn law_written_current_is_published(io: Io<Op>, want: u8)
    requires
        write_fcc_and_publish_run(io, want).0.pending is None,
    ensures
        ({
            let (after, done) = write_fcc_and_publish_run(io, want);
            let (at, kept) = pmic::write_fcc_raw_run(io, want);
            &&& done <==> kept == Some(want)
            &&& kept matches Some(kept) ==> trace::published(at, after) == seq![
                ("ChgrFccSet", kept as u32),
                (
                    "ChgrFccErr",
                    if kept == want {
                        0u32
                    } else {
                        1
                    },
                ),
            ]
            &&& kept is None ==> trace::published(at, after) == seq![("ChgrFccErr", 1u32)]
        }),
{
    broadcast use trace::group_marks;

    trace::lemma_published_nothing(pmic::write_fcc_raw_run(io, want).0);
}

} // verus!
