//! What a telemetry tick measures, and how it is published.
use crate::arith::{fit_u32, nonneg};
use crate::band::vbat_reading_usable;
use crate::battery::{
    self, last_percent, last_power_state, last_soc_source, note_gauge_failure, set_gauge_raw,
    soc_last_rise_ms, soc_rising, update_from_telemetry, Battery, Readings,
};
use crate::exchange::{Op, Reply};
use crate::gauge::{GaugePoll, GAUGE_POLL_MS};
use crate::hvdcp::IIN_DEAD_FLOOR_UA;
use crate::landing::reading_or;
use crate::pump::{
    AdcChannel, AdcMode, ChipStatus, OpMode, TelemetrySample, Tuning, FAULT1_VAC_UNPLUG,
};
use crate::session::{Io, Session};
use crate::state::{AdcPower, IinWindow};
use crate::usbin::flag_word;
use crate::trace;
use crate::steer;
use crate::landing;
use vstd::prelude::*;

verus! {

/// Length of the window over which the peak of the input current is taken (ms).
pub const IIN_WINDOW_MS: u64 = 5_000;

/// The measurements of one tick.
#[derive(Debug, Clone, Copy)]
pub struct Tick {
    /// Status registers.
    pub status: ChipStatus,
    /// The sample.
    pub sample: TelemetrySample,
    /// Input as it was read (µV); 0 where it was not.
    pub vbus: i32,
    /// Whether the cell was read.
    pub vbat_ok: bool,
    /// Whether the input was read.
    pub vbus_ok: bool,
    /// Whether the input current was read.
    pub iin_ok: bool,
    /// Whether the chip reports an unplug.
    pub vac_unplug: bool,
    /// Whether the readings are usable as evidence of an adapter.
    pub usable: bool,
    /// Whether 2:1 carries current.
    pub pump_alive: bool,
}

pub open spec fn phantom_run(
    io: Io<Op>,
    status: ChipStatus,
    vbat_uv: u32,
    vbus_uv: u32,
    iin_ua: u32,
) -> (Io<Op>, bool) {
    if iin_ua < IIN_DEAD_FLOOR_UA && status.op_mode != OpMode::Switching && status.op_mode
        != OpMode::Bypass {
        if status.fault1_sts & FAULT1_VAC_UNPLUG != 0 {
            (io, true)
        } else {
            io.flag(Op::VinDoubled { vbat_uv, vbus_uv })
        }
    } else {
        (io, false)
    }
}

/// Whether an idle pump without current only sees its own cell at the input:
/// the chip reports an unplug, or the input is the doubled cell.
fn phantom(
    io: &mut Session<Op>,
    status: &ChipStatus,
    vbat_uv: u32,
    vbus_uv: u32,
    iin_ua: u32,
) -> (r: bool)
    ensures
        (final(io)@, r) == phantom_run(old(io)@, *status, vbat_uv, vbus_uv, iin_ua),
{
    if iin_ua < IIN_DEAD_FLOOR_UA && status.op_mode != OpMode::Switching && status.op_mode
        != OpMode::Bypass {
        if status.fault1_sts & FAULT1_VAC_UNPLUG != 0 {
            true
        } else {
            io.flag(Op::VinDoubled { vbat_uv, vbus_uv })
        }
    } else {
        false
    }
}

/// What the tick makes of the readings, its time and the phantom verdict.
pub open spec fn tick_of(
    status: ChipStatus,
    vbat: Option<i32>,
    vbus: Option<i32>,
    iin: Option<i32>,
    temp: Option<i32>,
    phantom_input: bool,
    ts_ms: u64,
) -> Tick {
    let vbat_uv = nonneg(reading_or(vbat, 0));
    let vbus_uv = nonneg(reading_or(vbus, 0));
    let iin_ua = nonneg(reading_or(iin, 0));
    let vbat_valid = vbat_reading_usable(vbat is Some, vbat_uv);
    Tick {
        status,
        sample: TelemetrySample {
            ts_ms,
            vbat_uv,
            vbus_uv,
            iin_ua,
            die_temp_dc: reading_or(temp, 0),
            op_mode: status.op_mode,
            input_present: !status.critical && vbus_uv > 0 && !phantom_input,
            vbat_valid,
            die_temp_valid: temp is Some,
        },
        vbus: reading_or(vbus, 0),
        vbat_ok: vbat is Some,
        vbus_ok: vbus is Some,
        iin_ok: iin is Some,
        vac_unplug: status.fault1_sts & FAULT1_VAC_UNPLUG != 0,
        usable: vbat_valid && vbus is Some && vbus_uv > 0,
        pump_alive: status.op_mode == OpMode::Switching && iin_ua > IIN_DEAD_FLOOR_UA,
    }
}

#[verifier::opaque]
pub open spec fn observe_run(io: Io<Op>, status: ChipStatus) -> (Io<Op>, Tick) {
    let (io, vbat) = io.reading(Op::PumpAdc(AdcChannel::Vbat));
    let (io, vbus) = io.reading(Op::PumpAdc(AdcChannel::Vin));
    let (io, iin) = io.reading(Op::PumpAdc(AdcChannel::Iin));
    let (io, temp) = io.reading(Op::PumpAdc(AdcChannel::DieTemp));
    let (io, phantom_input) = phantom_run(
        io,
        status,
        nonneg(reading_or(vbat, 0)),
        nonneg(reading_or(vbus, 0)),
        nonneg(reading_or(iin, 0)),
    );
    let (io, ts_ms) = io.millis(Op::Now);
    let tick = tick_of(status, vbat, vbus, iin, temp, phantom_input, ts_ms);
    (io.tell(Op::TelemetryPush(tick.sample)), tick)
}

/// Takes the tick's sample and appends it to the telemetry.
pub fn observe(io: &mut Session<Op>, status: ChipStatus) -> (tick: Tick)
    ensures
        (final(io)@, tick) == observe_run(old(io)@, status),
{
    proof {
        reveal(observe_run);
    }
    let vbat = io.reading(Op::PumpAdc(AdcChannel::Vbat));
    let vbus = io.reading(Op::PumpAdc(AdcChannel::Vin));
    let iin = io.reading(Op::PumpAdc(AdcChannel::Iin));
    let temp = io.reading(Op::PumpAdc(AdcChannel::DieTemp));
    let vbat_uv: u32 = nonneg(reading_or(vbat, 0));
    let vbus_uv: u32 = nonneg(reading_or(vbus, 0));
    let iin_ua: u32 = nonneg(reading_or(iin, 0));
    let phantom_input = phantom(io, &status, vbat_uv, vbus_uv, iin_ua);
    let vbat_valid = vbat_reading_usable(vbat.is_some(), vbat_uv);
    let ts_ms: u64 = io.millis(Op::Now);
    let sample = TelemetrySample {
        ts_ms,
        vbat_uv,
        vbus_uv,
        iin_ua,
        die_temp_dc: reading_or(temp, 0),
        op_mode: status.op_mode,
        input_present: !status.critical && vbus_uv > 0 && !phantom_input,
        vbat_valid,
        die_temp_valid: temp.is_some(),
    };
    io.tell(Op::TelemetryPush(sample));
    Tick {
        status,
        sample,
        vbus: reading_or(vbus, 0),
        vbat_ok: vbat.is_some(),
        vbus_ok: vbus.is_some(),
        iin_ok: iin.is_some(),
        vac_unplug: status.fault1_sts & FAULT1_VAC_UNPLUG != 0,
        usable: vbat_valid && vbus.is_some() && vbus_uv > 0,
        pump_alive: status.op_mode == OpMode::Switching && iin_ua > IIN_DEAD_FLOOR_UA,
    }
}

#[verifier::opaque]
pub open spec fn adc_power_run(io: Io<Op>, adc: AdcPower, usable: bool, vac_unplug: bool) -> (
    Io<Op>,
    AdcPower,
) {
    let (io, wake) = io.verdict(Op::AdcWake { usable, vac_unplug });
    if wake == Some(true) && !adc.awake {
        let (io, set) = io.effect(Op::PumpAdcMode(AdcMode::Normal));
        (io, if set is Ok {
            AdcPower { awake: true, wake_n: adc.wake_n.saturating_add(1) }
        } else {
            adc
        })
    } else if wake == Some(false) && adc.awake {
        let (io, set) = io.effect(Op::PumpAdcMode(AdcMode::AutoHibernate));
        (io, if set is Ok {
            AdcPower { awake: false, ..adc }
        } else {
            adc
        })
    } else {
        (io, adc)
    }
}

/// Keeps the ADC awake while that is needed; no verdict changes nothing.
pub fn adc_power(io: &mut Session<Op>, adc: &mut AdcPower, usable: bool, vac_unplug: bool)
    ensures
        (final(io)@, *final(adc)) == adc_power_run(old(io)@, *old(adc), usable, vac_unplug),
{
    proof {
        reveal(adc_power_run);
    }
    match io.verdict(Op::AdcWake { usable, vac_unplug }) {
        Some(wake) => {
            if wake && !adc.awake {
                if io.effect(Op::PumpAdcMode(AdcMode::Normal)).is_ok() {
                    adc.awake = true;
                    adc.wake_n = adc.wake_n.saturating_add(1);
                }
            } else if !wake && adc.awake {
                if io.effect(Op::PumpAdcMode(AdcMode::AutoHibernate)).is_ok() {
                    adc.awake = false;
                }
            }
        },
        None => {},
    }
}

/// What the battery is fed with on a tick.
pub open spec fn readings_of(tick: Tick, iin_peak_ua: u32, soc_rising: bool) -> Readings {
    Readings {
        vbat_uv: tick.sample.vbat_uv,
        vbus_uv: tick.sample.vbus_uv,
        iin_ua: tick.sample.iin_ua,
        iin_peak_ua,
        vac_unplug: tick.vac_unplug,
        usable: tick.usable,
        soc_rising,
        now_ms: tick.sample.ts_ms,
    }
}

#[verifier::opaque]
pub open spec fn feed_battery_run(
    io: Io<Op>,
    battery: Battery,
    tick: Tick,
    iin_peak_ua: u32,
    tuning: Tuning,
) -> (Io<Op>, Battery) {
    battery::update_from_telemetry_run(
        io,
        battery,
        readings_of(tick, iin_peak_ua, battery.soc_rising),
        tuning,
    )
}

/// Feeds the battery with the tick.
pub fn feed_battery(
    io: &mut Session<Op>,
    battery: &mut Battery,
    tick: &Tick,
    iin_peak_ua: u32,
    tuning: &Tuning,
)
    ensures
        (final(io)@, *final(battery)) == feed_battery_run(
            old(io)@,
            *old(battery),
            *tick,
            iin_peak_ua,
            *tuning,
        ),
        old(battery).valid() ==> final(battery).valid(),
{
    proof {
        reveal(feed_battery_run);
        if battery.valid() {
            battery::law_tick_publishes_the_state(
                io@,
                *battery,
                readings_of(*tick, iin_peak_ua, battery.soc_rising),
                *tuning,
            );
        }
    }
    let readings = Readings {
        vbat_uv: tick.sample.vbat_uv,
        vbus_uv: tick.sample.vbus_uv,
        iin_ua: tick.sample.iin_ua,
        iin_peak_ua,
        vac_unplug: tick.vac_unplug,
        usable: tick.usable,
        soc_rising: soc_rising(battery),
        now_ms: tick.sample.ts_ms,
    };
    update_from_telemetry(io, battery, &readings, tuning);
}

/// Which readings of a tick are missing, one bit each: cell, temperature,
/// current, input.
#[verifier::allow_in_spec]
pub fn missing_word(tick: Tick) -> (word: u32)
    returns
        (flag_word(!tick.sample.vbat_valid) + 2 * flag_word(!tick.sample.die_temp_valid) + 4
            * flag_word(!tick.iin_ok) + 8 * flag_word(!tick.vbus_ok)) as u32,
{
    flag_word(!tick.sample.vbat_valid) + 2 * flag_word(!tick.sample.die_temp_valid) + 4
        * flag_word(!tick.iin_ok) + 8 * flag_word(!tick.vbus_ok)
}

/// The number under which adapter evidence is published.
#[verifier::allow_in_spec]
pub fn evidence_word(evidence: Option<bool>) -> (word: u32)
    returns
        (match evidence {
            None => 2u32,
            Some(seen) => flag_word(seen),
        }),
{
    match evidence {
        None => 2,
        Some(seen) => flag_word(seen),
    }
}

#[verifier::opaque]
pub open spec fn mark_tick_run(io: Io<Op>, battery: Battery, adc: AdcPower, tick: Tick) -> Io<Op> {
    let sample = tick.sample;
    let io = io.mark("BattPwr", battery.last_power_state)
        .mark("SuVinUv", sample.vbus_uv)
        .mark("SuIin", sample.iin_ua)
        .mark("SuMode", tick.status.op_mode.spec_code() as u32)
        .mark("AdcValid", missing_word(tick))
        .mark("InputUsable", flag_word(tick.usable))
        .mark("AdcAwake", flag_word(adc.awake))
        .mark("AdcWakeN", adc.wake_n)
        .mark("VbatTickMv", sample.vbat_uv / 1000);
    let (io, doubled) = io.flag(
        Op::VinDoubled { vbat_uv: sample.vbat_uv, vbus_uv: sample.vbus_uv },
    );
    let (io, evidence) = io.mark("DoubledVeto", flag_word(doubled)).verdict(
        Op::OnlineRaw {
            vbus_uv: sample.vbus_uv,
            vbat_uv: sample.vbat_uv,
            iin_ua: sample.iin_ua,
            vac_unplug: tick.vac_unplug,
            usable: tick.usable,
        },
    );
    io.mark("OnlineRaw", evidence_word(evidence))
        .mark("SocRising", flag_word(battery.soc_rising))
        .mark("SocRiseAgeMs", fit_u32(sample.ts_ms.saturating_sub(battery.soc_last_rise_ms)))
}

/// Publishes the measurements.
pub fn mark_tick(io: &mut Session<Op>, battery: &Battery, adc: &AdcPower, tick: &Tick)
    ensures
        final(io)@ == mark_tick_run(old(io)@, *battery, *adc, *tick),
{
    proof {
        reveal(mark_tick_run);
    }
    let sample = tick.sample;
    io.mark("BattPwr", last_power_state(battery));
    io.mark("SuVinUv", sample.vbus_uv);
    io.mark("SuIin", sample.iin_ua);
    io.mark("SuMode", tick.status.op_mode.code() as u32);
    io.mark("AdcValid", missing_word(*tick));
    io.mark("InputUsable", flag_word(tick.usable));
    io.mark("AdcAwake", flag_word(adc.awake));
    io.mark("AdcWakeN", adc.wake_n);
    io.mark("VbatTickMv", sample.vbat_uv / 1000);
    let doubled = io.flag(Op::VinDoubled { vbat_uv: sample.vbat_uv, vbus_uv: sample.vbus_uv });
    io.mark("DoubledVeto", flag_word(doubled));
    let evidence = io.verdict(
        Op::OnlineRaw {
            vbus_uv: sample.vbus_uv,
            vbat_uv: sample.vbat_uv,
            iin_ua: sample.iin_ua,
            vac_unplug: tick.vac_unplug,
            usable: tick.usable,
        },
    );
    io.mark("OnlineRaw", evidence_word(evidence));
    io.mark("SocRising", flag_word(soc_rising(battery)));
    let age: u64 = sample.ts_ms.saturating_sub(soc_last_rise_ms(battery));
    io.mark("SocRiseAgeMs", fit_u32(age));
}

#[verifier::opaque]
pub open spec fn iin_window_run(io: Io<Op>, iin: IinWindow, iin_ua: u32, now_ms: u64) -> (
    Io<Op>,
    IinWindow,
) {
    let peak = if iin_ua > iin.max_ua {
        iin_ua
    } else {
        iin.max_ua
    };
    if iin.start_ms == 0 || now_ms.saturating_sub(iin.start_ms) >= IIN_WINDOW_MS {
        (io.mark("MaxIinUa", peak), IinWindow { max_ua: iin_ua, start_ms: now_ms })
    } else {
        (io, IinWindow { max_ua: peak, ..iin })
    }
}

/// Follows the peak of the input current and publishes it once per window.
pub fn iin_window(io: &mut Session<Op>, iin: &mut IinWindow, iin_ua: u32, now_ms: u64)
    ensures
        (final(io)@, *final(iin)) == iin_window_run(old(io)@, *old(iin), iin_ua, now_ms),
{
    proof {
        reveal(iin_window_run);
    }
    if iin_ua > iin.max_ua {
        iin.max_ua = iin_ua;
    }
    if iin.start_ms == 0 || now_ms.saturating_sub(iin.start_ms) >= IIN_WINDOW_MS {
        io.mark("MaxIinUa", iin.max_ua);
        iin.max_ua = iin_ua;
        iin.start_ms = now_ms;
    }
}

/// The peak never lies below the last measured current, and only rises while
/// its window lasts.
pub proof fn law_peak_covers_the_current(io: Io<Op>, iin: IinWindow, iin_ua: u32, now_ms: u64)
    ensures
        iin_window_run(io, iin, iin_ua, now_ms).1.max_ua >= iin_ua,
        iin.start_ms != 0 && now_ms < iin.start_ms + IIN_WINDOW_MS ==> iin_window_run(
            io,
            iin,
            iin_ua,
            now_ms,
        ).1.max_ua >= iin.max_ua,
{
    reveal(iin_window_run);
}

#[verifier::opaque]
pub open spec fn take_gauge_run(io: Io<Op>, battery: Battery, poll: GaugePoll, now_ms: u64) -> (
    Io<Op>,
    Battery,
) {
    match poll {
        GaugePoll::Skipped => (io, battery),
        GaugePoll::Raw(raw) => {
            let (io, battery) = battery::set_gauge_raw_run(io, battery, raw, now_ms);
            (io.mark("SocRaw", raw as u32), battery)
        },
        GaugePoll::Failed => {
            let fails = battery.gauge_fails.saturating_add(1);
            (io.mark("SocFail", fails), Battery { gauge_fails: fails, ..battery })
        },
    }
}

/// Takes what the gauge poll yielded.
pub fn take_gauge(io: &mut Session<Op>, battery: &mut Battery, poll: GaugePoll, now_ms: u64)
    ensures
        (final(io)@, *final(battery)) == take_gauge_run(old(io)@, *old(battery), poll, now_ms),
        old(battery).valid() ==> final(battery).valid(),
{
    proof {
        reveal(take_gauge_run);
    }
    match poll {
        GaugePoll::Skipped => {},
        GaugePoll::Raw(raw) => {
            set_gauge_raw(io, battery, raw, now_ms);
            io.mark("SocRaw", raw as u32);
        },
        GaugePoll::Failed => {
            let fails: u32 = note_gauge_failure(battery);
            io.mark("SocFail", fails);
        },
    }
}

#[verifier::opaque]
pub open spec fn mark_state_run(io: Io<Op>, battery: Battery, tick: Tick) -> Io<Op> {
    let (io, gauge_last) = io.mark("SocSrc", battery.soc_src)
        .mark("BattPct", battery.last_pct)
        .mark("BattVbat", tick.sample.vbat_uv / 1000)
        .mark("BattPwr", battery.last_power_state)
        .millis(Op::GaugeLast);
    io.mark("SocAgeMs", fit_u32(tick.sample.ts_ms.saturating_sub(gauge_last))).mark(
        "GaugePollMs",
        GAUGE_POLL_MS,
    )
}

/// Publishes the battery and the age of the gauge.
pub fn mark_state(io: &mut Session<Op>, battery: &Battery, tick: &Tick)
    ensures
        final(io)@ == mark_state_run(old(io)@, *battery, *tick),
{
    proof {
        reveal(mark_state_run);
    }
    io.mark("SocSrc", last_soc_source(battery));
    io.mark("BattPct", last_percent(battery));
    io.mark("BattVbat", tick.sample.vbat_uv / 1000);
    io.mark("BattPwr", last_power_state(battery));
    let gauge_last: u64 = io.millis(Op::GaugeLast);
    let age: u64 = tick.sample.ts_ms.saturating_sub(gauge_last);
    io.mark("SocAgeMs", fit_u32(age));
    io.mark("GaugePollMs", GAUGE_POLL_MS);
}

#[verifier::opaque]
pub open spec fn mark_chip_run(io: Io<Op>, status: ChipStatus) -> Io<Op> {
    let (io, qualified) = io.mark("Fault1Sts", status.fault1_sts as u32)
        .mark("Fault2Sts", status.fault2_sts as u32)
        .mark("SysSts", status.sys_sts as u32)
        .mark("SysStsRaw", status.sys_sts as u32)
        .mark("SafetySts", status.safety_sts as u32)
        .flag(
            Op::PumpVoltQual(
                status.op_mode == OpMode::Switching || status.op_mode == OpMode::Bypass,
            ),
        );
    let (io, stage) = io.mark("VoltQual", flag_word(qualified)).word(Op::PumpBypassStage);
    let (io, spent) = io.mark("BypassStage", stage).flag(Op::PumpPorSpent);
    io.mark("BypassPorSpent", flag_word(spent))
}

/// Publishes the chip's registers and the stage of the 1:1 entry.
pub fn mark_chip(io: &mut Session<Op>, status: &ChipStatus)
    ensures
        final(io)@ == mark_chip_run(old(io)@, *status),
{
    proof {
        reveal(mark_chip_run);
    }
    io.mark("Fault1Sts", status.fault1_sts as u32);
    io.mark("Fault2Sts", status.fault2_sts as u32);
    io.mark("SysSts", status.sys_sts as u32);
    io.mark("SysStsRaw", status.sys_sts as u32);
    io.mark("SafetySts", status.safety_sts as u32);
    let charging = status.op_mode == OpMode::Switching || status.op_mode == OpMode::Bypass;
    let qualified = io.flag(Op::PumpVoltQual(charging));
    io.mark("VoltQual", flag_word(qualified));
    let stage: u32 = io.word(Op::PumpBypassStage);
    io.mark("BypassStage", stage);
    let spent = io.flag(Op::PumpPorSpent);
    io.mark("BypassPorSpent", flag_word(spent));
}

// ---------------------------------------------------------------------------
// Laws of a tick's measurements
// ---------------------------------------------------------------------------
/// A tick reads the cell, the input, its current and the temperature, and hands on a
/// sample of what it read. A missing or negative reading counts as zero, and a missing
/// one is told. An idle pump without current sees no input where the chip reports an
/// unplug or the core finds the doubled cell there.
pub proof fn law_sample_is_what_was_read(io: Io<Op>, status: ChipStatus)
    requires
        io.pending is None,
        observe_run(io, status).0.pending is None,
    ensures
        ({
            let (after, tick) = observe_run(io, status);
            let vbat = landing::reading_of(trace::answer(io, 0));
            let vbus = landing::reading_of(trace::answer(io, 1));
            let iin = landing::reading_of(trace::answer(io, 2));
            let temp = landing::reading_of(trace::answer(io, 3));
            let least = |value: Option<i32>|
                if value is Some && value->0 > 0 {
                    value->0 as int
                } else {
                    0
                };
            let idle = status.op_mode != OpMode::Switching && status.op_mode != OpMode::Bypass;
            let unplug = status.fault1_sts & 0x10 != 0;
            let looks = idle && least(iin) < 60_000 && !unplug;
            let doubled = looks && trace::yes(trace::answer(io, 4));
            let phantom_input = idle && least(iin) < 60_000 && (unplug || doubled);
            let sample = tick.sample;
            let reads = seq![
                Op::PumpAdc(AdcChannel::Vbat),
                Op::PumpAdc(AdcChannel::Vin),
                Op::PumpAdc(AdcChannel::Iin),
                Op::PumpAdc(AdcChannel::DieTemp),
            ];
            &&& looks ==> trace::asked(io, after) == reads + seq![
                Op::VinDoubled { vbat_uv: sample.vbat_uv, vbus_uv: sample.vbus_uv },
                Op::Now,
                Op::TelemetryPush(sample),
            ] && sample.ts_ms == steer::time_of(trace::answer(io, 5))
            &&& !looks ==> trace::asked(io, after) == reads + seq![
                Op::Now,
                Op::TelemetryPush(sample),
            ] && sample.ts_ms == steer::time_of(trace::answer(io, 4))
            &&& sample.vbat_uv == least(vbat)
            &&& sample.vbus_uv == least(vbus)
            &&& sample.iin_ua == least(iin)
            &&& sample.die_temp_valid <==> temp is Some
            &&& temp is Some ==> sample.die_temp_dc == temp->0
            &&& sample.op_mode == status.op_mode && tick.status == status
            &&& sample.vbat_valid <==> least(vbat) > 0
            &&& sample.input_present <==> !status.critical && least(vbus) > 0 && !phantom_input
            &&& vbus is Some ==> tick.vbus == vbus->0
            &&& vbus is None ==> tick.vbus == 0
            &&& tick.vbat_ok <==> vbat is Some
            &&& tick.vbus_ok <==> vbus is Some
            &&& tick.iin_ok <==> iin is Some
            &&& tick.vac_unplug <==> unplug
            &&& tick.usable <==> least(vbat) > 0 && least(vbus) > 0
            &&& tick.pump_alive <==> status.op_mode == OpMode::Switching && least(iin) > 60_000
            &&& trace::published(io, after).len() == 0
        }),
{
    broadcast use {trace::group_trace, trace::group_marks};

    reveal(observe_run);
    trace::lemma_asked_nothing(io);
    trace::lemma_published_nothing(io);
}

/// The ADC is woken and put to sleep on the core's word alone, each only where it is not
/// so already; what the pump refuses is not counted.
pub proof fn law_adc_follows_the_core(io: Io<Op>, adc: AdcPower, usable: bool, vac_unplug: bool)
    requires
        io.pending is None,
        adc_power_run(io, adc, usable, vac_unplug).0.pending is None,
    ensures
        ({
            let (after, left) = adc_power_run(io, adc, usable, vac_unplug);
            let look = Op::AdcWake { usable, vac_unplug };
            let wakes = trace::answer(io, 0) == Reply::Verdict(Some(true)) && !adc.awake;
            let sleeps = trace::answer(io, 0) == Reply::Verdict(Some(false)) && adc.awake;
            let done = trace::done(trace::answer(io, 1));
            &&& trace::asked(io, after) == if wakes {
                seq![look, Op::PumpAdcMode(AdcMode::Normal)]
            } else if sleeps {
                seq![look, Op::PumpAdcMode(AdcMode::AutoHibernate)]
            } else {
                seq![look]
            }
            &&& wakes && done ==> left.awake && left.wake_n == if adc.wake_n == u32::MAX {
                u32::MAX as int
            } else {
                adc.wake_n + 1
            }
            &&& sleeps && done ==> !left.awake && left.wake_n == adc.wake_n
            &&& !done || !wakes && !sleeps ==> left == adc
        }),
{
    broadcast use trace::group_trace;

    reveal(adc_power_run);
    trace::lemma_asked_nothing(io);
}

/// The battery is fed with what the tick measured.
pub proof fn law_battery_is_fed_with_the_tick(tick: Tick, iin_peak_ua: u32, soc_rising: bool)
    ensures
        ({
            let fed = readings_of(tick, iin_peak_ua, soc_rising);
            &&& fed.vbat_uv == tick.sample.vbat_uv
            &&& fed.vbus_uv == tick.sample.vbus_uv
            &&& fed.iin_ua == tick.sample.iin_ua
            &&& fed.iin_peak_ua == iin_peak_ua
            &&& fed.vac_unplug == tick.vac_unplug
            &&& fed.usable == tick.usable
            &&& fed.soc_rising == soc_rising
            &&& fed.now_ms == tick.sample.ts_ms
        }),
{
}

/// The peak of the input current is taken over windows of five seconds: within one it
/// only rises, and with the next it is published and starts anew from the current of
/// the moment.
pub proof fn law_peak_is_taken_over_its_window(
    io: Io<Op>,
    iin: IinWindow,
    iin_ua: u32,
    now_ms: u64,
)
    requires
        io.pending is None,
    ensures
        ({
            let (after, left) = iin_window_run(io, iin, iin_ua, now_ms);
            let peak = if iin_ua > iin.max_ua {
                iin_ua
            } else {
                iin.max_ua
            };
            let over = iin.start_ms == 0 || now_ms - iin.start_ms >= 5_000;
            &&& over ==> left.max_ua == iin_ua && left.start_ms == now_ms && trace::published(
                io,
                after,
            ) == seq![("MaxIinUa", peak)]
            &&& !over ==> left.max_ua == peak && left.start_ms == iin.start_ms
                && trace::published(io, after).len() == 0
            &&& trace::asked(io, after).len() == 0
        }),
{
    broadcast use {trace::group_trace, trace::group_marks};

    reveal(iin_window_run);
    trace::lemma_asked_nothing(io);
    trace::lemma_published_nothing(io);
}

/// A poll of the gauge that failed is counted, and one that was skipped changes nothing.
pub proof fn law_failed_poll_is_counted(io: Io<Op>, battery: Battery, poll: GaugePoll, now_ms: u64)
    requires
        io.pending is None,
    ensures
        ({
            let (after, left) = take_gauge_run(io, battery, poll, now_ms);
            let fails = if battery.gauge_fails == u32::MAX {
                u32::MAX
            } else {
                (battery.gauge_fails + 1) as u32
            };
            &&& poll is Skipped ==> left == battery && after == io
            &&& poll is Failed ==> left == (Battery { gauge_fails: fails, ..battery })
                && trace::published(io, after) == seq![("SocFail", fails)]
            &&& poll matches GaugePoll::Raw(raw) ==> {
                let (taken, held) = battery::set_gauge_raw_run(io, battery, raw, now_ms);
                &&& left == held
                &&& taken.pending is None && trace::follows(io, taken) ==> trace::published(
                    io,
                    after,
                ) == trace::published(io, taken).push(("SocRaw", raw as u32))
            }
        }),
{
    broadcast use {trace::group_trace, trace::group_marks};

    reveal(take_gauge_run);
    trace::lemma_published_nothing(io);
    if let GaugePoll::Raw(raw) = poll {
        let taken = battery::set_gauge_raw_run(io, battery, raw, now_ms).0;
        if trace::follows(io, taken) {
            trace::lemma_honest_after(io, taken);
        }
    }
}

/// Missing readings have a bit each: the cell 1, the temperature 2, the current 4 and
/// the input 8. Evidence is 0, 1, or 2 for none.
pub proof fn law_words_of_a_tick(tick: Tick, evidence: Option<bool>)
    ensures
        ({
            let word = missing_word(tick);
            &&& word < 16
            &&& word % 2 == 1 <==> !tick.sample.vbat_valid
            &&& (word / 2) % 2 == 1 <==> !tick.sample.die_temp_valid
            &&& (word / 4) % 2 == 1 <==> !tick.iin_ok
            &&& (word / 8) % 2 == 1 <==> !tick.vbus_ok
        }),
        evidence is None <==> evidence_word(evidence) == 2,
        evidence == Some(true) <==> evidence_word(evidence) == 1,
        evidence == Some(false) <==> evidence_word(evidence) == 0,
{
}

/// What a tick publishes of its measurements, in order.
#[verifier::rlimit(60)]
pub proof fn law_tick_is_published(io: Io<Op>, battery: Battery, adc: AdcPower, tick: Tick)
    requires
        io.pending is None,
        mark_tick_run(io, battery, adc, tick).pending is None,
    ensures
        ({
            let after = mark_tick_run(io, battery, adc, tick);
            let sample = tick.sample;
            let flag = |on: bool|
                if on {
                    1u32
                } else {
                    0u32
                };
            let evidence = match trace::answer(io, 1) {
                Reply::Verdict(Some(true)) => 1u32,
                Reply::Verdict(Some(false)) => 0u32,
                _ => 2u32,
            };
            let age = sample.ts_ms - battery.soc_last_rise_ms;
            &&& trace::published(io, after) == seq![
                ("BattPwr", battery.last_power_state),
                ("SuVinUv", sample.vbus_uv),
                ("SuIin", sample.iin_ua),
                ("SuMode", tick.status.op_mode.spec_code() as u32),
                ("AdcValid", missing_word(tick)),
                ("InputUsable", flag(tick.usable)),
                ("AdcAwake", flag(adc.awake)),
                ("AdcWakeN", adc.wake_n),
                ("VbatTickMv", sample.vbat_uv / 1000),
                ("DoubledVeto", flag(trace::yes(trace::answer(io, 0)))),
                ("OnlineRaw", evidence),
                ("SocRising", flag(battery.soc_rising)),
                ("SocRiseAgeMs", if age < 0 {
                    0
                } else if age > u32::MAX {
                    u32::MAX
                } else {
                    age as u32
                }),
            ]
        }),
{
    broadcast use trace::group_marks;

    reveal(mark_tick_run);
    trace::lemma_published_nothing(io);
}

/// For that the core is asked two questions about the input.
pub proof fn law_tick_asks_about_the_input(io: Io<Op>, battery: Battery, adc: AdcPower, tick: Tick)
    requires
        io.pending is None,
        mark_tick_run(io, battery, adc, tick).pending is None,
    ensures
        ({
            let after = mark_tick_run(io, battery, adc, tick);
            let sample = tick.sample;
            trace::asked(io, after) == seq![
                Op::VinDoubled { vbat_uv: sample.vbat_uv, vbus_uv: sample.vbus_uv },
                Op::OnlineRaw {
                    vbus_uv: sample.vbus_uv,
                    vbat_uv: sample.vbat_uv,
                    iin_ua: sample.iin_ua,
                    vac_unplug: tick.vac_unplug,
                    usable: tick.usable,
                },
            ]
        }),
{
    broadcast use {trace::lemma_asked_ask, trace::lemma_asked_record};

    reveal(mark_tick_run);
    trace::lemma_asked_nothing(io);
}

/// What a tick publishes of the battery and of the chip, in order.
pub proof fn law_battery_and_chip_are_published(io: Io<Op>, battery: Battery, tick: Tick)
    requires
        io.pending is None,
    ensures
        ({
            let after = mark_state_run(io, battery, tick);
            let age = tick.sample.ts_ms - steer::time_of(trace::answer(io, 0));
            after.pending is None ==> {
                &&& trace::asked(io, after) == seq![Op::GaugeLast]
                &&& trace::published(io, after) == seq![
                    ("SocSrc", battery.soc_src),
                    ("BattPct", battery.last_pct),
                    ("BattVbat", tick.sample.vbat_uv / 1000),
                    ("BattPwr", battery.last_power_state),
                    ("SocAgeMs", if age < 0 {
                        0
                    } else if age > u32::MAX {
                        u32::MAX
                    } else {
                        age as u32
                    }),
                    ("GaugePollMs", 30_000),
                ]
            }
        }),
        ({
            let status = tick.status;
            let after = mark_chip_run(io, status);
            let charging = status.op_mode == OpMode::Switching || status.op_mode == OpMode::Bypass;
            let flag = |on: bool|
                if on {
                    1u32
                } else {
                    0u32
                };
            after.pending is None ==> {
                &&& trace::asked(io, after) == seq![
                    Op::PumpVoltQual(charging),
                    Op::PumpBypassStage,
                    Op::PumpPorSpent,
                ]
                &&& trace::published(io, after) == seq![
                    ("Fault1Sts", status.fault1_sts as u32),
                    ("Fault2Sts", status.fault2_sts as u32),
                    ("SysSts", status.sys_sts as u32),
                    ("SysStsRaw", status.sys_sts as u32),
                    ("SafetySts", status.safety_sts as u32),
                    ("VoltQual", flag(trace::yes(trace::answer(io, 0)))),
                    ("BypassStage", match trace::answer(io, 1) {
                        Reply::Word(stage) => stage,
                        _ => 0,
                    }),
                    ("BypassPorSpent", flag(trace::yes(trace::answer(io, 2)))),
                ]
            }
        }),
{
    broadcast use {trace::group_trace, trace::group_marks};

    reveal(mark_state_run);
    reveal(mark_chip_run);
    trace::lemma_asked_nothing(io);
    trace::lemma_published_nothing(io);
}

} // verus!
