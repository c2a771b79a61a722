//! What the operating system is told about the battery.
//!
//! The percentage comes from the fuel gauge where it answers, else from the
//! cell voltage of a pack that is not being charged. The adapter and charge
//! flags are held against short dropouts; the holding rules are the pump
//! core's, the driver keeps their outcome.
use crate::exchange::{Op, Reply};
use crate::negotiate::status_word;
use crate::pump::Tuning;
use crate::session::{Io, Session};
use crate::status::{
    STATUS_BUFFER_TOO_SMALL, STATUS_INVALID_DEVICE_REQUEST, STATUS_INVALID_DEVICE_STATE,
    STATUS_INVALID_PARAMETER, STATUS_NOT_SUPPORTED, STATUS_NO_SUCH_DEVICE,
    STATUS_SUCCESS, STATUS_WMI_GUID_NOT_FOUND,
};
use crate::wire::{self, put_u16, put_u32, put_u8, put_zeros};
use crate::trace;
use vstd::prelude::*;
use vstd::string::StringSliceAdditionalSpecFns;

verus! {

/// There is no percentage yet.
pub const SOC_SRC_NONE: u32 = 0;

/// The percentage comes from the fuel gauge.
pub const SOC_SRC_GAUGE: u32 = 1;

/// The percentage is estimated from the cell voltage.
pub const SOC_SRC_VBAT: u32 = 2;

/// No battery has this tag.
pub const BATTERY_TAG_INVALID: u32 = 0;

/// The battery can run the system.
pub const BATTERY_SYSTEM_BATTERY: u32 = 0x8000_0000;

/// An adapter is connected.
pub const BATTERY_POWER_ON_LINE: u32 = 0x0000_0001;

/// The battery is being discharged.
pub const BATTERY_DISCHARGING: u32 = 0x0000_0002;

/// The battery is being charged.
pub const BATTERY_CHARGING: u32 = 0x0000_0004;

/// The battery is nearly empty.
pub const BATTERY_CRITICAL: u32 = 0x0000_0008;

/// The rate is not known.
pub const BATTERY_UNKNOWN_RATE: i32 = -2147483648;

/// The remaining time is not known.
pub const BATTERY_UNKNOWN_TIME: u32 = 0xFFFF_FFFF;

/// The capacity is not known.
pub const BATTERY_UNKNOWN_CAPACITY: u32 = 0xFFFF_FFFF;

/// An empty cell (µV).
pub const VBAT_EMPTY_UV: u32 = 3_400_000;

/// A full cell (µV).
pub const VBAT_FULL_UV: u32 = 4_350_000;

/// What the driver knows of the battery.
#[derive(Debug, Clone, Copy)]
pub struct Battery {
    /// Whether the battery class is attached.
    pub attached: bool,
    /// Whether the management interface is registered.
    pub wmi_registered: bool,
    /// Tag of the battery.
    pub tag: u32,
    /// The percentage, or [`BATTERY_UNKNOWN_CAPACITY`].
    pub last_pct: u32,
    /// The percentage that the class was last notified of.
    pub notified_pct: u32,
    /// Where the percentage comes from.
    pub soc_src: u32,
    /// Failed gauge reads in a row.
    pub gauge_fails: u32,
    /// Last cell reading (µV).
    pub last_vbat_uv: u32,
    /// Last input reading (µV).
    pub last_vbus_uv: u32,
    /// Last input current (µA).
    pub last_iin_ua: u32,
    /// Whether the adapter is published.
    pub online: bool,
    /// Whether the charge evidence is held.
    pub charging: bool,
    /// Unplug reports in a row.
    pub unplug_run: u32,
    /// Whether the gauge rises.
    pub soc_rising: bool,
    /// When it last rose (ms).
    pub soc_last_rise_ms: u64,
    /// The power flags last published.
    pub last_power_state: u32,
}

impl Battery {
    /// Before the first sample: nothing is known, and the capacity says so.
    #[verifier::allow_in_spec]
    pub fn new() -> (battery: Self)
        returns
            (Battery {
                attached: false,
                wmi_registered: false,
                tag: 1,
                last_pct: BATTERY_UNKNOWN_CAPACITY,
                notified_pct: BATTERY_UNKNOWN_CAPACITY,
                soc_src: SOC_SRC_NONE,
                gauge_fails: 0,
                last_vbat_uv: 0,
                last_vbus_uv: 0,
                last_iin_ua: 0,
                online: false,
                charging: false,
                unplug_run: 0,
                soc_rising: false,
                soc_last_rise_ms: 0,
                last_power_state: 0,
            }),
    {
        Battery {
            attached: false,
            wmi_registered: false,
            tag: 1,
            last_pct: BATTERY_UNKNOWN_CAPACITY,
            notified_pct: BATTERY_UNKNOWN_CAPACITY,
            soc_src: SOC_SRC_NONE,
            gauge_fails: 0,
            last_vbat_uv: 0,
            last_vbus_uv: 0,
            last_iin_ua: 0,
            online: false,
            charging: false,
            unplug_run: 0,
            soc_rising: false,
            soc_last_rise_ms: 0,
            last_power_state: 0,
        }
    }

    /// The percentage is one, or unknown; the management interface is registered
    /// only while the class is attached.
    pub open spec fn valid(self) -> bool {
        &&& self.last_pct <= 100 || self.last_pct == BATTERY_UNKNOWN_CAPACITY
        &&& self.wmi_registered ==> self.attached
    }
}

/// What the battery class is told.
#[derive(Debug, Clone, Copy, PartialEq, Eq, Structural)]
pub struct BatteryStatus {
    /// Power flags.
    pub power_state: u32,
    /// Percentage, or [`BATTERY_UNKNOWN_CAPACITY`].
    pub capacity: u32,
    /// Cell voltage (mV).
    pub voltage: u32,
    /// Rate, or [`BATTERY_UNKNOWN_RATE`].
    pub rate: i32,
}

// ---------------------------------------------------------------------------
// Percentages
// ---------------------------------------------------------------------------
/// The percentage of a resting cell: linear between empty and full.
pub fn soc_percent(vbat_uv: u32) -> (pct: u32)
    ensures
        pct == spec_soc_percent(vbat_uv),
{
    if vbat_uv <= VBAT_EMPTY_UV {
        return 0;
    }
    if vbat_uv >= VBAT_FULL_UV {
        return 100;
    }
    let span: u32 = VBAT_FULL_UV - VBAT_EMPTY_UV;
    let rise: u32 = vbat_uv - VBAT_EMPTY_UV;
    ((rise as u64 * 100) / span as u64) as u32
}

/// The percentage of a resting cell.
pub open spec fn spec_soc_percent(vbat_uv: u32) -> u32 {
    if vbat_uv <= VBAT_EMPTY_UV {
        0
    } else if vbat_uv >= VBAT_FULL_UV {
        100
    } else {
        ((vbat_uv - VBAT_EMPTY_UV) * 100 / (VBAT_FULL_UV - VBAT_EMPTY_UV)) as u32
    }
}

/// The percentage of a raw gauge value: 255 is full, 0 is empty, and what lies
/// between is stretched onto 1 to 99, rounded to the closest.
#[verifier::allow_in_spec]
pub fn gauge_percent(raw: u8) -> (pct: u32)
    returns
        (if raw == 255 {
            100u32
        } else if raw == 0 {
            0u32
        } else {
            (((raw - 1) * 98 + 126) / 253 + 1) as u32
        }),
{
    if raw == 255 {
        100
    } else if raw == 0 {
        0
    } else {
        ((raw as u32 - 1) * 98 + 126) / 253 + 1
    }
}

/// A higher cell never shows a lower percentage.
pub proof fn law_soc_percent_is_monotone(a: u32, b: u32)
    requires
        a <= b,
    ensures
        spec_soc_percent(a) <= spec_soc_percent(b) <= 100,
{
}

/// A higher gauge value never shows a lower percentage, and only the two ends
/// of the scale show empty and full.
pub proof fn law_gauge_percent_is_monotone(a: u8, b: u8)
    requires
        a <= b,
    ensures
        gauge_percent(a) <= gauge_percent(b) <= 100,
        gauge_percent(a) == 0 <==> a == 0,
        gauge_percent(b) == 100 <==> b == 255,
{
}

// ---------------------------------------------------------------------------
// Status
// ---------------------------------------------------------------------------
/// The power flags of a battery.
pub open spec fn power_flags(battery: Battery) -> u32 {
    let online = if battery.online {
        BATTERY_POWER_ON_LINE
    } else {
        0
    };
    let charge = if battery.charging && battery.online {
        BATTERY_CHARGING
    } else if !battery.online {
        BATTERY_DISCHARGING
    } else {
        0
    };
    let critical = if battery.last_pct != BATTERY_UNKNOWN_CAPACITY && battery.last_pct <= 5 {
        BATTERY_CRITICAL
    } else {
        0
    };
    (online + charge + critical) as u32
}

/// What the battery class is told of a battery.
pub open spec fn status_of(battery: Battery) -> BatteryStatus {
    BatteryStatus {
        power_state: power_flags(battery),
        capacity: battery.last_pct,
        voltage: battery.last_vbat_uv / 1000,
        rate: if battery.online && !battery.charging {
            0
        } else {
            BATTERY_UNKNOWN_RATE
        },
    }
}

/// Builds the status and keeps its power flags as the published ones.
pub fn build_status(battery: &mut Battery) -> (status: BatteryStatus)
    ensures
        status == status_of(*old(battery)),
        *final(battery) == (Battery { last_power_state: status.power_state, ..*old(battery) }),
{
    let online = battery.online;
    let charging = battery.charging && online;
    let mut power: u32 = 0;
    if online {
        power = power + BATTERY_POWER_ON_LINE;
    }
    if charging {
        power = power + BATTERY_CHARGING;
    } else if !online {
        power = power + BATTERY_DISCHARGING;
    }
    if battery.last_pct != BATTERY_UNKNOWN_CAPACITY && battery.last_pct <= 5 {
        power = power + BATTERY_CRITICAL;
    }
    battery.last_power_state = power;
    BatteryStatus {
        power_state: power,
        capacity: battery.last_pct,
        voltage: battery.last_vbat_uv / 1000,
        rate: if online && !charging {
            0
        } else {
            BATTERY_UNKNOWN_RATE
        },
    }
}

/// The flags are never contradictory: charging implies an adapter, discharging
/// excludes one, and an unknown capacity is never critical.
pub proof fn law_power_flags_are_consistent(battery: Battery)
    ensures
        power_flags(battery) & BATTERY_CHARGING != 0 ==> power_flags(battery)
            & BATTERY_POWER_ON_LINE != 0,
        power_flags(battery) & BATTERY_DISCHARGING != 0 <==> power_flags(battery)
            & BATTERY_POWER_ON_LINE == 0,
        power_flags(battery) & BATTERY_POWER_ON_LINE != 0 <==> battery.online,
        battery.last_pct == BATTERY_UNKNOWN_CAPACITY ==> power_flags(battery) & BATTERY_CRITICAL
            == 0,
{
    let p = power_flags(battery);
    assert(p == 1 || p == 5 || p == 2 || p == 9 || p == 13 || p == 10);
    assert(1u32 & 4 == 0 && 1u32 & 1 == 1 && 1u32 & 2 == 0 && 1u32 & 8 == 0) by (bit_vector);
    assert(5u32 & 4 == 4 && 5u32 & 1 == 1 && 5u32 & 2 == 0 && 5u32 & 8 == 0) by (bit_vector);
    assert(2u32 & 4 == 0 && 2u32 & 1 == 0 && 2u32 & 2 == 2 && 2u32 & 8 == 0) by (bit_vector);
    assert(9u32 & 4 == 0 && 9u32 & 1 == 1 && 9u32 & 2 == 0 && 9u32 & 8 == 8) by (bit_vector);
    assert(13u32 & 4 == 4 && 13u32 & 1 == 1 && 13u32 & 2 == 0 && 13u32 & 8 == 8) by (bit_vector);
    assert(10u32 & 4 == 0 && 10u32 & 1 == 0 && 10u32 & 2 == 2 && 10u32 & 8 == 8) by (bit_vector);
}

// ---------------------------------------------------------------------------
// Telemetry
// ---------------------------------------------------------------------------
/// The readings of one tick.
#[derive(Debug, Clone, Copy)]
pub struct Readings {
    /// Cell (µV); 0 is no sample.
    pub vbat_uv: u32,
    /// Input (µV).
    pub vbus_uv: u32,
    /// Input current (µA).
    pub iin_ua: u32,
    /// Its peak over the window (µA).
    pub iin_peak_ua: u32,
    /// Whether the chip reports an unplug.
    pub vac_unplug: bool,
    /// Whether the readings are usable.
    pub usable: bool,
    /// Whether the gauge rises.
    pub soc_rising: bool,
    /// Time of the tick (ms).
    pub now_ms: u64,
}

/// The battery after the cell reading and the adapter evidence: an estimate is
/// made only of a pack that is known to be off the adapter, and never against
/// the gauge.
#[verifier::opaque]
pub open spec fn estimated(battery: Battery, readings: Readings, raw_online: Option<bool>) -> Battery {
    let battery = if readings.vbat_uv > 0 {
        Battery { last_vbat_uv: readings.vbat_uv, ..battery }
    } else {
        battery
    };
    if readings.vbat_uv > 0 && battery.soc_src != SOC_SRC_GAUGE && raw_online == Some(false) {
        Battery {
            last_pct: spec_soc_percent(readings.vbat_uv),
            soc_src: SOC_SRC_VBAT,
            ..battery
        }
    } else {
        battery
    }
}

/// Takes the cell reading and, where that is called for, an estimate of it.
fn estimate(battery: &mut Battery, readings: &Readings, raw_online: Option<bool>)
    ensures
        *final(battery) == estimated(*old(battery), *readings, raw_online),
{
    proof {
        reveal(estimated);
    }
    if readings.vbat_uv > 0 {
        battery.last_vbat_uv = readings.vbat_uv;
    }
    let offline = match raw_online {
        Some(seen) => !seen,
        None => false,
    };
    if readings.vbat_uv > 0 && battery.soc_src != SOC_SRC_GAUGE && offline {
        battery.last_pct = soc_percent(readings.vbat_uv);
        battery.soc_src = SOC_SRC_VBAT;
    }
}

#[verifier::opaque]
pub open spec fn held_flags_run(
    io: Io<Op>,
    battery: Battery,
    readings: Readings,
    raw_online: Option<bool>,
    tuning: Tuning,
) -> (Io<Op>, Battery) {
    let (io, unplug) = io.unplug(
        Op::UnplugRelease {
            vac_unplug: readings.vac_unplug,
            iin_ua: readings.iin_ua,
            run: battery.unplug_run,
        },
    );
    let (io, online) = io.flag(
        if unplug.0 {
            Op::OnlineExpire { now_ms: readings.now_ms }
        } else {
            Op::OnlineEvidence {
                raw: raw_online,
                now_ms: readings.now_ms,
                hold_ms: tuning.online_hold_ms,
            }
        },
    );
    let (io, charge) = io.flag(
        Op::ChargingRaw {
            online,
            iin_ua: readings.iin_ua,
            peak_ua: readings.iin_peak_ua,
            soc_rising: readings.soc_rising,
        },
    );
    let (io, charging) = io.flag(
        Op::ChargingHold {
            raw: charge,
            now_ms: readings.now_ms,
            hold_ms: tuning.charging_hold_ms,
        },
    );
    (io, Battery { unplug_run: unplug.1, online, charging, ..battery })
}

/// Feeds the held flags: a believed unplug drops the adapter at once, else the
/// evidence ages it; the charge follows the adapter.
fn held_flags(
    io: &mut Session<Op>,
    battery: &mut Battery,
    readings: &Readings,
    raw_online: Option<bool>,
    tuning: &Tuning,
)
    ensures
        (final(io)@, *final(battery)) == held_flags_run(
            old(io)@,
            *old(battery),
            *readings,
            raw_online,
            *tuning,
        ),
{
    proof {
        reveal(held_flags_run);
    }
    let (unplugged, run): (bool, u32) = io.unplug(
        Op::UnplugRelease {
            vac_unplug: readings.vac_unplug,
            iin_ua: readings.iin_ua,
            run: battery.unplug_run,
        },
    );
    battery.unplug_run = run;
    let update = if unplugged {
        Op::OnlineExpire { now_ms: readings.now_ms }
    } else {
        Op::OnlineEvidence {
            raw: raw_online,
            now_ms: readings.now_ms,
            hold_ms: tuning.online_hold_ms,
        }
    };
    let online = io.flag(update);
    let charge = io.flag(
        Op::ChargingRaw {
            online,
            iin_ua: readings.iin_ua,
            peak_ua: readings.iin_peak_ua,
            soc_rising: readings.soc_rising,
        },
    );
    let charging = io.flag(
        Op::ChargingHold {
            raw: charge,
            now_ms: readings.now_ms,
            hold_ms: tuning.charging_hold_ms,
        },
    );
    battery.online = online;
    battery.charging = charging;
}

pub open spec fn update_from_telemetry_run(
    io: Io<Op>,
    battery: Battery,
    readings: Readings,
    tuning: Tuning,
) -> (Io<Op>, Battery) {
    let before = battery.last_power_state;
    let (io, raw_online) = io.verdict(
        Op::OnlineRaw {
            vbus_uv: readings.vbus_uv,
            vbat_uv: readings.vbat_uv,
            iin_ua: readings.iin_ua,
            vac_unplug: readings.vac_unplug,
            usable: readings.usable,
        },
    );
    let (io, battery) = held_flags_run(
        io,
        estimated(battery, readings, raw_online),
        readings,
        raw_online,
        tuning,
    );
    let battery = Battery {
        last_vbus_uv: readings.vbus_uv,
        last_iin_ua: readings.iin_ua,
        last_power_state: power_flags(battery),
        ..battery
    };
    if battery.attached && (battery.last_power_state != before || battery.last_pct
        != battery.notified_pct) {
        let battery = Battery { notified_pct: battery.last_pct, ..battery };
        (io.tell(Op::BatteryNotify(battery)), battery)
    } else {
        (io, battery)
    }
}

/// Takes the readings of one tick and notifies the class where the power flags
/// or the percentage changed. A percentage that nobody could be told of stays
/// due.
pub fn update_from_telemetry(
    io: &mut Session<Op>,
    battery: &mut Battery,
    readings: &Readings,
    tuning: &Tuning,
)
    ensures
        (final(io)@, *final(battery)) == update_from_telemetry_run(
            old(io)@,
            *old(battery),
            *readings,
            *tuning,
        ),
{
    let before: u32 = battery.last_power_state;
    let raw_online = io.verdict(
        Op::OnlineRaw {
            vbus_uv: readings.vbus_uv,
            vbat_uv: readings.vbat_uv,
            iin_ua: readings.iin_ua,
            vac_unplug: readings.vac_unplug,
            usable: readings.usable,
        },
    );
    estimate(battery, readings, raw_online);
    held_flags(io, battery, readings, raw_online, tuning);
    battery.last_vbus_uv = readings.vbus_uv;
    battery.last_iin_ua = readings.iin_ua;
    let _ = build_status(battery);
    if battery.last_power_state == before && battery.last_pct == battery.notified_pct {
        return;
    }
    if battery.attached {
        battery.notified_pct = battery.last_pct;
        io.tell(Op::BatteryNotify(*battery));
    }
}

pub open spec fn set_gauge_raw_run(io: Io<Op>, battery: Battery, raw: u8, now_ms: u64) -> (
    Io<Op>,
    Battery,
) {
    let (io, trend) = io.trend(Op::SocTrend { raw, now_ms });
    (
        io,
        Battery {
            last_pct: gauge_percent(raw),
            soc_src: SOC_SRC_GAUGE,
            gauge_fails: 0,
            soc_rising: trend.0,
            soc_last_rise_ms: trend.1,
            ..battery
        },
    )
}

/// Takes a raw gauge value: from here on the percentage is the gauge's.
pub fn set_gauge_raw(io: &mut Session<Op>, battery: &mut Battery, raw: u8, now_ms: u64)
    ensures
        (final(io)@, *final(battery)) == set_gauge_raw_run(old(io)@, *old(battery), raw, now_ms),
{
    let (rising, last_rise_ms): (bool, u64) = io.trend(Op::SocTrend { raw, now_ms });
    battery.last_pct = gauge_percent(raw);
    battery.soc_src = SOC_SRC_GAUGE;
    battery.gauge_fails = 0;
    battery.soc_rising = rising;
    battery.soc_last_rise_ms = last_rise_ms;
}

/// Counts a failed gauge read and returns how many there were in a row.
pub fn note_gauge_failure(battery: &mut Battery) -> (fails: u32)
    ensures
        fails == old(battery).gauge_fails.saturating_add(1),
        *final(battery) == (Battery { gauge_fails: fails, ..*old(battery) }),
{
    battery.gauge_fails = battery.gauge_fails.saturating_add(1);
    battery.gauge_fails
}

/// Whether the gauge rises.
pub fn soc_rising(battery: &Battery) -> (rising: bool)
    ensures
        rising == battery.soc_rising,
{
    battery.soc_rising
}

/// When the gauge last rose (ms).
pub fn soc_last_rise_ms(battery: &Battery) -> (ms: u64)
    ensures
        ms == battery.soc_last_rise_ms,
{
    battery.soc_last_rise_ms
}

/// Where the percentage comes from.
pub fn last_soc_source(battery: &Battery) -> (source: u32)
    ensures
        source == battery.soc_src,
{
    battery.soc_src
}

/// The percentage.
pub fn last_percent(battery: &Battery) -> (pct: u32)
    ensures
        pct == battery.last_pct,
{
    battery.last_pct
}

/// The power flags last published.
pub fn last_power_state(battery: &Battery) -> (power: u32)
    ensures
        power == battery.last_power_state,
{
    battery.last_power_state
}

/// A tick keeps the percentage valid, never touches one of the gauge, and
/// leaves it alone without evidence that the adapter is gone.
pub proof fn law_estimate_is_guarded(battery: Battery, readings: Readings, raw_online: Option<bool>)
    requires
        battery.valid(),
    ensures
        estimated(battery, readings, raw_online).valid(),
        battery.soc_src == SOC_SRC_GAUGE ==> estimated(battery, readings, raw_online).last_pct
            == battery.last_pct,
        raw_online != Some(false) ==> estimated(battery, readings, raw_online).last_pct
            == battery.last_pct,
        readings.vbat_uv == 0 ==> estimated(battery, readings, raw_online) == battery,
{
    reveal(estimated);
    law_soc_percent_is_monotone(readings.vbat_uv, readings.vbat_uv);
}

/// Every tick keeps the percentage valid and publishes the flags of the state
/// that it leaves; an attached class always knows the present percentage.
pub proof fn law_tick_publishes_the_state(
    io: Io<Op>,
    battery: Battery,
    readings: Readings,
    tuning: Tuning,
)
    requires
        battery.valid(),
    ensures
        ({
            let (_, after) = update_from_telemetry_run(io, battery, readings, tuning);
            &&& after.valid()
            &&& after.last_power_state == power_flags(after)
            &&& after.attached == battery.attached
            &&& after.attached ==> after.notified_pct == after.last_pct
            &&& !after.attached ==> after.notified_pct == battery.notified_pct
        }),
{
    reveal(held_flags_run);
    reveal(estimated);
    law_soc_percent_is_monotone(readings.vbat_uv, readings.vbat_uv);
}

// ---------------------------------------------------------------------------
// Attaching
// ---------------------------------------------------------------------------
pub open spec fn assign_ioctl_preprocess_run(io: Io<Op>) -> (Io<Op>, i32) {
    let (io, control) = io.status(Op::PreprocessDeviceControl);
    if control < 0 {
        (io, control)
    } else {
        io.status(Op::PreprocessSystemControl)
    }
}

/// Registers the looks at device-control and system-control requests.
pub fn assign_ioctl_preprocess(io: &mut Session<Op>) -> (status: i32)
    ensures
        (final(io)@, status) == assign_ioctl_preprocess_run(old(io)@),
{
    let control: i32 = io.status(Op::PreprocessDeviceControl);
    if control < 0 {
        return control;
    }
    io.status(Op::PreprocessSystemControl)
}

pub open spec fn initialize_run(io: Io<Op>, battery: Battery) -> (Io<Op>, Battery, i32) {
    if battery.attached {
        (io, battery, STATUS_SUCCESS)
    } else {
        let (io, objects) = io.flag(Op::DeviceObjects);
        if !objects {
            (io, battery, STATUS_INVALID_DEVICE_STATE)
        } else {
            let (io, status) = io.status(Op::BatteryAttach);
            let io = io.mark("BattClassSt", status_word(status));
            if status < 0 {
                (io, battery, status)
            } else {
                let battery = Battery { attached: true, ..battery };
                let (io, wmi) = io.mark("BattClassOk", 1).status(Op::WmiRegister);
                let io = io.mark("BattWmiSt", status_word(wmi));
                if wmi >= 0 {
                    (
                        io.mark("BattWmiOk", 1),
                        Battery { wmi_registered: true, ..battery },
                        STATUS_SUCCESS,
                    )
                } else {
                    (io, battery, STATUS_SUCCESS)
                }
            }
        }
    }
}

/// Attaches to the battery class, once. The management interface is optional.
pub fn initialize(io: &mut Session<Op>, battery: &mut Battery) -> (status: i32)
    ensures
        (final(io)@, *final(battery), status) == initialize_run(old(io)@, *old(battery)),
        old(battery).valid() ==> final(battery).valid(),
{
    if battery.attached {
        return STATUS_SUCCESS;
    }
    if !io.flag(Op::DeviceObjects) {
        return STATUS_INVALID_DEVICE_STATE;
    }
    let status: i32 = io.status(Op::BatteryAttach);
    io.mark("BattClassSt", status_word(status));
    if status < 0 {
        return status;
    }
    battery.attached = true;
    io.mark("BattClassOk", 1);
    let wmi: i32 = io.status(Op::WmiRegister);
    io.mark("BattWmiSt", status_word(wmi));
    if wmi >= 0 {
        battery.wmi_registered = true;
        io.mark("BattWmiOk", 1);
    }
    STATUS_SUCCESS
}

pub open spec fn unload_run(io: Io<Op>, battery: Battery) -> (Io<Op>, Battery) {
    let (io, battery) = if battery.wmi_registered && battery.attached {
        (io.tell(Op::WmiDeregister), Battery { wmi_registered: false, ..battery })
    } else {
        (io, battery)
    };
    if battery.attached {
        (io.tell(Op::BatteryDetach), Battery { attached: false, ..battery })
    } else {
        (io, battery)
    }
}

/// Detaches from the battery class.
pub fn unload(io: &mut Session<Op>, battery: &mut Battery)
    ensures
        (final(io)@, *final(battery)) == unload_run(old(io)@, *old(battery)),
        old(battery).valid() ==> final(battery).valid(),
{
    if battery.wmi_registered && battery.attached {
        io.tell(Op::WmiDeregister);
        battery.wmi_registered = false;
    }
    if battery.attached {
        io.tell(Op::BatteryDetach);
        battery.attached = false;
    }
}

/// An unload undoes an attach, and a second attach does nothing.
pub proof fn law_unload_undoes_initialize(io: Io<Op>, battery: Battery)
    requires
        battery.valid(),
        !battery.attached,
    ensures
        ({
            let (io1, attached, status) = initialize_run(io, battery);
            let (io2, detached) = unload_run(io1, attached);
            &&& detached == battery
            &&& status >= 0 <==> attached.attached
            &&& attached.attached ==> initialize_run(io1, attached) == (io1, attached, 0i32)
        }),
{
}

// ---------------------------------------------------------------------------
// Questions of the battery class
// ---------------------------------------------------------------------------
/// Answers the question for the battery's tag.
pub fn query_tag(battery: &Battery) -> (r: (u32, i32))
    ensures
        r.0 == battery.tag,
        r.1 == if battery.tag == BATTERY_TAG_INVALID {
            STATUS_NO_SUCH_DEVICE
        } else {
            STATUS_SUCCESS
        },
{
    if battery.tag == BATTERY_TAG_INVALID {
        (battery.tag, STATUS_NO_SUCH_DEVICE)
    } else {
        (battery.tag, STATUS_SUCCESS)
    }
}

/// Answers the question for the status.
pub fn query_status(battery: &mut Battery, tag: u32, has_buffer: bool) -> (r: Result<
    BatteryStatus,
    i32,
>)
    ensures
        r == if tag != old(battery).tag {
            Err::<BatteryStatus, i32>(STATUS_NO_SUCH_DEVICE)
        } else if !has_buffer {
            Err(STATUS_INVALID_PARAMETER)
        } else {
            Ok(status_of(*old(battery)))
        },
        r is Err ==> *final(battery) == *old(battery),
        r is Ok ==> *final(battery) == (Battery {
            last_power_state: power_flags(*old(battery)),
            ..*old(battery)
        }),
{
    if tag != battery.tag {
        return Err(STATUS_NO_SUCH_DEVICE);
    }
    if !has_buffer {
        return Err(STATUS_INVALID_PARAMETER);
    }
    Ok(build_status(battery))
}

/// Settings cannot be changed.
pub fn set_information() -> (status: i32)
    ensures
        status == STATUS_INVALID_DEVICE_REQUEST,
{
    STATUS_INVALID_DEVICE_REQUEST
}

/// What the battery is: a lithium-ion system battery whose capacities are
/// percentages, with alerts at 10 and 5 percent.
pub open spec fn information_bytes() -> Seq<u8> {
    Seq::<u8>::empty() + wire::le32(BATTERY_SYSTEM_BATTERY) + seq![1u8] + wire::zeros(3)
        + seq![0x4Cu8] + seq![0x49u8] + seq![0x4Fu8] + seq![0x4Eu8] + wire::le32(100)
        + wire::le32(100) + wire::le32(10) + wire::le32(5) + wire::le32(0) + wire::le32(0)
}

fn information() -> (out: Vec<u8>)
    ensures
        out@ == information_bytes(),
        out@.len() == 36,
{
    let mut out: Vec<u8> = Vec::new();
    put_u32(&mut out, BATTERY_SYSTEM_BATTERY);
    put_u8(&mut out, 1);
    put_zeros(&mut out, 3);
    put_u8(&mut out, 0x4C);
    put_u8(&mut out, 0x49);
    put_u8(&mut out, 0x4F);
    put_u8(&mut out, 0x4E);
    put_u32(&mut out, 100);
    put_u32(&mut out, 100);
    put_u32(&mut out, 10);
    put_u32(&mut out, 5);
    put_u32(&mut out, 0);
    put_u32(&mut out, 0);
    out
}

/// The units of an ASCII text in memory, without a terminator.
pub open spec fn text_bytes(text: Seq<u8>) -> Seq<u8>
    decreases text.len(),
{
    if text.len() == 0 {
        Seq::empty()
    } else {
        text_bytes(text.drop_last()) + wire::le16(text.last() as u16)
    }
}

/// A text in UTF-16 with its terminator.
fn wide_text(text: &str) -> (out: Vec<u8>)
    ensures
        out@ == text_bytes(text.spec_bytes()) + wire::le16(0),
{
    let bytes = text.as_bytes();
    let mut out: Vec<u8> = Vec::new();
    let mut index: usize = 0;
    assert(bytes@.take(0) =~= Seq::<u8>::empty());
    while index < bytes.len()
        invariant
            bytes@ == text.spec_bytes(),
            index <= bytes@.len(),
            out@ == text_bytes(bytes@.take(index as int)),
        decreases bytes@.len() - index,
    {
        proof {
            let next = bytes@.take(index + 1);
            assert(next.drop_last() =~= bytes@.take(index as int));
            assert(next.last() == bytes@[index as int]);
        }
        put_u16(&mut out, bytes[index] as u16);
        index = index + 1;
    }
    assert(bytes@.take(index as int) =~= bytes@);
    put_u16(&mut out, 0);
    out
}

/// The name of the battery.
pub const DEVICE_NAME: &'static str = "Nabu LN8000";

/// Its manufacturer.
pub const MANUFACTURE_NAME: &'static str = "Xiaomi";

/// Its unique id.
pub const UNIQUE_ID: &'static str = "NABU-LN8000-VBAT";

/// The answer to an information level, where there is one.
pub open spec fn information_answer(level: u32) -> Option<Seq<u8>> {
    if level == 0 {
        Some(information_bytes())
    } else if level == 3 {
        Some(Seq::<u8>::empty() + wire::le32(BATTERY_UNKNOWN_TIME))
    } else if level == 4 {
        Some(text_bytes(DEVICE_NAME.spec_bytes()) + wire::le16(0))
    } else if level == 6 {
        Some(text_bytes(MANUFACTURE_NAME.spec_bytes()) + wire::le16(0))
    } else if level == 7 {
        Some(text_bytes(UNIQUE_ID.spec_bytes()) + wire::le16(0))
    } else {
        None
    }
}

/// What became of an information question.
pub struct Information {
    /// Status of the question.
    pub status: i32,
    /// The length that an answer needs, where it is told.
    pub needed: Option<usize>,
    /// The answer, where it fits.
    pub bytes: Vec<u8>,
}

/// Answers a question about the battery. A wrong tag tells nothing, an unknown
/// level needs nothing, and a buffer that is too small is told the length.
pub fn query_information(battery: &Battery, tag: u32, level: u32, buffer_length: usize) -> (r:
    Information)
    ensures
        ({
            let answer = information_answer(level);
            if tag != battery.tag {
                r.status == STATUS_NO_SUCH_DEVICE && r.needed is None && r.bytes@.len() == 0
            } else if answer is None {
                r.status == STATUS_INVALID_DEVICE_REQUEST && r.needed == Some(0usize)
                    && r.bytes@.len() == 0
            } else {
                &&& r.needed matches Some(n) && n == answer->0.len()
                &&& if buffer_length < answer->0.len() {
                    r.status == STATUS_BUFFER_TOO_SMALL && r.bytes@.len() == 0
                } else {
                    r.status == STATUS_SUCCESS && r.bytes@ == answer->0
                }
            }
        }),
{
    if tag != battery.tag {
        return Information { status: STATUS_NO_SUCH_DEVICE, needed: None, bytes: Vec::new() };
    }
    let answer: Vec<u8> = if level == 0 {
        information()
    } else if level == 3 {
        let mut out: Vec<u8> = Vec::new();
        put_u32(&mut out, BATTERY_UNKNOWN_TIME);
        out
    } else if level == 4 {
        wide_text(DEVICE_NAME)
    } else if level == 6 {
        wide_text(MANUFACTURE_NAME)
    } else if level == 7 {
        wide_text(UNIQUE_ID)
    } else {
        return Information {
            status: STATUS_INVALID_DEVICE_REQUEST,
            needed: Some(0),
            bytes: Vec::new(),
        };
    };
    let needed: usize = answer.len();
    if buffer_length < needed {
        Information { status: STATUS_BUFFER_TOO_SMALL, needed: Some(needed), bytes: Vec::new() }
    } else {
        Information { status: STATUS_SUCCESS, needed: Some(needed), bytes: answer }
    }
}

// ---------------------------------------------------------------------------
// Requests that the battery class sees first
// ---------------------------------------------------------------------------
/// What to do with a request after the class has seen it.
#[derive(Debug, Clone, Copy, PartialEq, Eq, Structural)]
pub enum Dispatch {
    /// It is finished with a status.
    Finished(i32),
    /// Complete it, and report a status.
    Complete(i32),
    /// Hand it on to the driver's own queue.
    Forward,
}

/// After a device-control request: `class` is the class's status, where the
/// class is attached. What it does not support goes on.
#[verifier::allow_in_spec]
pub fn after_device_control(class: Option<i32>) -> (r: Dispatch)
    returns
        (match class {
            Some(status) => if status == STATUS_NOT_SUPPORTED {
                Dispatch::Forward
            } else {
                Dispatch::Finished(status)
            },
            None => Dispatch::Forward,
        }),
{
    match class {
        Some(status) => if status == STATUS_NOT_SUPPORTED {
            Dispatch::Forward
        } else {
            Dispatch::Finished(status)
        },
        None => Dispatch::Forward,
    }
}

/// After a management request: `class` is the class's status and disposition
/// (0 processed, 1 not completed, else to be forwarded), where the class is
/// attached.
#[verifier::allow_in_spec]
pub fn after_system_control(class: Option<(i32, i32)>) -> (r: Dispatch)
    returns
        (match class {
            Some((status, disposition)) => if disposition == 0 {
                Dispatch::Finished(status)
            } else if disposition == 1 {
                Dispatch::Complete(status)
            } else {
                Dispatch::Forward
            },
            None => Dispatch::Forward,
        }),
{
    match class {
        Some((status, disposition)) => if disposition == 0 {
            Dispatch::Finished(status)
        } else if disposition == 1 {
            Dispatch::Complete(status)
        } else {
            Dispatch::Forward
        },
        None => Dispatch::Forward,
    }
}

/// After a management data question: `class` is the class's status, where the
/// class is attached. Without room for the lengths it is refused, and a block
/// that nobody knows is completed as unknown.
#[verifier::allow_in_spec]
pub fn after_data_block(has_lengths: bool, class: Option<i32>) -> (r: Dispatch)
    returns
        (if !has_lengths {
            Dispatch::Finished(STATUS_BUFFER_TOO_SMALL)
        } else {
            match class {
                Some(status) => if status == STATUS_WMI_GUID_NOT_FOUND {
                    Dispatch::Complete(STATUS_WMI_GUID_NOT_FOUND)
                } else {
                    Dispatch::Finished(status)
                },
                None => Dispatch::Complete(STATUS_WMI_GUID_NOT_FOUND),
            }
        }),
{
    if !has_lengths {
        return Dispatch::Finished(STATUS_BUFFER_TOO_SMALL);
    }
    match class {
        Some(status) => if status == STATUS_WMI_GUID_NOT_FOUND {
            Dispatch::Complete(STATUS_WMI_GUID_NOT_FOUND)
        } else {
            Dispatch::Finished(status)
        },
        None => Dispatch::Complete(STATUS_WMI_GUID_NOT_FOUND),
    }
}

// ---------------------------------------------------------------------------
// Laws of what is told
// ---------------------------------------------------------------------------
/// What the class is told is what is held: an adapter exactly where one is published, a
/// charge exactly where it is held on an adapter, a discharge exactly off it, a nearly
/// empty pack exactly at a known percentage of 5 or less; the percentage; the cell in
/// whole millivolts; and a rate of 0 exactly on an adapter that does not charge.
pub proof fn law_status_tells_what_is_held(battery: Battery)
    ensures
        ({
            let told = status_of(battery);
            &&& told.power_state & 1 != 0 <==> battery.online
            &&& told.power_state & 2 != 0 <==> !battery.online
            &&& told.power_state & 4 != 0 <==> battery.online && battery.charging
            &&& told.power_state & 8 != 0 <==> battery.last_pct != 0xFFFF_FFFF && battery.last_pct
                <= 5
            &&& told.power_state < 16
            &&& told.capacity == battery.last_pct
            &&& told.voltage * 1000 <= battery.last_vbat_uv < (told.voltage + 1) * 1000
            &&& told.rate == 0 <==> battery.online && !battery.charging
            &&& told.rate == 0 || told.rate == i32::MIN
            &&& told.power_state == power_flags(battery)
        }),
{
    let p = power_flags(battery);
    assert(p == 1 || p == 5 || p == 2 || p == 9 || p == 13 || p == 10);
    assert(1u32 & 4 == 0 && 1u32 & 1 == 1 && 1u32 & 2 == 0 && 1u32 & 8 == 0) by (bit_vector);
    assert(5u32 & 4 == 4 && 5u32 & 1 == 1 && 5u32 & 2 == 0 && 5u32 & 8 == 0) by (bit_vector);
    assert(2u32 & 4 == 0 && 2u32 & 1 == 0 && 2u32 & 2 == 2 && 2u32 & 8 == 0) by (bit_vector);
    assert(9u32 & 4 == 0 && 9u32 & 1 == 1 && 9u32 & 2 == 0 && 9u32 & 8 == 8) by (bit_vector);
    assert(13u32 & 4 == 4 && 13u32 & 1 == 1 && 13u32 & 2 == 0 && 13u32 & 8 == 8) by (bit_vector);
    assert(10u32 & 4 == 0 && 10u32 & 1 == 0 && 10u32 & 2 == 2 && 10u32 & 8 == 8) by (bit_vector);
}

/// The percentage of a resting cell is its place between 3.4 V and 4.35 V, in whole
/// percents, and that of the gauge its place between the ends of the scale, rounded to
/// the closest.
pub proof fn law_percentages_are_proportional(vbat_uv: u32, raw: u8)
    ensures
        vbat_uv <= 3_400_000 ==> spec_soc_percent(vbat_uv) == 0,
        vbat_uv >= 4_350_000 ==> spec_soc_percent(vbat_uv) == 100,
        3_400_000 <= vbat_uv < 4_350_000 ==> spec_soc_percent(vbat_uv) * 9_500 <= vbat_uv
            - 3_400_000 < (spec_soc_percent(vbat_uv) + 1) * 9_500,
        gauge_percent(0) == 0,
        gauge_percent(255) == 100,
        1 <= raw <= 254 ==> -253 <= 2 * (253 * (gauge_percent(raw) - 1) - 98 * (raw - 1)) <= 253,
{
}

/// An estimate replaces a percentage that is not the gauge's wherever a cell reading
/// comes with evidence that the adapter is gone, and says that it is one. Every cell
/// reading is kept. Nothing else changes.
pub proof fn law_estimate_is_made(battery: Battery, readings: Readings, raw_online: Option<bool>)
    ensures
        ({
            let after = estimated(battery, readings, raw_online);
            let due = readings.vbat_uv > 0 && battery.soc_src != 1 && raw_online == Some(false);
            &&& due ==> after.last_pct == spec_soc_percent(readings.vbat_uv) && after.soc_src == 2
            &&& !due ==> after.last_pct == battery.last_pct && after.soc_src == battery.soc_src
            &&& readings.vbat_uv > 0 ==> after.last_vbat_uv == readings.vbat_uv
            &&& readings.vbat_uv == 0 ==> after.last_vbat_uv == battery.last_vbat_uv
            &&& after == (Battery {
                last_pct: after.last_pct,
                soc_src: after.soc_src,
                last_vbat_uv: after.last_vbat_uv,
                ..battery
            })
        }),
{
    reveal(estimated);
}

/// The adapter that is published is the one that the holding rule answers with: fed
/// with an end where the unplug is believed, else with the evidence. The charge is the
/// one that its holding rule answers with, fed with the evidence on that adapter.
pub proof fn law_flags_are_the_held_ones(
    io: Io<Op>,
    battery: Battery,
    readings: Readings,
    raw_online: Option<bool>,
    tuning: Tuning,
)
    requires
        io.pending is None,
        held_flags_run(io, battery, readings, raw_online, tuning).0.pending is None,
    ensures
        ({
            let (after, held) = held_flags_run(io, battery, readings, raw_online, tuning);
            let unplug = match trace::answer(io, 0) {
                Reply::Unplug(believed, run) => (believed, run),
                _ => (false, 0u32),
            };
            &&& trace::asked(io, after) == seq![
                Op::UnplugRelease {
                    vac_unplug: readings.vac_unplug,
                    iin_ua: readings.iin_ua,
                    run: battery.unplug_run,
                },
                if unplug.0 {
                    Op::OnlineExpire { now_ms: readings.now_ms }
                } else {
                    Op::OnlineEvidence {
                        raw: raw_online,
                        now_ms: readings.now_ms,
                        hold_ms: tuning.online_hold_ms,
                    }
                },
                Op::ChargingRaw {
                    online: held.online,
                    iin_ua: readings.iin_ua,
                    peak_ua: readings.iin_peak_ua,
                    soc_rising: readings.soc_rising,
                },
                Op::ChargingHold {
                    raw: trace::yes(trace::answer(io, 2)),
                    now_ms: readings.now_ms,
                    hold_ms: tuning.charging_hold_ms,
                },
            ]
            &&& held.online == trace::yes(trace::answer(io, 1))
            &&& held.charging == trace::yes(trace::answer(io, 3))
            &&& held.unplug_run == unplug.1
            &&& held == (Battery {
                online: held.online,
                charging: held.charging,
                unplug_run: held.unplug_run,
                ..battery
            })
        }),
{
    broadcast use trace::group_trace;

    reveal(held_flags_run);
    trace::lemma_asked_nothing(io);
}

/// A tick asks first whether the readings show an adapter, keeps the readings, and
/// notifies an attached class exactly where the flags or the percentage are not those
/// that it was told last; it tells it the battery that it leaves.
pub proof fn law_class_learns_of_every_change(
    io: Io<Op>,
    battery: Battery,
    readings: Readings,
    tuning: Tuning,
)
    requires
        io.pending is None,
        update_from_telemetry_run(io, battery, readings, tuning).0.pending is None,
    ensures
        ({
            let (after, left) = update_from_telemetry_run(io, battery, readings, tuning);
            let sent = trace::asked(io, after);
            let changed = status_of(left).power_state != battery.last_power_state || left.last_pct
                != battery.notified_pct;
            &&& sent.len() >= 5
            &&& sent[0] == (Op::OnlineRaw {
                vbus_uv: readings.vbus_uv,
                vbat_uv: readings.vbat_uv,
                iin_ua: readings.iin_ua,
                vac_unplug: readings.vac_unplug,
                usable: readings.usable,
            })
            &&& left.last_vbus_uv == readings.vbus_uv
            &&& left.last_iin_ua == readings.iin_ua
            &&& readings.vbat_uv > 0 ==> left.last_vbat_uv == readings.vbat_uv
            &&& left.online == trace::yes(trace::answer(io, 2))
            &&& left.charging == trace::yes(trace::answer(io, 4))
            &&& battery.soc_src == 1 ==> left.last_pct == battery.last_pct
            &&& battery.soc_src != 1 && readings.vbat_uv > 0 && trace::answer(io, 0)
                == Reply::Verdict(Some(false)) ==> left.last_pct == spec_soc_percent(
                readings.vbat_uv,
            ) && left.soc_src == 2
            &&& battery.attached && changed ==> sent.len() == 6 && sent[5] == Op::BatteryNotify(
                left,
            ) && left.notified_pct == left.last_pct
            &&& !(battery.attached && changed) ==> sent.len() == 5 && left.notified_pct
                == battery.notified_pct
            &&& left.last_power_state == status_of(left).power_state
        }),
{
    broadcast use trace::group_trace;

    reveal(held_flags_run);
    reveal(estimated);
    trace::lemma_asked_nothing(io);
}

/// A gauge value is taken over: its percentage, the gauge as its source, no failures any
/// more, and the trend that is answered for it. Nothing else changes.
pub proof fn law_gauge_value_is_taken(io: Io<Op>, battery: Battery, raw: u8, now_ms: u64)
    requires
        io.pending is None,
        set_gauge_raw_run(io, battery, raw, now_ms).0.pending is None,
    ensures
        ({
            let (after, left) = set_gauge_raw_run(io, battery, raw, now_ms);
            &&& trace::asked(io, after) == seq![Op::SocTrend { raw, now_ms }]
            &&& trace::answer(io, 0) matches Reply::Trend(rising, at) ==> left.soc_rising == rising
                && left.soc_last_rise_ms == at
            &&& left == (Battery {
                last_pct: gauge_percent(raw),
                soc_src: 1,
                gauge_fails: 0,
                soc_rising: left.soc_rising,
                soc_last_rise_ms: left.soc_last_rise_ms,
                ..battery
            })
        }),
{
    broadcast use trace::group_trace;

    trace::lemma_asked_nothing(io);
}

/// The class is attached where the device's objects are there and the class agrees, and
/// the management interface is tried after that and only then; leaving takes both back,
/// the interface first.
pub proof fn law_class_is_attached_and_left(io: Io<Op>, battery: Battery)
    requires
        io.pending is None,
        battery.valid(),
    ensures
        ({
            let (after, left, status) = initialize_run(io, battery);
            let sent = trace::asked(io, after);
            !battery.attached && after.pending is None ==> {
                &&& sent.len() >= 1 && sent[0] == Op::DeviceObjects
                &&& !trace::yes(trace::answer(io, 0)) ==> sent.len() == 1 && status < 0 && left
                    == battery
                &&& trace::yes(trace::answer(io, 0)) ==> sent.len() >= 2 && sent[1]
                    == Op::BatteryAttach && match trace::answer(io, 1) {
                    Reply::Status(s) => if s < 0 {
                        sent.len() == 2 && status == s && left == battery
                    } else {
                        &&& sent.len() == 3 && sent[2] == Op::WmiRegister
                        &&& status == 0 && left.attached
                        &&& left.wmi_registered <==> (trace::answer(io, 2) matches Reply::Status(w)
                            && w >= 0)
                    },
                    _ => sent.len() == 2 && status == -1 && left == battery,
                }
            }
        }),
        ({
            let (after, left) = unload_run(io, battery);
            after.pending is None ==> {
                &&& !left.attached && !left.wmi_registered
                &&& trace::asked(io, after) == if battery.wmi_registered {
                    seq![Op::WmiDeregister, Op::BatteryDetach]
                } else if battery.attached {
                    seq![Op::BatteryDetach]
                } else {
                    Seq::<Op>::empty()
                }
            }
        }),
{
    broadcast use trace::group_trace;

    trace::lemma_asked_nothing(io);
}

/// The battery calls itself a rechargeable lithium-ion system battery of 100 percent,
/// with alerts at 10 and at 5, byte for byte.
pub proof fn law_information_has_its_layout()
    ensures
        information_bytes() == seq![
            0u8, 0, 0, 0x80, 1, 0, 0, 0, 0x4C, 0x49, 0x4F, 0x4E, 100, 0, 0, 0, 100, 0, 0, 0,
            10, 0, 0, 0, 5, 0, 0, 0, 0, 0, 0, 0, 0, 0, 0, 0,
        ],
{
}

/// A text is told in units of two bytes, the low one first.
pub proof fn law_text_has_its_layout(text: Seq<u8>, i: int)
    requires
        0 <= i < text.len(),
    ensures
        text_bytes(text).len() == 2 * text.len(),
        text_bytes(text)[2 * i] == text[i],
        text_bytes(text)[2 * i + 1] == 0,
    decreases text.len(),
{
    reveal_with_fuel(text_bytes, 2);
    if i < text.len() - 1 {
        law_text_has_its_layout(text.drop_last(), i);
    } else if text.len() > 1 {
        law_text_has_its_layout(text.drop_last(), 0);
    }
}

/// What the class answers for itself is finished; what it does not support, or is not
/// there for, goes on to the driver.
pub proof fn law_class_comes_first(class: Option<i32>, wmi: Option<(i32, i32)>)
    ensures
        after_device_control(class) is Forward <==> class is None || class->0 == -1073741637,
        after_device_control(class) !is Forward ==> after_device_control(class)
            == Dispatch::Finished(class->0),
        wmi is None ==> after_system_control(wmi) is Forward,
        wmi matches Some((status, disposition)) ==> {
            &&& disposition == 0 ==> after_system_control(wmi) == Dispatch::Finished(status)
            &&& disposition == 1 ==> after_system_control(wmi) == Dispatch::Complete(status)
            &&& disposition != 0 && disposition != 1 ==> after_system_control(wmi) is Forward
        },
{
}

/// Both kinds of requests are preprocessed, the second only where the first could be
/// arranged; the first failure is the answer.
pub proof fn law_requests_are_preprocessed(io: Io<Op>)
    requires
        io.pending is None,
        assign_ioctl_preprocess_run(io).0.pending is None,
    ensures
        ({
            let (after, status) = assign_ioctl_preprocess_run(io);
            let first = trace::status_of(trace::answer(io, 0));
            &&& first < 0 ==> status == first && trace::asked(io, after) == seq![
                Op::PreprocessDeviceControl,
            ]
            &&& first >= 0 ==> status == trace::status_of(trace::answer(io, 1)) && trace::asked(
                io,
                after,
            ) == seq![Op::PreprocessDeviceControl, Op::PreprocessSystemControl]
        }),
{
    broadcast use trace::group_trace;

    trace::lemma_asked_nothing(io);
}

/// Five levels of information are answered: the information itself, an unknown time of
/// four bytes, and three texts that end in a zero. No other is.
pub proof fn law_information_has_five_levels(level: u32)
    ensures
        information_answer(level) is Some <==> level == 0 || level == 3 || level == 4 || level == 6
            || level == 7,
        level == 0 ==> information_answer(level) == Some(information_bytes()),
        level == 3 ==> information_answer(level) == Some(seq![0xFFu8, 0xFF, 0xFF, 0xFF]),
        level == 4 ==> information_answer(level) == Some(
            text_bytes(DEVICE_NAME.spec_bytes()) + seq![0u8, 0],
        ),
        level == 6 ==> information_answer(level) == Some(
            text_bytes(MANUFACTURE_NAME.spec_bytes()) + seq![0u8, 0],
        ),
        level == 7 ==> information_answer(level) == Some(
            text_bytes(UNIQUE_ID.spec_bytes()) + seq![0u8, 0],
        ),
{
    if level == 3 {
        assert(information_answer(level)->Some_0 =~= seq![0xFFu8, 0xFF, 0xFF, 0xFF]);
    }
    assert(wire::le16(0) =~= seq![0u8, 0]);
}

} // verus!
