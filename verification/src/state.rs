//! What the driver remembers between its callbacks.
use crate::battery::Battery;
use crate::hvdcp::HvdcpState;
use crate::status::{STATUS_ABANDONED, STATUS_SUCCESS};
use vstd::prelude::*;

verus! {

/// Shortest telemetry period (ms).
pub const TELEMETRY_MS_MIN: u32 = 100;

/// Telemetry period before the registry is read (ms).
pub const TELEMETRY_MS_DEFAULT: u32 = 250;

/// Attempts to charge.
#[derive(Debug, Clone, Copy)]
pub struct ChargeLoop {
    /// When the last attempt was decided (ms).
    pub last_attempt_ms: u64,
    /// The input at that time (µV).
    pub last_attempt_vbus_uv: u32,
    /// How often an attempt succeeded.
    pub auto_starts: u32,
    /// Failures in a row.
    pub failed_attempts: u32,
    /// Attempts in all.
    pub charge_attempts: u32,
    /// When the last attempt was made (ms).
    pub last_enable_ms: u64,
    /// Code of the last failure; 0 for none.
    pub last_error: i32,
}

/// Corrections of the bus toward the transfer band.
#[derive(Debug, Clone, Copy, PartialEq, Eq, Structural)]
pub struct WindowLoop {
    /// When the last correction was made (ms).
    pub last_nudge_ms: u64,
    /// Smallest distance from the target in this episode (µV).
    pub best_err_uv: u32,
    /// Corrections without progress.
    pub stall_n: u32,
}

/// Repeated elevation of an input that fell back to 5 V.
#[derive(Debug, Clone, Copy, PartialEq, Eq, Structural)]
pub struct ReElevate {
    /// Repetitions in this episode.
    pub attempts: u32,
    /// When the next one is due (ms); 0 for not scheduled.
    pub next_ms: u64,
    /// Present delay (ms).
    pub backoff_ms: u64,
}

/// The buck's fast charge current.
#[derive(Debug, Clone, Copy, PartialEq, Eq, Structural)]
pub struct FccPolicy {
    /// What the policy raises it to, in steps; 0 for no policy.
    pub cfg_raw: u32,
    /// What the register held at first; 0 for not captured.
    pub boot_raw: u8,
    /// Whether the policy has raised it.
    pub raised: bool,
    /// When it goes back (ms); 0 for not scheduled.
    pub restore_at_ms: u64,
    /// Whether the one-shot write probe is settled.
    pub probe_done: bool,
    /// When the registers were last published (ms); 0 for never.
    pub last_mark_ms: u64,
}

impl FccPolicy {
    /// A raise has something to go back to.
    pub open spec fn valid(self) -> bool {
        self.raised ==> self.boot_raw != 0
    }
}

/// Retries of a negotiation that found its slot busy.
#[derive(Debug, Clone, Copy, PartialEq, Eq, Structural)]
pub struct RetrySlot {
    /// Whether one is scheduled.
    pub pending: bool,
    /// Retries so far.
    pub attempts: u32,
    /// When the next one is due (ms).
    pub next_ms: u64,
}

/// Edges of the input.
#[derive(Debug, Clone, Copy, PartialEq, Eq, Structural)]
pub struct InputEdge {
    /// Whether edges are looked at.
    pub armed: bool,
    /// The input at the last look.
    pub last_present: bool,
}

/// Power mode of the chip's ADC.
#[derive(Debug, Clone, Copy, PartialEq, Eq, Structural)]
pub struct AdcPower {
    /// Whether the driver keeps it awake.
    pub awake: bool,
    /// How often it was woken.
    pub wake_n: u32,
}

/// Peak of the input current.
#[derive(Debug, Clone, Copy, PartialEq, Eq, Structural)]
pub struct IinWindow {
    /// Peak of the present window (µA).
    pub max_ua: u32,
    /// Start of the present window (ms).
    pub start_ms: u64,
}

/// The state of the one device.
#[derive(Debug, Clone, Copy)]
pub struct DriverState {
    /// Whether there is a pump.
    pub pump_open: bool,
    /// Whether there is a device.
    pub device_ready: bool,
    /// Whether there is a telemetry timer.
    pub timer_ready: bool,
    /// Whether the power request is held.
    pub power_held: bool,
    /// Register writes, as last counted.
    pub writes: u32,
    /// Register reads, as last counted.
    pub reads: u32,
    /// Protection actions so far.
    pub actions: u32,
    /// Telemetry period (ms).
    pub telemetry_ms: u32,
    /// Refusals of 1:1 in a row.
    pub bypass_denied_strikes: u32,
    /// Resource-hub connection of the USBIN block.
    pub usbin_id: Option<u64>,
    /// Attempts to charge.
    pub charge: ChargeLoop,
    /// The USBIN block.
    pub hvdcp: HvdcpState,
    /// Retries of a negotiation.
    pub retry: RetrySlot,
    /// Edges of the input.
    pub edge: InputEdge,
    /// Power mode of the ADC.
    pub adc: AdcPower,
    /// Peak of the input current.
    pub iin: IinWindow,
    /// Corrections of the bus.
    pub window: WindowLoop,
    /// Repeated elevation.
    pub reelevate: ReElevate,
    /// The buck's fast charge current.
    pub fcc: FccPolicy,
    /// The battery.
    pub battery: Battery,
}

impl DriverState {
    /// Before the device is there.
    #[verifier::allow_in_spec]
    pub fn new() -> (state: Self)
        returns
            (DriverState {
                pump_open: false,
                device_ready: false,
                timer_ready: false,
                power_held: false,
                writes: 0,
                reads: 0,
                actions: 0,
                telemetry_ms: TELEMETRY_MS_DEFAULT,
                bypass_denied_strikes: 0,
                usbin_id: None,
                charge: ChargeLoop {
                    last_attempt_ms: 0,
                    last_attempt_vbus_uv: 0,
                    auto_starts: 0,
                    failed_attempts: 0,
                    charge_attempts: 0,
                    last_enable_ms: 0,
                    last_error: 0,
                },
                hvdcp: HvdcpState::new(),
                retry: RetrySlot { pending: false, attempts: 0, next_ms: 0 },
                edge: InputEdge { armed: false, last_present: false },
                adc: AdcPower { awake: false, wake_n: 0 },
                iin: IinWindow { max_ua: 0, start_ms: 0 },
                window: WindowLoop { last_nudge_ms: 0, best_err_uv: u32::MAX, stall_n: 0 },
                reelevate: ReElevate { attempts: 0, next_ms: 0, backoff_ms: 0 },
                fcc: FccPolicy {
                    cfg_raw: 0,
                    boot_raw: 0,
                    raised: false,
                    restore_at_ms: 0,
                    probe_done: false,
                    last_mark_ms: 0,
                },
                battery: Battery::new(),
            }),
    {
        DriverState {
            pump_open: false,
            device_ready: false,
            timer_ready: false,
            power_held: false,
            writes: 0,
            reads: 0,
            actions: 0,
            telemetry_ms: TELEMETRY_MS_DEFAULT,
            bypass_denied_strikes: 0,
            usbin_id: None,
            charge: ChargeLoop {
                last_attempt_ms: 0,
                last_attempt_vbus_uv: 0,
                auto_starts: 0,
                failed_attempts: 0,
                charge_attempts: 0,
                last_enable_ms: 0,
                last_error: 0,
            },
            hvdcp: HvdcpState::new(),
            retry: RetrySlot { pending: false, attempts: 0, next_ms: 0 },
            edge: InputEdge { armed: false, last_present: false },
            adc: AdcPower { awake: false, wake_n: 0 },
            iin: IinWindow { max_ua: 0, start_ms: 0 },
            window: WindowLoop { last_nudge_ms: 0, best_err_uv: u32::MAX, stall_n: 0 },
            reelevate: ReElevate { attempts: 0, next_ms: 0, backoff_ms: 0 },
            fcc: FccPolicy {
                cfg_raw: 0,
                boot_raw: 0,
                raised: false,
                restore_at_ms: 0,
                probe_done: false,
                last_mark_ms: 0,
            },
            battery: Battery::new(),
        }
    }

    /// The parts keep their invariants.
    pub open spec fn valid(self) -> bool {
        self.hvdcp.valid() && self.battery.valid() && self.fcc.valid()
    }
}

/// Whether a wait for the state lock ended with its ownership. A positive
/// status alone is not enough: a timeout is one too.
#[verifier::allow_in_spec]
pub fn lock_acquired(status: i32) -> (held: bool)
    returns
        status == STATUS_SUCCESS || status == STATUS_ABANDONED,
{
    status == STATUS_SUCCESS || status == STATUS_ABANDONED
}

} // verus!
