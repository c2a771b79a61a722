//! The charge pump's vocabulary as plain values.
//!
//! The LN8000 core owns the chip: its register map, its mode transitions and
//! its protection thresholds. The driver only reads what the core reports and
//! hands commands back, so everything that crosses that line is a plain value
//! of one of the types below.
use vstd::prelude::*;

verus! {

/// `FAULT1` bit 4: the chip's own VBUS detector sees no adapter.
pub const FAULT1_VAC_UNPLUG: u8 = 0x10;

/// `FAULT1` bit 6: near-float over-voltage of the cell is latched.
pub const FAULT1_VBAT_OV: u8 = 0x40;

/// `FAULT1` bit 7: the watchdog fired and forced standby.
pub const FAULT1_WATCHDOG: u8 = 0x80;

/// `SYS_STS` bit 0: the chip is in hardware shutdown.
pub const SYS_STS_SHUTDOWN: u8 = 0x01;

/// Address of the identification register.
pub const DEVICE_ID: u8 = 0x00;

/// What a live LN8000 answers in [`DEVICE_ID`].
pub const DEVICE_ID_VALUE: u8 = 0x42;

/// The input level below which 2:1 is never requested (µV).
pub const SWITCHING_MIN_VIN_UV: i32 = 8_000_000;

/// Operating mode of the pump.
#[derive(Debug, Clone, Copy, PartialEq, Eq, Structural)]
pub enum OpMode {
    /// The mode register held none of the known combinations.
    Unknown,
    /// Idle.
    Standby,
    /// 1:1.
    Bypass,
    /// 2:1.
    Switching,
}

impl OpMode {
    /// The number under which a mode is published.
    pub open spec fn spec_code(self) -> u8 {
        match self {
            OpMode::Unknown => 0,
            OpMode::Standby => 1,
            OpMode::Bypass => 2,
            OpMode::Switching => 3,
        }
    }

    /// The number under which a mode is published.
    pub fn code(self) -> (code: u8)
        ensures
            code == self.spec_code(),
    {
        match self {
            OpMode::Unknown => 0,
            OpMode::Standby => 1,
            OpMode::Bypass => 2,
            OpMode::Switching => 3,
        }
    }
}

/// Why a pump command failed.
#[derive(Debug, Clone, Copy, PartialEq, Eq, Structural)]
pub enum PumpError {
    /// The register bus failed.
    Bus,
    /// The pump was not opened.
    NotOpen,
    /// The identification register held another value.
    WrongDeviceId,
    /// The chip did not enter the requested mode.
    ModeNotReached,
    /// A fault is latched.
    Fault,
    /// The requested value is outside the register's range.
    OutOfRange,
    /// The watchdog expired.
    WatchdogExpired,
    /// 1:1 was asked for at an input outside its window.
    BypassNeedsFiveVoltVin,
    /// A failure added to the core later.
    Other,
}

/// What the protection asks for.
#[derive(Debug, Clone, Copy, PartialEq, Eq, Structural)]
pub enum GuardAction {
    /// Nothing.
    Keep,
    /// Lower the input current limit.
    ReduceCurrent {
        /// The new limit (µA).
        to_ua: u32,
    },
    /// Return to the profile's input current limit.
    RestoreCurrent {
        /// The new limit (µA).
        to_ua: u32,
    },
    /// Leave 2:1 for 1:1.
    FallbackToBypass,
    /// Stop the charge.
    Stop,
    /// An action added to the core later.
    Other,
}

/// What becomes of a request for 1:1 at the present input.
#[derive(Debug, Clone, Copy, PartialEq, Eq, Structural)]
pub enum BypassResolution {
    /// 1:1 may be enabled.
    Allowed,
    /// 1:1 is forbidden: lower the current instead.
    ReduceCurrent {
        /// The new limit (µA).
        to_ua: u32,
    },
    /// 1:1 is forbidden and lowering the current was tried: stop.
    Stop,
    /// A verdict added to the core later.
    Other,
}

/// Lifecycle of the pump object.
#[derive(Debug, Clone, Copy, PartialEq, Eq, Structural)]
pub enum PumpState {
    /// The chip answered its identification.
    Probed,
    /// Thresholds are written.
    Configured,
    /// 2:1 is running.
    Switching,
    /// A fault stopped it.
    Faulted,
    /// Any other state.
    Other,
}

/// Channel of the chip's ADC.
#[derive(Debug, Clone, Copy, PartialEq, Eq, Structural)]
pub enum AdcChannel {
    /// Cell voltage (µV).
    Vbat,
    /// Input voltage (µV).
    Vin,
    /// Input current (µA).
    Iin,
    /// Die temperature (0.1 °C).
    DieTemp,
}

/// Power mode of the chip's ADC.
#[derive(Debug, Clone, Copy, PartialEq, Eq, Structural)]
pub enum AdcMode {
    /// Converts all the time.
    Normal,
    /// Sleeps between conversions.
    AutoHibernate,
}

/// One snapshot of the status registers.
#[derive(Debug, Clone, Copy)]
pub struct ChipStatus {
    /// Decoded mode.
    pub op_mode: OpMode,
    /// `SYS_STS`.
    pub sys_sts: u8,
    /// `FAULT1_STS`.
    pub fault1_sts: u8,
    /// `FAULT2_STS`.
    pub fault2_sts: u8,
    /// `SAFETY_STS`.
    pub safety_sts: u8,
    /// Whether the core counts the snapshot as a critical fault.
    pub critical: bool,
}

/// One telemetry sample.
#[derive(Debug, Clone, Copy)]
pub struct TelemetrySample {
    /// Time stamp (ms).
    pub ts_ms: u64,
    /// Cell voltage (µV).
    pub vbat_uv: u32,
    /// Input voltage (µV).
    pub vbus_uv: u32,
    /// Input current (µA).
    pub iin_ua: u32,
    /// Die temperature (0.1 °C).
    pub die_temp_dc: i32,
    /// Mode at the time of the sample.
    pub op_mode: OpMode,
    /// Whether an adapter feeds the input.
    pub input_present: bool,
    /// Whether the cell reading can be used.
    pub vbat_valid: bool,
    /// Whether the temperature reading can be used.
    pub die_temp_valid: bool,
}

/// What is reported of one charge session.
#[derive(Debug, Clone, Copy)]
pub struct SessionSummary {
    /// Length (ms).
    pub duration_ms: u64,
    /// Highest input current (µA).
    pub peak_iin_ua: u32,
    /// Highest die temperature (0.1 °C).
    pub peak_die_temp_dc: i32,
    /// Whether 2:1 ran in it.
    pub fast: bool,
}

/// How an adapter that the PMIC has classified is to be raised.
#[derive(Debug, Clone, Copy, PartialEq, Eq, Structural)]
pub enum ApsdElevate {
    /// QC3: single steps.
    Qc3Pulse,
    /// QC2 or a plain DCP: the fixed 9 V request.
    Force9v,
    /// Neither: leave it at 5 V.
    Reject,
}

/// Whether the QC3.5 pulse train may be tried at the present input.
#[derive(Debug, Clone, Copy, PartialEq, Eq, Structural)]
pub enum Qc35AuthGate {
    /// It may.
    Attempt,
    /// The input was not measured.
    SkipVinInvalid,
    /// The input is already above the detection window.
    SkipVinTooHigh,
}

/// One pulse of the QC3.5 trains.
#[derive(Debug, Clone, Copy, PartialEq, Eq, Structural)]
pub enum Qc35AuthPulse {
    /// One step up.
    Inc,
    /// One step down.
    Dec,
}

/// What to do between two samples of a 9 V ramp.
#[derive(Debug, Clone, Copy, PartialEq, Eq, Structural)]
pub enum Force9vWait {
    /// Keep polling.
    Continue,
    /// The adapter answered: move the deadline out.
    Extend,
    /// Give up.
    Stop,
}

/// Numbers that the pump core chooses and the driver obeys.
#[derive(Debug, Clone, Copy)]
pub struct Tuning {
    /// First deadline of a 9 V ramp (ms).
    pub force9v_settle_ms: u32,
    /// Last deadline of a 9 V ramp (ms).
    pub force9v_hard_cap_ms: u32,
    /// The level that shows that an adapter answered (µV).
    pub force9v_rise_uv: i32,
    /// Patience for the QC3.5 detection window (ms).
    pub qc35_detect_timeout_ms: u32,
    /// Patience for the QC3.5 capability window (ms).
    pub qc35_cap_timeout_ms: u32,
    /// Distance of two input samples while waiting (ms).
    pub qc35_vin_poll_ms: u32,
    /// Most steps up before the QC3.5 train.
    pub qc35_prep_max_inc: u32,
    /// Power-on-reset time of the chip (ms).
    pub soft_reset_delay_ms: u64,
    /// Lowest input at which a charge is attempted (µV).
    pub charge_min_vin_uv: i32,
    /// Most retries after a busy negotiation slot.
    pub superuser_retry_max: u32,
    /// Distance of two such retries (ms).
    pub superuser_retry_ms: u64,
    /// How long a published adapter outlives its evidence (ms).
    pub online_hold_ms: u64,
    /// How long a published charge outlives its evidence (ms).
    pub charging_hold_ms: u64,
    /// Samples kept by the telemetry ring.
    pub sample_ring: usize,
}

impl Tuning {
    /// The polling distance must be positive, or a wait would never end.
    pub open spec fn valid(self) -> bool {
        self.qc35_vin_poll_ms > 0
    }
}

/// The number under which a pump failure is reported.
pub open spec fn spec_pump_error_code(err: PumpError) -> i32 {
    match err {
        PumpError::Bus => (-1) as i32,
        PumpError::NotOpen => (-2) as i32,
        PumpError::WrongDeviceId => (-3) as i32,
        PumpError::ModeNotReached => (-4) as i32,
        PumpError::Fault => (-5) as i32,
        PumpError::OutOfRange => (-6) as i32,
        PumpError::WatchdogExpired => (-7) as i32,
        PumpError::BypassNeedsFiveVoltVin => (-20) as i32,
        PumpError::Other => (-100) as i32,
    }
}

/// The number under which a pump failure is reported.
pub fn pump_error_code(err: PumpError) -> (code: i32)
    ensures
        code == spec_pump_error_code(err),
{
    match err {
        PumpError::Bus => -1,
        PumpError::NotOpen => -2,
        PumpError::WrongDeviceId => -3,
        PumpError::ModeNotReached => -4,
        PumpError::Fault => -5,
        PumpError::OutOfRange => -6,
        PumpError::WatchdogExpired => -7,
        PumpError::BypassNeedsFiveVoltVin => -20,
        PumpError::Other => -100,
    }
}

/// Each mode and each failure has a number of its own.
pub proof fn law_pump_has_its_numbers(mode: OpMode, err: PumpError)
    ensures
        mode is Unknown <==> mode.spec_code() == 0,
        mode is Standby <==> mode.spec_code() == 1,
        mode is Bypass <==> mode.spec_code() == 2,
        mode is Switching <==> mode.spec_code() == 3,
        err is Bus <==> spec_pump_error_code(err) == -1,
        err is NotOpen <==> spec_pump_error_code(err) == -2,
        err is WrongDeviceId <==> spec_pump_error_code(err) == -3,
        err is ModeNotReached <==> spec_pump_error_code(err) == -4,
        err is Fault <==> spec_pump_error_code(err) == -5,
        err is OutOfRange <==> spec_pump_error_code(err) == -6,
        err is WatchdogExpired <==> spec_pump_error_code(err) == -7,
        err is BypassNeedsFiveVoltVin <==> spec_pump_error_code(err) == -20,
        err is Other <==> spec_pump_error_code(err) == -100,
{
}

} // verus!
