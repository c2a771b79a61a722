//! What the driver asks of the machine, and what it hears back.
//!
//! An [`Op`] is one request to the world outside the library: a register
//! access, a pump command, a sleep, a verdict of the pump core. A [`Reply`] is
//! the answer. Both are plain values, so a whole conversation can be recorded
//! and reasoned about.
use crate::battery::Battery;
use crate::pump::{
    AdcChannel, AdcMode, ApsdElevate, BypassResolution, ChipStatus, Force9vWait, GuardAction,
    OpMode, PumpError, PumpState, Qc35AuthGate, SessionSummary, TelemetrySample,
};
use vstd::prelude::*;

verus! {

/// Which of the driver's serial connections a request goes through.
#[derive(Debug, Clone, Copy, PartialEq, Eq, Structural)]
pub enum Line {
    /// The I2C connection through the parent's I/O target.
    Parent,
    /// The I2C connection through the resource hub.
    Hub,
    /// A connection that is opened for one probe and dropped.
    Candidate,
}

/// A registry key that the driver opens.
#[derive(Debug, Clone, Copy, PartialEq, Eq, Structural)]
pub enum Key {
    /// The device's hardware key.
    Device,
    /// Its `Parameters` subkey.
    Parameters,
}

/// One request.
#[derive(Debug, Clone, Copy)]
pub enum Op {
    // -- time --------------------------------------------------------------
    /// Block for so many milliseconds.
    Sleep(u32),
    /// Read the monotonic clock (ms).
    Now,
    // -- PMIC registers ----------------------------------------------------
    /// Open the PMIC's superuser node.
    SuOpen,
    /// Close it.
    SuClose,
    /// Claim a peripheral.
    SuGrant(u16),
    /// Read one register.
    SuRead {
        /// Bus slave.
        sid: u8,
        /// Register address.
        reg: u16,
    },
    /// Read two adjacent registers.
    SuReadPair {
        /// Bus slave.
        sid: u8,
        /// Address of the first.
        reg: u16,
    },
    /// Write one register.
    SuWrite {
        /// Bus slave.
        sid: u8,
        /// Register address.
        reg: u16,
        /// New value.
        value: u8,
    },
    /// Open the resource-hub path to the same registers.
    UsbinOpen(u64),
    /// Read one register through it.
    UsbinRead {
        /// Register address.
        addr: u16,
        /// Byte order of the address on the wire.
        big_endian: bool,
    },
    /// Write one register through it.
    UsbinWrite {
        /// Register address.
        addr: u16,
        /// New value.
        value: u8,
        /// Byte order of the address on the wire.
        big_endian: bool,
    },
    /// Read one register through it and keep the status.
    UsbinTransfer {
        /// Register address.
        addr: u16,
        /// Byte order of the address on the wire.
        big_endian: bool,
    },
    // -- charge pump -------------------------------------------------------
    /// Identify the chip on a line, with a transfer variant.
    PumpOpen {
        /// The line.
        line: Line,
        /// The transfer variant.
        variant: u8,
    },
    /// Write the profile's thresholds.
    PumpConfigure,
    /// Go to standby.
    PumpStandby,
    /// Enable 1:1.
    PumpBypass,
    /// Enable 2:1.
    PumpSwitching,
    /// Let the core pick and enable a charge mode, or stop charging.
    PumpCharge(bool),
    /// Soft reset.
    PumpSoftReset,
    /// Release the chip.
    PumpClose,
    /// Read the status registers.
    PumpStatus,
    /// Sample one ADC channel.
    PumpAdc(AdcChannel),
    /// Set the ADC's power mode.
    PumpAdcMode(AdcMode),
    /// Input voltage for a negotiation (µV), 0 where there is none.
    SampleVin,
    /// Read `SYS_STS` alone.
    PumpSysSts,
    /// Read `FAULT1_STS` alone.
    PumpFault1,
    /// Read any register.
    PumpRead(u8),
    /// Write any register.
    PumpWrite(u8, u8),
    /// Set the input current limit (µA).
    PumpIinLimit(u32),
    /// What a current limit code stands for (µA).
    PumpDecodeIin(u8),
    /// Set the float voltage (µV).
    PumpVbatFloat(u32),
    /// Clear latched faults.
    PumpClearFaults,
    /// Service the watchdog.
    PumpWatchdog,
    /// Whether the input voltage qualifies for the mode.
    PumpVoltQual(bool),
    /// Stage of the 1:1 entry.
    PumpBypassStage,
    /// Whether the 1:1 entry has spent its reset.
    PumpPorSpent,
    /// Bus writes and reads so far.
    PumpCounters,
    /// Lifecycle of the pump object.
    PumpLifecycle,
    /// The mode that the pump object remembers.
    PumpMode,
    // -- verdicts of the pump core -----------------------------------------
    /// Widen an APSD result by the charger bit of its status.
    PromoteQc {
        /// APSD result.
        result: u8,
        /// APSD status.
        status: u8,
    },
    /// How to raise a classified adapter.
    ElevatePath {
        /// APSD result.
        result: u8,
        /// Whether the PMIC reports continuous mode.
        continuous: bool,
    },
    /// Whether to try the QC3.5 train at an input (µV).
    AuthGate(i32),
    /// Whether an input (µV) lies in the detection window.
    DetectWindow(i32),
    /// Whether an input (µV) lies in the capability window.
    CapWindow(i32),
    /// The power class of a capability level (µV).
    PowerLimit(i32),
    /// The input current code of a power class (W).
    IclForPower(u32),
    /// What to do between two samples of a 9 V ramp.
    Force9vStep {
        /// Last sample (µV).
        last_uv: i32,
        /// Time since the request (ms).
        waited_ms: u32,
        /// Present deadline (ms).
        deadline_ms: u32,
        /// Whether the deadline was moved.
        extended: bool,
    },
    /// The moved deadline (ms).
    Force9vExtend(u32),
    /// The mode that an input (µV) and a cell (µV) allow.
    ChargeMode {
        /// Input (µV).
        vin_uv: i32,
        /// Cell (µV).
        vbat_uv: u32,
    },
    /// Whether 1:1 may be requested by hand.
    BypassAllowed {
        /// Input (µV).
        vin_uv: i32,
        /// Cell (µV).
        vbat_uv: u32,
    },
    /// Whether an input reading is the doubled cell.
    VinDoubled {
        /// Cell (µV).
        vbat_uv: u32,
        /// Input (µV).
        vbus_uv: u32,
    },
    /// Whether an input lies in the transfer band.
    VinInWindow {
        /// Input (µV).
        vin_uv: i32,
        /// Cell (µV).
        vbat_uv: u32,
    },
    /// Whether an input (µV) counts as present.
    InputPresent(i32),
    /// Whether an input edge asks for a new negotiation.
    RenegotiateOnEdge {
        /// Phase code of the last negotiation.
        phase: u32,
        /// Input before.
        before: bool,
        /// Input now.
        now: bool,
    },
    /// Whether a scheduled retry is due.
    RetryDue {
        /// Whether one is scheduled.
        pending: bool,
        /// Retries so far.
        attempts: u32,
        /// Now (ms).
        now_ms: u64,
        /// When it is due (ms).
        next_ms: u64,
    },
    /// Whether a negotiation result asks for a retry.
    RetryWanted(i32),
    /// Whether the ADC has to be kept awake.
    AdcWake {
        /// Whether the readings are usable.
        usable: bool,
        /// Whether the chip reports an unplug.
        vac_unplug: bool,
    },
    /// Whether the readings show an adapter.
    OnlineRaw {
        /// Input (µV).
        vbus_uv: u32,
        /// Cell (µV).
        vbat_uv: u32,
        /// Input current (µA).
        iin_ua: u32,
        /// Whether the chip reports an unplug.
        vac_unplug: bool,
        /// Whether the readings are usable.
        usable: bool,
    },
    /// Whether the chip's unplug report releases the adapter at once.
    UnplugRelease {
        /// Whether the chip reports an unplug.
        vac_unplug: bool,
        /// Input current (µA).
        iin_ua: u32,
        /// Reports in a row so far.
        run: u32,
    },
    /// Drop the published adapter now.
    OnlineExpire {
        /// Now (ms).
        now_ms: u64,
    },
    /// Feed the published adapter with evidence.
    OnlineEvidence {
        /// The evidence.
        raw: Option<bool>,
        /// Now (ms).
        now_ms: u64,
        /// Hold time (ms).
        hold_ms: u64,
    },
    /// Whether the readings show a charge.
    ChargingRaw {
        /// Whether the adapter is published.
        online: bool,
        /// Input current (µA).
        iin_ua: u32,
        /// Peak of the window (µA).
        peak_ua: u32,
        /// Whether the gauge rises.
        soc_rising: bool,
    },
    /// Feed the published charge.
    ChargingHold {
        /// The evidence.
        raw: bool,
        /// Now (ms).
        now_ms: u64,
        /// Hold time (ms).
        hold_ms: u64,
    },
    /// Feed the gauge trend.
    SocTrend {
        /// Raw gauge value.
        raw: u8,
        /// Now (ms).
        now_ms: u64,
    },
    /// Whether a sample ends an overheat episode.
    StrikesExpired(TelemetrySample),
    /// What the protection asks for.
    Guard {
        /// The sample to judge.
        sample: TelemetrySample,
        /// Whether over-voltage is latched.
        ov_latched: bool,
    },
    /// What becomes of a fallback to 1:1.
    ResolveBypass {
        /// Input (µV).
        vin_uv: i32,
        /// Cell (µV).
        vbat_uv: u32,
        /// Refusals so far.
        strikes: u32,
    },
    /// Make a current (µA) the guard's ceiling and target.
    GuardCeiling(u32),
    // -- telemetry ---------------------------------------------------------
    /// Append a sample.
    TelemetryPush(TelemetrySample),
    /// Sessions and samples so far.
    TelemetryTotals,
    /// The newest sample.
    TelemetryLast,
    /// The sample at an index, in the ring's order.
    TelemetryAt(usize),
    /// The running session, measured at a time (ms).
    TelemetryCurrent(u64),
    /// The last finished session, measured at a time (ms).
    TelemetryFinished(u64),
    // -- operating system --------------------------------------------------
    /// Tell the battery class that the status changed, and to what: the class may
    /// ask back at once.
    BatteryNotify(Battery),
    /// Whether the device's function and physical objects are there.
    DeviceObjects,
    /// Whether its function object is there.
    FunctionObject,
    /// Attach to the battery class.
    BatteryAttach,
    /// Detach from it.
    BatteryDetach,
    /// Register with the management interface.
    WmiRegister,
    /// Leave it.
    WmiDeregister,
    /// Create a power request that gives this reason.
    PowerRequestCreate(&'static str),
    /// Make it keep the system out of sleep.
    PowerRequestSet,
    /// Take that back.
    PowerRequestClear,
    /// Delete it.
    PowerRequestDelete,
    /// Start the telemetry timer, due in so many milliseconds.
    TimerStart(u32),
    /// Stop it.
    TimerStop,
    /// Drop the device handle.
    DropDevice,
    /// Allow or forbid polls of the fuel gauge.
    GaugeArm(bool),
    /// Whether the fuel gauge may be polled.
    GaugeArmed,
    /// When the fuel gauge was last polled (ms); 0 for never.
    GaugeLast,
    /// Make a time (ms) the last poll, unless another run did so first.
    GaugeClaim {
        /// The last poll that this run knows of (ms).
        last_ms: u64,
        /// The new one (ms).
        now_ms: u64,
    },
    // -- hardware discovery ------------------------------------------------
    /// The translated resource descriptor with an index.
    Descriptor(u32),
    /// Open a line.
    LineOpen {
        /// The line.
        line: Line,
        /// Connection id.
        id: u64,
    },
    /// One register transfer on a line.
    LineTransfer {
        /// The line.
        line: Line,
        /// Transfer variant.
        variant: u8,
        /// Register address.
        register: u8,
    },
    /// The attach request of a line.
    LineAttach(Line),
    /// Lock a line.
    LineLock(Line),
    /// Send a bare control code on a line.
    LineIoctl(Line, u32),
    /// Try the attach request on the parent's target and publish its answer.
    ParentAttach,
    /// Try a register read on the parent's target and publish its answer.
    ParentSequence(u8),
    /// Open and close a target by name.
    NamedTarget {
        /// Its name.
        name: &'static str,
        /// Access mask.
        access: u32,
        /// Share mask.
        share: u32,
    },
    /// The one-shot APSD probe through the superuser node.
    ApsdProbe,
    // -- registry ----------------------------------------------------------
    /// Open a key for reading.
    KeyOpen(Key),
    /// Close it.
    KeyClose(Key),
    /// Read a number from the parameters.
    KeyQuery(&'static str),
    /// Start from the default pump profile and guard limits.
    ProfileReset,
    /// Offer a number to the pump profile.
    ProfileApply(&'static str, u32),
    /// Make the profile's input current the guard's.
    ProfileToGuard,
    /// Whether the profile disables the voltage and the current loop.
    ProfileLoops,
    /// Remember the guard's limits.
    LimitsSave,
    /// Offer a number to the guard's limits.
    LimitsApply(&'static str, u32),
    /// Whether the limits are consistent.
    LimitsValid,
    /// Return to the remembered limits.
    LimitsRestore,
    /// Make the limits that were read the ones in force.
    LimitsCommit,
    // -- driver and device creation ---------------------------------------------------
    /// Create the driver object.
    DriverCreate,
    /// Create the state lock.
    LockInit,
    /// The size of the framework's attribute block.
    AttributeSize,
    /// Register the hardware callbacks.
    PnpCallbacks,
    /// Look at device-control requests before the framework does.
    PreprocessDeviceControl,
    /// Look at system-control requests before the framework does.
    PreprocessSystemControl,
    /// Assign this access policy.
    AccessPolicy(&'static str),
    /// Create the device object.
    DeviceCreate,
    /// Create the device interface.
    InterfaceCreate,
    /// Create a symbolic link, its name written with forward slashes.
    SymlinkCreate(&'static str),
    /// Create the request queue.
    QueueCreate,
    /// Create the telemetry timer.
    TimerCreate,
    /// Keep the handles.
    HandlesStore,
}

/// A resource descriptor.
#[derive(Debug, Clone, Copy)]
pub struct Descriptor {
    /// Whether it describes a connection.
    pub connection: bool,
    /// Connection class.
    pub class: u8,
    /// Connection type.
    pub kind: u8,
    /// Low half of the id.
    pub id_low: u32,
    /// High half of the id.
    pub id_high: u32,
}

/// Outcome of one register transfer.
#[derive(Debug, Clone, Copy)]
pub struct Transfer {
    /// The byte, where the transfer succeeded.
    pub value: Option<u8>,
    /// The last status of the line.
    pub status: i32,
}

/// Outcome of an attach request.
#[derive(Debug, Clone, Copy)]
pub struct AttachReply {
    /// Status of the request.
    pub status: i32,
    /// First word of the answer.
    pub word0: u32,
    /// Second word.
    pub word1: u32,
    /// Third word.
    pub word2: u32,
    /// Fourth word.
    pub word3: u32,
}

/// Outcome of the one-shot APSD probe.
#[derive(Debug, Clone, Copy)]
pub struct SuperuserApsdProbe {
    /// Status of the open.
    pub open_status: i32,
    /// Status of the grant.
    pub grant_status: i32,
    /// Status of the read.
    pub read_status: i32,
    /// The byte that was read.
    pub value: u8,
}

/// One answer.
#[derive(Debug, Clone, Copy)]
pub enum Reply {
    /// No answer: the request was not performed.
    Silence,
    /// Performed, with nothing to report.
    Done,
    /// Success, or a status.
    Outcome(Result<(), i32>),
    /// A status.
    Status(i32),
    /// A register, where it could be read.
    Byte(Option<u8>),
    /// A byte of memory.
    Octet(u8),
    /// Two registers, where they could be read.
    Pair(Option<(u8, u8)>),
    /// A signed measurement, where there is one.
    Reading(Option<i32>),
    /// A number, where there is one.
    Number(Option<u32>),
    /// A number.
    Word(u32),
    /// A time (ms).
    Millis(u64),
    /// Yes or no.
    Flag(bool),
    /// Yes, no, or undecided.
    Verdict(Option<bool>),
    /// A mode, where one is allowed.
    Mode(Option<OpMode>),
    /// A mode that was entered, or why not.
    Engaged(Result<OpMode, PumpError>),
    /// Success, or a pump failure.
    Effect(Result<(), PumpError>),
    /// A pump register, or why not.
    Register(Result<u8, PumpError>),
    /// The status registers, where they could be read.
    Chip(Option<ChipStatus>),
    /// What the protection asks for, and whether it is a change.
    Guard(GuardAction, bool),
    /// What becomes of a fallback to 1:1.
    Bypass(BypassResolution),
    /// How to raise an adapter.
    Elevate(ApsdElevate),
    /// Whether to try the QC3.5 train.
    Gate(Qc35AuthGate),
    /// What to do between two samples.
    Force9v(Force9vWait),
    /// Whether the unplug is believed, and the new run length.
    Unplug(bool, u32),
    /// Whether the gauge rises, and when it last did (ms).
    Trend(bool, u64),
    /// Two counters.
    Counters(u32, u32),
    /// Two totals.
    Totals(u64, u64),
    /// A sample, where there is one.
    Sample(Option<TelemetrySample>),
    /// A session, where there is one.
    Summary(Option<SessionSummary>),
    /// A lifecycle state, where there is a pump.
    Lifecycle(Option<PumpState>),
    /// A resource descriptor, where there is one.
    Descriptor(Option<Descriptor>),
    /// A register transfer.
    Transfer(Transfer),
    /// An attach request.
    Attach(AttachReply),
    /// The one-shot APSD probe.
    Apsd(SuperuserApsdProbe),
    /// Whether the voltage and the current loop are disabled.
    Loops(bool, bool),
}

} // verus!
