//! High-voltage charging over the PMIC's USBIN block: registers, bits, budgets
//! and the arithmetic of the bus.
//!
//! The procedures that talk to the block are in [`crate::usbin`],
//! [`crate::negotiate`] and [`crate::correction`].
use crate::arith::smaller;
use crate::band;
use vstd::prelude::*;

verus! {

/// `APSD_STATUS`.
pub const REG_APSD_STATUS: u16 = 0x1307;

/// `APSD_RESULT_STATUS`.
pub const REG_APSD_RESULT: u16 = 0x1308;

/// `QC_CHANGE_STATUS`: voltage and continuous-mode bits.
pub const REG_QC_CHANGE_STATUS: u16 = 0x1309;

/// Hardware pulse counter; read for diagnostics only.
pub const REG_QC_PULSE_COUNT: u16 = 0x130A;

/// `INT_LATCHED_CLR`.
pub const REG_INT_LATCHED_CLR: u16 = 0x1314;

/// `USBIN_CMD_IL`.
pub const REG_USBIN_CMD_IL: u16 = 0x1340;

/// `CMD_APSD`.
pub const REG_CMD_APSD: u16 = 0x1341;

/// `CMD_ICL_OVERRIDE`.
pub const REG_CMD_ICL_OVERRIDE: u16 = 0x1342;

/// `CMD_HVDCP_2`: the voltage commands.
pub const REG_CMD_HVDCP_2: u16 = 0x1343;

/// `TYPE_C_CFG`.
pub const REG_TYPE_C_CFG: u16 = 0x1358;

/// `HVDCP_PULSE_COUNT_MAX`: the QC2 voltage cap in its two top bits.
pub const REG_HVDCP_PULSE_COUNT_MAX: u16 = 0x135B;

/// `USBIN_ADAPTER_ALLOW_CFG`.
pub const REG_USBIN_ADAPTER_ALLOW: u16 = 0x1360;

/// `USBIN_OPTIONS_1_CFG`.
pub const REG_USBIN_OPTIONS_1: u16 = 0x1362;

/// `USBIN_CURRENT_LIMIT_CFG`, in steps of 50 mA.
pub const REG_USBIN_ICL_CFG: u16 = 0x1370;

/// `HVDCP_EN`.
pub const BIT_HVDCP_EN: u8 = 0x04;

/// `BC1P2_SRC_DETECT`.
pub const BIT_BC1P2_SRC_DETECT: u8 = 0x08;

/// `HVDCP_AUTONOMOUS_MODE_EN`: clear for pulses driven by the host.
pub const BIT_HVDCP_AUTONOMOUS: u8 = 0x20;

/// `HVDCP_AUTH_ALG_EN`.
pub const BIT_HVDCP_AUTH_ALG_EN: u8 = 0x40;

/// `BC1P2_START_ON_CC` in `TYPE_C_CFG`.
pub const BIT_BC1P2_START_ON_CC: u8 = 0x80;

/// `USBIN_SUSPEND` in `USBIN_CMD_IL`.
pub const BIT_USBIN_SUSPEND: u8 = 0x01;

/// `ICL_OVERRIDE`.
pub const BIT_ICL_OVERRIDE: u8 = 0x01;

/// `APSD_RERUN`.
pub const BIT_APSD_RERUN: u8 = 0x01;

/// `APSD_DTC_STATUS_DONE`.
pub const BIT_APSD_DONE: u8 = 0x01;

/// `QC_CHARGER` in `APSD_STATUS`.
pub const BIT_QC_CHARGER: u8 = 0x02;

/// `DCP_CHARGER` in `APSD_RESULT`.
pub const BIT_DCP: u8 = 0x08;

/// `QC_2P0`.
pub const BIT_QC2: u8 = 0x20;

/// `QC_3P0`.
pub const BIT_QC3: u8 = 0x40;

/// `SINGLE_INCREMENT`: one QC3 step up.
pub const BIT_SINGLE_INC: u8 = 0x01;

/// `SINGLE_DECREMENT`: one QC3 step down.
pub const BIT_SINGLE_DEC: u8 = 0x02;

/// `FORCE_5V`: the safe way back.
pub const BIT_FORCE_5V: u8 = 0x08;

/// `FORCE_9V`: the QC2 request.
pub const BIT_FORCE_9V: u8 = 0x10;

/// The QC2 voltage cap in `HVDCP_PULSE_COUNT_MAX`.
pub const MASK_HVDCP_PULSE_COUNT_MAX_QC2: u8 = 0xC0;

/// A QC2 voltage cap of 9 V.
pub const HVDCP_PULSE_COUNT_MAX_QC2_9V: u8 = 0x40;

/// The adapter class in `USBIN_ADAPTER_ALLOW_CFG`.
pub const MASK_USBIN_ADAPTER_ALLOW: u8 = 0x0F;

/// Adapters from 5 V to 12 V are allowed.
pub const USBIN_ADAPTER_ALLOW_5V_TO_12V: u8 = 0x0C;

/// `QC_9V` in `QC_CHANGE_STATUS`.
pub const BIT_QC_9V: u8 = 0x02;

/// Possibly continuous mode: a routing hint, not a confirmation.
pub const BIT_QC_CONTINUOUS: u8 = 0x08;

/// A change from 5 V to 9 V was seen.
pub const BIT_QC_5V_TO_9V_REASON: u8 = 0x10;

/// Input current code for 500 mA.
pub const ICL_RAW_500MA: u8 = 10;

/// Input current code for 2:1 after the rise: 3 A.
pub const ICL_RAW_PUMP_3A: u8 = 60;

/// Input current floor of a high-current DCP: 1.8 A.
pub const ICL_RAW_DCP_1P8A: u8 = 36;

/// Input current code for 1:1 at 5 V: 2.7 A.
pub const ICL_RAW_5V_2P7A: u8 = 54;

/// Input current vote for a plain DCP: 2 A.
pub const ICL_RAW_DCP_2A: u8 = 40;

/// Input current vote next to the QC2 request: 1.5 A.
pub const ICL_RAW_HVDCP2_1P5A: u8 = 30;

/// Settle time before `QC_CHANGE_STATUS` is sampled (ms).
pub const QC_STATUS_SETTLE_MS: u32 = 200;

/// Distance of two samples of a 9 V ramp (ms).
pub const FORCE9V_POLL_MS: u32 = 50;

/// Samples in a row above the 2:1 threshold that count as a settled 9 V.
pub const FORCE9V_CONFIRM_N: u32 = 2;

/// Settle time right after the 9 V request (ms).
pub const FORCE9V_REQUEST_MS: u32 = 100;

/// The pulse count that a 9 V bus stands for.
pub const FORCE9V_PULSES: u32 = 20;

/// Size of a QC3 step (µV).
pub const QC3_STEP_UV: u32 = 200_000;

/// Size of a QC3.5 step (µV).
pub const QC35_STEP_UV: u32 = 20_000;

/// Distance of two pulses of the QC3.5 trains (ms).
pub const QC35_AUTH_PULSE_GAP_MS: u32 = 5;

/// Where every raise starts (µV).
pub const MICRO_5V_UV: u32 = 5_000_000;

/// Most QC3 steps up: 23 of them from 5 V are 9.6 V.
pub const MAX_PULSE_CNT: u32 = 23;

/// Last-resort ceiling of the bus (µV).
pub const PUMP_VIN_TRIM_UV: i32 = 10_500_000;

/// Bus target while the pack is not measured (µV).
pub const PUMP_VIN_TARGET_MIN_UV: i32 = 9_500_000;

/// Floor of a derived target (µV).
pub const PUMP_VIN_TARGET_ABS_MIN_UV: u32 = 8_000_000;

/// Ceiling of a derived target (µV).
pub const PUMP_VIN_TARGET_CEIL_UV: u32 = 9_600_000;

/// Most steps down in one trim.
pub const MAX_TRIM_DEC: u32 = 20;

/// Most steps up in one boost.
pub const MAX_BOOST_INC: u32 = 23;

/// Least distance of two bus corrections (ms).
pub const WINDOW_NUDGE_MS: u64 = 10_000;

/// Input current at or below which 2:1 carries nothing (µA).
pub const IIN_DEAD_FLOOR_UA: u32 = 60_000;

/// Distance of two QC3 pulses (ms).
pub const PULSE_GAP_MS: u32 = 40;

/// Patience for a new classification (ms).
pub const APSD_WAIT_MS: u32 = 2_000;

/// Distance of two looks at it (ms).
pub const APSD_POLL_MS: u32 = 200;

/// Settle time after the block is enabled (ms).
pub const ENABLE_SETTLE_MS: u32 = 50;

/// Below this an input counts as left at 5 V (µV).
pub const FIVE_V_STAY_MAX_UV: i32 = 6_000_000;

/// The path over which the registers are reached.
#[derive(Debug, Clone, Copy, PartialEq, Eq, Structural)]
pub enum HvdcpTransport {
    /// None was opened.
    Closed,
    /// The superuser node.
    Superuser,
    /// The resource hub.
    UsbinRh,
}

impl HvdcpTransport {
    /// The number under which a path is published.
    #[verifier::allow_in_spec]
    pub fn code(self) -> (code: u32)
        returns
            (match self {
                HvdcpTransport::Closed => 0u32,
                HvdcpTransport::Superuser => 1u32,
                HvdcpTransport::UsbinRh => 2u32,
            }),
    {
        match self {
            HvdcpTransport::Closed => 0,
            HvdcpTransport::Superuser => 1,
            HvdcpTransport::UsbinRh => 2,
        }
    }
}

/// Where a negotiation stands.
#[derive(Debug, Clone, Copy, PartialEq, Eq, Structural)]
pub enum HvdcpPhase {
    /// Nothing was tried.
    Idle,
    /// The block is being enabled.
    Enable,
    /// A new classification is requested.
    ApsdRerun,
    /// Its result is awaited.
    ApsdWait,
    /// 9 V are requested.
    Qc2Force9v,
    /// QC3 steps are sent.
    Qc3Pulse,
    /// Finished.
    Done,
    /// Failed.
    Failed,
    /// QC3.5 is tried.
    Qc35Auth,
    /// The input stays at 5 V, for 1:1.
    FiveVBypass,
}

impl HvdcpPhase {
    /// The number under which a phase is published.
    #[verifier::allow_in_spec]
    pub fn code(self) -> (code: u32)
        returns
            (match self {
                HvdcpPhase::Idle => 0u32,
                HvdcpPhase::Enable => 1u32,
                HvdcpPhase::ApsdRerun => 2u32,
                HvdcpPhase::ApsdWait => 3u32,
                HvdcpPhase::Qc2Force9v => 4u32,
                HvdcpPhase::Qc3Pulse => 5u32,
                HvdcpPhase::Done => 6u32,
                HvdcpPhase::Failed => 7u32,
                HvdcpPhase::Qc35Auth => 8u32,
                HvdcpPhase::FiveVBypass => 9u32,
            }),
    {
        match self {
            HvdcpPhase::Idle => 0,
            HvdcpPhase::Enable => 1,
            HvdcpPhase::ApsdRerun => 2,
            HvdcpPhase::ApsdWait => 3,
            HvdcpPhase::Qc2Force9v => 4,
            HvdcpPhase::Qc3Pulse => 5,
            HvdcpPhase::Done => 6,
            HvdcpPhase::Failed => 7,
            HvdcpPhase::Qc35Auth => 8,
            HvdcpPhase::FiveVBypass => 9,
        }
    }
}

/// Why a negotiation failed.
#[derive(Debug, Clone, Copy, PartialEq, Eq, Structural)]
pub enum HvdcpError {
    /// Neither path could be opened.
    UsbinUnavailable,
    /// The resource hub refused the connection.
    BusOpenFailed,
    /// A register access failed.
    SpmiIo,
    /// No classification in time.
    ApsdTimeout,
    /// The adapter cannot be raised.
    NotQcAdapter,
}

impl HvdcpError {
    /// The number under which a failure is reported.
    #[verifier::allow_in_spec]
    pub fn code(self) -> (code: i32)
        returns
            (match self {
                HvdcpError::UsbinUnavailable => (-10) as i32,
                HvdcpError::BusOpenFailed => (-11) as i32,
                HvdcpError::SpmiIo => (-12) as i32,
                HvdcpError::ApsdTimeout => (-13) as i32,
                HvdcpError::NotQcAdapter => (-14) as i32,
            }),
    {
        match self {
            HvdcpError::UsbinUnavailable => -10,
            HvdcpError::BusOpenFailed => -11,
            HvdcpError::SpmiIo => -12,
            HvdcpError::ApsdTimeout => -13,
            HvdcpError::NotQcAdapter => -14,
        }
    }
}

/// What the driver remembers of the USBIN block.
#[derive(Debug, Clone, Copy)]
pub struct HvdcpState {
    /// QC3 steps above 5 V.
    pub pulse_cnt: u32,
    /// Last `APSD_STATUS`.
    pub apsd_status: u8,
    /// Last `APSD_RESULT`.
    pub apsd_result: u8,
    /// Last `USBIN_OPTIONS_1` written.
    pub options1: u8,
    /// Where the negotiation stands.
    pub phase: HvdcpPhase,
    /// Byte order of addresses on the resource-hub path.
    pub big_endian: bool,
    /// Whether that order was found out.
    pub endian_known: bool,
    /// The path in use.
    pub transport: HvdcpTransport,
    /// Whether a 9 V request holds the bus: then it takes no pulses.
    pub force9v_latched: bool,
    /// Why the last negotiation failed; nothing where it did not.
    pub failure: Option<HvdcpError>,
}

impl HvdcpState {
    /// Before the first negotiation.
    #[verifier::allow_in_spec]
    pub fn new() -> (state: Self)
        returns
            (HvdcpState {
                pulse_cnt: 0,
                apsd_status: 0,
                apsd_result: 0,
                options1: 0,
                phase: HvdcpPhase::Idle,
                big_endian: true,
                endian_known: false,
                transport: HvdcpTransport::Closed,
                force9v_latched: false,
                failure: None,
            }),
    {
        HvdcpState {
            pulse_cnt: 0,
            apsd_status: 0,
            apsd_result: 0,
            options1: 0,
            phase: HvdcpPhase::Idle,
            big_endian: true,
            endian_known: false,
            transport: HvdcpTransport::Closed,
            force9v_latched: false,
            failure: None,
        }
    }

    /// The code of the last negotiation: 0, or that of its failure.
    #[verifier::allow_in_spec]
    pub fn last_code(self) -> (code: i32)
        returns
            (match self.failure {
                Some(err) => err.code(),
                None => 0,
            }),
    {
        match self.failure {
            Some(err) => err.code(),
            None => 0,
        }
    }

    /// The step counter never passes its cap.
    pub open spec fn valid(self) -> bool {
        self.pulse_cnt <= MAX_PULSE_CNT
    }
}

impl Default for HvdcpState {
    fn default() -> (state: Self)
        ensures
            state == HvdcpState::new(),
    {
        HvdcpState::new()
    }
}

/// Bus target for 2:1 (µV): the centre of the transfer band, kept between the
/// threshold of 2:1 and what the pulse budget reaches. Without a cell reading it is
/// [`PUMP_VIN_TARGET_MIN_UV`].
#[verifier::allow_in_spec]
pub fn target_vbus_uv(vbat_uv: u32) -> (r: u32)
    returns
        (if vbat_uv == 0 {
            PUMP_VIN_TARGET_MIN_UV as u32
        } else if band::window_target_uv(vbat_uv) < PUMP_VIN_TARGET_ABS_MIN_UV {
            PUMP_VIN_TARGET_ABS_MIN_UV
        } else if band::window_target_uv(vbat_uv) > PUMP_VIN_TARGET_CEIL_UV {
            PUMP_VIN_TARGET_CEIL_UV
        } else {
            band::window_target_uv(vbat_uv)
        }),
{
    if vbat_uv == 0 {
        return PUMP_VIN_TARGET_MIN_UV as u32;
    }
    let target: u32 = band::window_target_uv(vbat_uv);
    if target < PUMP_VIN_TARGET_ABS_MIN_UV {
        PUMP_VIN_TARGET_ABS_MIN_UV
    } else if target > PUMP_VIN_TARGET_CEIL_UV {
        PUMP_VIN_TARGET_CEIL_UV
    } else {
        target
    }
}

/// Level above which the bus has to come down (µV): the top of the transfer
/// band, at most [`PUMP_VIN_TRIM_UV`].
#[verifier::allow_in_spec]
pub fn trim_target_uv(vbat_uv: u32) -> (r: i32)
    returns
        (if vbat_uv == 0 {
            PUMP_VIN_TARGET_MIN_UV
        } else if band::window_top_uv(vbat_uv) > PUMP_VIN_TRIM_UV {
            PUMP_VIN_TRIM_UV
        } else {
            band::window_top_uv(vbat_uv) as i32
        }),
{
    if vbat_uv == 0 {
        return PUMP_VIN_TARGET_MIN_UV;
    }
    let top: u32 = band::window_top_uv(vbat_uv);
    if top > PUMP_VIN_TRIM_UV as u32 { PUMP_VIN_TRIM_UV } else { top as i32 }
}

/// Level below which the bus has to go up (µV): the floor of the transfer
/// band, at least [`PUMP_VIN_TARGET_ABS_MIN_UV`].
#[verifier::allow_in_spec]
pub fn window_floor_uv(vbat_uv: u32) -> (r: i32)
    returns
        (if vbat_uv == 0 {
            PUMP_VIN_TARGET_MIN_UV
        } else if band::window_floor_uv(vbat_uv) < PUMP_VIN_TARGET_ABS_MIN_UV {
            PUMP_VIN_TARGET_ABS_MIN_UV as i32
        } else {
            band::window_floor_uv(vbat_uv) as i32
        }),
{
    if vbat_uv == 0 {
        return PUMP_VIN_TARGET_MIN_UV;
    }
    let floor: u32 = band::window_floor_uv(vbat_uv);
    if floor < PUMP_VIN_TARGET_ABS_MIN_UV { PUMP_VIN_TARGET_ABS_MIN_UV as i32 } else { floor as i32 }
}

/// The bus that a pulse count stands for (µV).
#[verifier::allow_in_spec]
pub fn estimated_vbus_uv(pulse_cnt: u32) -> (r: u32)
    returns
        (if MICRO_5V_UV + QC3_STEP_UV * pulse_cnt > u32::MAX {
            u32::MAX
        } else {
            (MICRO_5V_UV + QC3_STEP_UV * pulse_cnt) as u32
        }),
{
    assert(QC3_STEP_UV * pulse_cnt <= 200_000 * 0xFFFF_FFFF) by (nonlinear_arith)
        requires
            QC3_STEP_UV == 200_000,
            pulse_cnt <= 0xFFFF_FFFF,
    ;
    let wide: u64 = MICRO_5V_UV as u64 + QC3_STEP_UV as u64 * pulse_cnt as u64;
    if wide > u32::MAX as u64 { u32::MAX } else { wide as u32 }
}

/// How many QC3 steps from 5 V reach the target, at most [`MAX_PULSE_CNT`].
#[verifier::allow_in_spec]
pub fn pulses_toward_target(vbat_uv: u32) -> (r: u32)
    returns
        (if target_vbus_uv(vbat_uv) <= MICRO_5V_UV {
            0u32
        } else {
            smaller(
                ((target_vbus_uv(vbat_uv) - MICRO_5V_UV + QC3_STEP_UV - 1) / QC3_STEP_UV as int) as u32,
                MAX_PULSE_CNT,
            )
        }),
{
    let target: u32 = target_vbus_uv(vbat_uv);
    if target <= MICRO_5V_UV {
        return 0;
    }
    let delta: u32 = target - MICRO_5V_UV;
    let steps: u32 = (delta + (QC3_STEP_UV - 1)) / QC3_STEP_UV;
    smaller(steps, MAX_PULSE_CNT)
}

/// Caps QC2 at 9 V and keeps the rest of the register.
#[verifier::allow_in_spec]
pub fn with_qc2_max_9v(pulse_max_reg: u8) -> (r: u8)
    returns
        (pulse_max_reg & !MASK_HVDCP_PULSE_COUNT_MAX_QC2) | HVDCP_PULSE_COUNT_MAX_QC2_9V,
{
    (pulse_max_reg & !MASK_HVDCP_PULSE_COUNT_MAX_QC2) | HVDCP_PULSE_COUNT_MAX_QC2_9V
}

/// Allows adapters from 5 V to 12 V and keeps the rest of the register.
#[verifier::allow_in_spec]
pub fn with_adapter_allow_5v_to_12v(allow_reg: u8) -> (r: u8)
    returns
        (allow_reg & !MASK_USBIN_ADAPTER_ALLOW) | USBIN_ADAPTER_ALLOW_5V_TO_12V,
{
    (allow_reg & !MASK_USBIN_ADAPTER_ALLOW) | USBIN_ADAPTER_ALLOW_5V_TO_12V
}

/// Whether the PMIC hints at 9 V.
#[verifier::allow_in_spec]
pub fn qc_status_indicates_9v(qc_change: u8) -> (r: bool)
    returns
        (qc_change & BIT_QC_9V) != 0 || (qc_change & BIT_QC_5V_TO_9V_REASON) != 0,
{
    (qc_change & BIT_QC_9V) != 0 || (qc_change & BIT_QC_5V_TO_9V_REASON) != 0
}

/// Whether an input (µV) was measured and stayed near 5 V.
#[verifier::allow_in_spec]
pub fn vin_stayed_near_5v(vin_uv: i32) -> (r: bool)
    returns
        0 < vin_uv < FIVE_V_STAY_MAX_UV,
{
    vin_uv > 0 && vin_uv < FIVE_V_STAY_MAX_UV
}

/// The target always admits 2:1, for every cell from 3.0 V to 4.5 V.
pub proof fn law_target_admits_switching(vbat_uv: u32)
    requires
        3_000_000 <= vbat_uv <= 4_500_000,
    ensures
        band::admits_switching(target_vbus_uv(vbat_uv) as i32, vbat_uv),
{
}

/// Every target is reached by the pulses that are counted for it, and those
/// never exceed the cap.
pub proof fn law_target_is_reachable(vbat_uv: u32)
    ensures
        pulses_toward_target(vbat_uv) <= MAX_PULSE_CNT,
        estimated_vbus_uv(pulses_toward_target(vbat_uv)) >= target_vbus_uv(vbat_uv),
        estimated_vbus_uv(pulses_toward_target(vbat_uv)) < target_vbus_uv(vbat_uv) + QC3_STEP_UV,
{
}

/// The fixed budgets fit each other: a boost never outgrows the counter, the
/// fallback target is reachable, and the full-pack target lies between the threshold
/// of 2:1 and the ceiling.
pub proof fn law_budgets_are_consistent()
    ensures
        MAX_BOOST_INC <= MAX_PULSE_CNT,
        FORCE9V_PULSES <= MAX_PULSE_CNT,
        PUMP_VIN_TARGET_MIN_UV >= band::min_vin_for_switching_uv(4_500_000),
        PUMP_VIN_TARGET_MIN_UV <= estimated_vbus_uv(MAX_PULSE_CNT),
        PUMP_VIN_TARGET_CEIL_UV <= estimated_vbus_uv(MAX_PULSE_CNT),
        band::window_target_uv(4_500_000) >= band::min_vin_for_switching_uv(4_500_000),
        band::window_target_uv(4_500_000) <= PUMP_VIN_TARGET_CEIL_UV,
        PUMP_VIN_TARGET_ABS_MIN_UV <= PUMP_VIN_TARGET_CEIL_UV < PUMP_VIN_TRIM_UV,
        ICL_RAW_DCP_1P8A <= ICL_RAW_5V_2P7A <= ICL_RAW_PUMP_3A,
        QC35_STEP_UV * 10 == QC3_STEP_UV,
{
}

/// The target lies between the levels at which the bus is moved up and down,
/// for every cell from 3.9 V (where the band passes the threshold of 2:1) to 4.6 V.
pub proof fn law_target_between_floor_and_top(vbat_uv: u32)
    requires
        3_900_000 <= vbat_uv <= 4_600_000,
    ensures
        window_floor_uv(vbat_uv) < target_vbus_uv(vbat_uv) < trim_target_uv(vbat_uv),
{
}

/// Merging a voltage cap keeps the low bits, and merging an adapter class keeps
/// the high nibble.
pub proof fn law_merges_keep_the_rest(reg: u8)
    ensures
        with_qc2_max_9v(reg) & 0x3F == reg & 0x3F,
        with_qc2_max_9v(reg) & 0xC0 == 0x40,
        with_adapter_allow_5v_to_12v(reg) & 0xF0 == reg & 0xF0,
        with_adapter_allow_5v_to_12v(reg) & 0x0F == 0x0C,
{
    assert(((reg & !0xC0u8) | 0x40) & 0x3F == reg & 0x3F) by (bit_vector);
    assert(((reg & !0xC0u8) | 0x40) & 0xC0 == 0x40) by (bit_vector);
    assert(((reg & !0x0Fu8) | 0x0C) & 0xF0 == reg & 0xF0) by (bit_vector);
    assert(((reg & !0x0Fu8) | 0x0C) & 0x0F == 0x0C) by (bit_vector);
}

/// The target is 300 mV above the doubled cell, and never outside 8 to 9.6 V; without a
/// cell it is 9.5 V.
pub proof fn law_target_rides_on_the_cell(vbat_uv: u32)
    ensures
        vbat_uv == 0 ==> target_vbus_uv(vbat_uv) == 9_500_000,
        0 < vbat_uv < 3_850_000 ==> target_vbus_uv(vbat_uv) == 8_000_000,
        3_850_000 <= vbat_uv <= 4_650_000 ==> target_vbus_uv(vbat_uv) == 2 * vbat_uv + 300_000,
        vbat_uv > 4_650_000 ==> target_vbus_uv(vbat_uv) == 9_600_000,
{
}

/// The bus comes down from 400 mV above the doubled cell, and from 10.5 V at the latest;
/// it goes up from below 200 mV above it, and from below 8 V at least. Without a cell
/// both are 9.5 V.
pub proof fn law_limits_ride_on_the_cell(vbat_uv: u32)
    ensures
        vbat_uv == 0 ==> trim_target_uv(vbat_uv) == 9_500_000 && window_floor_uv(vbat_uv)
            == 9_500_000,
        0 < vbat_uv <= 5_050_000 ==> trim_target_uv(vbat_uv) == 2 * vbat_uv + 400_000,
        vbat_uv > 5_050_000 ==> trim_target_uv(vbat_uv) == 10_500_000,
        0 < vbat_uv < 3_900_000 ==> window_floor_uv(vbat_uv) == 8_000_000,
        3_900_000 <= vbat_uv && 2 * vbat_uv + 200_000 <= i32::MAX ==> window_floor_uv(vbat_uv)
            == 2 * vbat_uv + 200_000,
{
}

/// Each step adds 200 mV to the 5 V of the start.
pub proof fn law_step_adds_its_share(pulse_cnt: u32)
    ensures
        pulse_cnt <= 23 ==> estimated_vbus_uv(pulse_cnt) == 5_000_000 + 200_000 * pulse_cnt,
        5_000_000 + 200_000 * pulse_cnt > u32::MAX ==> estimated_vbus_uv(pulse_cnt) == u32::MAX,
{
}

/// The steps that are counted for a target are the fewest that reach it.
pub proof fn law_steps_are_the_fewest(vbat_uv: u32, fewer: u32)
    ensures
        ({
            let n = pulses_toward_target(vbat_uv);
            &&& 15 <= n <= 23
            &&& 5_000_000 + 200_000 * n >= target_vbus_uv(vbat_uv)
            &&& fewer < n ==> 5_000_000 + 200_000 * fewer < target_vbus_uv(vbat_uv)
        }),
{
}

/// Any of two bits hints at 9 V.
pub proof fn law_hint_has_two_bits(qc_change: u8)
    ensures
        qc_status_indicates_9v(qc_change) <==> qc_change & 0x12 != 0,
{
    assert(qc_change & 0x12u8 != 0 <==> (qc_change & 0x02u8 != 0 || qc_change & 0x10u8 != 0))
        by (bit_vector);
}

/// An input stayed near 5 V exactly where it was measured below 6 V.
pub proof fn law_near_5v_is_below_6v(vin_uv: i32)
    ensures
        vin_stayed_near_5v(vin_uv) <==> 0 < vin_uv && vin_uv < 6_000_000,
{
}

/// Each phase, each path and each failure has a number of its own.
pub proof fn law_states_have_their_numbers(
    phase: HvdcpPhase,
    transport: HvdcpTransport,
    err: HvdcpError,
)
    ensures
        phase is Idle <==> phase.code() == 0,
        phase is Enable <==> phase.code() == 1,
        phase is ApsdRerun <==> phase.code() == 2,
        phase is ApsdWait <==> phase.code() == 3,
        phase is Qc2Force9v <==> phase.code() == 4,
        phase is Qc3Pulse <==> phase.code() == 5,
        phase is Done <==> phase.code() == 6,
        phase is Failed <==> phase.code() == 7,
        phase is Qc35Auth <==> phase.code() == 8,
        phase is FiveVBypass <==> phase.code() == 9,
        transport is Closed <==> transport.code() == 0,
        transport is Superuser <==> transport.code() == 1,
        transport is UsbinRh <==> transport.code() == 2,
        err is UsbinUnavailable <==> err.code() == -10,
        err is BusOpenFailed <==> err.code() == -11,
        err is SpmiIo <==> err.code() == -12,
        err is ApsdTimeout <==> err.code() == -13,
        err is NotQcAdapter <==> err.code() == -14,
{
}

/// The code of the last negotiation tells whether it failed, and how.
pub proof fn law_code_tells_the_failure(state: HvdcpState)
    ensures
        state.last_code() == 0 <==> state.failure is None,
        state.failure matches Some(err) ==> state.last_code() == err.code(),
{
}

} // verus!
