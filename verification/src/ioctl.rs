//! The driver's device-control interface: codes, requests and answers.
//!
//! Requests and answers travel as memory blocks. Their layout is that of a C
//! structure on a little-endian machine; padding is zero.
use crate::wire::{self, get_u32, put_i32, put_u16, put_u32, put_u64, put_u8, put_zeros, word_signed};
use vstd::prelude::*;

verus! {

/// Device type of the interface.
pub const FILE_DEVICE_LN8000: u32 = 0x22;

/// A control code.
#[verifier::allow_in_spec]
pub fn ctl_code(function: u32, method: u32, access: u32) -> (code: u32)
    returns
        (FILE_DEVICE_LN8000 << 16u32) | (access << 14u32) | (function << 2u32) | method,
{
    (FILE_DEVICE_LN8000 << 16u32) | (access << 14u32) | (function << 2u32) | method
}

/// Asks for the status.
pub const IOCTL_LN8000_GET_STATUS: u32 = 0x0022_2040;

/// Reads a register.
pub const IOCTL_LN8000_READ_REG: u32 = 0x0022_2044;

/// Writes a register.
pub const IOCTL_LN8000_WRITE_REG: u32 = 0x0022_2048;

/// Sets the limits.
pub const IOCTL_LN8000_SET_LIMITS: u32 = 0x0022_204C;

/// Sets the mode by hand.
pub const IOCTL_LN8000_SET_MODE: u32 = 0x0022_2050;

/// Asks for the sessions.
pub const IOCTL_LN8000_GET_SESSIONS: u32 = 0x0022_2054;

/// Asks for samples.
pub const IOCTL_LN8000_GET_SAMPLES: u32 = 0x0022_2058;

/// Switches charging on or off.
pub const IOCTL_LN8000_SET_CHARGE: u32 = 0x0022_205C;

/// Negotiates with the adapter.
pub const IOCTL_LN8000_RUN_HVDCP: u32 = 0x0022_2060;

/// 1:1 was refused because the input is outside its window.
pub const ERR_BYPASS_VIN_OUT_OF_WINDOW: i32 = -20;

/// First word of a status answer.
pub const LN8000_STATUS_MAGIC: u32 = 0x4C4E_3830;

/// Version of the status answer.
pub const LN8000_STATUS_VERSION: u16 = 1;

/// Answer of the status request.
#[derive(Debug, Clone, Copy)]
pub struct Ln8000Status {
    /// [`LN8000_STATUS_MAGIC`].
    pub magic: u32,
    /// [`LN8000_STATUS_VERSION`].
    pub version: u16,
    /// Mode of the pump.
    pub op_mode: u8,
    /// Lifecycle of the pump.
    pub state: u8,
    /// `SYS_STS`.
    pub sys_sts: u8,
    /// `FAULT1_STS`.
    pub fault1_sts: u8,
    /// `FAULT2_STS`.
    pub fault2_sts: u8,
    /// `SAFETY_STS`.
    pub safety_sts: u8,
    /// Whether a critical fault is on.
    pub critical_fault: u8,
    /// Zero.
    pub reserved: [u8; 2],
    /// Input current (µA).
    pub iin_ua: u32,
    /// Cell (µV).
    pub vbat_uv: u32,
    /// Input (µV).
    pub vbus_uv: u32,
    /// Die temperature (0.1 °C).
    pub die_temp_dc: i32,
    /// Charge sessions so far.
    pub sessions: u64,
    /// Samples so far.
    pub samples: u64,
    /// Register writes so far.
    pub writes: u32,
    /// Register reads so far.
    pub reads: u32,
    /// Code of the last failure.
    pub last_error: i32,
}

/// A register access, and its answer.
#[derive(Debug, Clone, Copy)]
pub struct Ln8000RegRequest {
    /// Register address.
    pub addr: u8,
    /// Value to write, or that was read.
    pub value: u8,
    /// Zero.
    pub reserved: [u8; 2],
    /// 0, or the code of the failure.
    pub error_code: i32,
}

/// New limits, and what became of them.
#[derive(Debug, Clone, Copy)]
pub struct Ln8000LimitsRequest {
    /// Input current limit (µA); 0 keeps it.
    pub iin_ua: u32,
    /// Float voltage (µV); 0 keeps it.
    pub vbat_uv: u32,
    /// The input current limit in force (µA).
    pub applied_iin_ua: u32,
    /// 0, or the code of the failure.
    pub error_code: i32,
}

/// A mode by hand, and what became of it.
#[derive(Debug, Clone, Copy)]
pub struct Ln8000ModeRequest {
    /// 1 standby, 2 bypass, 3 switching.
    pub mode: u8,
    /// The mode that was entered.
    pub applied_mode: u8,
    /// Zero.
    pub reserved: [u8; 2],
    /// 0, or the code of the failure.
    pub error_code: i32,
}

/// Charging on or off, and what became of it.
#[derive(Debug, Clone, Copy)]
pub struct Ln8000ChargeRequest {
    /// Not 0 to charge.
    pub on: u8,
    /// The mode that was entered.
    pub applied_mode: u8,
    /// `SYS_STS` afterwards.
    pub sys_sts: u8,
    /// Zero.
    pub reserved: u8,
    /// 0, or the code of the failure.
    pub error_code: i32,
}

/// Answer of the session request.
#[derive(Debug, Clone, Copy)]
pub struct Ln8000Sessions {
    /// Sessions so far.
    pub total: u64,
    /// Length of the running session (ms).
    pub current_ms: u64,
    /// Its highest input current (µA).
    pub current_peak_iin_ua: u32,
    /// Whether 2:1 ran in it.
    pub current_fast: u8,
    /// Zero.
    pub reserved: [u8; 3],
    /// Length of the last session (ms).
    pub last_ms: u64,
    /// Its highest input current (µA).
    pub last_peak_iin_ua: u32,
    /// Its highest die temperature (0.1 °C).
    pub last_peak_temp_dc: i32,
    /// Whether 2:1 ran in it.
    pub last_fast: u8,
    /// Zero.
    pub reserved2: [u8; 3],
}

/// One telemetry sample.
#[derive(Debug, Clone, Copy)]
pub struct Ln8000Sample {
    /// Time stamp (ms).
    pub ts_ms: u64,
    /// Cell (µV).
    pub vbat_uv: u32,
    /// Input (µV).
    pub vbus_uv: u32,
    /// Input current (µA).
    pub iin_ua: u32,
    /// Die temperature (0.1 °C).
    pub die_temp_dc: i32,
    /// Mode of the pump.
    pub op_mode: u8,
    /// Whether an adapter feeds the input.
    pub input_present: u8,
    /// Zero.
    pub reserved: [u8; 2],
}

/// A request for samples, and the header of its answer.
#[derive(Debug, Clone, Copy)]
pub struct Ln8000SamplesRequest {
    /// Samples that fit.
    pub count: u32,
    /// Samples that follow.
    pub available: u32,
    /// The first of them.
    pub first: Ln8000Sample,
}

/// A negotiation request, and its answer.
#[derive(Debug, Clone, Copy)]
pub struct Ln8000HvdcpRequest {
    /// 0 to ask, not 0 to negotiate.
    pub command: u8,
    /// Last `APSD_STATUS`.
    pub apsd_status: u8,
    /// Last `APSD_RESULT`.
    pub apsd_result: u8,
    /// Steps above 5 V.
    pub pulse_cnt: u8,
    /// Where the negotiation stands.
    pub phase: u32,
    /// Target of the bus (µV).
    pub target_vbus_uv: u32,
    /// Estimate of the bus (µV).
    pub estimated_vbus_uv: u32,
    /// 0, or the code of the failure.
    pub error_code: i32,
}

/// Size of [`Ln8000Status`] in memory.
pub const LN8000_STATUS_BYTES: usize = 64;

impl Default for Ln8000Status {
    /// Everything zero.
    fn default() -> (r: Self)
        ensures
            r == Ln8000Status::blank(),
    {
        Ln8000Status {
            magic: 0,
            version: 0,
            op_mode: 0,
            state: 0,
            sys_sts: 0,
            fault1_sts: 0,
            fault2_sts: 0,
            safety_sts: 0,
            critical_fault: 0,
            reserved: [0, 0],
            iin_ua: 0,
            vbat_uv: 0,
            vbus_uv: 0,
            die_temp_dc: 0,
            sessions: 0,
            samples: 0,
            writes: 0,
            reads: 0,
            last_error: 0,
        }
    }
}

impl Ln8000Status {
    /// Everything zero.
    pub open spec fn blank() -> Self {
        Ln8000Status {
            magic: 0,
            version: 0,
            op_mode: 0,
            state: 0,
            sys_sts: 0,
            fault1_sts: 0,
            fault2_sts: 0,
            safety_sts: 0,
            critical_fault: 0,
            reserved: [0u8, 0u8],
            iin_ua: 0,
            vbat_uv: 0,
            vbus_uv: 0,
            die_temp_dc: 0,
            sessions: 0,
            samples: 0,
            writes: 0,
            reads: 0,
            last_error: 0,
        }
    }

    /// The block in memory.
    pub open spec fn bytes(self) -> Seq<u8> {
        Seq::<u8>::empty()
            + wire::le32(self.magic)
            + wire::le16(self.version)
            + seq![self.op_mode]
            + seq![self.state]
            + seq![self.sys_sts]
            + seq![self.fault1_sts]
            + seq![self.fault2_sts]
            + seq![self.safety_sts]
            + seq![self.critical_fault]
            + seq![self.reserved@[0]]
            + seq![self.reserved@[1]]
            + wire::zeros(1)
            + wire::le32(self.iin_ua)
            + wire::le32(self.vbat_uv)
            + wire::le32(self.vbus_uv)
            + wire::le32(wire::word_of(self.die_temp_dc))
            + wire::le64(self.sessions)
            + wire::le64(self.samples)
            + wire::le32(self.writes)
            + wire::le32(self.reads)
            + wire::le32(wire::word_of(self.last_error))
            + wire::zeros(4)
    }

    /// The block in memory.
    pub fn encode(&self) -> (out: Vec<u8>)
        ensures
            out@ == self.bytes(),
            out@.len() == LN8000_STATUS_BYTES,
    {
        let mut out: Vec<u8> = Vec::new();
        put_u32(&mut out, self.magic);
        put_u16(&mut out, self.version);
        put_u8(&mut out, self.op_mode);
        put_u8(&mut out, self.state);
        put_u8(&mut out, self.sys_sts);
        put_u8(&mut out, self.fault1_sts);
        put_u8(&mut out, self.fault2_sts);
        put_u8(&mut out, self.safety_sts);
        put_u8(&mut out, self.critical_fault);
        put_u8(&mut out, self.reserved[0]);
        put_u8(&mut out, self.reserved[1]);
        put_zeros(&mut out, 1);
        put_u32(&mut out, self.iin_ua);
        put_u32(&mut out, self.vbat_uv);
        put_u32(&mut out, self.vbus_uv);
        put_i32(&mut out, self.die_temp_dc);
        put_u64(&mut out, self.sessions);
        put_u64(&mut out, self.samples);
        put_u32(&mut out, self.writes);
        put_u32(&mut out, self.reads);
        put_i32(&mut out, self.last_error);
        put_zeros(&mut out, 4);
        out
    }
}

/// Size of [`Ln8000RegRequest`] in memory.
pub const LN8000_REGREQUEST_BYTES: usize = 8;

impl Default for Ln8000RegRequest {
    /// Everything zero.
    fn default() -> (r: Self)
        ensures
            r == Ln8000RegRequest::blank(),
    {
        Ln8000RegRequest {
            addr: 0,
            value: 0,
            reserved: [0, 0],
            error_code: 0,
        }
    }
}

impl Ln8000RegRequest {
    /// Everything zero.
    pub open spec fn blank() -> Self {
        Ln8000RegRequest {
            addr: 0,
            value: 0,
            reserved: [0u8, 0u8],
            error_code: 0,
        }
    }

    /// The block in memory.
    pub open spec fn bytes(self) -> Seq<u8> {
        Seq::<u8>::empty()
            + seq![self.addr]
            + seq![self.value]
            + seq![self.reserved@[0]]
            + seq![self.reserved@[1]]
            + wire::le32(wire::word_of(self.error_code))
    }

    /// The block in memory.
    pub fn encode(&self) -> (out: Vec<u8>)
        ensures
            out@ == self.bytes(),
            out@.len() == LN8000_REGREQUEST_BYTES,
    {
        let mut out: Vec<u8> = Vec::new();
        put_u8(&mut out, self.addr);
        put_u8(&mut out, self.value);
        put_u8(&mut out, self.reserved[0]);
        put_u8(&mut out, self.reserved[1]);
        put_i32(&mut out, self.error_code);
        out
    }

    /// What a block holds; one that is too short holds nothing.
    pub open spec fn of_bytes(bytes: Seq<u8>) -> Option<Self> {
        if bytes.len() >= LN8000_REGREQUEST_BYTES {
            Some(Ln8000RegRequest {
                addr: bytes[0],
                value: bytes[1],
                reserved: [bytes[2], bytes[3]],
                error_code: wire::signed_of(wire::u32_at(bytes, 4)),
            })
        } else {
            None
        }
    }

    /// Reads a block.
    pub fn decode(bytes: &[u8]) -> (r: Option<Self>)
        ensures
            r == Self::of_bytes(bytes@),
    {
        if bytes.len() < LN8000_REGREQUEST_BYTES {
            return None;
        }
        Some(Ln8000RegRequest {
            addr: bytes[0],
            value: bytes[1],
            reserved: [bytes[2], bytes[3]],
            error_code: word_signed(get_u32(bytes, 4)),
        })
    }
}

/// Size of [`Ln8000LimitsRequest`] in memory.
pub const LN8000_LIMITSREQUEST_BYTES: usize = 16;

impl Default for Ln8000LimitsRequest {
    /// Everything zero.
    fn default() -> (r: Self)
        ensures
            r == Ln8000LimitsRequest::blank(),
    {
        Ln8000LimitsRequest {
            iin_ua: 0,
            vbat_uv: 0,
            applied_iin_ua: 0,
            error_code: 0,
        }
    }
}

impl Ln8000LimitsRequest {
    /// Everything zero.
    pub open spec fn blank() -> Self {
        Ln8000LimitsRequest {
            iin_ua: 0,
            vbat_uv: 0,
            applied_iin_ua: 0,
            error_code: 0,
        }
    }

    /// The block in memory.
    pub open spec fn bytes(self) -> Seq<u8> {
        Seq::<u8>::empty()
            + wire::le32(self.iin_ua)
            + wire::le32(self.vbat_uv)
            + wire::le32(self.applied_iin_ua)
            + wire::le32(wire::word_of(self.error_code))
    }

    /// The block in memory.
    pub fn encode(&self) -> (out: Vec<u8>)
        ensures
            out@ == self.bytes(),
            out@.len() == LN8000_LIMITSREQUEST_BYTES,
    {
        let mut out: Vec<u8> = Vec::new();
        put_u32(&mut out, self.iin_ua);
        put_u32(&mut out, self.vbat_uv);
        put_u32(&mut out, self.applied_iin_ua);
        put_i32(&mut out, self.error_code);
        out
    }

    /// What a block holds; one that is too short holds nothing.
    pub open spec fn of_bytes(bytes: Seq<u8>) -> Option<Self> {
        if bytes.len() >= LN8000_LIMITSREQUEST_BYTES {
            Some(Ln8000LimitsRequest {
                iin_ua: wire::u32_at(bytes, 0),
                vbat_uv: wire::u32_at(bytes, 4),
                applied_iin_ua: wire::u32_at(bytes, 8),
                error_code: wire::signed_of(wire::u32_at(bytes, 12)),
            })
        } else {
            None
        }
    }

    /// Reads a block.
    pub fn decode(bytes: &[u8]) -> (r: Option<Self>)
        ensures
            r == Self::of_bytes(bytes@),
    {
        if bytes.len() < LN8000_LIMITSREQUEST_BYTES {
            return None;
        }
        Some(Ln8000LimitsRequest {
            iin_ua: get_u32(bytes, 0),
            vbat_uv: get_u32(bytes, 4),
            applied_iin_ua: get_u32(bytes, 8),
            error_code: word_signed(get_u32(bytes, 12)),
        })
    }
}

/// Size of [`Ln8000ModeRequest`] in memory.
pub const LN8000_MODEREQUEST_BYTES: usize = 8;

impl Default for Ln8000ModeRequest {
    /// Everything zero.
    fn default() -> (r: Self)
        ensures
            r == Ln8000ModeRequest::blank(),
    {
        Ln8000ModeRequest {
            mode: 0,
            applied_mode: 0,
            reserved: [0, 0],
            error_code: 0,
        }
    }
}

impl Ln8000ModeRequest {
    /// Everything zero.
    pub open spec fn blank() -> Self {
        Ln8000ModeRequest {
            mode: 0,
            applied_mode: 0,
            reserved: [0u8, 0u8],
            error_code: 0,
        }
    }

    /// The block in memory.
    pub open spec fn bytes(self) -> Seq<u8> {
        Seq::<u8>::empty()
            + seq![self.mode]
            + seq![self.applied_mode]
            + seq![self.reserved@[0]]
            + seq![self.reserved@[1]]
            + wire::le32(wire::word_of(self.error_code))
    }

    /// The block in memory.
    pub fn encode(&self) -> (out: Vec<u8>)
        ensures
            out@ == self.bytes(),
            out@.len() == LN8000_MODEREQUEST_BYTES,
    {
        let mut out: Vec<u8> = Vec::new();
        put_u8(&mut out, self.mode);
        put_u8(&mut out, self.applied_mode);
        put_u8(&mut out, self.reserved[0]);
        put_u8(&mut out, self.reserved[1]);
        put_i32(&mut out, self.error_code);
        out
    }

    /// What a block holds; one that is too short holds nothing.
    pub open spec fn of_bytes(bytes: Seq<u8>) -> Option<Self> {
        if bytes.len() >= LN8000_MODEREQUEST_BYTES {
            Some(Ln8000ModeRequest {
                mode: bytes[0],
                applied_mode: bytes[1],
                reserved: [bytes[2], bytes[3]],
                error_code: wire::signed_of(wire::u32_at(bytes, 4)),
            })
        } else {
            None
        }
    }

    /// Reads a block.
    pub fn decode(bytes: &[u8]) -> (r: Option<Self>)
        ensures
            r == Self::of_bytes(bytes@),
    {
        if bytes.len() < LN8000_MODEREQUEST_BYTES {
            return None;
        }
        Some(Ln8000ModeRequest {
            mode: bytes[0],
            applied_mode: bytes[1],
            reserved: [bytes[2], bytes[3]],
            error_code: word_signed(get_u32(bytes, 4)),
        })
    }
}

/// Size of [`Ln8000ChargeRequest`] in memory.
pub const LN8000_CHARGEREQUEST_BYTES: usize = 8;

impl Default for Ln8000ChargeRequest {
    /// Everything zero.
    fn default() -> (r: Self)
        ensures
            r == Ln8000ChargeRequest::blank(),
    {
        Ln8000ChargeRequest {
            on: 0,
            applied_mode: 0,
            sys_sts: 0,
            reserved: 0,
            error_code: 0,
        }
    }
}

impl Ln8000ChargeRequest {
    /// Everything zero.
    pub open spec fn blank() -> Self {
        Ln8000ChargeRequest {
            on: 0,
            applied_mode: 0,
            sys_sts: 0,
            reserved: 0,
            error_code: 0,
        }
    }

    /// The block in memory.
    pub open spec fn bytes(self) -> Seq<u8> {
        Seq::<u8>::empty()
            + seq![self.on]
            + seq![self.applied_mode]
            + seq![self.sys_sts]
            + seq![self.reserved]
            + wire::le32(wire::word_of(self.error_code))
    }

    /// The block in memory.
    pub fn encode(&self) -> (out: Vec<u8>)
        ensures
            out@ == self.bytes(),
            out@.len() == LN8000_CHARGEREQUEST_BYTES,
    {
        let mut out: Vec<u8> = Vec::new();
        put_u8(&mut out, self.on);
        put_u8(&mut out, self.applied_mode);
        put_u8(&mut out, self.sys_sts);
        put_u8(&mut out, self.reserved);
        put_i32(&mut out, self.error_code);
        out
    }

    /// What a block holds; one that is too short holds nothing.
    pub open spec fn of_bytes(bytes: Seq<u8>) -> Option<Self> {
        if bytes.len() >= LN8000_CHARGEREQUEST_BYTES {
            Some(Ln8000ChargeRequest {
                on: bytes[0],
                applied_mode: bytes[1],
                sys_sts: bytes[2],
                reserved: bytes[3],
                error_code: wire::signed_of(wire::u32_at(bytes, 4)),
            })
        } else {
            None
        }
    }

    /// Reads a block.
    pub fn decode(bytes: &[u8]) -> (r: Option<Self>)
        ensures
            r == Self::of_bytes(bytes@),
    {
        if bytes.len() < LN8000_CHARGEREQUEST_BYTES {
            return None;
        }
        Some(Ln8000ChargeRequest {
            on: bytes[0],
            applied_mode: bytes[1],
            sys_sts: bytes[2],
            reserved: bytes[3],
            error_code: word_signed(get_u32(bytes, 4)),
        })
    }
}

/// Size of [`Ln8000Sessions`] in memory.
pub const LN8000_SESSIONS_BYTES: usize = 48;

impl Default for Ln8000Sessions {
    /// Everything zero.
    fn default() -> (r: Self)
        ensures
            r == Ln8000Sessions::blank(),
    {
        Ln8000Sessions {
            total: 0,
            current_ms: 0,
            current_peak_iin_ua: 0,
            current_fast: 0,
            reserved: [0, 0, 0],
            last_ms: 0,
            last_peak_iin_ua: 0,
            last_peak_temp_dc: 0,
            last_fast: 0,
            reserved2: [0, 0, 0],
        }
    }
}

impl Ln8000Sessions {
    /// Everything zero.
    pub open spec fn blank() -> Self {
        Ln8000Sessions {
            total: 0,
            current_ms: 0,
            current_peak_iin_ua: 0,
            current_fast: 0,
            reserved: [0u8, 0u8, 0u8],
            last_ms: 0,
            last_peak_iin_ua: 0,
            last_peak_temp_dc: 0,
            last_fast: 0,
            reserved2: [0u8, 0u8, 0u8],
        }
    }

    /// The block in memory.
    pub open spec fn bytes(self) -> Seq<u8> {
        Seq::<u8>::empty()
            + wire::le64(self.total)
            + wire::le64(self.current_ms)
            + wire::le32(self.current_peak_iin_ua)
            + seq![self.current_fast]
            + seq![self.reserved@[0]]
            + seq![self.reserved@[1]]
            + seq![self.reserved@[2]]
            + wire::le64(self.last_ms)
            + wire::le32(self.last_peak_iin_ua)
            + wire::le32(wire::word_of(self.last_peak_temp_dc))
            + seq![self.last_fast]
            + seq![self.reserved2@[0]]
            + seq![self.reserved2@[1]]
            + seq![self.reserved2@[2]]
            + wire::zeros(4)
    }

    /// The block in memory.
    pub fn encode(&self) -> (out: Vec<u8>)
        ensures
            out@ == self.bytes(),
            out@.len() == LN8000_SESSIONS_BYTES,
    {
        let mut out: Vec<u8> = Vec::new();
        put_u64(&mut out, self.total);
        put_u64(&mut out, self.current_ms);
        put_u32(&mut out, self.current_peak_iin_ua);
        put_u8(&mut out, self.current_fast);
        put_u8(&mut out, self.reserved[0]);
        put_u8(&mut out, self.reserved[1]);
        put_u8(&mut out, self.reserved[2]);
        put_u64(&mut out, self.last_ms);
        put_u32(&mut out, self.last_peak_iin_ua);
        put_i32(&mut out, self.last_peak_temp_dc);
        put_u8(&mut out, self.last_fast);
        put_u8(&mut out, self.reserved2[0]);
        put_u8(&mut out, self.reserved2[1]);
        put_u8(&mut out, self.reserved2[2]);
        put_zeros(&mut out, 4);
        out
    }
}

/// Size of [`Ln8000Sample`] in memory.
pub const LN8000_SAMPLE_BYTES: usize = 32;

impl Default for Ln8000Sample {
    /// Everything zero.
    fn default() -> (r: Self)
        ensures
            r == Ln8000Sample::blank(),
    {
        Ln8000Sample {
            ts_ms: 0,
            vbat_uv: 0,
            vbus_uv: 0,
            iin_ua: 0,
            die_temp_dc: 0,
            op_mode: 0,
            input_present: 0,
            reserved: [0, 0],
        }
    }
}

impl Ln8000Sample {
    /// Everything zero.
    pub open spec fn blank() -> Self {
        Ln8000Sample {
            ts_ms: 0,
            vbat_uv: 0,
            vbus_uv: 0,
            iin_ua: 0,
            die_temp_dc: 0,
            op_mode: 0,
            input_present: 0,
            reserved: [0u8, 0u8],
        }
    }

    /// The block in memory.
    pub open spec fn bytes(self) -> Seq<u8> {
        Seq::<u8>::empty()
            + wire::le64(self.ts_ms)
            + wire::le32(self.vbat_uv)
            + wire::le32(self.vbus_uv)
            + wire::le32(self.iin_ua)
            + wire::le32(wire::word_of(self.die_temp_dc))
            + seq![self.op_mode]
            + seq![self.input_present]
            + seq![self.reserved@[0]]
            + seq![self.reserved@[1]]
            + wire::zeros(4)
    }

    /// The block in memory.
    pub fn encode(&self) -> (out: Vec<u8>)
        ensures
            out@ == self.bytes(),
            out@.len() == LN8000_SAMPLE_BYTES,
    {
        let mut out: Vec<u8> = Vec::new();
        put_u64(&mut out, self.ts_ms);
        put_u32(&mut out, self.vbat_uv);
        put_u32(&mut out, self.vbus_uv);
        put_u32(&mut out, self.iin_ua);
        put_i32(&mut out, self.die_temp_dc);
        put_u8(&mut out, self.op_mode);
        put_u8(&mut out, self.input_present);
        put_u8(&mut out, self.reserved[0]);
        put_u8(&mut out, self.reserved[1]);
        put_zeros(&mut out, 4);
        out
    }
}

/// Size of [`Ln8000SamplesRequest`] in memory.
pub const LN8000_SAMPLESREQUEST_BYTES: usize = 40;

impl Default for Ln8000SamplesRequest {
    /// Everything zero.
    fn default() -> (r: Self)
        ensures
            r == Ln8000SamplesRequest::blank(),
    {
        Ln8000SamplesRequest {
            count: 0,
            available: 0,
            first: Ln8000Sample::default(),
        }
    }
}

impl Ln8000SamplesRequest {
    /// Everything zero.
    pub open spec fn blank() -> Self {
        Ln8000SamplesRequest {
            count: 0,
            available: 0,
            first: Ln8000Sample::blank(),
        }
    }

    /// The block in memory.
    pub open spec fn bytes(self) -> Seq<u8> {
        Seq::<u8>::empty()
            + wire::le32(self.count)
            + wire::le32(self.available)
            + self.first.bytes()
    }

    /// The block in memory.
    pub fn encode(&self) -> (out: Vec<u8>)
        ensures
            out@ == self.bytes(),
            out@.len() == LN8000_SAMPLESREQUEST_BYTES,
    {
        let mut out: Vec<u8> = Vec::new();
        put_u32(&mut out, self.count);
        put_u32(&mut out, self.available);
        let mut first = self.first.encode();
        out.append(&mut first);
        out
    }
}

/// Size of [`Ln8000HvdcpRequest`] in memory.
pub const LN8000_HVDCPREQUEST_BYTES: usize = 20;

impl Default for Ln8000HvdcpRequest {
    /// Everything zero.
    fn default() -> (r: Self)
        ensures
            r == Ln8000HvdcpRequest::blank(),
    {
        Ln8000HvdcpRequest {
            command: 0,
            apsd_status: 0,
            apsd_result: 0,
            pulse_cnt: 0,
            phase: 0,
            target_vbus_uv: 0,
            estimated_vbus_uv: 0,
            error_code: 0,
        }
    }
}

impl Ln8000HvdcpRequest {
    /// Everything zero.
    pub open spec fn blank() -> Self {
        Ln8000HvdcpRequest {
            command: 0,
            apsd_status: 0,
            apsd_result: 0,
            pulse_cnt: 0,
            phase: 0,
            target_vbus_uv: 0,
            estimated_vbus_uv: 0,
            error_code: 0,
        }
    }

    /// The block in memory.
    pub open spec fn bytes(self) -> Seq<u8> {
        Seq::<u8>::empty()
            + seq![self.command]
            + seq![self.apsd_status]
            + seq![self.apsd_result]
            + seq![self.pulse_cnt]
            + wire::le32(self.phase)
            + wire::le32(self.target_vbus_uv)
            + wire::le32(self.estimated_vbus_uv)
            + wire::le32(wire::word_of(self.error_code))
    }

    /// The block in memory.
    pub fn encode(&self) -> (out: Vec<u8>)
        ensures
            out@ == self.bytes(),
            out@.len() == LN8000_HVDCPREQUEST_BYTES,
    {
        let mut out: Vec<u8> = Vec::new();
        put_u8(&mut out, self.command);
        put_u8(&mut out, self.apsd_status);
        put_u8(&mut out, self.apsd_result);
        put_u8(&mut out, self.pulse_cnt);
        put_u32(&mut out, self.phase);
        put_u32(&mut out, self.target_vbus_uv);
        put_u32(&mut out, self.estimated_vbus_uv);
        put_i32(&mut out, self.error_code);
        out
    }
}

/// The published codes are those of the interface's functions.
pub proof fn law_codes_are_control_codes()
    ensures
        IOCTL_LN8000_GET_STATUS == ctl_code(0x810, 0, 0),
        IOCTL_LN8000_READ_REG == ctl_code(0x811, 0, 0),
        IOCTL_LN8000_WRITE_REG == ctl_code(0x812, 0, 0),
        IOCTL_LN8000_SET_LIMITS == ctl_code(0x813, 0, 0),
        IOCTL_LN8000_SET_MODE == ctl_code(0x814, 0, 0),
        IOCTL_LN8000_GET_SESSIONS == ctl_code(0x815, 0, 0),
        IOCTL_LN8000_GET_SAMPLES == ctl_code(0x816, 0, 0),
        IOCTL_LN8000_SET_CHARGE == ctl_code(0x817, 0, 0),
        IOCTL_LN8000_RUN_HVDCP == ctl_code(0x818, 0, 0),
{
    assert(0x0022_2040u32 == ((0x22u32 << 16u32) | (0u32 << 14u32) | (0x810u32 << 2u32) | 0u32)
        && 0x0022_2044u32 == ((0x22u32 << 16u32) | (0u32 << 14u32) | (0x811u32 << 2u32) | 0u32)
        && 0x0022_2048u32 == ((0x22u32 << 16u32) | (0u32 << 14u32) | (0x812u32 << 2u32) | 0u32)
        && 0x0022_204Cu32 == ((0x22u32 << 16u32) | (0u32 << 14u32) | (0x813u32 << 2u32) | 0u32)
        && 0x0022_2050u32 == ((0x22u32 << 16u32) | (0u32 << 14u32) | (0x814u32 << 2u32) | 0u32)
        && 0x0022_2054u32 == ((0x22u32 << 16u32) | (0u32 << 14u32) | (0x815u32 << 2u32) | 0u32)
        && 0x0022_2058u32 == ((0x22u32 << 16u32) | (0u32 << 14u32) | (0x816u32 << 2u32) | 0u32)
        && 0x0022_205Cu32 == ((0x22u32 << 16u32) | (0u32 << 14u32) | (0x817u32 << 2u32) | 0u32)
        && 0x0022_2060u32 == ((0x22u32 << 16u32) | (0u32 << 14u32) | (0x818u32 << 2u32) | 0u32)) by (bit_vector);
}

/// A control code is the sum of its fields, each in its own bits.
pub proof fn law_control_code_layout(function: u32, method: u32, access: u32)
    requires
        function < 4096,
        method < 4,
        access < 4,
    ensures
        ctl_code(function, method, access) == 0x22 * 65536 + access * 16384 + function * 4 + method,
{
    assert(((0x22u32 << 16u32) | (access << 14u32) | (function << 2u32) | method) == 0x22 * 65536
        + access * 16384 + function * 4 + method) by (bit_vector)
        requires
            function < 4096,
            method < 4,
            access < 4,
    ;
}

/// What is put into a reg block is read out of it.
pub proof fn law_reg_round_trip(v: Ln8000RegRequest)
    ensures
        v.bytes().len() == LN8000_REGREQUEST_BYTES,
        ({
            &&& Ln8000RegRequest::of_bytes(v.bytes()) is Some
            &&& Ln8000RegRequest::of_bytes(v.bytes()) matches Some(r) ==> {
                &&& r.addr == v.addr
                &&& r.value == v.value
                &&& r.reserved@ == v.reserved@
                &&& r.error_code == v.error_code
            }
        }),
{
    let b = v.bytes();
    assert(b.subrange(4, 8) =~= wire::le32(wire::word_of(v.error_code)));
    wire::law_u32_round_trip(b, 4, wire::word_of(v.error_code));
}

/// What is put into a limits block is read out of it.
pub proof fn law_limits_round_trip(v: Ln8000LimitsRequest)
    ensures
        v.bytes().len() == LN8000_LIMITSREQUEST_BYTES,
        ({
            &&& Ln8000LimitsRequest::of_bytes(v.bytes()) is Some
            &&& Ln8000LimitsRequest::of_bytes(v.bytes()) matches Some(r) ==> {
                &&& r.iin_ua == v.iin_ua
                &&& r.vbat_uv == v.vbat_uv
                &&& r.applied_iin_ua == v.applied_iin_ua
                &&& r.error_code == v.error_code
            }
        }),
{
    let b = v.bytes();
    assert(b.subrange(0, 4) =~= wire::le32(v.iin_ua));
    wire::law_u32_round_trip(b, 0, v.iin_ua);
    assert(b.subrange(4, 8) =~= wire::le32(v.vbat_uv));
    wire::law_u32_round_trip(b, 4, v.vbat_uv);
    assert(b.subrange(8, 12) =~= wire::le32(v.applied_iin_ua));
    wire::law_u32_round_trip(b, 8, v.applied_iin_ua);
    assert(b.subrange(12, 16) =~= wire::le32(wire::word_of(v.error_code)));
    wire::law_u32_round_trip(b, 12, wire::word_of(v.error_code));
}

/// What is put into a mode block is read out of it.
pub proof fn law_mode_round_trip(v: Ln8000ModeRequest)
    ensures
        v.bytes().len() == LN8000_MODEREQUEST_BYTES,
        ({
            &&& Ln8000ModeRequest::of_bytes(v.bytes()) is Some
            &&& Ln8000ModeRequest::of_bytes(v.bytes()) matches Some(r) ==> {
                &&& r.mode == v.mode
                &&& r.applied_mode == v.applied_mode
                &&& r.reserved@ == v.reserved@
                &&& r.error_code == v.error_code
            }
        }),
{
    let b = v.bytes();
    assert(b.subrange(4, 8) =~= wire::le32(wire::word_of(v.error_code)));
    wire::law_u32_round_trip(b, 4, wire::word_of(v.error_code));
}

/// What is put into a charge block is read out of it.
pub proof fn law_charge_round_trip(v: Ln8000ChargeRequest)
    ensures
        v.bytes().len() == LN8000_CHARGEREQUEST_BYTES,
        ({
            &&& Ln8000ChargeRequest::of_bytes(v.bytes()) is Some
            &&& Ln8000ChargeRequest::of_bytes(v.bytes()) matches Some(r) ==> {
                &&& r.on == v.on
                &&& r.applied_mode == v.applied_mode
                &&& r.sys_sts == v.sys_sts
                &&& r.reserved == v.reserved
                &&& r.error_code == v.error_code
            }
        }),
{
    let b = v.bytes();
    assert(b.subrange(4, 8) =~= wire::le32(wire::word_of(v.error_code)));
    wire::law_u32_round_trip(b, 4, wire::word_of(v.error_code));
}

/// Where the fields of a status answer stand in memory.
#[verifier::rlimit(60)]
pub proof fn law_status_has_its_layout(v: Ln8000Status)
    ensures
        ({
            let b = v.bytes();
            &&& b.len() == 64
            &&& wire::u32_at(b, 0) == v.magic
            &&& b[4] + 256 * b[5] == v.version
            &&& b[6] == v.op_mode
            &&& b[7] == v.state
            &&& b[8] == v.sys_sts
            &&& b[9] == v.fault1_sts
            &&& b[10] == v.fault2_sts
            &&& b[11] == v.safety_sts
            &&& b[12] == v.critical_fault
            &&& b[15] == 0
            &&& wire::u32_at(b, 16) == v.iin_ua
            &&& wire::u32_at(b, 20) == v.vbat_uv
            &&& wire::u32_at(b, 24) == v.vbus_uv
            &&& wire::signed_of(wire::u32_at(b, 28)) == v.die_temp_dc
            &&& wire::u32_at(b, 32) + 0x1_0000_0000 * wire::u32_at(b, 36) == v.sessions
            &&& wire::u32_at(b, 40) + 0x1_0000_0000 * wire::u32_at(b, 44) == v.samples
            &&& wire::u32_at(b, 48) == v.writes
            &&& wire::u32_at(b, 52) == v.reads
            &&& wire::signed_of(wire::u32_at(b, 56)) == v.last_error
            &&& b[60] == 0
            &&& b[63] == 0
        }),
{
    let b = v.bytes();
    assert(b.subrange(0, 4) =~= wire::le32(v.magic));
    wire::law_u32_round_trip(b, 0, v.magic);
    assert(b.subrange(16, 20) =~= wire::le32(v.iin_ua));
    wire::law_u32_round_trip(b, 16, v.iin_ua);
    assert(b.subrange(20, 24) =~= wire::le32(v.vbat_uv));
    wire::law_u32_round_trip(b, 20, v.vbat_uv);
    assert(b.subrange(24, 28) =~= wire::le32(v.vbus_uv));
    wire::law_u32_round_trip(b, 24, v.vbus_uv);
    assert(b.subrange(28, 32) =~= wire::le32(wire::word_of(v.die_temp_dc)));
    wire::law_u32_round_trip(b, 28, wire::word_of(v.die_temp_dc));
    assert(b.subrange(32, 40) =~= wire::le64(v.sessions));
    wire::law_u64_round_trip(b, 32, v.sessions);
    assert(b.subrange(40, 48) =~= wire::le64(v.samples));
    wire::law_u64_round_trip(b, 40, v.samples);
    assert(b.subrange(48, 52) =~= wire::le32(v.writes));
    wire::law_u32_round_trip(b, 48, v.writes);
    assert(b.subrange(52, 56) =~= wire::le32(v.reads));
    wire::law_u32_round_trip(b, 52, v.reads);
    assert(b.subrange(56, 60) =~= wire::le32(wire::word_of(v.last_error)));
    wire::law_u32_round_trip(b, 56, wire::word_of(v.last_error));
}

/// Where the fields of a register access stand in memory.
pub proof fn law_reg_has_its_layout(v: Ln8000RegRequest)
    ensures
        ({
            let b = v.bytes();
            &&& b.len() == 8
            &&& b[0] == v.addr
            &&& b[1] == v.value
            &&& wire::signed_of(wire::u32_at(b, 4)) == v.error_code
        }),
{
    let b = v.bytes();
    assert(b.subrange(4, 8) =~= wire::le32(wire::word_of(v.error_code)));
    wire::law_u32_round_trip(b, 4, wire::word_of(v.error_code));
}

/// Where the fields of a limits request stand in memory.
pub proof fn law_limits_have_their_layout(v: Ln8000LimitsRequest)
    ensures
        ({
            let b = v.bytes();
            &&& b.len() == 16
            &&& wire::u32_at(b, 0) == v.iin_ua
            &&& wire::u32_at(b, 4) == v.vbat_uv
            &&& wire::u32_at(b, 8) == v.applied_iin_ua
            &&& wire::signed_of(wire::u32_at(b, 12)) == v.error_code
        }),
{
    let b = v.bytes();
    assert(b.subrange(0, 4) =~= wire::le32(v.iin_ua));
    wire::law_u32_round_trip(b, 0, v.iin_ua);
    assert(b.subrange(4, 8) =~= wire::le32(v.vbat_uv));
    wire::law_u32_round_trip(b, 4, v.vbat_uv);
    assert(b.subrange(8, 12) =~= wire::le32(v.applied_iin_ua));
    wire::law_u32_round_trip(b, 8, v.applied_iin_ua);
    assert(b.subrange(12, 16) =~= wire::le32(wire::word_of(v.error_code)));
    wire::law_u32_round_trip(b, 12, wire::word_of(v.error_code));
}

/// Where the fields of a mode request stand in memory.
pub proof fn law_mode_has_its_layout(v: Ln8000ModeRequest)
    ensures
        ({
            let b = v.bytes();
            &&& b.len() == 8
            &&& b[0] == v.mode
            &&& b[1] == v.applied_mode
            &&& wire::signed_of(wire::u32_at(b, 4)) == v.error_code
        }),
{
    let b = v.bytes();
    assert(b.subrange(4, 8) =~= wire::le32(wire::word_of(v.error_code)));
    wire::law_u32_round_trip(b, 4, wire::word_of(v.error_code));
}

/// Where the fields of a charge request stand in memory.
pub proof fn law_charge_has_its_layout(v: Ln8000ChargeRequest)
    ensures
        ({
            let b = v.bytes();
            &&& b.len() == 8
            &&& b[0] == v.on
            &&& b[1] == v.applied_mode
            &&& b[2] == v.sys_sts
            &&& wire::signed_of(wire::u32_at(b, 4)) == v.error_code
        }),
{
    let b = v.bytes();
    assert(b.subrange(4, 8) =~= wire::le32(wire::word_of(v.error_code)));
    wire::law_u32_round_trip(b, 4, wire::word_of(v.error_code));
}

/// Where the fields of a session answer stand in memory.
#[verifier::rlimit(60)]
pub proof fn law_sessions_have_their_layout(v: Ln8000Sessions)
    ensures
        ({
            let b = v.bytes();
            &&& b.len() == 48
            &&& wire::u32_at(b, 0) + 0x1_0000_0000 * wire::u32_at(b, 4) == v.total
            &&& wire::u32_at(b, 8) + 0x1_0000_0000 * wire::u32_at(b, 12) == v.current_ms
            &&& wire::u32_at(b, 16) == v.current_peak_iin_ua
            &&& b[20] == v.current_fast
            &&& wire::u32_at(b, 24) + 0x1_0000_0000 * wire::u32_at(b, 28) == v.last_ms
            &&& wire::u32_at(b, 32) == v.last_peak_iin_ua
            &&& wire::signed_of(wire::u32_at(b, 36)) == v.last_peak_temp_dc
            &&& b[40] == v.last_fast
            &&& b[44] == 0
        }),
{
    let b = v.bytes();
    assert(b.subrange(0, 8) =~= wire::le64(v.total));
    wire::law_u64_round_trip(b, 0, v.total);
    assert(b.subrange(8, 16) =~= wire::le64(v.current_ms));
    wire::law_u64_round_trip(b, 8, v.current_ms);
    assert(b.subrange(16, 20) =~= wire::le32(v.current_peak_iin_ua));
    wire::law_u32_round_trip(b, 16, v.current_peak_iin_ua);
    assert(b.subrange(24, 32) =~= wire::le64(v.last_ms));
    wire::law_u64_round_trip(b, 24, v.last_ms);
    assert(b.subrange(32, 36) =~= wire::le32(v.last_peak_iin_ua));
    wire::law_u32_round_trip(b, 32, v.last_peak_iin_ua);
    assert(b.subrange(36, 40) =~= wire::le32(wire::word_of(v.last_peak_temp_dc)));
    wire::law_u32_round_trip(b, 36, wire::word_of(v.last_peak_temp_dc));
}

/// Where the fields of a sample stand in memory.
#[verifier::rlimit(60)]
pub proof fn law_sample_has_its_layout(v: Ln8000Sample)
    ensures
        ({
            let b = v.bytes();
            &&& b.len() == 32
            &&& wire::u32_at(b, 0) + 0x1_0000_0000 * wire::u32_at(b, 4) == v.ts_ms
            &&& wire::u32_at(b, 8) == v.vbat_uv
            &&& wire::u32_at(b, 12) == v.vbus_uv
            &&& wire::u32_at(b, 16) == v.iin_ua
            &&& wire::signed_of(wire::u32_at(b, 20)) == v.die_temp_dc
            &&& b[24] == v.op_mode
            &&& b[25] == v.input_present
            &&& b[28] == 0
            &&& b[31] == 0
        }),
{
    let b = v.bytes();
    assert(b.subrange(0, 8) =~= wire::le64(v.ts_ms));
    wire::law_u64_round_trip(b, 0, v.ts_ms);
    assert(b.subrange(8, 12) =~= wire::le32(v.vbat_uv));
    wire::law_u32_round_trip(b, 8, v.vbat_uv);
    assert(b.subrange(12, 16) =~= wire::le32(v.vbus_uv));
    wire::law_u32_round_trip(b, 12, v.vbus_uv);
    assert(b.subrange(16, 20) =~= wire::le32(v.iin_ua));
    wire::law_u32_round_trip(b, 16, v.iin_ua);
    assert(b.subrange(20, 24) =~= wire::le32(wire::word_of(v.die_temp_dc)));
    wire::law_u32_round_trip(b, 20, wire::word_of(v.die_temp_dc));
}

/// Where the fields of a negotiation request stand in memory.
pub proof fn law_negotiation_has_its_layout(v: Ln8000HvdcpRequest)
    ensures
        ({
            let b = v.bytes();
            &&& b.len() == 20
            &&& b[0] == v.command
            &&& b[1] == v.apsd_status
            &&& b[2] == v.apsd_result
            &&& b[3] == v.pulse_cnt
            &&& wire::u32_at(b, 4) == v.phase
            &&& wire::u32_at(b, 8) == v.target_vbus_uv
            &&& wire::u32_at(b, 12) == v.estimated_vbus_uv
            &&& wire::signed_of(wire::u32_at(b, 16)) == v.error_code
        }),
{
    let b = v.bytes();
    assert(b.subrange(4, 8) =~= wire::le32(v.phase));
    wire::law_u32_round_trip(b, 4, v.phase);
    assert(b.subrange(8, 12) =~= wire::le32(v.target_vbus_uv));
    wire::law_u32_round_trip(b, 8, v.target_vbus_uv);
    assert(b.subrange(12, 16) =~= wire::le32(v.estimated_vbus_uv));
    wire::law_u32_round_trip(b, 12, v.estimated_vbus_uv);
    assert(b.subrange(16, 20) =~= wire::le32(wire::word_of(v.error_code)));
    wire::law_u32_round_trip(b, 16, wire::word_of(v.error_code));
}

/// A header of samples is its two counts and the first sample behind them.
pub proof fn law_samples_have_their_layout(v: Ln8000SamplesRequest)
    ensures
        ({
            let b = v.bytes();
            &&& b.len() == 40
            &&& wire::u32_at(b, 0) == v.count
            &&& wire::u32_at(b, 4) == v.available
            &&& b.subrange(8, 40) == v.first.bytes()
        }),
{
    let b = v.bytes();
    law_sample_has_its_layout(v.first);
    assert(b.subrange(0, 4) =~= wire::le32(v.count));
    wire::law_u32_round_trip(b, 0, v.count);
    assert(b.subrange(4, 8) =~= wire::le32(v.available));
    wire::law_u32_round_trip(b, 4, v.available);
    assert(b.subrange(8, 40) =~= v.first.bytes());
}

/// Where the fields of a request are read from: register and value, the two limits, the
/// mode, and the switch, each from the start of its block.
pub proof fn law_requests_are_read_from_their_places(b: Seq<u8>)
    ensures
        b.len() >= 8 <==> Ln8000RegRequest::of_bytes(b) is Some,
        b.len() >= 16 <==> Ln8000LimitsRequest::of_bytes(b) is Some,
        b.len() >= 8 <==> Ln8000ModeRequest::of_bytes(b) is Some,
        b.len() >= 8 <==> Ln8000ChargeRequest::of_bytes(b) is Some,
        Ln8000RegRequest::of_bytes(b) matches Some(r) ==> r.addr == b[0] && r.value == b[1]
            && r.error_code == wire::signed_of(wire::u32_at(b, 4)),
        Ln8000LimitsRequest::of_bytes(b) matches Some(r) ==> r.iin_ua == wire::u32_at(b, 0)
            && r.vbat_uv == wire::u32_at(b, 4) && r.applied_iin_ua == wire::u32_at(b, 8)
            && r.error_code == wire::signed_of(wire::u32_at(b, 12)),
        Ln8000ModeRequest::of_bytes(b) matches Some(r) ==> r.mode == b[0] && r.applied_mode == b[1]
            && r.error_code == wire::signed_of(wire::u32_at(b, 4)),
        Ln8000ChargeRequest::of_bytes(b) matches Some(r) ==> r.on == b[0] && r.applied_mode == b[1]
            && r.sys_sts == b[2] && r.error_code == wire::signed_of(wire::u32_at(b, 4)),
{
}

} // verus!
