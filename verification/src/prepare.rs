//! Taking the hardware into service, and out of it.
use crate::arith::{larger, nonneg};
use crate::battery::{
    self, initialize, last_percent, last_power_state, unload, update_from_telemetry, Battery,
    Readings,
};
use crate::connections::{
    self, collect_connections, id_halves, mark_connections, select_i2c_connection,
    select_usbin_connection,
};
use crate::exchange::{Line, Op, Reply};
use crate::hvdcp::REG_APSD_STATUS;
use crate::landing::{self, arm_telemetry_timer, reading_or, try_autostart_hvdcp};
use crate::negotiate::status_word;
use crate::params::{self, read_parameters, DriverParams};
use crate::pump::{AdcChannel, Tuning, DEVICE_ID, DEVICE_ID_VALUE, FAULT1_VAC_UNPLUG};
use crate::session::{Io, Session};
use crate::spb_abi::{
    IOCTL_SPB_EXECUTE_SEQUENCE, IOCTL_SPB_FULL_DUPLEX, IOCTL_SPB_LOCK_CONNECTION,
    IOCTL_SPB_LOCK_CONTROLLER, IOCTL_SPB_MULTI_SPI_TRANSFER, IOCTL_SPB_UNLOCK_CONNECTION,
    IOCTL_SPB_UNLOCK_CONTROLLER,
};
use crate::state::{ChargeLoop, DriverState, FccPolicy, InputEdge, RetrySlot};
use crate::status::{STATUS_DEVICE_NOT_READY, STATUS_SUCCESS, STATUS_UNSUCCESSFUL};
use crate::superuser::{PROBE_SHARE_ALL, SUPERUSER_NAME};
use crate::sysreq::{self, acquire, release};
use crate::usbin::flag_word;
use crate::trace;
use crate::writes::{self, Rule};
use crate::off_tick;
use vstd::prelude::*;

verus! {

/// The hardware callback was entered.
pub const STAGE_PREPARE: u32 = 30;

/// It stopped at the bus.
pub const STAGE_PREPARE_BUS: u32 = 31;

/// It stopped at the chip.
pub const STAGE_PREPARE_CHIP: u32 = 32;

/// It stopped at the configuration.
pub const STAGE_PREPARE_CONFIG: u32 = 33;

/// The hardware is in service.
pub const STAGE_READY: u32 = 0xFE;

/// What is published for a value that could not be had.
pub const MISSING: u32 = 0xFFFF_FFFF;

/// Full access to a target.
pub const FULL_ACCESS: u32 = 0x001F_01FF;

pub open spec fn mark_stage_run(io: Io<Op>, stage: u32, status: i32) -> Io<Op> {
    io.mark("AddStage", stage).mark("AddStatus", status_word(status))
}

/// Publishes how far the device came, and with which status.
pub fn mark_stage(io: &mut Session<Op>, stage: u32, status: i32)
    ensures
        final(io)@ == mark_stage_run(old(io)@, stage, status),
{
    io.mark("AddStage", stage);
    io.mark("AddStatus", status_word(status));
}

// ---------------------------------------------------------------------------
// Probes
// ---------------------------------------------------------------------------
#[verifier::opaque]
pub open spec fn probe_parent_run(io: Io<Op>, peripheral_id: u64) -> Io<Op> {
    let io = io.mark("ConnLow", id_halves(peripheral_id).0)
        .mark("ConnHigh", id_halves(peripheral_id).1)
        .mark("RegAddr", DEVICE_ID as u32);
    let (io, attach) = io.status(Op::ParentAttach);
    let io = io.mark("ParAttachStatus", status_word(attach)).mark(
        "ParAttachOk",
        flag_word(attach >= 0),
    );
    let (io, sequence) = io.status(Op::ParentSequence(DEVICE_ID));
    let io = io.mark("ParSeqStatus", status_word(sequence)).mark(
        "ParSeqOk",
        flag_word(sequence >= 0),
    );
    let (io, own) = io.attach(Op::LineAttach(Line::Parent));
    io.mark("AttachStatus", status_word(own.status))
        .mark("Att0", own.word0)
        .mark("Att1", own.word1)
        .mark("Att2", own.word2)
        .mark("Att3", own.word3)
}

/// Publishes the connection and tries the parent's target and the line's own
/// attach.
fn probe_parent(io: &mut Session<Op>, peripheral_id: u64)
    ensures
        final(io)@ == probe_parent_run(old(io)@, peripheral_id),
{
    proof {
        reveal(probe_parent_run);
    }
    let halves: (u32, u32) = id_halves(peripheral_id);
    io.mark("ConnLow", halves.0);
    io.mark("ConnHigh", halves.1);
    io.mark("RegAddr", DEVICE_ID as u32);
    let attach: i32 = io.status(Op::ParentAttach);
    io.mark("ParAttachStatus", status_word(attach));
    io.mark("ParAttachOk", flag_word(attach >= 0));
    let sequence: i32 = io.status(Op::ParentSequence(DEVICE_ID));
    io.mark("ParSeqStatus", status_word(sequence));
    io.mark("ParSeqOk", flag_word(sequence >= 0));
    let own = io.attach(Op::LineAttach(Line::Parent));
    io.mark("AttachStatus", status_word(own.status));
    io.mark("Att0", own.word0);
    io.mark("Att1", own.word1);
    io.mark("Att2", own.word2);
    io.mark("Att3", own.word3);
}

/// The names under which a variant's probe is published: success, status, value.
#[derive(Debug, Clone, Copy)]
pub struct VariantNames {
    /// Whether it succeeded.
    pub ok: &'static str,
    /// Its status.
    pub status: &'static str,
    /// What it read.
    pub value: &'static str,
}

/// The names of a variant on a line.
#[verifier::allow_in_spec]
pub fn variant_names(hub: bool, variant: u8) -> (r: VariantNames)
    returns
        (if hub {
            VariantNames {
                ok: if variant == 0 {
                    "Hub0"
                } else if variant == 1 {
                    "Hub1"
                } else if variant == 2 {
                    "Hub2"
                } else if variant == 3 {
                    "Hub3"
                } else if variant == 4 {
                    "Hub4"
                } else {
                    "Hub5"
                },
                status: if variant == 0 {
                    "HubS0"
                } else if variant == 1 {
                    "HubS1"
                } else if variant == 2 {
                    "HubS2"
                } else if variant == 3 {
                    "HubS3"
                } else if variant == 4 {
                    "HubS4"
                } else {
                    "HubS5"
                },
                value: "HubValue",
            }
        } else {
            VariantNames {
                ok: if variant == 0 {
                    "Ok0"
                } else if variant == 1 {
                    "Ok1"
                } else if variant == 2 {
                    "Ok2"
                } else if variant == 3 {
                    "Ok3"
                } else if variant == 4 {
                    "Ok4"
                } else {
                    "Ok5"
                },
                status: if variant == 0 {
                    "St0"
                } else if variant == 1 {
                    "St1"
                } else if variant == 2 {
                    "St2"
                } else if variant == 3 {
                    "St3"
                } else if variant == 4 {
                    "St4"
                } else {
                    "St5"
                },
                value: "ProbeValue",
            }
        }),
{
    let ok = match (hub, variant) {
        (true, 0) => "Hub0",
        (true, 1) => "Hub1",
        (true, 2) => "Hub2",
        (true, 3) => "Hub3",
        (true, 4) => "Hub4",
        (true, _) => "Hub5",
        (false, 0) => "Ok0",
        (false, 1) => "Ok1",
        (false, 2) => "Ok2",
        (false, 3) => "Ok3",
        (false, 4) => "Ok4",
        (false, _) => "Ok5",
    };
    let status = match (hub, variant) {
        (true, 0) => "HubS0",
        (true, 1) => "HubS1",
        (true, 2) => "HubS2",
        (true, 3) => "HubS3",
        (true, 4) => "HubS4",
        (true, _) => "HubS5",
        (false, 0) => "St0",
        (false, 1) => "St1",
        (false, 2) => "St2",
        (false, 3) => "St3",
        (false, 4) => "St4",
        (false, _) => "St5",
    };
    let value = if hub {
        "HubValue"
    } else {
        "ProbeValue"
    };
    VariantNames { ok, status, value }
}

pub open spec fn try_variant_run(io: Io<Op>, hub: bool, variant: u8) -> (Io<Op>, bool) {
    let line = if hub {
        Line::Hub
    } else {
        Line::Parent
    };
    let names = variant_names(hub, variant);
    let (io, reply) = io.transfer(Op::LineTransfer { line, variant, register: DEVICE_ID });
    match reply.value {
        Some(value) => (
            io.mark(names.ok, 1).mark(names.value, value as u32).mark(
                names.status,
                status_word(reply.status),
            ),
            value == DEVICE_ID_VALUE,
        ),
        None => (
            io.mark(names.ok, 0).mark(names.status, status_word(reply.status)),
            false,
        ),
    }
}

/// Reads the identification with one variant; true where the chip answers.
fn try_variant(io: &mut Session<Op>, hub: bool, variant: u8) -> (works: bool)
    ensures
        (final(io)@, works) == try_variant_run(old(io)@, hub, variant),
{
    let line = if hub {
        Line::Hub
    } else {
        Line::Parent
    };
    let names = variant_names(hub, variant);
    let reply = io.transfer(Op::LineTransfer { line, variant, register: DEVICE_ID });
    let works = match reply.value {
        Some(value) => {
            io.mark(names.ok, 1);
            io.mark(names.value, value as u32);
            value == DEVICE_ID_VALUE
        },
        None => {
            io.mark(names.ok, 0);
            false
        },
    };
    io.mark(names.status, status_word(reply.status));
    works
}

/// Number of transfer variants.
pub const VARIANTS: u8 = 6;

/// Tries the variants from one on; the result is the first that works.
pub open spec fn scan_variants_run(io: Io<Op>, hub: bool, variant: u8, working: Option<u8>) -> (
    Io<Op>,
    Option<u8>,
)
    decreases VARIANTS - variant,
{
    if variant >= VARIANTS {
        (io, working)
    } else {
        let (io, works) = try_variant_run(io, hub, variant);
        scan_variants_run(
            io,
            hub,
            (variant + 1) as u8,
            if works && working is None {
                Some(variant)
            } else {
                working
            },
        )
    }
}

/// Tries every variant; the result is the first that works.
fn scan_variants(io: &mut Session<Op>, hub: bool) -> (working: Option<u8>)
    ensures
        (final(io)@, working) == scan_variants_run(old(io)@, hub, 0, None),
{
    let mut working: Option<u8> = None;
    let mut variant: u8 = 0;
    while variant < VARIANTS
        invariant
            variant <= VARIANTS,
            scan_variants_run(io@, hub, variant, working) == scan_variants_run(
                old(io)@,
                hub,
                0,
                None,
            ),
        decreases VARIANTS - variant,
    {
        let works = try_variant(io, hub, variant);
        if works && working.is_none() {
            working = Some(variant);
        }
        variant = variant + 1;
    }
    working
}

pub open spec fn probe_register_run(io: Io<Op>, register: u8, name: &'static str) -> Io<Op> {
    let (io, reply) = io.transfer(
        Op::LineTransfer { line: Line::Parent, variant: 0, register },
    );
    io.mark(name, match reply.value {
        Some(value) => value as u32,
        None => MISSING,
    })
}

/// Reads and publishes one register.
fn probe_register(io: &mut Session<Op>, register: u8, name: &'static str)
    ensures
        final(io)@ == probe_register_run(old(io)@, register, name),
{
    let reply = io.transfer(Op::LineTransfer { line: Line::Parent, variant: 0, register });
    let word: u32 = match reply.value {
        Some(value) => value as u32,
        None => MISSING,
    };
    io.mark(name, word);
}

pub open spec fn probe_code_run(io: Io<Op>, name: &'static str, code: u32) -> Io<Op> {
    let (io, status) = io.status(Op::LineIoctl(Line::Parent, code));
    io.mark(name, status_word(status))
}

/// Sends a bare control code and publishes its status.
fn probe_code(io: &mut Session<Op>, name: &'static str, code: u32)
    ensures
        final(io)@ == probe_code_run(old(io)@, name, code),
{
    let status: i32 = io.status(Op::LineIoctl(Line::Parent, code));
    io.mark(name, status_word(status));
}

#[verifier::opaque]
pub open spec fn probe_lock_run(io: Io<Op>) -> Io<Op> {
    let (io, lock) = io.status(Op::LineLock(Line::Parent));
    let io = io.mark("LockStatus", status_word(lock)).mark("LockOk", flag_word(lock >= 0));
    let (io, locked) = io.transfer(
        Op::LineTransfer { line: Line::Parent, variant: 0, register: DEVICE_ID },
    );
    let io = match locked.value {
        Some(value) => io.mark("LockedOk", 1).mark("LockedValue", value as u32),
        None => io.mark("LockedOk", 0),
    };
    io.mark("LockedStatus", status_word(locked.status))
}

/// Locks the connection and reads the identification under the lock.
fn probe_lock(io: &mut Session<Op>)
    ensures
        final(io)@ == probe_lock_run(old(io)@),
{
    proof {
        reveal(probe_lock_run);
    }
    let lock: i32 = io.status(Op::LineLock(Line::Parent));
    io.mark("LockStatus", status_word(lock));
    io.mark("LockOk", flag_word(lock >= 0));
    let locked = io.transfer(
        Op::LineTransfer { line: Line::Parent, variant: 0, register: DEVICE_ID },
    );
    match locked.value {
        Some(value) => {
            io.mark("LockedOk", 1);
            io.mark("LockedValue", value as u32);
        },
        None => {
            io.mark("LockedOk", 0);
        },
    }
    io.mark("LockedStatus", status_word(locked.status));
}

#[verifier::opaque]
pub open spec fn probe_line_run(io: Io<Op>) -> Io<Op> {
    let (io, working) = scan_variants_run(io, false, 0, None);
    let io = match working {
        Some(variant) => io.mark("Variant", variant as u32),
        None => io,
    };
    let io = probe_lock_run(io);
    let io = probe_register_run(io, 0x00, "Reg00");
    let io = probe_register_run(io, 0x03, "Reg03");
    let io = probe_register_run(io, 0x31, "Reg31");
    let io = probe_code_run(io, "Io0", IOCTL_SPB_LOCK_CONTROLLER);
    let io = probe_code_run(io, "Io1", IOCTL_SPB_UNLOCK_CONTROLLER);
    let io = probe_code_run(io, "Io2", IOCTL_SPB_EXECUTE_SEQUENCE);
    let io = probe_code_run(io, "Io3", IOCTL_SPB_LOCK_CONNECTION);
    let io = probe_code_run(io, "Io4", IOCTL_SPB_UNLOCK_CONNECTION);
    let io = probe_code_run(io, "Io5", IOCTL_SPB_FULL_DUPLEX);
    probe_code_run(io, "Io6", IOCTL_SPB_MULTI_SPI_TRANSFER)
}

/// Probes the parent line: variants, lock, registers, control codes.
fn probe_line(io: &mut Session<Op>)
    ensures
        final(io)@ == probe_line_run(old(io)@),
{
    proof {
        reveal(probe_line_run);
    }
    match scan_variants(io, false) {
        Some(variant) => {
            io.mark("Variant", variant as u32);
        },
        None => {},
    }
    probe_lock(io);
    probe_register(io, 0x00, "Reg00");
    probe_register(io, 0x03, "Reg03");
    probe_register(io, 0x31, "Reg31");
    probe_code(io, "Io0", IOCTL_SPB_LOCK_CONTROLLER);
    probe_code(io, "Io1", IOCTL_SPB_UNLOCK_CONTROLLER);
    probe_code(io, "Io2", IOCTL_SPB_EXECUTE_SEQUENCE);
    probe_code(io, "Io3", IOCTL_SPB_LOCK_CONNECTION);
    probe_code(io, "Io4", IOCTL_SPB_UNLOCK_CONNECTION);
    probe_code(io, "Io5", IOCTL_SPB_FULL_DUPLEX);
    probe_code(io, "Io6", IOCTL_SPB_MULTI_SPI_TRANSFER);
}

pub open spec fn probe_candidate_run(
    io: Io<Op>,
    id: u64,
    open_name: &'static str,
    status_name: &'static str,
    value_name: &'static str,
) -> Io<Op> {
    let (io, opened) = io.flag(Op::LineOpen { line: Line::Candidate, id });
    if opened {
        let (io, reply) = io.mark(open_name, 1).transfer(
            Op::LineTransfer { line: Line::Candidate, variant: 0, register: DEVICE_ID },
        );
        io.mark(status_name, status_word(reply.status)).mark(value_name, match reply.value {
            Some(value) => value as u32,
            None => MISSING,
        })
    } else {
        io.mark(open_name, 0).mark(status_name, MISSING).mark(value_name, MISSING)
    }
}

/// Opens one connection of the hub by its id and reads the identification.
fn probe_candidate(
    io: &mut Session<Op>,
    id: u64,
    open_name: &'static str,
    status_name: &'static str,
    value_name: &'static str,
)
    ensures
        final(io)@ == probe_candidate_run(old(io)@, id, open_name, status_name, value_name),
{
    if io.flag(Op::LineOpen { line: Line::Candidate, id }) {
        io.mark(open_name, 1);
        let reply = io.transfer(
            Op::LineTransfer { line: Line::Candidate, variant: 0, register: DEVICE_ID },
        );
        io.mark(status_name, status_word(reply.status));
        let word: u32 = match reply.value {
            Some(value) => value as u32,
            None => MISSING,
        };
        io.mark(value_name, word);
    } else {
        io.mark(open_name, 0);
        io.mark(status_name, MISSING);
        io.mark(value_name, MISSING);
    }
}

#[verifier::opaque]
pub open spec fn probe_candidates_run(io: Io<Op>) -> Io<Op> {
    let io = probe_candidate_run(io, 2, "Sc2Open", "Sc2St", "Sc2Val");
    let io = probe_candidate_run(io, 3, "Sc3Open", "Sc3St", "Sc3Val");
    let io = probe_candidate_run(io, 4, "Sc4Open", "Sc4St", "Sc4Val");
    let io = probe_candidate_run(io, 5, "Sc5Open", "Sc5St", "Sc5Val");
    let io = probe_candidate_run(io, 6, "Sc6Open", "Sc6St", "Sc6Val");
    let io = probe_candidate_run(io, 8, "Sc8Open", "Sc8St", "Sc8Val");
    let io = probe_candidate_run(io, 16, "Sc16Open", "Sc16St", "Sc16Val");
    let io = probe_candidate_run(io, 56, "Sc56Open", "Sc56St", "Sc56Val");
    let io = probe_candidate_run(io, 0x13, "Sc13Open", "Sc13St", "Sc13Val");
    let io = probe_candidate_run(io, 0x31, "Sc31Open", "Sc31St", "Sc31Val");
    let io = probe_candidate_run(io, 0x131, "Sc131Open", "Sc131St", "Sc131Val");
    let io = probe_candidate_run(io, 0x135, "Sc135Open", "Sc135St", "Sc135Val");
    probe_candidate_run(io, 0x213, "Sc213Open", "Sc213St", "Sc213Val")
}

/// Tries the ids under which the chip might also be reached.
fn probe_candidates(io: &mut Session<Op>)
    ensures
        final(io)@ == probe_candidates_run(old(io)@),
{
    proof {
        reveal(probe_candidates_run);
    }
    probe_candidate(io, 2, "Sc2Open", "Sc2St", "Sc2Val");
    probe_candidate(io, 3, "Sc3Open", "Sc3St", "Sc3Val");
    probe_candidate(io, 4, "Sc4Open", "Sc4St", "Sc4Val");
    probe_candidate(io, 5, "Sc5Open", "Sc5St", "Sc5Val");
    probe_candidate(io, 6, "Sc6Open", "Sc6St", "Sc6Val");
    probe_candidate(io, 8, "Sc8Open", "Sc8St", "Sc8Val");
    probe_candidate(io, 16, "Sc16Open", "Sc16St", "Sc16Val");
    probe_candidate(io, 56, "Sc56Open", "Sc56St", "Sc56Val");
    probe_candidate(io, 0x13, "Sc13Open", "Sc13St", "Sc13Val");
    probe_candidate(io, 0x31, "Sc31Open", "Sc31St", "Sc31Val");
    probe_candidate(io, 0x131, "Sc131Open", "Sc131St", "Sc131Val");
    probe_candidate(io, 0x135, "Sc135Open", "Sc135St", "Sc135Val");
    probe_candidate(io, 0x213, "Sc213Open", "Sc213St", "Sc213Val");
}

/// Which line leads to the pump, and with which variant.
#[derive(Debug, Clone, Copy, PartialEq, Eq, Structural)]
pub struct PumpLine {
    /// The line.
    pub line: Line,
    /// The transfer variant.
    pub variant: u8,
}

#[verifier::opaque]
pub open spec fn probe_hub_run(io: Io<Op>, peripheral_id: u64) -> (Io<Op>, PumpLine) {
    let (io, opened) = io.flag(Op::LineOpen { line: Line::Hub, id: peripheral_id });
    if opened {
        let (io, working) = scan_variants_run(io, true, 0, None);
        (
            probe_candidates_run(io).mark("PumpBusOpen", 1),
            PumpLine {
                line: Line::Hub,
                variant: match working {
                    Some(variant) => variant,
                    None => 0,
                },
            },
        )
    } else {
        (
            io.mark("Hub0", MISSING).mark("PumpBusOpen", 0),
            PumpLine { line: Line::Parent, variant: 0 },
        )
    }
}

/// Probes the resource hub's line. The pump goes through it if it opens, else
/// through the parent's.
fn probe_hub(io: &mut Session<Op>, peripheral_id: u64) -> (pump: PumpLine)
    ensures
        (final(io)@, pump) == probe_hub_run(old(io)@, peripheral_id),
{
    proof {
        reveal(probe_hub_run);
    }
    if io.flag(Op::LineOpen { line: Line::Hub, id: peripheral_id }) {
        let working = scan_variants(io, true);
        probe_candidates(io);
        io.mark("PumpBusOpen", 1);
        let variant: u8 = match working {
            Some(variant) => variant,
            None => 0,
        };
        PumpLine { line: Line::Hub, variant }
    } else {
        io.mark("Hub0", MISSING);
        io.mark("PumpBusOpen", 0);
        PumpLine { line: Line::Parent, variant: 0 }
    }
}

pub open spec fn probe_name_run(
    io: Io<Op>,
    mark: &'static str,
    name: &'static str,
    access: u32,
    share: u32,
) -> Io<Op> {
    let (io, status) = io.status(Op::NamedTarget { name, access, share });
    io.mark(mark, status_word(status))
}

/// Opens and closes a target by name, and publishes the status.
fn probe_name(
    io: &mut Session<Op>,
    mark: &'static str,
    name: &'static str,
    access: u32,
    share: u32,
)
    ensures
        final(io)@ == probe_name_run(old(io)@, mark, name, access, share),
{
    let status: i32 = io.status(Op::NamedTarget { name, access, share });
    io.mark(mark, status_word(status));
}

#[verifier::opaque]
pub open spec fn probe_spmi_names_run(io: Io<Op>) -> Io<Op> {
    let io = probe_name_run(io, "SpmiProbeSuperuser", SUPERUSER_NAME, FULL_ACCESS, 0);
    let io = probe_name_run(io, "SpmiProbeSpmi", "\\Device\\Spmi", FULL_ACCESS, 0);
    let io = probe_name_run(io, "SpmiProbeUpperName", "\\Device\\SPMI", FULL_ACCESS, 0);
    let io = probe_name_run(io, "SpmiProbeLowerName", "\\Device\\spmi", FULL_ACCESS, 0);
    let io = probe_name_run(io, "SpmiProbeArb", "\\Device\\SpmiArb", FULL_ACCESS, 0);
    let io = probe_name_run(io, "SpmiSuAcc0", SUPERUSER_NAME, 0x0000_0000, 0);
    let io = probe_name_run(io, "SpmiSuAcc1", SUPERUSER_NAME, 0x0000_0001, 0);
    let io = probe_name_run(io, "SpmiSuAcc2", SUPERUSER_NAME, 0x0000_0002, 0);
    let io = probe_name_run(io, "SpmiSuAcc3", SUPERUSER_NAME, 0x0000_0003, 0);
    let io = probe_name_run(io, "SpmiSuAcc4", SUPERUSER_NAME, 0x8000_0000, 0);
    let io = probe_name_run(io, "SpmiSuAcc5", SUPERUSER_NAME, 0x4000_0000, 0);
    let io = probe_name_run(io, "SpmiSuAcc6", SUPERUSER_NAME, 0xC000_0000, 0);
    probe_name_run(io, "SpmiSuAcc7", SUPERUSER_NAME, 0x0001_0000, 0)
}

/// Tries the names of the PMIC bus, and the superuser node with other accesses.
fn probe_spmi_names(io: &mut Session<Op>)
    ensures
        final(io)@ == probe_spmi_names_run(old(io)@),
{
    proof {
        reveal(probe_spmi_names_run);
    }
    probe_name(io, "SpmiProbeSuperuser", SUPERUSER_NAME, FULL_ACCESS, 0);
    probe_name(io, "SpmiProbeSpmi", "\\Device\\Spmi", FULL_ACCESS, 0);
    probe_name(io, "SpmiProbeUpperName", "\\Device\\SPMI", FULL_ACCESS, 0);
    probe_name(io, "SpmiProbeLowerName", "\\Device\\spmi", FULL_ACCESS, 0);
    probe_name(io, "SpmiProbeArb", "\\Device\\SpmiArb", FULL_ACCESS, 0);
    probe_name(io, "SpmiSuAcc0", SUPERUSER_NAME, 0x0000_0000, 0);
    probe_name(io, "SpmiSuAcc1", SUPERUSER_NAME, 0x0000_0001, 0);
    probe_name(io, "SpmiSuAcc2", SUPERUSER_NAME, 0x0000_0002, 0);
    probe_name(io, "SpmiSuAcc3", SUPERUSER_NAME, 0x0000_0003, 0);
    probe_name(io, "SpmiSuAcc4", SUPERUSER_NAME, 0x8000_0000, 0);
    probe_name(io, "SpmiSuAcc5", SUPERUSER_NAME, 0x4000_0000, 0);
    probe_name(io, "SpmiSuAcc6", SUPERUSER_NAME, 0xC000_0000, 0);
    probe_name(io, "SpmiSuAcc7", SUPERUSER_NAME, 0x0001_0000, 0);
}

#[verifier::opaque]
pub open spec fn probe_shared_names_run(io: Io<Op>) -> Io<Op> {
    let all = PROBE_SHARE_ALL;
    let io = probe_name_run(
        io,
        "PmicOpenQcompmic",
        "\\DosDevices\\Global\\QCOMPMIC",
        FULL_ACCESS,
        all,
    );
    let io = probe_name_run(
        io,
        "PmicOpenBattmgr",
        "\\DosDevices\\Global\\QCOMBATTMGR",
        FULL_ACCESS,
        all,
    );
    let io = probe_name_run(
        io,
        "PmicOpenPmictcc",
        "\\DosDevices\\Global\\QCOMPMICTCC",
        FULL_ACCESS,
        all,
    );
    let io = probe_name_run(
        io,
        "PmicOpenPmicapps",
        "\\DosDevices\\Global\\QCOMPMICAPPS",
        FULL_ACCESS,
        all,
    );
    let io = probe_name_run(
        io,
        "PmicOpenMiceic",
        "\\DosDevices\\Global\\QCOMPMICEIC",
        FULL_ACCESS,
        all,
    );
    let io = probe_name_run(
        io,
        "PmicOpenBattmini",
        "\\DosDevices\\Global\\QCBatteryMiniclass",
        FULL_ACCESS,
        all,
    );
    let io = probe_name_run(io, "AdcOpenQcomAdc", "\\??\\QCOM_ADC", FULL_ACCESS, all);
    let io = probe_name_run(io, "AdcOpenQcomAdc2", "\\??\\QCOM_ADC2", FULL_ACCESS, all);
    let io = probe_name_run(io, "AdcOpenQcomAdc3", "\\??\\QCOM_ADC3", FULL_ACCESS, all);
    let io = probe_name_run(io, "HubOpenBare", "\\Device\\RESOURCE_HUB", FULL_ACCESS, all);
    probe_name_run(io, "SpmiSuShare", SUPERUSER_NAME, FULL_ACCESS, all)
}

/// Tries the names of neighbouring drivers, sharing everything.
fn probe_shared_names(io: &mut Session<Op>)
    ensures
        final(io)@ == probe_shared_names_run(old(io)@),
{
    proof {
        reveal(probe_shared_names_run);
    }
    let all: u32 = PROBE_SHARE_ALL;
    probe_name(io, "PmicOpenQcompmic", "\\DosDevices\\Global\\QCOMPMIC", FULL_ACCESS, all);
    probe_name(io, "PmicOpenBattmgr", "\\DosDevices\\Global\\QCOMBATTMGR", FULL_ACCESS, all);
    probe_name(io, "PmicOpenPmictcc", "\\DosDevices\\Global\\QCOMPMICTCC", FULL_ACCESS, all);
    probe_name(io, "PmicOpenPmicapps", "\\DosDevices\\Global\\QCOMPMICAPPS", FULL_ACCESS, all);
    probe_name(io, "PmicOpenMiceic", "\\DosDevices\\Global\\QCOMPMICEIC", FULL_ACCESS, all);
    probe_name(
        io,
        "PmicOpenBattmini",
        "\\DosDevices\\Global\\QCBatteryMiniclass",
        FULL_ACCESS,
        all,
    );
    probe_name(io, "AdcOpenQcomAdc", "\\??\\QCOM_ADC", FULL_ACCESS, all);
    probe_name(io, "AdcOpenQcomAdc2", "\\??\\QCOM_ADC2", FULL_ACCESS, all);
    probe_name(io, "AdcOpenQcomAdc3", "\\??\\QCOM_ADC3", FULL_ACCESS, all);
    probe_name(io, "HubOpenBare", "\\Device\\RESOURCE_HUB", FULL_ACCESS, all);
    probe_name(io, "SpmiSuShare", SUPERUSER_NAME, FULL_ACCESS, all);
}

#[verifier::opaque]
pub open spec fn probe_apsd_run(io: Io<Op>) -> Io<Op> {
    let (io, apsd) = io.apsd(Op::ApsdProbe);
    io.mark("SuOpen", status_word(apsd.open_status))
        .mark("SuGrant", status_word(apsd.grant_status))
        .mark("SuApsdSt", status_word(apsd.read_status))
        .mark("SuApsdVal", apsd.value as u32)
}

/// Reads the APSD status once through the superuser node.
fn probe_apsd(io: &mut Session<Op>)
    ensures
        final(io)@ == probe_apsd_run(old(io)@),
{
    proof {
        reveal(probe_apsd_run);
    }
    let apsd = io.apsd(Op::ApsdProbe);
    io.mark("SuOpen", status_word(apsd.open_status));
    io.mark("SuGrant", status_word(apsd.grant_status));
    io.mark("SuApsdSt", status_word(apsd.read_status));
    io.mark("SuApsdVal", apsd.value as u32);
}

pub open spec fn probe_order_run(
    io: Io<Op>,
    big_endian: bool,
    status_name: &'static str,
    value_name: &'static str,
) -> Io<Op> {
    let (io, reply) = io.transfer(Op::UsbinTransfer { addr: REG_APSD_STATUS, big_endian });
    match reply.value {
        Some(value) => io.mark(status_name, 0).mark(value_name, value as u32),
        None => io.mark(status_name, status_word(reply.status)).mark(value_name, MISSING),
    }
}

/// Reads the APSD status through the hub in one byte order.
fn probe_order(
    io: &mut Session<Op>,
    big_endian: bool,
    status_name: &'static str,
    value_name: &'static str,
)
    ensures
        final(io)@ == probe_order_run(old(io)@, big_endian, status_name, value_name),
{
    let reply = io.transfer(Op::UsbinTransfer { addr: REG_APSD_STATUS, big_endian });
    match reply.value {
        Some(value) => {
            io.mark(status_name, 0);
            io.mark(value_name, value as u32);
        },
        None => {
            io.mark(status_name, status_word(reply.status));
            io.mark(value_name, MISSING);
        },
    }
}

#[verifier::opaque]
pub open spec fn probe_usbin_spmi_run(io: Io<Op>, usbin_id: Option<u64>) -> Io<Op> {
    match usbin_id {
        None => io.mark("UsbinOpen", MISSING),
        Some(id) => {
            let (io, opened) = io.flag(Op::UsbinOpen(id));
            if opened {
                let io = io.mark("UsbinOpen", 1);
                let io = probe_order_run(io, true, "UsbinBeSt", "UsbinBeVal");
                probe_order_run(io, false, "UsbinLeSt", "UsbinLeVal")
            } else {
                io.mark("UsbinOpen", 0)
            }
        },
    }
}

/// Reads the APSD status through the hub in both byte orders, if there is such a
/// connection.
pub fn probe_usbin_spmi(io: &mut Session<Op>, usbin_id: Option<u64>)
    ensures
        final(io)@ == probe_usbin_spmi_run(old(io)@, usbin_id),
{
    proof {
        reveal(probe_usbin_spmi_run);
    }
    match usbin_id {
        None => {
            io.mark("UsbinOpen", MISSING);
        },
        Some(id) => {
            if io.flag(Op::UsbinOpen(id)) {
                io.mark("UsbinOpen", 1);
                probe_order(io, true, "UsbinBeSt", "UsbinBeVal");
                probe_order(io, false, "UsbinLeSt", "UsbinLeVal");
            } else {
                io.mark("UsbinOpen", 0);
            }
        },
    }
}

#[verifier::opaque]
pub open spec fn probe_all_run(io: Io<Op>, peripheral_id: u64, usbin_id: Option<u64>) -> (
    Io<Op>,
    PumpLine,
) {
    let io = probe_line_run(probe_parent_run(io, peripheral_id));
    let (io, pump) = probe_hub_run(io, peripheral_id);
    let io = probe_spmi_names_run(io);
    let io = probe_shared_names_run(io);
    let io = probe_apsd_run(io);
    (probe_usbin_spmi_run(io, usbin_id), pump)
}

/// All probes. The result is the way to the pump.
fn probe_all(io: &mut Session<Op>, peripheral_id: u64, usbin_id: Option<u64>) -> (pump: PumpLine)
    ensures
        (final(io)@, pump) == probe_all_run(old(io)@, peripheral_id, usbin_id),
{
    proof {
        reveal(probe_all_run);
    }
    probe_parent(io, peripheral_id);
    probe_line(io);
    let pump = probe_hub(io, peripheral_id);
    probe_spmi_names(io);
    probe_shared_names(io);
    probe_apsd(io);
    probe_usbin_spmi(io, usbin_id);
    pump
}

// ---------------------------------------------------------------------------
// Connections
// ---------------------------------------------------------------------------
/// The connections that the driver uses.
#[derive(Debug, Clone, Copy, PartialEq, Eq, Structural)]
pub struct Ways {
    /// The pump's.
    pub peripheral_id: u64,
    /// The PMIC's.
    pub usbin_id: Option<u64>,
}

#[verifier::opaque]
pub open spec fn find_ways_run(io: Io<Op>) -> (Io<Op>, Option<Ways>) {
    let (io, found) = connections::collect_connections_run(io, 0, Seq::empty());
    let io = connections::mark_connections_run(io.mark("ConnCount", found.len() as u32), found);
    match connections::i2c_connection(found) {
        None => (io, None),
        Some(peripheral_id) => {
            let usbin_id = connections::usbin_connection(found, peripheral_id);
            (match usbin_id {
                Some(id) => io.mark("UsbinConn", 1).mark("UsbinLow", id_halves(id).0).mark(
                    "UsbinHigh",
                    id_halves(id).1,
                ),
                None => io.mark("UsbinConn", 0),
            }, Some(Ways { peripheral_id, usbin_id }))
        },
    }
}

/// Collects and publishes the connections and picks the pump's and the PMIC's.
fn find_ways(io: &mut Session<Op>) -> (ways: Option<Ways>)
    ensures
        (final(io)@, ways) == find_ways_run(old(io)@),
{
    proof {
        reveal(find_ways_run);
    }
    let found = collect_connections(io);
    io.mark("ConnCount", found.len() as u32);
    mark_connections(io, found.as_slice());
    match select_i2c_connection(found.as_slice()) {
        None => None,
        Some(peripheral_id) => {
            let usbin_id = select_usbin_connection(found.as_slice(), peripheral_id);
            match usbin_id {
                Some(id) => {
                    let halves: (u32, u32) = id_halves(id);
                    io.mark("UsbinConn", 1);
                    io.mark("UsbinLow", halves.0);
                    io.mark("UsbinHigh", halves.1);
                },
                None => {
                    io.mark("UsbinConn", 0);
                },
            }
            Some(Ways { peripheral_id, usbin_id })
        },
    }
}

// ---------------------------------------------------------------------------
// First battery reading
// ---------------------------------------------------------------------------
/// The readings that the battery starts from.
#[derive(Debug, Clone, Copy)]
pub struct FirstReadings {
    /// Cell (µV).
    pub vbat: i32,
    /// Input (µV).
    pub vbus: i32,
    /// Input current (µA).
    pub iin: i32,
    /// Whether the chip reports an unplug.
    pub vac_unplug: bool,
    /// Whether the readings are usable.
    pub usable: bool,
}

#[verifier::opaque]
pub open spec fn read_first_run(io: Io<Op>) -> (Io<Op>, FirstReadings) {
    let (io, vbat) = io.reading(Op::PumpAdc(AdcChannel::Vbat));
    let (io, vbus) = io.reading(Op::PumpAdc(AdcChannel::Vin));
    let (io, iin) = io.reading(Op::PumpAdc(AdcChannel::Iin));
    let (io, fault1) = io.register(Op::PumpFault1);
    (
        io,
        FirstReadings {
            vbat: reading_or(vbat, 0),
            vbus: reading_or(vbus, 0),
            iin: reading_or(iin, 0),
            vac_unplug: fault1 matches Ok(f) && f & FAULT1_VAC_UNPLUG != 0,
            usable: vbat is Some && vbus is Some && reading_or(vbat, 0) > 0 && reading_or(vbus, 0)
                > 0,
        },
    )
}

/// Takes the readings once.
fn read_first(io: &mut Session<Op>) -> (r: FirstReadings)
    ensures
        (final(io)@, r) == read_first_run(old(io)@),
{
    proof {
        reveal(read_first_run);
    }
    let vbat = io.reading(Op::PumpAdc(AdcChannel::Vbat));
    let vbus = io.reading(Op::PumpAdc(AdcChannel::Vin));
    let iin = io.reading(Op::PumpAdc(AdcChannel::Iin));
    let vac_unplug = match io.register(Op::PumpFault1) {
        Ok(f) => f & FAULT1_VAC_UNPLUG != 0,
        Err(_) => false,
    };
    FirstReadings {
        vbat: reading_or(vbat, 0),
        vbus: reading_or(vbus, 0),
        iin: reading_or(iin, 0),
        vac_unplug,
        usable: vbat.is_some() && vbus.is_some() && reading_or(vbat, 0) > 0 && reading_or(vbus, 0)
            > 0,
    }
}

#[verifier::opaque]
pub open spec fn first_readings_run(io: Io<Op>) -> (Io<Op>, FirstReadings) {
    let (io, once) = read_first_run(io);
    if once.vbat > 0 {
        (io, once)
    } else {
        let (io, twice) = read_first_run(io);
        if twice.vbat > 0 {
            (io, twice)
        } else {
            read_first_run(io)
        }
    }
}

/// Takes the readings, up to three times until the cell answers.
fn first_readings(io: &mut Session<Op>) -> (r: FirstReadings)
    ensures
        (final(io)@, r) == first_readings_run(old(io)@),
{
    proof {
        reveal(first_readings_run);
    }
    let once = read_first(io);
    if once.vbat > 0 {
        return once;
    }
    let twice = read_first(io);
    if twice.vbat > 0 {
        return twice;
    }
    read_first(io)
}

#[verifier::opaque]
pub open spec fn prime_battery_run(io: Io<Op>, battery: Battery, peak_ua: u32, tuning: Tuning) -> (
    Io<Op>,
    Battery,
) {
    let (io, first) = first_readings_run(io);
    let (io, now_ms) = io.millis(Op::Now);
    let (io, battery) = battery::update_from_telemetry_run(
        io,
        battery,
        Readings {
            vbat_uv: nonneg(first.vbat),
            vbus_uv: nonneg(first.vbus),
            iin_ua: nonneg(first.iin),
            iin_peak_ua: larger(peak_ua, nonneg(first.iin)),
            vac_unplug: first.vac_unplug,
            usable: first.usable,
            soc_rising: battery.soc_rising,
            now_ms,
        },
        tuning,
    );
    (
        io.mark("BattPct", battery.last_pct)
            .mark("BattVbat", nonneg(first.vbat) / 1000)
            .mark("BattPwr", battery.last_power_state),
        battery,
    )
}

/// Gives the battery its first readings and publishes it.
fn prime_battery(io: &mut Session<Op>, battery: &mut Battery, peak_ua: u32, tuning: &Tuning)
    ensures
        (final(io)@, *final(battery)) == prime_battery_run(
            old(io)@,
            *old(battery),
            peak_ua,
            *tuning,
        ),
        old(battery).valid() ==> final(battery).valid(),
{
    proof {
        reveal(prime_battery_run);
    }
    let first = first_readings(io);
    let now_ms: u64 = io.millis(Op::Now);
    let readings = Readings {
        vbat_uv: nonneg(first.vbat),
        vbus_uv: nonneg(first.vbus),
        iin_ua: nonneg(first.iin),
        iin_peak_ua: larger(peak_ua, nonneg(first.iin)),
        vac_unplug: first.vac_unplug,
        usable: first.usable,
        soc_rising: battery::soc_rising(battery),
        now_ms,
    };
    proof {
        if battery.valid() {
            battery::law_tick_publishes_the_state(io@, *battery, readings, *tuning);
        }
    }
    update_from_telemetry(io, battery, &readings, tuning);
    io.mark("BattPct", last_percent(battery));
    io.mark("BattVbat", nonneg(first.vbat) / 1000);
    io.mark("BattPwr", last_power_state(battery));
}

// ---------------------------------------------------------------------------
// Into service
// ---------------------------------------------------------------------------
#[verifier::opaque]
pub open spec fn start_battery_run(io: Io<Op>, battery: Battery, peak_ua: u32, tuning: Tuning) -> (
    Io<Op>,
    Battery,
) {
    let (io, battery, status) = battery::initialize_run(io, battery);
    if status >= 0 {
        prime_battery_run(io, battery, peak_ua, tuning)
    } else {
        (io, battery)
    }
}

/// Attaches the battery and, if that succeeds, gives it its first readings.
fn start_battery(io: &mut Session<Op>, battery: &mut Battery, peak_ua: u32, tuning: &Tuning)
    ensures
        (final(io)@, *final(battery)) == start_battery_run(
            old(io)@,
            *old(battery),
            peak_ua,
            *tuning,
        ),
        old(battery).valid() ==> final(battery).valid(),
{
    proof {
        reveal(start_battery_run);
    }
    if initialize(io, battery) >= 0 {
        prime_battery(io, battery, peak_ua, tuning);
    }
}

#[verifier::opaque]
pub open spec fn hold_power_run(io: Io<Op>, held: bool) -> (Io<Op>, bool) {
    let (io, held, status) = sysreq::acquire_run(io, held);
    (
        io.mark("SysReqSt", status_word(status)).mark("SysReqOk", flag_word(status >= 0)),
        held,
    )
}

/// Acquires the power request and publishes how that went.
fn hold_power(io: &mut Session<Op>, held: &mut bool)
    ensures
        (final(io)@, *final(held)) == hold_power_run(old(io)@, *old(held)),
{
    proof {
        reveal(hold_power_run);
    }
    let status: i32 = acquire(io, held);
    io.mark("SysReqSt", status_word(status));
    io.mark("SysReqOk", flag_word(status >= 0));
}

#[verifier::opaque]
pub open spec fn start_service_run(
    io: Io<Op>,
    state: DriverState,
    params: DriverParams,
    tuning: Tuning,
) -> (Io<Op>, DriverState, i32) {
    let state = DriverState {
        pump_open: true,
        telemetry_ms: params.telemetry_ms,
        fcc: FccPolicy { cfg_raw: params.fcc_raw, ..state.fcc },
        ..state
    };
    let (io, state) = landing::try_autostart_hvdcp_run(
        io.mark("PumpOpen", 1).tell(Op::LimitsCommit),
        state,
        tuning,
    );
    let (io, battery) = start_battery_run(io, state.battery, state.iin.max_ua, tuning);
    let (io, power_held) = hold_power_run(io, state.power_held);
    let io = landing::arm_telemetry_timer_run(io, state.timer_ready, state.telemetry_ms);
    (
        mark_stage_run(io.tell(Op::GaugeArm(true)), STAGE_READY, 0),
        DriverState { battery, power_held, ..state },
        STATUS_SUCCESS,
    )
}

/// Takes a configured chip into service: first negotiation, battery, power
/// request, telemetry.
fn start_service(
    io: &mut Session<Op>,
    state: &mut DriverState,
    params: &DriverParams,
    tuning: &Tuning,
) -> (status: i32)
    requires
        tuning.valid(),
    ensures
        (final(io)@, *final(state), status) == start_service_run(
            old(io)@,
            *old(state),
            *params,
            *tuning,
        ),
        old(state).valid() ==> final(state).valid(),
{
    proof {
        reveal(start_service_run);
    }
    io.mark("PumpOpen", 1);
    state.pump_open = true;
    state.telemetry_ms = params.telemetry_ms;
    state.fcc.cfg_raw = params.fcc_raw;
    io.tell(Op::LimitsCommit);
    try_autostart_hvdcp(io, state, tuning);
    start_battery(io, &mut state.battery, state.iin.max_ua, tuning);
    hold_power(io, &mut state.power_held);
    arm_telemetry_timer(io, state.timer_ready, state.telemetry_ms);
    io.tell(Op::GaugeArm(true));
    mark_stage(io, STAGE_READY, 0);
    STATUS_SUCCESS
}

/// A state with another last error.
pub open spec fn with_error(state: DriverState, code: i32) -> DriverState {
    DriverState { charge: ChargeLoop { last_error: code, ..state.charge }, ..state }
}

#[verifier::opaque]
pub open spec fn open_chip_run(
    io: Io<Op>,
    state: DriverState,
    pump: PumpLine,
    params: DriverParams,
    tuning: Tuning,
) -> (Io<Op>, DriverState, i32) {
    let (io, opened) = io.mark("PumpVariant", pump.variant as u32).effect(
        Op::PumpOpen { line: pump.line, variant: pump.variant },
    );
    if opened is Err {
        (
            mark_stage_run(
                io.mark("PumpOpen", 0).mark("PumpFailStatus", 0xC000_0001),
                STAGE_PREPARE_CHIP,
                STATUS_UNSUCCESSFUL,
            ),
            with_error(state, (-2) as i32),
            STATUS_SUCCESS,
        )
    } else {
        let (io, configured) = io.effect(Op::PumpConfigure);
        if configured is Err {
            (
                mark_stage_run(io, STAGE_PREPARE_CONFIG, 0),
                with_error(state, (-3) as i32),
                STATUS_DEVICE_NOT_READY,
            )
        } else {
            start_service_run(io.tell(Op::PumpStandby), state, params, tuning)
        }
    }
}

/// Opens and configures the chip. A chip that does not answer leaves the device
/// in place without a pump.
fn open_chip(
    io: &mut Session<Op>,
    state: &mut DriverState,
    pump: &PumpLine,
    params: &DriverParams,
    tuning: &Tuning,
) -> (status: i32)
    requires
        tuning.valid(),
    ensures
        (final(io)@, *final(state), status) == open_chip_run(
            old(io)@,
            *old(state),
            *pump,
            *params,
            *tuning,
        ),
        old(state).valid() ==> final(state).valid(),
{
    proof {
        reveal(open_chip_run);
    }
    io.mark("PumpVariant", pump.variant as u32);
    if io.effect(Op::PumpOpen { line: pump.line, variant: pump.variant }).is_err() {
        state.charge.last_error = -2;
        io.mark("PumpOpen", 0);
        io.mark("PumpFailStatus", 0xC000_0001);
        mark_stage(io, STAGE_PREPARE_CHIP, STATUS_UNSUCCESSFUL);
        return STATUS_SUCCESS;
    }
    if io.effect(Op::PumpConfigure).is_err() {
        state.charge.last_error = -3;
        mark_stage(io, STAGE_PREPARE_CONFIG, 0);
        return STATUS_DEVICE_NOT_READY;
    }
    io.tell(Op::PumpStandby);
    start_service(io, state, params, tuning)
}

#[verifier::opaque]
pub open spec fn evt_prepare_hardware_run(io: Io<Op>, state: DriverState, tuning: Tuning) -> (
    Io<Op>,
    DriverState,
    i32,
) {
    let (io, ways) = find_ways_run(mark_stage_run(io, STAGE_PREPARE, 0));
    match ways {
        None => (
            mark_stage_run(io, STAGE_PREPARE_BUS, STATUS_DEVICE_NOT_READY),
            state,
            STATUS_DEVICE_NOT_READY,
        ),
        Some(ways) => {
            let (io, opened) = io.flag(
                Op::LineOpen { line: Line::Parent, id: ways.peripheral_id },
            );
            if !opened {
                (
                    mark_stage_run(io, STAGE_PREPARE_BUS, STATUS_DEVICE_NOT_READY),
                    with_error(state, (-1) as i32),
                    STATUS_DEVICE_NOT_READY,
                )
            } else {
                let (io, params) = params::read_parameters_run(io);
                let (io, pump) = probe_all_run(io, ways.peripheral_id, ways.usbin_id);
                open_chip_run(
                    io,
                    DriverState { usbin_id: ways.usbin_id, ..state },
                    pump,
                    params,
                    tuning,
                )
            }
        },
    }
}

/// Finds the connections, reads the parameters, probes every way to the chip and
/// takes it into service.
pub fn evt_prepare_hardware(io: &mut Session<Op>, state: &mut DriverState, tuning: &Tuning) -> (status: i32)
    requires
        tuning.valid(),
    ensures
        (final(io)@, *final(state), status) == evt_prepare_hardware_run(
            old(io)@,
            *old(state),
            *tuning,
        ),
        old(state).valid() ==> final(state).valid(),
{
    proof {
        reveal(evt_prepare_hardware_run);
    }
    mark_stage(io, STAGE_PREPARE, 0);
    match find_ways(io) {
        None => {
            mark_stage(io, STAGE_PREPARE_BUS, STATUS_DEVICE_NOT_READY);
            STATUS_DEVICE_NOT_READY
        },
        Some(ways) => {
            if !io.flag(Op::LineOpen { line: Line::Parent, id: ways.peripheral_id }) {
                state.charge.last_error = -1;
                mark_stage(io, STAGE_PREPARE_BUS, STATUS_DEVICE_NOT_READY);
                return STATUS_DEVICE_NOT_READY;
            }
            let params = read_parameters(io);
            let pump = probe_all(io, ways.peripheral_id, ways.usbin_id);
            state.usbin_id = ways.usbin_id;
            open_chip(io, state, &pump, &params, tuning)
        },
    }
}

// ---------------------------------------------------------------------------
// Out of service
// ---------------------------------------------------------------------------
#[verifier::opaque]
pub open spec fn evt_release_hardware_run(io: Io<Op>, state: DriverState) -> (
    Io<Op>,
    DriverState,
) {
    let io = io.tell(Op::GaugeArm(false));
    let io = if state.timer_ready {
        io.tell(Op::TimerStop)
    } else {
        io
    };
    let (io, battery) = battery::unload_run(io, state.battery);
    let (io, power_held) = sysreq::release_run(io, state.power_held);
    let io = if state.pump_open {
        io.tell(Op::PumpStandby).tell(Op::PumpClose)
    } else {
        io
    };
    (
        io.tell(Op::DropDevice),
        DriverState {
            battery,
            power_held,
            pump_open: false,
            device_ready: false,
            retry: RetrySlot { pending: false, ..state.retry },
            edge: InputEdge { armed: false, last_present: false },
            ..state
        },
    )
}

/// Stops telemetry and puts the hardware into a safe state.
pub fn evt_release_hardware(io: &mut Session<Op>, state: &mut DriverState) -> (status: i32)
    ensures
        (final(io)@, *final(state)) == evt_release_hardware_run(old(io)@, *old(state)),
        status == STATUS_SUCCESS,
        old(state).valid() ==> final(state).valid(),
{
    proof {
        reveal(evt_release_hardware_run);
    }
    io.tell(Op::GaugeArm(false));
    if state.timer_ready {
        io.tell(Op::TimerStop);
    }
    unload(io, &mut state.battery);
    release(io, &mut state.power_held);
    if state.pump_open {
        io.tell(Op::PumpStandby);
        io.tell(Op::PumpClose);
    }
    state.pump_open = false;
    state.retry.pending = false;
    state.edge.armed = false;
    state.edge.last_present = false;
    io.tell(Op::DropDevice);
    state.device_ready = false;
    STATUS_SUCCESS
}

/// Whatever was taken into service is out of it after a release: no pump, no
/// device, no battery class, no power request, nothing scheduled.
pub proof fn law_release_ends_service(io: Io<Op>, state: DriverState)
    requires
        state.valid(),
    ensures
        ({
            let (_, after) = evt_release_hardware_run(io, state);
            &&& !after.pump_open && !after.device_ready && !after.power_held
            &&& !after.battery.attached && !after.battery.wmi_registered
            &&& !after.retry.pending && !after.edge.armed && !after.edge.last_present
        }),
{
    reveal(evt_release_hardware_run);
}

// ---------------------------------------------------------------------------
// Laws of what is taken into service
// ---------------------------------------------------------------------------
/// The value that a transfer brought.
pub open spec fn value_of(reply: Reply) -> Option<u8> {
    match reply {
        Reply::Transfer(reply) => reply.value,
        _ => None,
    }
}

/// Every variant is tried, and the one that works is the first that answers with the
/// identification of the chip.
pub proof fn law_first_working_variant_is_kept(
    io: Io<Op>,
    hub: bool,
    variant: u8,
    working: Option<u8>,
)
    requires
        io.pending is None,
        variant <= VARIANTS,
        scan_variants_run(io, hub, variant, working).0.pending is None,
    ensures
        ({
            let (after, r) = scan_variants_run(io, hub, variant, working);
            let n = VARIANTS - variant;
            let works = |k: int| value_of(trace::answer(io, k)) == Some(0x42u8);
            &&& trace::follows(io, after)
            &&& trace::asked(io, after).len() == n
            &&& forall|k: int|
                #![trigger trace::asked(io, after)[k]]
                0 <= k < n ==> trace::asked(io, after)[k] == (Op::LineTransfer {
                    line: if hub {
                        Line::Hub
                    } else {
                        Line::Parent
                    },
                    variant: (variant + k) as u8,
                    register: 0,
                })
            &&& working is Some ==> r == working
            &&& working is None ==> match r {
                Some(v) => variant <= v < VARIANTS && works(v - variant) && (forall|k: int|
                    #![trigger trace::answer(io, k)]
                    0 <= k < v - variant ==> !works(k)),
                None => forall|k: int|
                    #![trigger trace::answer(io, k)]
                    0 <= k < n ==> !works(k),
            }
        }),
    decreases VARIANTS - variant,
{
    broadcast use trace::group_trace;

    trace::lemma_asked_nothing(io);
    trace::lemma_follows_at_first(io);
    if variant < VARIANTS {
        let (next, found) = try_variant_run(io, hub, variant);
        let kept = if found && working is None {
            Some(variant)
        } else {
            working
        };
        let (after, r) = scan_variants_run(next, hub, (variant + 1) as u8, kept);
        assert(trace::follows(io, next));
        lemma_scan_follows(next, hub, (variant + 1) as u8, kept);
        trace::lemma_finished_before(next, after);
        law_first_working_variant_is_kept(next, hub, (variant + 1) as u8, kept);
        trace::lemma_honest_after(io, next);
        trace::lemma_follows_in_turn(io, next, after);
        trace::lemma_asked_in_turn(io, next, after);
        let first = trace::asked(io, next);
        let rest = trace::asked(next, after);
        let all = trace::asked(io, after);
        assert(first.len() == 1);
        assert forall|k: int|
            #![trigger all[k]]
            0 <= k < VARIANTS - variant implies all[k] == (Op::LineTransfer {
            line: if hub {
                Line::Hub
            } else {
                Line::Parent
            },
            variant: (variant + k) as u8,
            register: 0,
        }) by {
            if k > 0 {
                assert(all[k] == rest[k - 1]);
                assert(((variant + 1) as u8 + (k - 1)) as u8 == (variant + k) as u8);
            }
        }
        assert forall|k: int| 0 < k < VARIANTS - variant implies #[trigger] trace::answer(io, k)
            == trace::answer(next, k - 1) by {}
        if working is None && !found {
            match r {
                Some(v) => {
                    assert(trace::answer(io, v - variant) == trace::answer(
                        next,
                        v - (variant + 1) as u8,
                    ));
                    assert forall|k: int|
                        #![trigger trace::answer(io, k)]
                        0 <= k < v - variant implies value_of(trace::answer(io, k)) != Some(
                        0x42u8,
                    ) by {
                        if k > 0 {
                            assert(trace::answer(io, k) == trace::answer(next, k - 1));
                        }
                    }
                },
                None => {
                    assert forall|k: int|
                        #![trigger trace::answer(io, k)]
                        0 <= k < VARIANTS - variant implies value_of(trace::answer(io, k)) != Some(
                        0x42u8,
                    ) by {
                        if k > 0 {
                            assert(trace::answer(io, k) == trace::answer(next, k - 1));
                        }
                    }
                },
            }
        }
    }
}

proof fn lemma_scan_follows(io: Io<Op>, hub: bool, variant: u8, working: Option<u8>)
    ensures
        trace::follows(io, scan_variants_run(io, hub, variant, working).0),
{
    broadcast use off_tick::lemma_scan_variants_obeys;

    let after = scan_variants_run(io, hub, variant, working).0;
    writes::lemma_obeys_at_first(io, Rule::Free);
    assert(writes::obeys(io, after, Rule::Free));
    writes::lemma_obeys_follows(io, after, Rule::Free);
}

/// The pump is reached over the hub where that opens, with the first variant that works
/// there or the plain one, and over the parent where not.
pub proof fn law_pump_is_reached_over_the_hub(io: Io<Op>, peripheral_id: u64)
    requires
        io.pending is None,
        io.next < io.replies.len(),
    ensures
        ({
            let (after, pump) = probe_hub_run(io, peripheral_id);
            let opened = trace::yes(trace::answer(io, 0));
            let start = io.tell(Op::LineOpen { line: Line::Hub, id: peripheral_id });
            &&& !opened ==> pump.line == Line::Parent && pump.variant == 0 && trace::asked(io, after)
                == seq![Op::LineOpen { line: Line::Hub, id: peripheral_id }]
            &&& opened ==> pump.line == Line::Hub && pump.variant == match scan_variants_run(
                start,
                true,
                0,
                None,
            ).1 {
                Some(variant) => variant,
                None => 0,
            }
        }),
{
    broadcast use trace::group_trace;

    reveal(probe_hub_run);
    trace::lemma_asked_nothing(io);
}

/// The first readings are the cell, the input, its current and the unplug bit of the
/// chip, and they count as evidence where both voltages were read and are positive.
pub proof fn law_first_readings_are_what_was_read(io: Io<Op>)
    requires
        io.pending is None,
        read_first_run(io).0.pending is None,
    ensures
        ({
            let (after, first) = read_first_run(io);
            let vbat = landing::reading_of(trace::answer(io, 0));
            let vbus = landing::reading_of(trace::answer(io, 1));
            let iin = landing::reading_of(trace::answer(io, 2));
            &&& trace::follows(io, after)
            &&& trace::asked(io, after) == seq![
                Op::PumpAdc(AdcChannel::Vbat),
                Op::PumpAdc(AdcChannel::Vin),
                Op::PumpAdc(AdcChannel::Iin),
                Op::PumpFault1,
            ]
            &&& first.vbat == reading_or(vbat, 0) && first.vbus == reading_or(vbus, 0)
                && first.iin == reading_or(iin, 0)
            &&& first.vac_unplug <==> (trace::answer(io, 3) matches Reply::Register(Ok(fault))
                && fault & 0x10 != 0)
            &&& first.usable <==> vbat is Some && vbat->0 > 0 && vbus is Some && vbus->0 > 0
        }),
{
    broadcast use trace::group_trace;

    reveal(read_first_run);
    trace::lemma_asked_nothing(io);
    trace::lemma_follows_at_first(io);
}

/// The first readings are made again, twice at most, while they show no cell.
pub proof fn law_first_readings_wait_for_the_cell(io: Io<Op>)
    requires
        io.pending is None,
        first_readings_run(io).0.pending is None,
    ensures
        ({
            let (after, first) = first_readings_run(io);
            let n = after.next - io.next;
            let cell = |k: int| reading_or(landing::reading_of(trace::answer(io, k)), 0);
            &&& cell(0) > 0 ==> n == 4 && first.vbat == cell(0)
            &&& cell(0) <= 0 && cell(4) > 0 ==> n == 8 && first.vbat == cell(4)
            &&& cell(0) <= 0 && cell(4) <= 0 ==> n == 12 && first.vbat == cell(8)
        }),
{
    reveal(first_readings_run);
    reveal(read_first_run);
}

/// The battery class is joined first, and where that succeeds the battery is fed with
/// the first readings.
pub proof fn law_battery_is_started(io: Io<Op>, battery: Battery, peak_ua: u32, tuning: Tuning)
    ensures
        ({
            let (after, left) = start_battery_run(io, battery, peak_ua, tuning);
            let (joined, held, status) = battery::initialize_run(io, battery);
            let (read, first) = first_readings_run(joined);
            let (timed, now_ms) = read.millis(Op::Now);
            &&& status < 0 ==> after == joined && left == held
            &&& status >= 0 ==> left == battery::update_from_telemetry_run(
                timed,
                held,
                Readings {
                    vbat_uv: nonneg(first.vbat),
                    vbus_uv: nonneg(first.vbus),
                    iin_ua: nonneg(first.iin),
                    iin_peak_ua: if peak_ua >= nonneg(first.iin) {
                        peak_ua
                    } else {
                        nonneg(first.iin)
                    },
                    vac_unplug: first.vac_unplug,
                    usable: first.usable,
                    soc_rising: held.soc_rising,
                    now_ms,
                },
                tuning,
            ).1
        }),
{
    reveal(start_battery_run);
    reveal(prime_battery_run);
}

/// A configured chip is taken into service: the limits are committed first, then the
/// adapter is negotiated with, and the gauge is armed last. The state holds the pump,
/// the period and the charge current setting.
pub proof fn law_service_is_started(
    io: Io<Op>,
    state: DriverState,
    params: DriverParams,
    tuning: Tuning,
)
    requires
        trace::honest(io),
        io.pending is None,
        start_service_run(io, state, params, tuning).0.pending is None,
    ensures
        ({
            let (after, left, status) = start_service_run(io, state, params, tuning);
            let asked = trace::asked(io, after);
            &&& trace::follows(io, after)
            &&& status == 0
            &&& asked.len() > 2 && asked[0] == Op::LimitsCommit
            &&& asked[1] == Op::PumpAdc(AdcChannel::Vbat) && asked[2] == Op::SuOpen
            &&& asked.last() == Op::GaugeArm(true)
            &&& left.pump_open && left.telemetry_ms == params.telemetry_ms && left.fcc.cfg_raw
                == params.fcc_raw
            &&& left.edge.armed
            &&& state.timer_ready ==> asked[asked.len() - 2] == Op::TimerStart(
                if params.telemetry_ms < 100 {
                    100
                } else {
                    params.telemetry_ms
                },
            )
        }),
{
    reveal(start_service_run);
    let (after, left, status) = start_service_run(io, state, params, tuning);
    let open = DriverState {
        pump_open: true,
        telemetry_ms: params.telemetry_ms,
        fcc: FccPolicy { cfg_raw: params.fcc_raw, ..state.fcc },
        ..state
    };
    let committed = io.mark("PumpOpen", 1).tell(Op::LimitsCommit);
    let auto = committed.mark("HvdcpAuto", 1);
    let (landed, there, code) = landing::negotiate_and_rearm_run(auto, open, true, tuning);
    let (based, battery) = start_battery_run(landed, there.battery, there.iin.max_ua, tuning);
    let (held, power) = hold_power_run(based, there.power_held);
    let timed = landing::arm_telemetry_timer_run(held, there.timer_ready, there.telemetry_ms);
    let armed = timed.tell(Op::GaugeArm(true));
    lemma_service_follows(landed, there, tuning);
    landing::lemma_negotiation_follows(auto, open, true, tuning);
    assert(trace::follows(io, auto) && trace::follows(held, timed) && trace::follows(timed, armed)
        && trace::follows(armed, after)) by {
        broadcast use {trace::lemma_ask_follows, trace::lemma_record_follows};

        trace::lemma_follows_at_first(io);
        trace::lemma_follows_at_first(held);
        trace::lemma_follows_at_first(timed);
        trace::lemma_follows_at_first(armed);
    }
    trace::lemma_finished_before(armed, after);
    trace::lemma_finished_before(timed, armed);
    trace::lemma_finished_before(held, timed);
    trace::lemma_finished_before(based, held);
    trace::lemma_finished_before(landed, based);
    trace::lemma_finished_before(auto, landed);
    trace::lemma_honest_after(io, auto);
    landing::law_negotiation_is_landed(auto, open, true, tuning);
    trace::lemma_follows_in_turn(io, auto, landed);
    trace::lemma_follows_in_turn(io, landed, based);
    trace::lemma_follows_in_turn(io, based, held);
    trace::lemma_follows_in_turn(io, held, timed);
    trace::lemma_follows_in_turn(io, timed, armed);
    trace::lemma_follows_in_turn(io, armed, after);
    trace::lemma_follows_in_turn(landed, based, held);
    trace::lemma_follows_in_turn(landed, held, timed);
    trace::lemma_follows_in_turn(landed, timed, armed);
    trace::lemma_follows_in_turn(landed, armed, after);
    trace::lemma_asked_in_turn(io, auto, landed);
    trace::lemma_asked_grows(io, landed, after);
    trace::lemma_honest_after(io, held);
    trace::lemma_honest_after(io, timed);
    assert(trace::asked(io, auto) =~= seq![Op::LimitsCommit]) by {
        broadcast use {trace::lemma_asked_ask, trace::lemma_asked_record};

        trace::lemma_asked_nothing(io);
    }
    assert(trace::asked(io, after) == trace::asked(io, timed).push(Op::GaugeArm(true))) by {
        broadcast use {trace::lemma_asked_ask, trace::lemma_asked_record};

    }
    assert(there.timer_ready ==> trace::asked(io, timed).len() > 0 && trace::asked(io, timed).last()
        == Op::TimerStart(
        if params.telemetry_ms < 100 {
            100
        } else {
            params.telemetry_ms
        },
    )) by {
        broadcast use {trace::lemma_asked_ask, trace::lemma_asked_record};

    }
}

proof fn lemma_service_follows(io: Io<Op>, state: DriverState, tuning: Tuning)
    ensures
        ({
            let (based, battery) = start_battery_run(io, state.battery, state.iin.max_ua, tuning);
            &&& trace::follows(io, based)
            &&& trace::follows(based, hold_power_run(based, state.power_held).0)
        }),
{
    broadcast use {
        writes::group_obeys,
        off_tick::lemma_prime_battery_obeys,
        trace::lemma_ask_follows,
        trace::lemma_record_follows,
    };

    let (based, battery) = start_battery_run(io, state.battery, state.iin.max_ua, tuning);
    let held = hold_power_run(based, state.power_held).0;
    reveal(start_battery_run);
    reveal(hold_power_run);
    writes::lemma_obeys_at_first(io, Rule::Free);
    assert(writes::obeys(io, based, Rule::Free));
    writes::lemma_obeys_follows(io, based, Rule::Free);
    trace::lemma_follows_at_first(based);
    assert(trace::follows(based, held));
}

/// A chip that does not open, or that cannot be configured, is not taken into service;
/// the state keeps a code for each. One that can is idled first.
pub proof fn law_chip_is_opened(
    io: Io<Op>,
    state: DriverState,
    pump: PumpLine,
    params: DriverParams,
    tuning: Tuning,
)
    requires
        trace::honest(io),
        io.pending is None,
        open_chip_run(io, state, pump, params, tuning).0.pending is None,
    ensures
        ({
            let (after, left, status) = open_chip_run(io, state, pump, params, tuning);
            let asked = trace::asked(io, after);
            let open = Op::PumpOpen { line: pump.line, variant: pump.variant };
            let opened = trace::done(trace::answer(io, 0));
            let configured = opened && trace::done(trace::answer(io, 1));
            &&& !opened ==> asked == seq![open] && status == 0 && left == (DriverState {
                charge: ChargeLoop { last_error: (-2) as i32, ..state.charge },
                ..state
            })
            &&& opened && !configured ==> asked == seq![open, Op::PumpConfigure] && status
                == -1073741661 && left == (DriverState {
                charge: ChargeLoop { last_error: (-3) as i32, ..state.charge },
                ..state
            })
            &&& configured ==> {
                &&& asked.len() > 5 && asked[0] == open && asked[1] == Op::PumpConfigure
                &&& asked[2] == Op::PumpStandby && asked[3] == Op::LimitsCommit
                &&& asked.last() == Op::GaugeArm(true)
                &&& status == 0 && left.pump_open && left.telemetry_ms == params.telemetry_ms
            }
        }),
{
    broadcast use trace::group_trace;

    reveal(open_chip_run);
    trace::lemma_asked_nothing(io);
    trace::lemma_follows_at_first(io);
    let after = open_chip_run(io, state, pump, params, tuning).0;
    let (at, opened) = io.mark("PumpVariant", pump.variant as u32).effect(
        Op::PumpOpen { line: pump.line, variant: pump.variant },
    );
    let (set, configured) = at.effect(Op::PumpConfigure);
    let start = set.tell(Op::PumpStandby);
    if opened is Ok && configured is Ok {
        assert(trace::follows(io, start));
        trace::lemma_honest_after(io, start);
        lemma_started_service_follows(start, state, params, tuning);
        trace::lemma_finished_before(start, after);
        law_service_is_started(start, state, params, tuning);
        trace::lemma_asked_in_turn(io, start, after);
    }
}

proof fn lemma_started_service_follows(
    io: Io<Op>,
    state: DriverState,
    params: DriverParams,
    tuning: Tuning,
)
    ensures
        trace::follows(io, start_service_run(io, state, params, tuning).0),
{
    broadcast use off_tick::lemma_start_service_obeys;

    let after = start_service_run(io, state, params, tuning).0;
    writes::lemma_obeys_at_first(io, Rule::Free);
    assert(writes::obeys(io, after, Rule::Free));
    writes::lemma_obeys_follows(io, after, Rule::Free);
}

/// A release disarms the gauge first and drops the device last. In between the timer is
/// stopped where there is one, the battery class is left, the power request is returned,
/// and a pump is idled and closed.
pub proof fn law_release_turns_everything_off(io: Io<Op>, state: DriverState)
    requires
        io.pending is None,
        state.valid(),
        evt_release_hardware_run(io, state).0.pending is None,
    ensures
        ({
            let (after, left) = evt_release_hardware_run(io, state);
            let none = Seq::<Op>::empty();
            let timer = if state.timer_ready {
                seq![Op::TimerStop]
            } else {
                none
            };
            let class = if state.battery.wmi_registered {
                seq![Op::WmiDeregister, Op::BatteryDetach]
            } else if state.battery.attached {
                seq![Op::BatteryDetach]
            } else {
                none
            };
            let power = if state.power_held {
                seq![Op::PowerRequestClear, Op::PowerRequestDelete]
            } else {
                none
            };
            let chip = if state.pump_open {
                seq![Op::PumpStandby, Op::PumpClose]
            } else {
                none
            };
            trace::asked(io, after) == seq![Op::GaugeArm(false)] + timer + class + power + chip
                + seq![Op::DropDevice]
        }),
{
    broadcast use trace::group_trace;

    reveal(evt_release_hardware_run);
    trace::lemma_asked_nothing(io);
}

/// Without a way to the pump, or where its line does not open, the hardware is not ready
/// and nothing more is asked; the second leaves a code.
pub proof fn law_hardware_needs_a_way(io: Io<Op>, state: DriverState, tuning: Tuning)
    ensures
        ({
            let (after, left, status) = evt_prepare_hardware_run(io, state, tuning);
            let (found, ways) = find_ways_run(
                io.mark("AddStage", 30).mark("AddStatus", 0),
            );
            let open = Op::LineOpen { line: Line::Parent, id: ways->0.peripheral_id };
            let (at, opened) = found.flag(open);
            &&& ways is None ==> status == -1073741661 && left == state
            &&& ways is Some && !opened ==> status == -1073741661 && left == (DriverState {
                charge: ChargeLoop { last_error: (-1) as i32, ..state.charge },
                ..state
            })
            &&& ways is Some && opened ==> {
                let (read, params) = params::read_parameters_run(at);
                let (probed, pump) = probe_all_run(read, ways->0.peripheral_id, ways->0.usbin_id);
                (after, left, status) == open_chip_run(
                    probed,
                    DriverState { usbin_id: ways->0.usbin_id, ..state },
                    pump,
                    params,
                    tuning,
                )
            }
        }),
{
    reveal(evt_prepare_hardware_run);
}

/// The ways are those of the connections that the list holds.
pub proof fn law_ways_are_in_the_list(io: Io<Op>)
    ensures
        ({
            let ways = find_ways_run(io).1;
            let found = connections::collect_connections_run(io, 0, Seq::empty()).1;
            &&& ways is None <==> connections::i2c_connection(found) is None
            &&& ways matches Some(ways) ==> connections::i2c_connection(found) == Some(
                ways.peripheral_id,
            ) && ways.usbin_id == connections::usbin_connection(found, ways.peripheral_id)
        }),
{
    reveal(find_ways_run);
}

/// The names of the SPMI drivers are probed in order, the superuser node with each kind of
/// access.
#[verifier::rlimit(60)]
pub proof fn law_spmi_names_are_probed(io: Io<Op>)
    requires
        io.pending is None,
        probe_spmi_names_run(io).pending is None,
    ensures
        trace::asked(io, probe_spmi_names_run(io)) == seq![
            Op::NamedTarget { name: SUPERUSER_NAME, access: 0x001F_01FF, share: 0 },
            Op::NamedTarget { name: "\\Device\\Spmi", access: 0x001F_01FF, share: 0 },
            Op::NamedTarget { name: "\\Device\\SPMI", access: 0x001F_01FF, share: 0 },
            Op::NamedTarget { name: "\\Device\\spmi", access: 0x001F_01FF, share: 0 },
            Op::NamedTarget { name: "\\Device\\SpmiArb", access: 0x001F_01FF, share: 0 },
            Op::NamedTarget { name: SUPERUSER_NAME, access: 0x0000_0000, share: 0 },
            Op::NamedTarget { name: SUPERUSER_NAME, access: 0x0000_0001, share: 0 },
            Op::NamedTarget { name: SUPERUSER_NAME, access: 0x0000_0002, share: 0 },
            Op::NamedTarget { name: SUPERUSER_NAME, access: 0x0000_0003, share: 0 },
            Op::NamedTarget { name: SUPERUSER_NAME, access: 0x8000_0000, share: 0 },
            Op::NamedTarget { name: SUPERUSER_NAME, access: 0x4000_0000, share: 0 },
            Op::NamedTarget { name: SUPERUSER_NAME, access: 0xC000_0000, share: 0 },
            Op::NamedTarget { name: SUPERUSER_NAME, access: 0x0001_0000, share: 0 },
        ],
{
    broadcast use trace::group_trace;

    reveal(probe_spmi_names_run);
    trace::lemma_asked_nothing(io);
}

/// What each name of the SPMI drivers answered is published under its own mark.
#[verifier::rlimit(60)]
pub proof fn law_spmi_names_are_published(io: Io<Op>)
    requires
        io.pending is None,
        probe_spmi_names_run(io).pending is None,
    ensures
        trace::published(io, probe_spmi_names_run(io)) == seq![
            ("SpmiProbeSuperuser", status_word(trace::status_of(trace::answer(io, 0)))),
            ("SpmiProbeSpmi", status_word(trace::status_of(trace::answer(io, 1)))),
            ("SpmiProbeUpperName", status_word(trace::status_of(trace::answer(io, 2)))),
            ("SpmiProbeLowerName", status_word(trace::status_of(trace::answer(io, 3)))),
            ("SpmiProbeArb", status_word(trace::status_of(trace::answer(io, 4)))),
            ("SpmiSuAcc0", status_word(trace::status_of(trace::answer(io, 5)))),
            ("SpmiSuAcc1", status_word(trace::status_of(trace::answer(io, 6)))),
            ("SpmiSuAcc2", status_word(trace::status_of(trace::answer(io, 7)))),
            ("SpmiSuAcc3", status_word(trace::status_of(trace::answer(io, 8)))),
            ("SpmiSuAcc4", status_word(trace::status_of(trace::answer(io, 9)))),
            ("SpmiSuAcc5", status_word(trace::status_of(trace::answer(io, 10)))),
            ("SpmiSuAcc6", status_word(trace::status_of(trace::answer(io, 11)))),
            ("SpmiSuAcc7", status_word(trace::status_of(trace::answer(io, 12)))),
        ],
{
    reveal(probe_spmi_names_run);
    trace::lemma_published_nothing(io);
    let p1 = probe_name_run(io, "SpmiProbeSuperuser", SUPERUSER_NAME, FULL_ACCESS, 0);
    let p2 = probe_name_run(p1, "SpmiProbeSpmi", "\\Device\\Spmi", FULL_ACCESS, 0);
    let p3 = probe_name_run(p2, "SpmiProbeUpperName", "\\Device\\SPMI", FULL_ACCESS, 0);
    let p4 = probe_name_run(p3, "SpmiProbeLowerName", "\\Device\\spmi", FULL_ACCESS, 0);
    let p5 = probe_name_run(p4, "SpmiProbeArb", "\\Device\\SpmiArb", FULL_ACCESS, 0);
    let p6 = probe_name_run(p5, "SpmiSuAcc0", SUPERUSER_NAME, 0x0000_0000, 0);
    let p7 = probe_name_run(p6, "SpmiSuAcc1", SUPERUSER_NAME, 0x0000_0001, 0);
    let p8 = probe_name_run(p7, "SpmiSuAcc2", SUPERUSER_NAME, 0x0000_0002, 0);
    let p9 = probe_name_run(p8, "SpmiSuAcc3", SUPERUSER_NAME, 0x0000_0003, 0);
    let p10 = probe_name_run(p9, "SpmiSuAcc4", SUPERUSER_NAME, 0x8000_0000, 0);
    let p11 = probe_name_run(p10, "SpmiSuAcc5", SUPERUSER_NAME, 0x4000_0000, 0);
    let p12 = probe_name_run(p11, "SpmiSuAcc6", SUPERUSER_NAME, 0xC000_0000, 0);
    let p13 = probe_name_run(p12, "SpmiSuAcc7", SUPERUSER_NAME, 0x0001_0000, 0);
    lemma_name_is_published(io, io, "SpmiProbeSuperuser", SUPERUSER_NAME, FULL_ACCESS, 0);
    lemma_name_is_published(io, p1, "SpmiProbeSpmi", "\\Device\\Spmi", FULL_ACCESS, 0);
    lemma_name_is_published(io, p2, "SpmiProbeUpperName", "\\Device\\SPMI", FULL_ACCESS, 0);
    lemma_name_is_published(io, p3, "SpmiProbeLowerName", "\\Device\\spmi", FULL_ACCESS, 0);
    lemma_name_is_published(io, p4, "SpmiProbeArb", "\\Device\\SpmiArb", FULL_ACCESS, 0);
    lemma_name_is_published(io, p5, "SpmiSuAcc0", SUPERUSER_NAME, 0x0000_0000, 0);
    lemma_name_is_published(io, p6, "SpmiSuAcc1", SUPERUSER_NAME, 0x0000_0001, 0);
    lemma_name_is_published(io, p7, "SpmiSuAcc2", SUPERUSER_NAME, 0x0000_0002, 0);
    lemma_name_is_published(io, p8, "SpmiSuAcc3", SUPERUSER_NAME, 0x0000_0003, 0);
    lemma_name_is_published(io, p9, "SpmiSuAcc4", SUPERUSER_NAME, 0x8000_0000, 0);
    lemma_name_is_published(io, p10, "SpmiSuAcc5", SUPERUSER_NAME, 0x4000_0000, 0);
    lemma_name_is_published(io, p11, "SpmiSuAcc6", SUPERUSER_NAME, 0xC000_0000, 0);
    lemma_name_is_published(io, p12, "SpmiSuAcc7", SUPERUSER_NAME, 0x0001_0000, 0);
}

/// A probe of a name adds one mark.
proof fn lemma_name_is_published(
    from: Io<Op>,
    io: Io<Op>,
    mark: &'static str,
    name: &'static str,
    access: u32,
    share: u32,
)
    requires
        from.log.len() <= io.log.len(),
    ensures
        ({
            let after = probe_name_run(io, mark, name, access, share);
            &&& from.log.len() <= after.log.len() && after.replies == io.replies
            &&& after.pending is None ==> {
                &&& io.pending is None && after.next == io.next + 1
                &&& trace::published(from, after) == trace::published(from, io).push(
                    (mark, status_word(trace::status_of(io.replies[io.next as int]))),
                )
            }
        }),
{
    broadcast use trace::group_marks;

}

/// A probe of a register adds one mark.
proof fn lemma_register_is_published(
    from: Io<Op>,
    io: Io<Op>,
    register: u8,
    name: &'static str,
)
    requires
        from.log.len() <= io.log.len(),
    ensures
        ({
            let after = probe_register_run(io, register, name);
            &&& from.log.len() <= after.log.len() && after.replies == io.replies
            &&& after.pending is None ==> {
                &&& io.pending is None && after.next == io.next + 1
                &&& trace::published(from, after) == trace::published(from, io).push(
                    (name, byte_word(value_of(io.replies[io.next as int]))),
                )
            }
        }),
{
    broadcast use trace::group_marks;

}

/// A probe of a code adds one mark.
proof fn lemma_code_is_published(from: Io<Op>, io: Io<Op>, name: &'static str, code: u32)
    requires
        from.log.len() <= io.log.len(),
    ensures
        ({
            let after = probe_code_run(io, name, code);
            &&& from.log.len() <= after.log.len() && after.replies == io.replies
            &&& after.pending is None ==> {
                &&& io.pending is None && after.next == io.next + 1
                &&& trace::published(from, after) == trace::published(from, io).push(
                    (name, status_word(trace::status_of(io.replies[io.next as int]))),
                )
            }
        }),
{
    broadcast use trace::group_marks;

}

/// The names that other drivers share are probed in order, with every sharing.
#[verifier::rlimit(60)]
pub proof fn law_shared_names_are_probed(io: Io<Op>)
    requires
        io.pending is None,
        probe_shared_names_run(io).pending is None,
    ensures
        trace::asked(io, probe_shared_names_run(io)) == seq![
            Op::NamedTarget { name: "\\DosDevices\\Global\\QCOMPMIC", access: 0x001F_01FF, share: 7 },
            Op::NamedTarget { name: "\\DosDevices\\Global\\QCOMBATTMGR", access: 0x001F_01FF, share: 7 },
            Op::NamedTarget { name: "\\DosDevices\\Global\\QCOMPMICTCC", access: 0x001F_01FF, share: 7 },
            Op::NamedTarget { name: "\\DosDevices\\Global\\QCOMPMICAPPS", access: 0x001F_01FF, share: 7 },
            Op::NamedTarget { name: "\\DosDevices\\Global\\QCOMPMICEIC", access: 0x001F_01FF, share: 7 },
            Op::NamedTarget { name: "\\DosDevices\\Global\\QCBatteryMiniclass", access: 0x001F_01FF, share: 7 },
            Op::NamedTarget { name: "\\??\\QCOM_ADC", access: 0x001F_01FF, share: 7 },
            Op::NamedTarget { name: "\\??\\QCOM_ADC2", access: 0x001F_01FF, share: 7 },
            Op::NamedTarget { name: "\\??\\QCOM_ADC3", access: 0x001F_01FF, share: 7 },
            Op::NamedTarget { name: "\\Device\\RESOURCE_HUB", access: 0x001F_01FF, share: 7 },
            Op::NamedTarget { name: SUPERUSER_NAME, access: 0x001F_01FF, share: 7 },
        ],
{
    broadcast use trace::group_trace;

    reveal(probe_shared_names_run);
    trace::lemma_asked_nothing(io);
}

/// What each shared name answered is published under its own mark.
#[verifier::rlimit(60)]
pub proof fn law_shared_names_are_published(io: Io<Op>)
    requires
        io.pending is None,
        probe_shared_names_run(io).pending is None,
    ensures
        trace::published(io, probe_shared_names_run(io)) == seq![
            ("PmicOpenQcompmic", status_word(trace::status_of(trace::answer(io, 0)))),
            ("PmicOpenBattmgr", status_word(trace::status_of(trace::answer(io, 1)))),
            ("PmicOpenPmictcc", status_word(trace::status_of(trace::answer(io, 2)))),
            ("PmicOpenPmicapps", status_word(trace::status_of(trace::answer(io, 3)))),
            ("PmicOpenMiceic", status_word(trace::status_of(trace::answer(io, 4)))),
            ("PmicOpenBattmini", status_word(trace::status_of(trace::answer(io, 5)))),
            ("AdcOpenQcomAdc", status_word(trace::status_of(trace::answer(io, 6)))),
            ("AdcOpenQcomAdc2", status_word(trace::status_of(trace::answer(io, 7)))),
            ("AdcOpenQcomAdc3", status_word(trace::status_of(trace::answer(io, 8)))),
            ("HubOpenBare", status_word(trace::status_of(trace::answer(io, 9)))),
            ("SpmiSuShare", status_word(trace::status_of(trace::answer(io, 10)))),
        ],
{
    broadcast use trace::group_marks;

    reveal(probe_shared_names_run);
    trace::lemma_published_nothing(io);
}

/// The candidates for the line are tried in order. Where none opens, each is published as
/// closed, with nothing read.
#[verifier::rlimit(60)]
pub proof fn law_candidates_are_tried_in_order(io: Io<Op>)
    requires
        io.pending is None,
        probe_candidates_run(io).pending is None,
        forall|i: int| 0 <= i < 13 ==> !trace::yes(#[trigger] trace::answer(io, i)),
    ensures
        trace::asked(io, probe_candidates_run(io)) == seq![
            Op::LineOpen { line: Line::Candidate, id: 2 },
            Op::LineOpen { line: Line::Candidate, id: 3 },
            Op::LineOpen { line: Line::Candidate, id: 4 },
            Op::LineOpen { line: Line::Candidate, id: 5 },
            Op::LineOpen { line: Line::Candidate, id: 6 },
            Op::LineOpen { line: Line::Candidate, id: 8 },
            Op::LineOpen { line: Line::Candidate, id: 16 },
            Op::LineOpen { line: Line::Candidate, id: 56 },
            Op::LineOpen { line: Line::Candidate, id: 0x13 },
            Op::LineOpen { line: Line::Candidate, id: 0x31 },
            Op::LineOpen { line: Line::Candidate, id: 0x131 },
            Op::LineOpen { line: Line::Candidate, id: 0x135 },
            Op::LineOpen { line: Line::Candidate, id: 0x213 },
        ],
        trace::published(io, probe_candidates_run(io)) == seq![
            ("Sc2Open", 0u32),
            ("Sc2St", 0xFFFF_FFFF),
            ("Sc2Val", 0xFFFF_FFFF),
            ("Sc3Open", 0),
            ("Sc3St", 0xFFFF_FFFF),
            ("Sc3Val", 0xFFFF_FFFF),
            ("Sc4Open", 0),
            ("Sc4St", 0xFFFF_FFFF),
            ("Sc4Val", 0xFFFF_FFFF),
            ("Sc5Open", 0),
            ("Sc5St", 0xFFFF_FFFF),
            ("Sc5Val", 0xFFFF_FFFF),
            ("Sc6Open", 0),
            ("Sc6St", 0xFFFF_FFFF),
            ("Sc6Val", 0xFFFF_FFFF),
            ("Sc8Open", 0),
            ("Sc8St", 0xFFFF_FFFF),
            ("Sc8Val", 0xFFFF_FFFF),
            ("Sc16Open", 0),
            ("Sc16St", 0xFFFF_FFFF),
            ("Sc16Val", 0xFFFF_FFFF),
            ("Sc56Open", 0),
            ("Sc56St", 0xFFFF_FFFF),
            ("Sc56Val", 0xFFFF_FFFF),
            ("Sc13Open", 0),
            ("Sc13St", 0xFFFF_FFFF),
            ("Sc13Val", 0xFFFF_FFFF),
            ("Sc31Open", 0),
            ("Sc31St", 0xFFFF_FFFF),
            ("Sc31Val", 0xFFFF_FFFF),
            ("Sc131Open", 0),
            ("Sc131St", 0xFFFF_FFFF),
            ("Sc131Val", 0xFFFF_FFFF),
            ("Sc135Open", 0),
            ("Sc135St", 0xFFFF_FFFF),
            ("Sc135Val", 0xFFFF_FFFF),
            ("Sc213Open", 0),
            ("Sc213St", 0xFFFF_FFFF),
            ("Sc213Val", 0xFFFF_FFFF),
        ],
{
    broadcast use {trace::group_trace, trace::group_marks};

    reveal(probe_candidates_run);
    trace::lemma_asked_nothing(io);
    trace::lemma_published_nothing(io);
    assert(!trace::yes(trace::answer(io, 0)));
    assert(!trace::yes(trace::answer(io, 1)));
    assert(!trace::yes(trace::answer(io, 2)));
    assert(!trace::yes(trace::answer(io, 3)));
    assert(!trace::yes(trace::answer(io, 4)));
    assert(!trace::yes(trace::answer(io, 5)));
    assert(!trace::yes(trace::answer(io, 6)));
    assert(!trace::yes(trace::answer(io, 7)));
    assert(!trace::yes(trace::answer(io, 8)));
    assert(!trace::yes(trace::answer(io, 9)));
    assert(!trace::yes(trace::answer(io, 10)));
    assert(!trace::yes(trace::answer(io, 11)));
    assert(!trace::yes(trace::answer(io, 12)));
}

/// The status of a transfer on a line.
pub open spec fn transfer_status_of(reply: Reply) -> i32 {
    match reply {
        Reply::Transfer(reply) => reply.status,
        _ => (-1) as i32,
    }
}

/// What is published of a byte: the byte, or all ones where there was none.
pub open spec fn byte_word(value: Option<u8>) -> u32 {
    match value {
        Some(byte) => byte as u32,
        None => 0xFFFF_FFFF,
    }
}

/// A candidate that opens is read once, the identification over the plain variant, and
/// its status and value are published.
pub proof fn law_candidate_is_probed(
    io: Io<Op>,
    id: u64,
    open_name: &'static str,
    status_name: &'static str,
    value_name: &'static str,
)
    requires
        io.pending is None,
        probe_candidate_run(io, id, open_name, status_name, value_name).pending is None,
    ensures
        ({
            let after = probe_candidate_run(io, id, open_name, status_name, value_name);
            let open = Op::LineOpen { line: Line::Candidate, id };
            let opened = trace::yes(trace::answer(io, 0));
            let reply = trace::answer(io, 1);
            &&& opened ==> trace::asked(io, after) == seq![
                open,
                Op::LineTransfer { line: Line::Candidate, variant: 0, register: 0 },
            ] && trace::published(io, after) == seq![
                (open_name, 1),
                (status_name, status_word(transfer_status_of(reply))),
                (value_name, byte_word(value_of(reply))),
            ]
            &&& !opened ==> trace::asked(io, after) == seq![open] && trace::published(io, after)
                == seq![(open_name, 0u32), (status_name, 0xFFFF_FFFF), (value_name, 0xFFFF_FFFF)]
        }),
{
    broadcast use {trace::group_trace, trace::group_marks};

    trace::lemma_asked_nothing(io);
    trace::lemma_published_nothing(io);
}

/// The line of the parent is probed after its variants: under the lock, at three
/// registers, and with each code of the bus, and what each answered is published.
pub proof fn law_line_is_probed(io: Io<Op>)
    requires
        io.pending is None,
        probe_line_run(io).pending is None,
    ensures
        exists|at: Io<Op>|
            #![trigger trace::follows(io, at)]
            {
                let after = probe_line_run(io);
                let transfer = |register: u8|
                    Op::LineTransfer { line: Line::Parent, variant: 0, register };
                let locked = trace::answer(at, 1);
                let lock = trace::status_of(trace::answer(at, 0));
                let under = match value_of(locked) {
                    Some(value) => seq![("LockedOk", 1u32), ("LockedValue", value as u32)],
                    None => seq![("LockedOk", 0u32)],
                };
                &&& trace::follows(io, at)
                &&& trace::asked(at, after) == seq![
                    Op::LineLock(Line::Parent),
                    transfer(0x00),
                    transfer(0x00),
                    transfer(0x03),
                    transfer(0x31),
                    Op::LineIoctl(Line::Parent, 0x0004_1800),
                    Op::LineIoctl(Line::Parent, 0x0004_1804),
                    Op::LineIoctl(Line::Parent, 0x0004_1808),
                    Op::LineIoctl(Line::Parent, 0x0004_180C),
                    Op::LineIoctl(Line::Parent, 0x0004_1810),
                    Op::LineIoctl(Line::Parent, 0x0004_1814),
                    Op::LineIoctl(Line::Parent, 0x0004_1818),
                ]
                &&& trace::published(at, after) == seq![
                    ("LockStatus", status_word(lock)),
                    ("LockOk", flag_word(lock >= 0)),
                ] + under + seq![
                    ("LockedStatus", status_word(transfer_status_of(locked))),
                    ("Reg00", byte_word(value_of(trace::answer(at, 2)))),
                    ("Reg03", byte_word(value_of(trace::answer(at, 3)))),
                    ("Reg31", byte_word(value_of(trace::answer(at, 4)))),
                    ("Io0", status_word(trace::status_of(trace::answer(at, 5)))),
                    ("Io1", status_word(trace::status_of(trace::answer(at, 6)))),
                    ("Io2", status_word(trace::status_of(trace::answer(at, 7)))),
                    ("Io3", status_word(trace::status_of(trace::answer(at, 8)))),
                    ("Io4", status_word(trace::status_of(trace::answer(at, 9)))),
                    ("Io5", status_word(trace::status_of(trace::answer(at, 10)))),
                    ("Io6", status_word(trace::status_of(trace::answer(at, 11)))),
                ]
            },
{
    let (scanned, working) = scan_variants_run(io, false, 0, None);
    let at = match working {
        Some(variant) => scanned.mark("Variant", variant as u32),
        None => scanned,
    };
    assert(trace::follows(io, at)) by {
        broadcast use {writes::group_obeys, off_tick::lemma_scan_variants_obeys};

        writes::lemma_obeys_at_first(io, Rule::Free);
        assert(writes::obeys(io, at, Rule::Free));
        writes::lemma_obeys_follows(io, at, Rule::Free);
    }
    assert(trace::follows(at, probe_line_run(io))) by {
        broadcast use trace::group_trace;

        reveal(probe_line_run);
        reveal(probe_lock_run);
        trace::lemma_follows_at_first(at);
    }
    trace::lemma_finished_before(at, probe_line_run(io));
    lemma_line_asks(io, at);
    lemma_line_publishes(io, at);
}

proof fn lemma_line_asks(io: Io<Op>, at: Io<Op>)
    requires
        at.pending is None,
        probe_line_run(io).pending is None,
        at == {
            let (scanned, working) = scan_variants_run(io, false, 0, None);
            match working {
                Some(variant) => scanned.mark("Variant", variant as u32),
                None => scanned,
            }
        },
    ensures
        ({
            let after = probe_line_run(io);
            let transfer = |register: u8|
                Op::LineTransfer { line: Line::Parent, variant: 0, register };
            &&& trace::asked(at, after) == seq![
                Op::LineLock(Line::Parent),
                transfer(0x00),
                transfer(0x00),
                transfer(0x03),
                transfer(0x31),
                Op::LineIoctl(Line::Parent, 0x0004_1800),
                Op::LineIoctl(Line::Parent, 0x0004_1804),
                Op::LineIoctl(Line::Parent, 0x0004_1808),
                Op::LineIoctl(Line::Parent, 0x0004_180C),
                Op::LineIoctl(Line::Parent, 0x0004_1810),
                Op::LineIoctl(Line::Parent, 0x0004_1814),
                Op::LineIoctl(Line::Parent, 0x0004_1818),
            ]
        }),
{
    broadcast use trace::group_trace;

    reveal(probe_line_run);
    reveal(probe_lock_run);
    trace::lemma_asked_nothing(at);
}

proof fn lemma_line_publishes(io: Io<Op>, at: Io<Op>)
    requires
        at.pending is None,
        probe_line_run(io).pending is None,
        at == {
            let (scanned, working) = scan_variants_run(io, false, 0, None);
            match working {
                Some(variant) => scanned.mark("Variant", variant as u32),
                None => scanned,
            }
        },
    ensures
        ({
            let after = probe_line_run(io);
            let locked = trace::answer(at, 1);
            let lock = trace::status_of(trace::answer(at, 0));
            let under = match value_of(locked) {
                Some(value) => seq![("LockedOk", 1u32), ("LockedValue", value as u32)],
                None => seq![("LockedOk", 0u32)],
            };
            &&& trace::published(at, after) == seq![
                ("LockStatus", status_word(lock)),
                ("LockOk", flag_word(lock >= 0)),
            ] + under + seq![
                ("LockedStatus", status_word(transfer_status_of(locked))),
                ("Reg00", byte_word(value_of(trace::answer(at, 2)))),
                ("Reg03", byte_word(value_of(trace::answer(at, 3)))),
                ("Reg31", byte_word(value_of(trace::answer(at, 4)))),
                ("Io0", status_word(trace::status_of(trace::answer(at, 5)))),
                ("Io1", status_word(trace::status_of(trace::answer(at, 6)))),
                ("Io2", status_word(trace::status_of(trace::answer(at, 7)))),
                ("Io3", status_word(trace::status_of(trace::answer(at, 8)))),
                ("Io4", status_word(trace::status_of(trace::answer(at, 9)))),
                ("Io5", status_word(trace::status_of(trace::answer(at, 10)))),
                ("Io6", status_word(trace::status_of(trace::answer(at, 11)))),
            ]
        }),
{
    reveal(probe_line_run);
    let locked = probe_lock_run(at);
    let r1 = probe_register_run(locked, 0x00, "Reg00");
    let r2 = probe_register_run(r1, 0x03, "Reg03");
    let r3 = probe_register_run(r2, 0x31, "Reg31");
    let c1 = probe_code_run(r3, "Io0", IOCTL_SPB_LOCK_CONTROLLER);
    let c2 = probe_code_run(c1, "Io1", IOCTL_SPB_UNLOCK_CONTROLLER);
    let c3 = probe_code_run(c2, "Io2", IOCTL_SPB_EXECUTE_SEQUENCE);
    let c4 = probe_code_run(c3, "Io3", IOCTL_SPB_LOCK_CONNECTION);
    let c5 = probe_code_run(c4, "Io4", IOCTL_SPB_UNLOCK_CONNECTION);
    let c6 = probe_code_run(c5, "Io5", IOCTL_SPB_FULL_DUPLEX);
    let c7 = probe_code_run(c6, "Io6", IOCTL_SPB_MULTI_SPI_TRANSFER);
    lemma_lock_publishes(at);
    lemma_register_is_published(at, locked, 0x00, "Reg00");
    lemma_register_is_published(at, r1, 0x03, "Reg03");
    lemma_register_is_published(at, r2, 0x31, "Reg31");
    lemma_code_is_published(at, r3, "Io0", IOCTL_SPB_LOCK_CONTROLLER);
    lemma_code_is_published(at, c1, "Io1", IOCTL_SPB_UNLOCK_CONTROLLER);
    lemma_code_is_published(at, c2, "Io2", IOCTL_SPB_EXECUTE_SEQUENCE);
    lemma_code_is_published(at, c3, "Io3", IOCTL_SPB_LOCK_CONNECTION);
    lemma_code_is_published(at, c4, "Io4", IOCTL_SPB_UNLOCK_CONNECTION);
    lemma_code_is_published(at, c5, "Io5", IOCTL_SPB_FULL_DUPLEX);
    lemma_code_is_published(at, c6, "Io6", IOCTL_SPB_MULTI_SPI_TRANSFER);
}

proof fn lemma_lock_publishes(at: Io<Op>)
    requires
        at.pending is None,
    ensures
        ({
            let after = probe_lock_run(at);
            let locked = trace::answer(at, 1);
            let lock = trace::status_of(trace::answer(at, 0));
            let under = match value_of(locked) {
                Some(value) => seq![("LockedOk", 1u32), ("LockedValue", value as u32)],
                None => seq![("LockedOk", 0u32)],
            };
            &&& at.log.len() <= after.log.len() && after.replies == at.replies
            &&& after.pending is None ==> after.next == at.next + 2 && trace::published(at, after)
                == seq![("LockStatus", status_word(lock)), ("LockOk", flag_word(lock >= 0))]
                + under + seq![("LockedStatus", status_word(transfer_status_of(locked)))]
        }),
{
    broadcast use trace::group_marks;

    reveal(probe_lock_run);
    trace::lemma_published_nothing(at);
}

/// The parent is asked to attach and to run a sequence, and the line itself to attach; the
/// address, each status and the words of the line are published.
pub proof fn law_parent_is_probed(io: Io<Op>, peripheral_id: u64)
    requires
        io.pending is None,
        probe_parent_run(io, peripheral_id).pending is None,
    ensures
        ({
            let after = probe_parent_run(io, peripheral_id);
            let attach = trace::status_of(trace::answer(io, 0));
            let sequence = trace::status_of(trace::answer(io, 1));
            &&& trace::asked(io, after) == seq![
                Op::ParentAttach,
                Op::ParentSequence(0),
                Op::LineAttach(Line::Parent),
            ]
            &&& trace::answer(io, 2) matches Reply::Attach(own) ==> trace::published(io, after)
                == seq![
                ("ConnLow", (peripheral_id % 0x1_0000_0000) as u32),
                ("ConnHigh", (peripheral_id / 0x1_0000_0000) as u32),
                ("RegAddr", 0u32),
                ("ParAttachStatus", status_word(attach)),
                ("ParAttachOk", if attach >= 0 { 1u32 } else { 0 }),
                ("ParSeqStatus", status_word(sequence)),
                ("ParSeqOk", if sequence >= 0 { 1u32 } else { 0 }),
                ("AttachStatus", status_word(own.status)),
                ("Att0", own.word0),
                ("Att1", own.word1),
                ("Att2", own.word2),
                ("Att3", own.word3),
            ]
        }),
{
    broadcast use {trace::group_trace, trace::group_marks};

    reveal(probe_parent_run);
    trace::lemma_asked_nothing(io);
    trace::lemma_published_nothing(io);
}

/// The probe of the detection is published as it answered, and the charger block is read
/// in both orders of its address where its line opens.
pub proof fn law_charger_block_is_probed(io: Io<Op>, id: u64)
    requires
        io.pending is None,
    ensures
        ({
            let after = probe_apsd_run(io);
            trace::answer(io, 0) matches Reply::Apsd(apsd) ==> after.pending is None
                ==> trace::asked(io, after) == seq![Op::ApsdProbe] && trace::published(io, after)
                == seq![
                ("SuOpen", status_word(apsd.open_status)),
                ("SuGrant", status_word(apsd.grant_status)),
                ("SuApsdSt", status_word(apsd.read_status)),
                ("SuApsdVal", apsd.value as u32),
            ]
        }),
        ({
            let after = probe_usbin_spmi_run(io, None);
            trace::asked(io, after).len() == 0 && trace::published(io, after) == seq![
                ("UsbinOpen", 0xFFFF_FFFFu32),
            ]
        }),
        ({
            let after = probe_usbin_spmi_run(io, Some(id));
            let big = trace::answer(io, 1);
            let little = trace::answer(io, 2);
            let status = |reply: Reply|
                if value_of(reply) is Some {
                    0
                } else {
                    status_word(transfer_status_of(reply))
                };
            &&& after.pending is None && !trace::yes(trace::answer(io, 0)) ==> trace::asked(
                io,
                after,
            ) == seq![Op::UsbinOpen(id)] && trace::published(io, after) == seq![
                ("UsbinOpen", 0u32),
            ]
            &&& after.pending is None && trace::yes(trace::answer(io, 0)) ==> trace::asked(
                io,
                after,
            ) == seq![
                Op::UsbinOpen(id),
                Op::UsbinTransfer { addr: 0x1307, big_endian: true },
                Op::UsbinTransfer { addr: 0x1307, big_endian: false },
            ] && trace::published(io, after) == seq![
                ("UsbinOpen", 1),
                ("UsbinBeSt", status(big)),
                ("UsbinBeVal", byte_word(value_of(big))),
                ("UsbinLeSt", status(little)),
                ("UsbinLeVal", byte_word(value_of(little))),
            ]
        }),
{
    broadcast use {trace::group_trace, trace::group_marks};

    reveal(probe_apsd_run);
    reveal(probe_usbin_spmi_run);
    trace::lemma_asked_nothing(io);
    trace::lemma_published_nothing(io);
}

} // verus!
