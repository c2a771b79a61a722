//! A serial line to the charge pump or to the PMIC.
//!
//! A line owns one request that is used again and again. A request that did not
//! come back from a send still belongs to the target: sending it again would be
//! fatal, so from then on the line answers with a failure and touches nothing.
use crate::exchange::AttachReply;
use crate::hub::{self, resource_hub_path, HUB_PATH_CHARS};
use crate::session::{Io, Session};
use crate::spb_abi::{
    entry_init, SpbTransferBuffer, SpbTransferList, SpbTransferListEntry, ATTACH_REPLY_LEN,
    IOCTL_ATTACH, IOCTL_SPB_EXECUTE_SEQUENCE, IOCTL_SPB_LOCK_CONNECTION,
    SPB_DIRECTION_FROM_DEVICE, SPB_DIRECTION_NONE, SPB_DIRECTION_TO_DEVICE, SPB_FORMAT_SIMPLE,
};
use crate::wdf::{
    self, attach_frame, attach_words, send, Object, TargetName, WdfOp, ATTACH_INPUT_LEN, DATA_LEN,
    SEND_FAILED,
};
use vstd::prelude::*;

verus! {

/// Most transfers of one list.
pub const MAX_TRANSFERS: usize = 3;

/// Size of the memory for a transfer list.
pub const TRANSFER_AREA: usize = 112;

/// Access to a connection of the resource hub.
pub const HUB_DESIRED_ACCESS: u32 = 0x001F_01FF;

/// One plain buffer in non-paged memory.
pub const SPB_FORMAT_SIMPLE_NON_PAGED: u32 = 3;

/// Plain buffers.
pub const VARIANT_OUTPUT_SIMPLE: u8 = 0;

/// Non-paged buffers.
pub const VARIANT_OUTPUT_NON_PAGED: u8 = 1;

/// A terminating transfer at the end of the list.
pub const VARIANT_TERMINATED: u8 = 3;

/// Output memory on the request.
pub const VARIANT_OUTPUT_MEMORY: u8 = 4;

/// Output memory on the request, and non-paged buffers.
pub const VARIANT_OUTPUT_MEMORY_NON_PAGED: u8 = 5;

/// The kind of a bus failure.
#[derive(Debug, Clone, Copy, PartialEq, Eq, Structural)]
pub enum BusErrorKind {
    /// The bus returned a failure.
    Io,
    /// The framework could not create something.
    Unsupported,
    /// The request was rejected before it was sent.
    Protocol,
    /// The bus did not answer.
    Timeout,
}

/// A bus failure.
#[derive(Debug, Clone, Copy)]
pub struct BusError {
    /// Its kind.
    pub kind: BusErrorKind,
    /// Its reason.
    pub reason: &'static str,
}

/// A failure of a kind.
#[verifier::allow_in_spec]
pub fn failure(kind: BusErrorKind, reason: &'static str) -> (err: BusError)
    returns
        (BusError { kind, reason }),
{
    BusError { kind, reason }
}

/// A line.
#[derive(Debug, Clone, Copy)]
pub struct SpbBus {
    /// Its connection.
    pub peripheral_id: u64,
    /// Status of the last finished request.
    pub last_status: i32,
    /// Whether the request did not come back.
    pub request_lost: bool,
    /// How lists are written.
    pub variant: u8,
    /// First words of the attach answer.
    pub attach_words: [u32; 4],
    /// Transfers of the last list.
    pub last_count: u32,
}

/// ASCII bytes as 16-bit units.
pub open spec fn widened(text: Seq<u8>) -> Seq<u16> {
    text.map_values(|byte: u8| byte as u16)
}

/// A fresh line.
pub open spec fn fresh_line(peripheral_id: u64) -> SpbBus {
    SpbBus {
        peripheral_id,
        last_status: 0,
        request_lost: false,
        variant: VARIANT_OUTPUT_SIMPLE,
        attach_words: [0u32, 0u32, 0u32, 0u32],
        last_count: 0,
    }
}

// ---------------------------------------------------------------------------
// Opening
// ---------------------------------------------------------------------------
#[verifier::opaque]
pub open spec fn open_target_run(io: Io<WdfOp>, peripheral_id: u64, use_hub: bool) -> (
    Io<WdfOp>,
    Result<(), BusError>,
) {
    if use_hub {
        let (io, created) = io.status(WdfOp::TargetCreate);
        if created < 0 {
            (io, Err(failure(BusErrorKind::Io, "failed to create the I/O target")))
        } else {
            let (io, opened) = io.status(
                WdfOp::TargetOpen {
                    name: TargetName::Hub(peripheral_id),
                    access: HUB_DESIRED_ACCESS,
                    share: 0,
                    options: 0,
                },
            );
            if opened < 0 {
                (io, Err(failure(BusErrorKind::Io, "Resource Hub node unavailable")))
            } else {
                (io, Ok(()))
            }
        }
    } else {
        let (io, parent) = io.flag(WdfOp::TargetParent);
        if parent {
            (io, Ok(()))
        } else {
            (io, Err(failure(BusErrorKind::Io, "no device parent target")))
        }
    }
}

/// Opens the target: a connection of the resource hub, or the parent's.
fn open_target(io: &mut Session<WdfOp>, peripheral_id: u64, use_hub: bool) -> (r: Result<
    (),
    BusError,
>)
    ensures
        (final(io)@, r) == open_target_run(old(io)@, peripheral_id, use_hub),
{
    proof {
        reveal(open_target_run);
    }
    if use_hub {
        if io.status(WdfOp::TargetCreate) < 0 {
            return Err(failure(BusErrorKind::Io, "failed to create the I/O target"));
        }
        let opened: i32 = io.status(
            WdfOp::TargetOpen {
                name: TargetName::Hub(peripheral_id),
                access: HUB_DESIRED_ACCESS,
                share: 0,
                options: 0,
            },
        );
        if opened < 0 {
            return Err(failure(BusErrorKind::Io, "Resource Hub node unavailable"));
        }
        Ok(())
    } else if io.flag(WdfOp::TargetParent) {
        Ok(())
    } else {
        Err(failure(BusErrorKind::Io, "no device parent target"))
    }
}

/// A step of the creation: the call, and the reason of its failure.
pub open spec fn create_run(io: Io<WdfOp>, op: WdfOp, reason: &'static str) -> (
    Io<WdfOp>,
    Result<(), BusError>,
) {
    let (io, status) = io.status(op);
    (io, if status < 0 {
        Err(failure(BusErrorKind::Unsupported, reason))
    } else {
        Ok(())
    })
}

fn create(io: &mut Session<WdfOp>, op: WdfOp, reason: &'static str) -> (r: Result<(), BusError>)
    ensures
        (final(io)@, r) == create_run(old(io)@, op, reason),
{
    if io.status(op) < 0 {
        Err(failure(BusErrorKind::Unsupported, reason))
    } else {
        Ok(())
    }
}

/// A step of a creation that stops at the first failure.
pub open spec fn then_create_run(
    done: (Io<WdfOp>, Result<(), BusError>),
    op: WdfOp,
    reason: &'static str,
) -> (Io<WdfOp>, Result<(), BusError>) {
    match done.1 {
        Ok(_) => create_run(done.0, op, reason),
        Err(err) => done,
    }
}

fn then_create(
    io: &mut Session<WdfOp>,
    done: Result<(), BusError>,
    op: WdfOp,
    reason: &'static str,
) -> (r: Result<(), BusError>)
    ensures
        (final(io)@, r) == then_create_run((old(io)@, done), op, reason),
{
    match done {
        Ok(()) => create(io, op, reason),
        Err(err) => Err(err),
    }
}

#[verifier::opaque]
pub open spec fn create_parts_run(io: Io<WdfOp>) -> (Io<WdfOp>, Result<(), BusError>) {
    let done = create_run(io, WdfOp::RequestCreate, "failed to create WDFREQUEST");
    let done = then_create_run(
        done,
        WdfOp::MemoryCreate(Object::Area, TRANSFER_AREA),
        "failed to allocate the transfer buffer",
    );
    let done = then_create_run(
        done,
        WdfOp::ViewCreate(Object::View(1), SpbTransferList::area_size(1)),
        "failed to create the one-transfer buffer view",
    );
    let done = then_create_run(
        done,
        WdfOp::ViewCreate(Object::View(2), SpbTransferList::area_size(2)),
        "failed to create the two-transfer buffer view",
    );
    let done = then_create_run(
        done,
        WdfOp::ViewCreate(Object::View(3), SpbTransferList::area_size(3)),
        "failed to create the three-transfer buffer view",
    );
    let done = then_create_run(
        done,
        WdfOp::MemoryCreate(Object::AttachIn, ATTACH_INPUT_LEN),
        "failed to allocate the connection input",
    );
    let done = then_create_run(
        done,
        WdfOp::MemoryCreate(Object::AttachOut, ATTACH_REPLY_LEN),
        "failed to allocate the connection reply",
    );
    then_create_run(
        done,
        WdfOp::MemoryCreate(Object::Data, DATA_LEN),
        "failed to allocate the data buffer",
    )
}

/// Creates the request, the transfer list with its views, and the buffers.
fn create_parts(io: &mut Session<WdfOp>) -> (r: Result<(), BusError>)
    ensures
        (final(io)@, r) == create_parts_run(old(io)@),
{
    proof {
        reveal(create_parts_run);
    }
    let done = create(io, WdfOp::RequestCreate, "failed to create WDFREQUEST");
    let done = then_create(
        io,
        done,
        WdfOp::MemoryCreate(Object::Area, TRANSFER_AREA),
        "failed to allocate the transfer buffer",
    );
    let done = then_create(
        io,
        done,
        WdfOp::ViewCreate(Object::View(1), SpbTransferList::area_size(1)),
        "failed to create the one-transfer buffer view",
    );
    let done = then_create(
        io,
        done,
        WdfOp::ViewCreate(Object::View(2), SpbTransferList::area_size(2)),
        "failed to create the two-transfer buffer view",
    );
    let done = then_create(
        io,
        done,
        WdfOp::ViewCreate(Object::View(3), SpbTransferList::area_size(3)),
        "failed to create the three-transfer buffer view",
    );
    let done = then_create(
        io,
        done,
        WdfOp::MemoryCreate(Object::AttachIn, ATTACH_INPUT_LEN),
        "failed to allocate the connection input",
    );
    let done = then_create(
        io,
        done,
        WdfOp::MemoryCreate(Object::AttachOut, ATTACH_REPLY_LEN),
        "failed to allocate the connection reply",
    );
    then_create(
        io,
        done,
        WdfOp::MemoryCreate(Object::Data, DATA_LEN),
        "failed to allocate the data buffer",
    )
}

pub open spec fn open_run(io: Io<WdfOp>, peripheral_id: u64, use_hub: bool) -> (
    Io<WdfOp>,
    Result<SpbBus, BusError>,
) {
    let (io, target) = open_target_run(io, peripheral_id, use_hub);
    match target {
        Err(err) => (io, Err(err)),
        Ok(_) => {
            let (io, parts) = create_parts_run(io);
            (io, match parts {
                Err(err) => Err(err),
                Ok(_) => Ok(fresh_line(peripheral_id)),
            })
        },
    }
}

// ---------------------------------------------------------------------------
// Transfer lists
// ---------------------------------------------------------------------------
/// The buffer format of a variant.
#[verifier::allow_in_spec]
pub fn buffer_format(variant: u8) -> (format: u32)
    returns
        (if variant == VARIANT_OUTPUT_NON_PAGED || variant == VARIANT_OUTPUT_MEMORY_NON_PAGED {
            SPB_FORMAT_SIMPLE_NON_PAGED
        } else {
            SPB_FORMAT_SIMPLE
        }),
{
    if variant == VARIANT_OUTPUT_NON_PAGED || variant == VARIANT_OUTPUT_MEMORY_NON_PAGED {
        SPB_FORMAT_SIMPLE_NON_PAGED
    } else {
        SPB_FORMAT_SIMPLE
    }
}

/// A transfer in a buffer format.
#[verifier::allow_in_spec]
pub fn entry_with_format(format: u32, direction: u32, buffer: Option<usize>, buffer_cb: u32) -> (r: SpbTransferListEntry)
    returns
        (SpbTransferListEntry {
            buffer: SpbTransferBuffer {
                format,
                ..entry_init(direction, buffer, buffer_cb).buffer
            },
            ..entry_init(direction, buffer, buffer_cb)
        }),
{
    let entry = entry_init(direction, buffer, buffer_cb);
    SpbTransferListEntry {
        direction: entry.direction,
        delay_in_us: entry.delay_in_us,
        buffer: SpbTransferBuffer { format, simple: entry.buffer.simple },
    }
}

/// Transfers of a register access: a write is one, a read is two, and the
/// terminated variant adds one.
#[verifier::allow_in_spec]
pub fn transfer_count(write: bool, terminated: bool) -> (count: u32)
    returns
        (if write && !terminated {
            1u32
        } else if !write && terminated {
            3u32
        } else {
            2u32
        }),
{
    if write && !terminated {
        1
    } else if !write && terminated {
        3
    } else {
        2
    }
}

/// Where a transfer of the list starts in memory.
#[verifier::allow_in_spec]
pub fn entry_offset(index: u32) -> (offset: usize)
    requires
        index < 3,
    returns
        (16 + 32 * index) as usize,
{
    (16 + 32 * index) as usize
}

/// The transfers of a list fit the memory of its view.
pub proof fn law_entries_fit_their_view(write: bool, terminated: bool)
    ensures
        entry_offset((transfer_count(write, terminated) - 1) as u32) + SpbTransferList::entry_size()
            == SpbTransferList::area_size(transfer_count(write, terminated) as usize),
        SpbTransferList::area_size(MAX_TRANSFERS) == TRANSFER_AREA,
{
}

/// The address on the wire and, for a write, the value behind it.
#[verifier::opaque]
pub open spec fn write_frame_run(io: Io<WdfOp>, address: Seq<u8>, value: Option<u8>) -> Io<WdfOp> {
    let io = wdf::put_bytes_run(io, Object::Data, address);
    match value {
        Some(byte) => io.tell(WdfOp::PutByte(Object::Data, address.len() as usize, byte)),
        None => io,
    }
}

fn write_frame(io: &mut Session<WdfOp>, address: &[u8], value: Option<u8>)
    ensures
        final(io)@ == write_frame_run(old(io)@, address@, value),
{
    proof {
        reveal(write_frame_run);
    }
    wdf::put_bytes(io, Object::Data, address);
    match value {
        Some(byte) => {
            io.tell(WdfOp::PutByte(Object::Data, address.len(), byte));
        },
        None => {},
    }
}

#[verifier::opaque]
pub open spec fn write_list_run(
    io: Io<WdfOp>,
    format: u32,
    address_len: u32,
    write: bool,
    terminated: bool,
) -> Io<WdfOp> {
    let count = transfer_count(write, terminated);
    let io = io.tell(WdfOp::PutHead(SpbTransferList::header_size() as u32, 0, count));
    let io = if write {
        io.tell(
            WdfOp::PutEntry(
                entry_offset(0),
                entry_with_format(
                    format,
                    SPB_DIRECTION_TO_DEVICE,
                    Some(0usize),
                    (address_len + 1) as u32,
                ),
            ),
        )
    } else {
        io.tell(
            WdfOp::PutEntry(
                entry_offset(0),
                entry_with_format(format, SPB_DIRECTION_TO_DEVICE, Some(0usize), address_len),
            ),
        ).tell(
            WdfOp::PutEntry(
                entry_offset(1),
                entry_with_format(
                    format,
                    SPB_DIRECTION_FROM_DEVICE,
                    Some(address_len as usize),
                    1,
                ),
            ),
        )
    };
    if terminated {
        io.tell(
            WdfOp::PutEntry(
                entry_offset((count - 1) as u32),
                entry_with_format(format, SPB_DIRECTION_NONE, None, 0),
            ),
        )
    } else {
        io
    }
}

/// Writes the list: the address out (with the value, for a write), and for a read
/// one byte in, behind the address.
fn write_list(
    io: &mut Session<WdfOp>,
    format: u32,
    address_len: u32,
    write: bool,
    terminated: bool,
)
    requires
        address_len <= 2,
    ensures
        final(io)@ == write_list_run(old(io)@, format, address_len, write, terminated),
{
    proof {
        reveal(write_list_run);
    }
    let count: u32 = transfer_count(write, terminated);
    io.tell(WdfOp::PutHead(SpbTransferList::header_size() as u32, 0, count));
    if write {
        io.tell(
            WdfOp::PutEntry(
                entry_offset(0),
                entry_with_format(
                    format,
                    SPB_DIRECTION_TO_DEVICE,
                    Some(0usize),
                    address_len + 1,
                ),
            ),
        );
    } else {
        io.tell(
            WdfOp::PutEntry(
                entry_offset(0),
                entry_with_format(format, SPB_DIRECTION_TO_DEVICE, Some(0usize), address_len),
            ),
        );
        io.tell(
            WdfOp::PutEntry(
                entry_offset(1),
                entry_with_format(
                    format,
                    SPB_DIRECTION_FROM_DEVICE,
                    Some(address_len as usize),
                    1,
                ),
            ),
        );
    }
    if terminated {
        io.tell(
            WdfOp::PutEntry(
                entry_offset(count - 1),
                entry_with_format(format, SPB_DIRECTION_NONE, None, 0),
            ),
        );
    }
}

// ---------------------------------------------------------------------------
// Transactions
// ---------------------------------------------------------------------------
/// The reason of a lost request.
pub const LOST_REASON: &'static str = "cached request lost: a device restart is required";

/// What a transaction says when it fails.
#[derive(Debug, Clone, Copy)]
pub struct Reasons {
    /// The list was rejected.
    pub rejected: &'static str,
    /// The bus did not answer.
    pub unanswered: &'static str,
    /// The bus returned a failure.
    pub failed: &'static str,
}

#[verifier::opaque]
pub open spec fn execute_run(io: Io<WdfOp>, bus: SpbBus, at: usize, write: bool, why: Reasons) -> (
    Io<WdfOp>,
    SpbBus,
    Result<u8, BusError>,
) {
    let (io, formatted) = io.status(
        WdfOp::Format(
            IOCTL_SPB_EXECUTE_SEQUENCE,
            Some(Object::View(bus.last_count as u8)),
            if bus.variant >= VARIANT_OUTPUT_MEMORY {
                Some(Object::Data)
            } else {
                None
            },
        ),
    );
    if formatted < 0 {
        (io, bus, Err(failure(BusErrorKind::Protocol, why.rejected)))
    } else {
        let (io, sent) = wdf::send_run(io);
        match sent {
            None => (
                io,
                SpbBus { request_lost: true, last_status: SEND_FAILED, ..bus },
                Err(failure(BusErrorKind::Timeout, why.unanswered)),
            ),
            Some(status) => {
                let (io, byte) = io.octet(WdfOp::TakeByte(Object::Data, at));
                (
                    io.tell(WdfOp::RequestReuse),
                    SpbBus { last_status: status, ..bus },
                    if status < 0 {
                        Err(failure(BusErrorKind::Io, why.failed))
                    } else if write {
                        Ok(0)
                    } else {
                        Ok(byte)
                    },
                )
            },
        }
    }
}

/// Sends the list that was written.
fn execute(
    io: &mut Session<WdfOp>,
    bus: &mut SpbBus,
    at: usize,
    write: bool,
    why: &Reasons,
) -> (r: Result<u8, BusError>)
    ensures
        (final(io)@, *final(bus), r) == execute_run(old(io)@, *old(bus), at, write, *why),
{
    proof {
        reveal(execute_run);
    }
    let output = if bus.variant >= VARIANT_OUTPUT_MEMORY {
        Some(Object::Data)
    } else {
        None
    };
    let formatted: i32 = io.status(
        WdfOp::Format(
            IOCTL_SPB_EXECUTE_SEQUENCE,
            Some(Object::View(bus.last_count as u8)),
            output,
        ),
    );
    if formatted < 0 {
        return Err(failure(BusErrorKind::Protocol, why.rejected));
    }
    match send(io) {
        None => {
            bus.request_lost = true;
            bus.last_status = SEND_FAILED;
            Err(failure(BusErrorKind::Timeout, why.unanswered))
        },
        Some(status) => {
            bus.last_status = status;
            let byte: u8 = io.octet(WdfOp::TakeByte(Object::Data, at));
            io.tell(WdfOp::RequestReuse);
            if status < 0 {
                Err(failure(BusErrorKind::Io, why.failed))
            } else if write {
                Ok(0)
            } else {
                Ok(byte)
            }
        },
    }
}

/// What a register access on I2C says when it fails.
#[verifier::allow_in_spec]
pub fn i2c_reasons() -> (r: Reasons)
    returns
        (Reasons {
            rejected: "SPB rejected the sequence",
            unanswered: "I²C bus did not answer",
            failed: "SPB returned a failure for the transaction",
        }),
{
    Reasons {
        rejected: "SPB rejected the sequence",
        unanswered: "I²C bus did not answer",
        failed: "SPB returned a failure for the transaction",
    }
}

/// What a register access on SPMI says when it fails.
#[verifier::allow_in_spec]
pub fn spmi_reasons() -> (r: Reasons)
    returns
        (Reasons {
            rejected: "SPB rejected the SPMI sequence",
            unanswered: "SPMI bus did not answer",
            failed: "SPB returned a failure for the SPMI transaction",
        }),
{
    Reasons {
        rejected: "SPB rejected the SPMI sequence",
        unanswered: "SPMI bus did not answer",
        failed: "SPB returned a failure for the SPMI transaction",
    }
}

#[verifier::opaque]
pub open spec fn transact_run(io: Io<WdfOp>, bus: SpbBus, addr: u8, value: Option<u8>) -> (
    Io<WdfOp>,
    SpbBus,
    Result<u8, BusError>,
) {
    if bus.request_lost {
        (io, bus, Err(failure(BusErrorKind::Timeout, LOST_REASON)))
    } else {
        let terminated = bus.variant == VARIANT_TERMINATED;
        let io = write_frame_run(io, seq![addr], value);
        let io = write_list_run(
            io,
            buffer_format(bus.variant),
            1,
            value is Some,
            terminated,
        );
        execute_run(
            io,
            SpbBus { last_count: transfer_count(value is Some, terminated), ..bus },
            1,
            value is Some,
            i2c_reasons(),
        )
    }
}

/// The bytes of a 16-bit address on the wire.
pub open spec fn address_bytes(addr: u16, big_endian: bool) -> Seq<u8> {
    if big_endian {
        seq![(addr / 256) as u8, (addr % 256) as u8]
    } else {
        seq![(addr % 256) as u8, (addr / 256) as u8]
    }
}

#[verifier::opaque]
pub open spec fn transact_spmi16_run(
    io: Io<WdfOp>,
    bus: SpbBus,
    addr: u16,
    value: Option<u8>,
    big_endian: bool,
) -> (Io<WdfOp>, SpbBus, Result<u8, BusError>) {
    if bus.request_lost {
        (io, bus, Err(failure(BusErrorKind::Timeout, LOST_REASON)))
    } else {
        let io = write_frame_run(io, address_bytes(addr, big_endian), value);
        let io = write_list_run(io, buffer_format(bus.variant), 2, value is Some, false);
        execute_run(
            io,
            SpbBus { last_count: transfer_count(value is Some, false), ..bus },
            2,
            value is Some,
            spmi_reasons(),
        )
    }
}

/// A line after a bare request: its status, or a lost request.
pub open spec fn after_request(bus: SpbBus, sent: Option<i32>) -> SpbBus {
    match sent {
        None => SpbBus { request_lost: true, last_status: SEND_FAILED, ..bus },
        Some(status) => SpbBus { last_status: status, ..bus },
    }
}

#[verifier::opaque]
pub open spec fn attach_run(io: Io<WdfOp>, bus: SpbBus) -> (Io<WdfOp>, SpbBus, i32) {
    if bus.request_lost {
        (io, bus, SEND_FAILED)
    } else {
        let (io, formatted) = wdf::attach_frame_run(io, Object::AttachIn).status(
            WdfOp::Format(IOCTL_ATTACH, Some(Object::AttachIn), Some(Object::AttachOut)),
        );
        if formatted < 0 {
            (io, SpbBus { last_status: formatted, ..bus }, formatted)
        } else {
            let (io, sent) = wdf::send_run(io);
            let bus = after_request(bus, sent);
            match sent {
                None => (io, bus, SEND_FAILED),
                Some(status) => if status >= 0 {
                    let (io, reply) = wdf::attach_words_run(io, Object::AttachOut, status);
                    (
                        io.tell(WdfOp::RequestReuse),
                        SpbBus {
                            attach_words: [
                                reply.word0,
                                reply.word1,
                                reply.word2,
                                reply.word3,
                            ],
                            ..bus
                        },
                        status,
                    )
                } else {
                    (io.tell(WdfOp::RequestReuse), bus, status)
                },
            }
        }
    }
}

#[verifier::opaque]
pub open spec fn probe_ioctl_run(io: Io<WdfOp>, bus: SpbBus, code: u32) -> (
    Io<WdfOp>,
    SpbBus,
    i32,
) {
    if bus.request_lost {
        (io, bus, SEND_FAILED)
    } else {
        let (io, formatted) = io.status(WdfOp::Format(code, None, None));
        if formatted < 0 {
            (io, SpbBus { last_status: formatted, ..bus }, formatted)
        } else {
            let (io, sent) = wdf::send_run(io);
            match sent {
                None => (io, after_request(bus, sent), SEND_FAILED),
                Some(status) => (
                    io.tell(WdfOp::RequestReuse),
                    after_request(bus, sent),
                    status,
                ),
            }
        }
    }
}

impl SpbBus {
    /// Opens a line to a connection, through the resource hub or through the
    /// parent's target.
    pub fn open(io: &mut Session<WdfOp>, peripheral_id: u64, use_hub: bool) -> (r: Result<
        SpbBus,
        BusError,
    >)
        ensures
            (final(io)@, r) == open_run(old(io)@, peripheral_id, use_hub),
    {
        match open_target(io, peripheral_id, use_hub) {
            Err(err) => {
                return Err(err);
            },
            Ok(()) => {},
        }
        match create_parts(io) {
            Err(err) => Err(err),
            Ok(()) => Ok(
                SpbBus {
                    peripheral_id,
                    last_status: 0,
                    request_lost: false,
                    variant: VARIANT_OUTPUT_SIMPLE,
                    attach_words: [0, 0, 0, 0],
                    last_count: 0,
                },
            ),
        }
    }

    /// Chooses how lists are written.
    pub fn set_variant(&mut self, variant: u8)
        ensures
            *final(self) == (SpbBus { variant, ..*old(self) }),
    {
        self.variant = variant;
    }

    /// Status of the last finished request.
    pub fn last_status(&self) -> (status: i32)
        ensures
            status == self.last_status,
    {
        self.last_status
    }

    /// The line's connection.
    pub fn peripheral_id(&self) -> (id: u64)
        ensures
            id == self.peripheral_id,
    {
        self.peripheral_id
    }

    /// Its path on the resource hub.
    pub fn path_string(&self) -> (path: [u8; HUB_PATH_CHARS])
        ensures
            hub::is_hub_path(widened(path@)),
            hub::path_id(widened(path@)) == self.peripheral_id,
    {
        let path = resource_hub_path(self.peripheral_id);
        let text = path.as_ascii();
        proof {
            assert forall|i: int| 0 <= i < HUB_PATH_CHARS implies #[trigger] path@[i] <= 0xFF by {
                if i >= hub::RESOURCE_HUB_PREFIX_CHARS {
                    assert(hub::is_hex_digit(path@[i]));
                }
            }
            assert(widened(text@) =~= path@);
        }
        text
    }

    /// The line's name.
    pub fn name(&self) -> (name: &'static str)
        ensures
            name == "spb-i2c",
    {
        "spb-i2c"
    }

    /// Reads a register, or writes it where there is a value. A write answers 0.
    pub fn transact(&mut self, io: &mut Session<WdfOp>, addr: u8, value: Option<u8>) -> (r: Result<
        u8,
        BusError,
    >)
        ensures
            (final(io)@, *final(self), r) == transact_run(old(io)@, *old(self), addr, value),
    {
        proof {
            reveal(transact_run);
        }
        if self.request_lost {
            return Err(failure(BusErrorKind::Timeout, LOST_REASON));
        }
        let terminated = self.variant == VARIANT_TERMINATED;
        let mut address: Vec<u8> = Vec::new();
        address.push(addr);
        assert(address@ =~= seq![addr]);
        write_frame(io, address.as_slice(), value);
        write_list(io, buffer_format(self.variant), 1, value.is_some(), terminated);
        self.last_count = transfer_count(value.is_some(), terminated);
        execute(io, self, 1, value.is_some(), &i2c_reasons())
    }

    /// Reads or writes a register with a 16-bit address.
    pub fn transact_spmi16(
        &mut self,
        io: &mut Session<WdfOp>,
        addr: u16,
        value: Option<u8>,
        big_endian: bool,
    ) -> (r: Result<u8, BusError>)
        ensures
            (final(io)@, *final(self), r) == transact_spmi16_run(
                old(io)@,
                *old(self),
                addr,
                value,
                big_endian,
            ),
    {
        proof {
            reveal(transact_spmi16_run);
        }
        if self.request_lost {
            return Err(failure(BusErrorKind::Timeout, LOST_REASON));
        }
        let mut address: Vec<u8> = Vec::new();
        if big_endian {
            address.push((addr / 256) as u8);
            address.push((addr % 256) as u8);
        } else {
            address.push((addr % 256) as u8);
            address.push((addr / 256) as u8);
        }
        assert(address@ =~= address_bytes(addr, big_endian));
        write_frame(io, address.as_slice(), value);
        write_list(io, buffer_format(self.variant), 2, value.is_some(), false);
        self.last_count = transfer_count(value.is_some(), false);
        execute(io, self, 2, value.is_some(), &spmi_reasons())
    }

    /// Sends the attach request and keeps the first words of its answer.
    pub fn attach(&mut self, io: &mut Session<WdfOp>) -> (status: i32)
        ensures
            (final(io)@, *final(self), status) == attach_run(old(io)@, *old(self)),
    {
        proof {
            reveal(attach_run);
        }
        if self.request_lost {
            return SEND_FAILED;
        }
        attach_frame(io, Object::AttachIn);
        let formatted: i32 = io.status(
            WdfOp::Format(IOCTL_ATTACH, Some(Object::AttachIn), Some(Object::AttachOut)),
        );
        if formatted < 0 {
            self.last_status = formatted;
            return formatted;
        }
        match send(io) {
            None => {
                self.request_lost = true;
                self.last_status = SEND_FAILED;
                SEND_FAILED
            },
            Some(status) => {
                self.last_status = status;
                if status >= 0 {
                    let reply: AttachReply = attach_words(io, Object::AttachOut, status);
                    self.attach_words = [reply.word0, reply.word1, reply.word2, reply.word3];
                }
                io.tell(WdfOp::RequestReuse);
                status
            },
        }
    }

    /// A word of the attach answer; 0 behind the last one.
    pub fn attach_word(&self, index: usize) -> (word: u32)
        ensures
            word == if index < 4 {
                self.attach_words@[index as int]
            } else {
                0
            },
    {
        if index < 4 {
            self.attach_words[index]
        } else {
            0
        }
    }

    /// Sends a bare control code.
    pub fn probe_ioctl(&mut self, io: &mut Session<WdfOp>, code: u32) -> (status: i32)
        ensures
            (final(io)@, *final(self), status) == probe_ioctl_run(old(io)@, *old(self), code),
    {
        proof {
            reveal(probe_ioctl_run);
        }
        if self.request_lost {
            return SEND_FAILED;
        }
        let formatted: i32 = io.status(WdfOp::Format(code, None, None));
        if formatted < 0 {
            self.last_status = formatted;
            return formatted;
        }
        match send(io) {
            None => {
                self.request_lost = true;
                self.last_status = SEND_FAILED;
                SEND_FAILED
            },
            Some(status) => {
                self.last_status = status;
                io.tell(WdfOp::RequestReuse);
                status
            },
        }
    }

    /// Locks the connection.
    pub fn lock_connection(&mut self, io: &mut Session<WdfOp>) -> (status: i32)
        ensures
            (final(io)@, *final(self), status) == probe_ioctl_run(
                old(io)@,
                *old(self),
                IOCTL_SPB_LOCK_CONNECTION,
            ),
    {
        self.probe_ioctl(io, IOCTL_SPB_LOCK_CONNECTION)
    }

    /// Closes the target.
    pub fn close(self, io: &mut Session<WdfOp>)
        ensures
            final(io)@ == old(io)@.tell(WdfOp::TargetClose),
    {
        io.tell(WdfOp::TargetClose);
    }
}

/// A register access that the bus did not answer.
pub open spec fn timed_out(r: Result<u8, BusError>) -> bool {
    r matches Err(err) && err.kind == BusErrorKind::Timeout
}

/// A line whose request was lost makes no framework call at all and stays as it
/// is: the request is never sent again. A register access says that the bus did not
/// answer, the others that nothing was sent. Locking is one of the control codes.
pub proof fn law_lost_request_is_never_sent_again(
    io: Io<WdfOp>,
    bus: SpbBus,
    addr: u8,
    wide: u16,
    value: Option<u8>,
    big_endian: bool,
    code: u32,
)
    requires
        bus.request_lost,
    ensures
        transact_run(io, bus, addr, value).0 == io,
        transact_run(io, bus, addr, value).1 == bus,
        timed_out(transact_run(io, bus, addr, value).2),
        transact_spmi16_run(io, bus, wide, value, big_endian).0 == io,
        transact_spmi16_run(io, bus, wide, value, big_endian).1 == bus,
        timed_out(transact_spmi16_run(io, bus, wide, value, big_endian).2),
        attach_run(io, bus) == (io, bus, SEND_FAILED),
        probe_ioctl_run(io, bus, code) == (io, bus, SEND_FAILED),
        probe_ioctl_run(io, bus, IOCTL_SPB_LOCK_CONNECTION) == (io, bus, SEND_FAILED),
{
    reveal(transact_run);
    reveal(transact_spmi16_run);
    reveal(attach_run);
    reveal(probe_ioctl_run);
}

/// A register access loses the request exactly where it says that the bus did not
/// answer, and fails with that kind nowhere else.
pub proof fn law_request_is_lost_with_a_timeout(
    io: Io<WdfOp>,
    bus: SpbBus,
    addr: u8,
    wide: u16,
    value: Option<u8>,
    big_endian: bool,
)
    requires
        !bus.request_lost,
    ensures
        ({
            let (_, after, r) = transact_run(io, bus, addr, value);
            &&& after.request_lost <==> timed_out(r)
            &&& after.request_lost ==> after.last_status == SEND_FAILED
        }),
        ({
            let (_, after, r) = transact_spmi16_run(io, bus, wide, value, big_endian);
            &&& after.request_lost <==> timed_out(r)
            &&& after.request_lost ==> after.last_status == SEND_FAILED
        }),
{
    reveal(transact_run);
    reveal(transact_spmi16_run);
    reveal(execute_run);
}

/// The other requests lose the request exactly where it was formatted and the bus did
/// not answer, and then say that nothing was sent. Locking is one of the control codes.
pub proof fn law_other_requests_are_lost_unanswered(io: Io<WdfOp>, bus: SpbBus, code: u32)
    requires
        !bus.request_lost,
    ensures
        ({
            let (_, after, status) = attach_run(io, bus);
            let (ready, formatted) = wdf::attach_frame_run(io, Object::AttachIn).status(
                WdfOp::Format(IOCTL_ATTACH, Some(Object::AttachIn), Some(Object::AttachOut)),
            );
            &&& after.request_lost <==> formatted >= 0 && wdf::send_run(ready).1 is None
            &&& after.request_lost ==> status == SEND_FAILED && after.last_status == SEND_FAILED
        }),
        ({
            let (_, after, status) = probe_ioctl_run(io, bus, code);
            let (ready, formatted) = io.status(WdfOp::Format(code, None, None));
            &&& after.request_lost <==> formatted >= 0 && wdf::send_run(ready).1 is None
            &&& after.request_lost ==> status == SEND_FAILED && after.last_status == SEND_FAILED
        }),
{
    reveal(attach_run);
    reveal(probe_ioctl_run);
}

// ---------------------------------------------------------------------------
// Laws of what goes over the line
// ---------------------------------------------------------------------------
/// One transfer of a list, as it is written there.
pub open spec fn transfer_of(
    format: u32,
    direction: u32,
    buffer: Option<usize>,
    length: u32,
) -> SpbTransferListEntry {
    SpbTransferListEntry {
        direction,
        delay_in_us: 0,
        buffer: SpbTransferBuffer {
            format,
            simple: crate::spb_abi::SpbTransferBufferListEntry { buffer, buffer_cb: length },
        },
    }
}

/// The numbers of a list: formats of the variants, transfers of an access, and where
/// they stand.
pub proof fn law_lists_have_their_numbers(variant: u8, write: bool, terminated: bool, index: u32)
    requires
        index < 3,
    ensures
        buffer_format(variant) == if variant == 1 || variant == 5 {
            3u32
        } else {
            1
        },
        transfer_count(write, terminated) == (if write {
            1int
        } else {
            2
        }) + (if terminated {
            1int
        } else {
            0
        }),
        entry_offset(index) == 16 + 32 * index,
{
}

/// A list is a head of 48 bytes with its count and then its transfers: for a write the
/// address and the value out together, for a read the address out and one byte in behind
/// it, and for a terminated one an empty transfer at the end.
pub proof fn law_list_is_written(
    io: Io<WdfOp>,
    format: u32,
    address_len: u32,
    write: bool,
    terminated: bool,
)
    requires
        io.pending is None,
        address_len <= 2,
        write_list_run(io, format, address_len, write, terminated).pending is None,
    ensures
        ({
            let after = write_list_run(io, format, address_len, write, terminated);
            let n: int = if write {
                1
            } else {
                2
            };
            let body = if write {
                seq![
                    WdfOp::PutEntry(
                        16,
                        transfer_of(format, 2, Some(0usize), (address_len + 1) as u32),
                    ),
                ]
            } else {
                seq![
                    WdfOp::PutEntry(16, transfer_of(format, 2, Some(0usize), address_len)),
                    WdfOp::PutEntry(48, transfer_of(format, 1, Some(address_len as usize), 1)),
                ]
            };
            let end = WdfOp::PutEntry((16 + 32 * n) as usize, transfer_of(format, 0, None, 0));
            &&& terminated ==> wdf::called(io, after) == seq![
                WdfOp::PutHead(48, 0, (n + 1) as u32),
            ] + body + seq![end]
            &&& !terminated ==> wdf::called(io, after) == seq![WdfOp::PutHead(48, 0, n as u32)]
                + body
            &&& after.next == io.next + wdf::called(io, after).len()
            &&& after.replies == io.replies
        }),
{
    broadcast use wdf::group_calls;

    reveal(write_list_run);
    wdf::lemma_called_nothing(io);
}

/// A list is executed on the view that it fills. What does not format or fails is an
/// error, what does not come back is lost, and what succeeds answers a read with the
/// byte behind the address. A request that came back is made usable again.
pub proof fn law_list_is_executed(
    io: Io<WdfOp>,
    bus: SpbBus,
    at: usize,
    write: bool,
    why: Reasons,
)
    requires
        io.pending is None,
        execute_run(io, bus, at, write, why).0.pending is None,
    ensures
        ({
            let (after, left, r) = execute_run(io, bus, at, write, why);
            let made = wdf::called(io, after);
            let format = WdfOp::Format(
                0x0004_1808,
                Some(Object::View(bus.last_count as u8)),
                if bus.variant >= 4 {
                    Some(Object::Data)
                } else {
                    None
                },
            );
            let formatted = wdf::status_of(wdf::answer(io, 0));
            let back = wdf::answer(io, 1) == crate::exchange::Reply::Flag(true);
            let status = wdf::status_of(wdf::answer(io, 2));
            &&& formatted < 0 ==> made == seq![format] && left == bus && r is Err && r->Err_0.kind
                == BusErrorKind::Protocol
            &&& formatted >= 0 && !back ==> made == seq![format, WdfOp::Send((-10_000_000) as i64)]
                && left.request_lost && left.last_status == -1 && r is Err && r->Err_0.kind
                == BusErrorKind::Timeout
            &&& formatted >= 0 && back ==> {
                &&& made == seq![
                    format,
                    WdfOp::Send((-10_000_000) as i64),
                    WdfOp::Completed,
                    WdfOp::TakeByte(Object::Data, at),
                    WdfOp::RequestReuse,
                ]
                &&& left.last_status == status && left.request_lost == bus.request_lost
                &&& r is Ok <==> status >= 0
                &&& r is Err ==> r->Err_0.kind == BusErrorKind::Io
                &&& r is Ok && write ==> r->Ok_0 == 0
                &&& r is Ok && !write ==> r->Ok_0 == match wdf::answer(io, 3) {
                    crate::exchange::Reply::Octet(byte) => byte,
                    _ => 0,
                }
            }
        }),
{
    broadcast use wdf::group_calls;

    reveal(execute_run);
    wdf::lemma_called_nothing(io);
}

/// The bytes of a register access: the address, and for a write the value behind it. A
/// wide address goes out high byte first or low byte first, as the line has it.
pub proof fn law_frame_is_written(
    io: Io<WdfOp>,
    addr: u8,
    wide: u16,
    big_endian: bool,
    value: Option<u8>,
)
    requires
        io.pending is None,
    ensures
        ({
            let after = write_frame_run(io, seq![addr], value);
            after.pending is None ==> wdf::called(io, after) == match value {
                Some(byte) => seq![
                    WdfOp::PutByte(Object::Data, 0, addr),
                    WdfOp::PutByte(Object::Data, 1, byte),
                ],
                None => seq![WdfOp::PutByte(Object::Data, 0, addr)],
            }
        }),
        address_bytes(wide, big_endian).len() == 2,
        big_endian ==> 256 * address_bytes(wide, big_endian)[0] + address_bytes(
            wide,
            big_endian,
        )[1] == wide,
        !big_endian ==> 256 * address_bytes(wide, big_endian)[1] + address_bytes(
            wide,
            big_endian,
        )[0] == wide,
{
    broadcast use wdf::group_calls;

    reveal(write_frame_run);
    wdf::lemma_called_nothing(io);
    reveal_with_fuel(wdf::put_bytes_run, 2);
    assert(seq![addr].drop_last() =~= Seq::<u8>::empty());
    assert(seq![addr].last() == addr);
}

/// An access of a line whose request was lost is refused at once. Any other writes its
/// bytes and its list and executes it: for the pump with one address byte, for the PMIC
/// with two.
pub proof fn law_access_is_bytes_list_and_execution(
    io: Io<WdfOp>,
    bus: SpbBus,
    addr: u8,
    wide: u16,
    value: Option<u8>,
    big_endian: bool,
)
    ensures
        ({
            let (after, left, r) = transact_run(io, bus, addr, value);
            let terminated = bus.variant == 3;
            let framed = write_frame_run(io, seq![addr], value);
            let listed = write_list_run(
                framed,
                buffer_format(bus.variant),
                1,
                value is Some,
                terminated,
            );
            let count = SpbBus { last_count: transfer_count(value is Some, terminated), ..bus };
            &&& bus.request_lost ==> after == io && left == bus && r is Err && r->Err_0.kind
                == BusErrorKind::Timeout
            &&& !bus.request_lost ==> (after, left, r) == execute_run(
                listed,
                count,
                1,
                value is Some,
                i2c_reasons(),
            )
        }),
        ({
            let (after, left, r) = transact_spmi16_run(io, bus, wide, value, big_endian);
            let framed = write_frame_run(io, address_bytes(wide, big_endian), value);
            let listed = write_list_run(
                framed,
                buffer_format(bus.variant),
                2,
                value is Some,
                false,
            );
            let count = SpbBus { last_count: transfer_count(value is Some, false), ..bus };
            &&& bus.request_lost ==> after == io && left == bus && r is Err && r->Err_0.kind
                == BusErrorKind::Timeout
            &&& !bus.request_lost ==> (after, left, r) == execute_run(
                listed,
                count,
                2,
                value is Some,
                spmi_reasons(),
            )
        }),
{
    reveal(transact_run);
    reveal(transact_spmi16_run);
}

/// A line over the hub is a target that is created and opened on its connection; one
/// over the parent needs a parent.
pub proof fn law_line_is_opened(io: Io<WdfOp>, peripheral_id: u64, use_hub: bool)
    requires
        io.pending is None,
        open_target_run(io, peripheral_id, use_hub).0.pending is None,
    ensures
        ({
            let (after, r) = open_target_run(io, peripheral_id, use_hub);
            let created = wdf::status_of(wdf::answer(io, 0));
            let opened = wdf::status_of(wdf::answer(io, 1));
            &&& use_hub ==> {
                &&& r is Ok <==> created >= 0 && opened >= 0
                &&& created < 0 ==> wdf::called(io, after) == seq![WdfOp::TargetCreate]
                &&& created >= 0 ==> wdf::called(io, after).len() == 2 && wdf::called(io, after)[1]
                    is TargetOpen && wdf::called(io, after)[1]->TargetOpen_access == 0x001F_01FF
                    && wdf::called(io, after)[1]->TargetOpen_share == 0 && wdf::called(
                    io,
                    after,
                )[1]->TargetOpen_name == TargetName::Hub(peripheral_id)
            }
            &&& !use_hub ==> wdf::called(io, after) == seq![WdfOp::TargetParent] && (r is Ok <==> (
            wdf::answer(io, 0) == crate::exchange::Reply::Flag(true)))
            &&& r is Err ==> r->Err_0.kind == BusErrorKind::Io
        }),
{
    broadcast use wdf::group_calls;

    reveal(open_target_run);
    wdf::lemma_called_nothing(io);
}

/// A fresh line has its connection, no failure and plain buffers.
pub proof fn law_fresh_line_is_usable(peripheral_id: u64)
    ensures
        ({
            let bus = fresh_line(peripheral_id);
            bus.peripheral_id == peripheral_id && bus.last_status == 0 && !bus.request_lost
                && bus.variant == 0 && bus.last_count == 0
        }),
{
}

/// The parts of a line are its request, the list with a view for one, two and three
/// transfers, the two buffers of an attach and the data; none is made after one that
/// could not be.
pub proof fn law_line_has_its_parts(io: Io<WdfOp>)
    requires
        io.pending is None,
        create_parts_run(io).0.pending is None,
    ensures
        ({
            let (after, r) = create_parts_run(io);
            let parts = seq![
                WdfOp::RequestCreate,
                WdfOp::MemoryCreate(Object::Area, 112),
                WdfOp::ViewCreate(Object::View(1), 48),
                WdfOp::ViewCreate(Object::View(2), 80),
                WdfOp::ViewCreate(Object::View(3), 112),
                WdfOp::MemoryCreate(Object::AttachIn, 8),
                WdfOp::MemoryCreate(Object::AttachOut, 1024),
                WdfOp::MemoryCreate(Object::Data, 8),
            ];
            let n = wdf::called(io, after).len();
            &&& n <= 8 && wdf::called(io, after) == parts.take(n as int)
            &&& r is Ok <==> n == 8 && wdf::status_of(wdf::answer(io, 7)) >= 0
            &&& forall|i: int|
                0 <= i < n - 1 ==> wdf::status_of(#[trigger] wdf::answer(io, i)) >= 0
            &&& r is Err ==> r->Err_0.kind == BusErrorKind::Unsupported && wdf::status_of(
                wdf::answer(io, n - 1),
            ) < 0
        }),
{
    broadcast use wdf::group_calls;

    reveal(create_parts_run);
    wdf::lemma_called_nothing(io);
    lemma_area_sizes();
    let n = wdf::called(io, create_parts_run(io).0).len();
    let parts = seq![
        WdfOp::RequestCreate,
        WdfOp::MemoryCreate(Object::Area, 112),
        WdfOp::ViewCreate(Object::View(1), 48),
        WdfOp::ViewCreate(Object::View(2), 80),
        WdfOp::ViewCreate(Object::View(3), 112),
        WdfOp::MemoryCreate(Object::AttachIn, 8),
        WdfOp::MemoryCreate(Object::AttachOut, 1024),
        WdfOp::MemoryCreate(Object::Data, 8),
    ];
    assert(wdf::called(io, create_parts_run(io).0) =~= parts.take(n as int));
}

proof fn lemma_area_sizes()
    ensures
        SpbTransferList::area_size(1) == 48,
        SpbTransferList::area_size(2) == 80,
        SpbTransferList::area_size(3) == 112,
{
    crate::spb_abi::law_area_sizes(1, 2);
}

/// An attach of a line is refused after a lost request. Any other puts its two words,
/// formats, sends and keeps four words of an answer that succeeded. A request that came
/// back is made usable again.
pub proof fn law_line_is_attached(io: Io<WdfOp>, bus: SpbBus)
    requires
        io.pending is None,
        attach_run(io, bus).0.pending is None,
        !bus.request_lost,
    ensures
        ({
            let (after, left, r) = attach_run(io, bus);
            let made = wdf::called(io, after);
            let first = seq![
                WdfOp::PutWord(Object::AttachIn, 0, crate::spb_abi::ATTACH_MAGIC),
                WdfOp::PutWord(Object::AttachIn, 4, 1),
                WdfOp::Format(0x0032_C004, Some(Object::AttachIn), Some(Object::AttachOut)),
            ];
            let sent = seq![WdfOp::Send((-10_000_000) as i64), WdfOp::Completed];
            let words = seq![
                WdfOp::TakeWord(Object::AttachOut, 0),
                WdfOp::TakeWord(Object::AttachOut, 4),
                WdfOp::TakeWord(Object::AttachOut, 8),
                WdfOp::TakeWord(Object::AttachOut, 12),
            ];
            let formatted = wdf::status_of(wdf::answer(io, 2));
            let back = wdf::answer(io, 3) == crate::exchange::Reply::Flag(true);
            let status = wdf::status_of(wdf::answer(io, 4));
            &&& formatted < 0 ==> r == formatted && made == first && !left.request_lost
            &&& formatted >= 0 && !back ==> r == -1 && left.request_lost
            &&& formatted >= 0 && back ==> r == status && left.last_status == status
                && !left.request_lost
            &&& formatted >= 0 && back && status < 0 ==> made == first + sent + seq![
                WdfOp::RequestReuse,
            ] && left.attach_words == bus.attach_words
            &&& formatted >= 0 && back && status >= 0 ==> made == first + sent + words + seq![
                WdfOp::RequestReuse,
            ] && forall|i: int|
                0 <= i < 4 ==> #[trigger] left.attach_words[i] == match wdf::answer(io, 5 + i) {
                    crate::exchange::Reply::Word(word) => word,
                    _ => 0,
                }
        }),
{
    broadcast use wdf::group_calls;

    reveal(attach_run);
    reveal(wdf::attach_frame_run);
    reveal(wdf::attach_words_run);
    wdf::lemma_called_nothing(io);
}

/// A bare code is formatted without buffers and sent; a request that came back is made
/// usable again.
pub proof fn law_bare_code_is_sent(io: Io<WdfOp>, bus: SpbBus, code: u32)
    requires
        io.pending is None,
        probe_ioctl_run(io, bus, code).0.pending is None,
        !bus.request_lost,
    ensures
        ({
            let (after, left, r) = probe_ioctl_run(io, bus, code);
            let made = wdf::called(io, after);
            let formatted = wdf::status_of(wdf::answer(io, 0));
            let back = wdf::answer(io, 1) == crate::exchange::Reply::Flag(true);
            let status = wdf::status_of(wdf::answer(io, 2));
            let format = WdfOp::Format(code, None, None);
            let send = WdfOp::Send((-10_000_000) as i64);
            &&& formatted < 0 ==> r == formatted && made == seq![format] && !left.request_lost
            &&& formatted >= 0 && !back ==> r == -1 && made == seq![format, send]
                && left.request_lost
            &&& formatted >= 0 && back ==> r == status && !left.request_lost && made == seq![
                format,
                send,
                WdfOp::Completed,
                WdfOp::RequestReuse,
            ]
        }),
{
    broadcast use wdf::group_calls;

    reveal(probe_ioctl_run);
    wdf::lemma_called_nothing(io);
}

/// A line is there where its target opened and all its parts were made.
pub proof fn law_line_needs_target_and_parts(io: Io<WdfOp>, peripheral_id: u64, use_hub: bool)
    ensures
        ({
            let (after, r) = open_run(io, peripheral_id, use_hub);
            let (targeted, target) = open_target_run(io, peripheral_id, use_hub);
            &&& r is Ok <==> target is Ok && create_parts_run(targeted).1 is Ok
            &&& target is Err ==> after == targeted
            &&& target is Ok ==> after == create_parts_run(targeted).0
            &&& r is Ok ==> r->Ok_0.peripheral_id == peripheral_id && !r->Ok_0.request_lost
                && r->Ok_0.variant == 0
        }),
{
    reveal(open_run);
}

} // verus!
