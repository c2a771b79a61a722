//! Requests to the driver framework's I/O targets.
//!
//! A conversation with a target is made of framework calls: create and open it,
//! create a request and its buffers, fill them, format the request, send it,
//! look at its status, read the buffers, delete what was created.
use crate::exchange::{AttachReply, Reply};
use crate::session::{Event, Io, Session};
use crate::spb_abi::{
    entry_init, SpbTransferList, SpbTransferListEntry, ATTACH_MAGIC, ATTACH_REPLY_LEN,
    IOCTL_ATTACH, IOCTL_SPB_EXECUTE_SEQUENCE, SPB_DIRECTION_FROM_DEVICE, SPB_DIRECTION_TO_DEVICE,
};
use vstd::prelude::*;

verus! {

/// Patience for one request, relative, in units of 100 ns.
pub const SPB_TIMEOUT_100NS: i64 = -10_000_000;

/// Length of the attach request.
pub const ATTACH_INPUT_LEN: usize = 8;

/// Length of a line's data buffer.
pub const DATA_LEN: usize = 8;

/// What a vanished request or target is reported as.
pub const SEND_FAILED: i32 = -1;

/// What a missing parent target is reported as.
pub const NO_PARENT: i32 = -3;

/// A framework object.
#[derive(Debug, Clone, Copy, PartialEq, Eq, Structural)]
pub enum Object {
    /// The target.
    Target,
    /// The request.
    Request,
    /// Memory for a transfer list.
    Area,
    /// A view of the first transfers of that memory.
    View(u8),
    /// Memory of the attach request.
    AttachIn,
    /// Memory of its answer.
    AttachOut,
    /// Memory for the bytes on the wire.
    Data,
    /// Memory of a request's input.
    Input,
    /// Memory of a request's output.
    Output,
}

/// The name of a target.
#[derive(Debug, Clone, Copy)]
pub enum TargetName {
    /// A connection of the resource hub.
    Hub(u64),
    /// A device by its name.
    Device(&'static str),
}

/// A framework call.
#[derive(Debug, Clone, Copy)]
pub enum WdfOp {
    /// Create a target.
    TargetCreate,
    /// Use the parent's target; whether there is one.
    TargetParent,
    /// Open the target.
    TargetOpen {
        /// Its name.
        name: TargetName,
        /// Access mask.
        access: u32,
        /// Share mask.
        share: u32,
        /// Create options.
        options: u32,
    },
    /// Close the target.
    TargetClose,
    /// Create a request on the target.
    RequestCreate,
    /// Make the request usable again.
    RequestReuse,
    /// Create memory of a size.
    MemoryCreate(Object, usize),
    /// Create a view of the transfer list's first bytes.
    ViewCreate(Object, usize),
    /// Delete an object.
    Delete(Object),
    /// Write one byte.
    PutByte(Object, usize, u8),
    /// Write one word.
    PutWord(Object, usize, u32),
    /// Write the head of the transfer list: size, reserved, count.
    PutHead(u32, u32, u32),
    /// Write a transfer at an offset of the transfer list.
    PutEntry(usize, SpbTransferListEntry),
    /// Fill memory with a byte.
    Fill(Object, usize, u8),
    /// Format the request for a control code, with input and output memory.
    Format(u32, Option<Object>, Option<Object>),
    /// Send the request and wait so long; whether it came back.
    Send(i64),
    /// Status of the request.
    Completed,
    /// Read one byte.
    TakeByte(Object, usize),
    /// Read one word.
    TakeWord(Object, usize),
}

// ---------------------------------------------------------------------------
// What is alive
// ---------------------------------------------------------------------------
/// The objects that are alive after one more answered call.
pub open spec fn live_step(live: Set<Object>, op: WdfOp, reply: Reply) -> Set<Object> {
    match op {
        WdfOp::TargetCreate => if reply matches Reply::Status(s) && s >= 0 {
            live.insert(Object::Target)
        } else {
            live
        },
        WdfOp::RequestCreate => if reply matches Reply::Status(s) && s >= 0 {
            live.insert(Object::Request)
        } else {
            live
        },
        WdfOp::MemoryCreate(object, _) => if reply matches Reply::Status(s) && s >= 0 {
            live.insert(object)
        } else {
            live
        },
        WdfOp::Delete(object) => live.remove(object),
        _ => live,
    }
}

/// The objects that are alive after the answered calls of a session.
pub open spec fn live_after(log: Seq<Event<WdfOp>>, replies: Seq<Reply>) -> Set<Object>
    decreases log.len(),
{
    if log.len() == 0 {
        Set::empty()
    } else {
        let before = live_after(log.drop_last(), replies);
        match log.last() {
            Event::Did(op) => live_step(before, op, replies[log.len() - 1]),
            _ => before,
        }
    }
}

/// The objects that are alive in a session of framework calls.
pub open spec fn live(io: Io<WdfOp>) -> Set<Object> {
    live_after(io.log, io.replies)
}

/// A session that logged nothing but its answered calls.
pub open spec fn aligned(io: Io<WdfOp>) -> bool {
    io.log.len() == io.next && io.next <= io.replies.len()
}

/// One answered call moves what is alive by one step.
pub broadcast proof fn lemma_live_ask(io: Io<WdfOp>, op: WdfOp)
    requires
        aligned(io),
    ensures
        aligned((#[trigger] io.ask(op)).0),
        io.ask(op).0.pending is None ==> live(io.ask(op).0) == live_step(
            live(io),
            op,
            io.ask(op).1,
        ),
{
    let after = io.ask(op).0;
    if after.pending is None {
        assert(after.log.drop_last() == io.log);
    }
}

// ---------------------------------------------------------------------------
// One request
// ---------------------------------------------------------------------------
/// What came of one request.
#[derive(Debug)]
pub struct Exchanged {
    /// Whether request and buffers could be made.
    pub made: bool,
    /// Its status.
    pub status: i32,
    /// What it read.
    pub output: Vec<u8>,
}

/// The mathematical view of [`Exchanged`].
#[verifier::ext_equal]
pub struct Exchange {
    /// Whether request and buffers could be made.
    pub made: bool,
    /// Its status.
    pub status: i32,
    /// What it read.
    pub output: Seq<u8>,
}

impl View for Exchanged {
    type V = Exchange;

    open spec fn view(&self) -> Exchange {
        Exchange { made: self.made, status: self.status, output: self.output@ }
    }
}

pub open spec fn put_bytes_run(io: Io<WdfOp>, object: Object, bytes: Seq<u8>) -> Io<WdfOp>
    decreases bytes.len(),
{
    if bytes.len() == 0 {
        io
    } else {
        put_bytes_run(io, object, bytes.drop_last()).tell(
            WdfOp::PutByte(object, (bytes.len() - 1) as usize, bytes.last()),
        )
    }
}

/// Writes bytes into memory.
pub fn put_bytes(io: &mut Session<WdfOp>, object: Object, bytes: &[u8])
    ensures
        final(io)@ == put_bytes_run(old(io)@, object, bytes@),
{
    let mut index: usize = 0;
    while index < bytes.len()
        invariant
            index <= bytes@.len(),
            io@ == put_bytes_run(old(io)@, object, bytes@.take(index as int)),
        decreases bytes@.len() - index,
    {
        assert(bytes@.take(index + 1).drop_last() == bytes@.take(index as int));
        io.tell(WdfOp::PutByte(object, index, bytes[index]));
        index = index + 1;
    }
    assert(bytes@.take(index as int) == bytes@);
}

pub open spec fn take_bytes_run(io: Io<WdfOp>, object: Object, count: nat) -> (
    Io<WdfOp>,
    Seq<u8>,
)
    decreases count,
{
    if count == 0 {
        (io, Seq::empty())
    } else {
        let (io, bytes) = take_bytes_run(io, object, (count - 1) as nat);
        let (io, byte) = io.octet(WdfOp::TakeByte(object, (count - 1) as usize));
        (io, bytes.push(byte))
    }
}

/// Reads bytes from memory.
pub fn take_bytes(io: &mut Session<WdfOp>, object: Object, count: usize) -> (bytes: Vec<u8>)
    ensures
        (final(io)@, bytes@) == take_bytes_run(old(io)@, object, count as nat),
        bytes@.len() == count,
{
    let mut bytes: Vec<u8> = Vec::new();
    while bytes.len() < count
        invariant
            bytes@.len() <= count,
            (io@, bytes@) == take_bytes_run(old(io)@, object, bytes@.len()),
        decreases count - bytes@.len(),
    {
        let byte: u8 = io.octet(WdfOp::TakeByte(object, bytes.len()));
        bytes.push(byte);
    }
    bytes
}

pub open spec fn send_run(io: Io<WdfOp>) -> (Io<WdfOp>, Option<i32>) {
    let (io, sent) = io.flag(WdfOp::Send(SPB_TIMEOUT_100NS));
    if sent {
        let (io, status) = io.status(WdfOp::Completed);
        (io, Some(status))
    } else {
        (io, None)
    }
}

/// Sends the request; its status, if it came back.
pub fn send(io: &mut Session<WdfOp>) -> (status: Option<i32>)
    ensures
        (final(io)@, status) == send_run(old(io)@),
{
    if io.flag(WdfOp::Send(SPB_TIMEOUT_100NS)) {
        Some(io.status(WdfOp::Completed))
    } else {
        None
    }
}

#[verifier::opaque]
pub open spec fn converse_run(io: Io<WdfOp>, code: u32, out_len: nat) -> (Io<WdfOp>, Exchange) {
    let io = if out_len > 0 {
        io.tell(WdfOp::Fill(Object::Output, out_len as usize, 0xFF))
    } else {
        io
    };
    let (io, formatted) = io.status(
        WdfOp::Format(
            code,
            Some(Object::Input),
            if out_len > 0 {
                Some(Object::Output)
            } else {
                None
            },
        ),
    );
    if formatted < 0 {
        (io, Exchange { made: true, status: formatted, output: Seq::empty() })
    } else {
        let (io, sent) = send_run(io);
        match sent {
            None => (io, Exchange { made: true, status: SEND_FAILED, output: Seq::empty() }),
            Some(status) => if status < 0 {
                (io, Exchange { made: true, status, output: Seq::empty() })
            } else {
                let (io, output) = take_bytes_run(io, Object::Output, out_len);
                (io, Exchange { made: true, status, output })
            },
        }
    }
}

/// Clears the output, sends the request and reads what it answered.
fn converse(io: &mut Session<WdfOp>, code: u32, out_len: usize) -> (r: Exchanged)
    ensures
        (final(io)@, r@) == converse_run(old(io)@, code, out_len as nat),
        r@.status >= 0 ==> r@.output.len() == out_len,
{
    proof {
        reveal(converse_run);
    }
    if out_len > 0 {
        io.tell(WdfOp::Fill(Object::Output, out_len, 0xFF));
    }
    let out = if out_len > 0 {
        Some(Object::Output)
    } else {
        None
    };
    let formatted: i32 = io.status(WdfOp::Format(code, Some(Object::Input), out));
    if formatted < 0 {
        return Exchanged { made: true, status: formatted, output: Vec::new() };
    }
    match send(io) {
        None => Exchanged { made: true, status: SEND_FAILED, output: Vec::new() },
        Some(status) => {
            if status < 0 {
                return Exchanged { made: true, status, output: Vec::new() };
            }
            let output = take_bytes(io, Object::Output, out_len);
            Exchanged { made: true, status, output }
        },
    }
}

#[verifier::opaque]
pub open spec fn exchange_run(io: Io<WdfOp>, code: u32, input: Seq<u8>, out_len: nat) -> (
    Io<WdfOp>,
    Exchange,
) {
    let (io, request) = io.status(WdfOp::RequestCreate);
    if request < 0 {
        (io, Exchange { made: false, status: request, output: Seq::empty() })
    } else {
        let (io, memory) = io.status(WdfOp::MemoryCreate(Object::Input, input.len() as usize));
        if memory < 0 {
            (
                io.tell(WdfOp::Delete(Object::Request)),
                Exchange { made: false, status: memory, output: Seq::empty() },
            )
        } else {
            let io = put_bytes_run(io, Object::Input, input);
            let (io, room) = if out_len > 0 {
                io.status(WdfOp::MemoryCreate(Object::Output, out_len as usize))
            } else {
                (io, 0)
            };
            if room < 0 {
                (
                    io.tell(WdfOp::Delete(Object::Input)).tell(WdfOp::Delete(Object::Request)),
                    Exchange { made: false, status: room, output: Seq::empty() },
                )
            } else {
                let (io, r) = converse_run(io, code, out_len);
                let io = if out_len > 0 {
                    io.tell(WdfOp::Delete(Object::Output))
                } else {
                    io
                };
                (
                    io.tell(WdfOp::Delete(Object::Input)).tell(WdfOp::Delete(Object::Request)),
                    r,
                )
            }
        }
    }
}

/// One request with input and, where asked for, output. The input is written before
/// the output is made. Whatever it creates it deletes.
pub fn exchange(io: &mut Session<WdfOp>, code: u32, input: &[u8], out_len: usize) -> (r: Exchanged)
    ensures
        (final(io)@, r@) == exchange_run(old(io)@, code, input@, out_len as nat),
        r@.status >= 0 ==> r@.output.len() == out_len,
{
    proof {
        reveal(exchange_run);
    }
    let request: i32 = io.status(WdfOp::RequestCreate);
    if request < 0 {
        return Exchanged { made: false, status: request, output: Vec::new() };
    }
    let memory: i32 = io.status(WdfOp::MemoryCreate(Object::Input, input.len()));
    if memory < 0 {
        io.tell(WdfOp::Delete(Object::Request));
        return Exchanged { made: false, status: memory, output: Vec::new() };
    }
    put_bytes(io, Object::Input, input);
    if out_len > 0 {
        let room: i32 = io.status(WdfOp::MemoryCreate(Object::Output, out_len));
        if room < 0 {
            io.tell(WdfOp::Delete(Object::Input));
            io.tell(WdfOp::Delete(Object::Request));
            return Exchanged { made: false, status: room, output: Vec::new() };
        }
    }
    let r = converse(io, code, out_len);
    if out_len > 0 {
        io.tell(WdfOp::Delete(Object::Output));
    }
    io.tell(WdfOp::Delete(Object::Input));
    io.tell(WdfOp::Delete(Object::Request));
    r
}

#[verifier::opaque]
pub open spec fn roomy_exchange_run(io: Io<WdfOp>, code: u32, input: Seq<u8>, out_len: nat) -> (
    Io<WdfOp>,
    Exchange,
) {
    let (io, request) = io.status(WdfOp::RequestCreate);
    if request < 0 {
        (io, Exchange { made: false, status: request, output: Seq::empty() })
    } else {
        let (io, memory) = io.status(WdfOp::MemoryCreate(Object::Input, input.len() as usize));
        if memory < 0 {
            (
                io.tell(WdfOp::Delete(Object::Request)),
                Exchange { made: false, status: memory, output: Seq::empty() },
            )
        } else {
            let (io, room) = io.status(WdfOp::MemoryCreate(Object::Output, out_len as usize));
            if room < 0 {
                (
                    io.tell(WdfOp::Delete(Object::Input)).tell(WdfOp::Delete(Object::Request)),
                    Exchange { made: false, status: room, output: Seq::empty() },
                )
            } else {
                let (io, r) = converse_run(
                    put_bytes_run(io, Object::Input, input),
                    code,
                    out_len,
                );
                (
                    io.tell(WdfOp::Delete(Object::Output))
                        .tell(WdfOp::Delete(Object::Input))
                        .tell(WdfOp::Delete(Object::Request)),
                    r,
                )
            }
        }
    }
}

/// One request with input and output. Both buffers are there before the first is
/// written. Whatever it creates it deletes.
pub fn roomy_exchange(io: &mut Session<WdfOp>, code: u32, input: &[u8], out_len: usize) -> (r:
    Exchanged)
    ensures
        (final(io)@, r@) == roomy_exchange_run(old(io)@, code, input@, out_len as nat),
        r@.status >= 0 ==> r@.output.len() == out_len,
{
    proof {
        reveal(roomy_exchange_run);
    }
    let request: i32 = io.status(WdfOp::RequestCreate);
    if request < 0 {
        return Exchanged { made: false, status: request, output: Vec::new() };
    }
    let memory: i32 = io.status(WdfOp::MemoryCreate(Object::Input, input.len()));
    if memory < 0 {
        io.tell(WdfOp::Delete(Object::Request));
        return Exchanged { made: false, status: memory, output: Vec::new() };
    }
    let room: i32 = io.status(WdfOp::MemoryCreate(Object::Output, out_len));
    if room < 0 {
        io.tell(WdfOp::Delete(Object::Input));
        io.tell(WdfOp::Delete(Object::Request));
        return Exchanged { made: false, status: room, output: Vec::new() };
    }
    put_bytes(io, Object::Input, input);
    let r = converse(io, code, out_len);
    io.tell(WdfOp::Delete(Object::Output));
    io.tell(WdfOp::Delete(Object::Input));
    io.tell(WdfOp::Delete(Object::Request));
    r
}

proof fn lemma_put_bytes_keeps_live(io: Io<WdfOp>, object: Object, bytes: Seq<u8>)
    requires
        aligned(io),
    ensures
        aligned(put_bytes_run(io, object, bytes)),
        io.pending is Some ==> put_bytes_run(io, object, bytes).pending is Some,
        put_bytes_run(io, object, bytes).pending is None ==> live(
            put_bytes_run(io, object, bytes),
        ) == live(io),
    decreases bytes.len(),
{
    broadcast use lemma_live_ask;

    if bytes.len() > 0 {
        lemma_put_bytes_keeps_live(io, object, bytes.drop_last());
    }
}

proof fn lemma_take_bytes_keeps_live(io: Io<WdfOp>, object: Object, count: nat)
    requires
        aligned(io),
    ensures
        aligned(take_bytes_run(io, object, count).0),
        io.pending is Some ==> take_bytes_run(io, object, count).0.pending is Some,
        take_bytes_run(io, object, count).0.pending is None ==> live(
            take_bytes_run(io, object, count).0,
        ) == live(io),
    decreases count,
{
    broadcast use lemma_live_ask;

    if count > 0 {
        lemma_take_bytes_keeps_live(io, object, (count - 1) as nat);
    }
}

proof fn lemma_converse_keeps_live(io: Io<WdfOp>, code: u32, out_len: nat)
    requires
        aligned(io),
    ensures
        aligned(converse_run(io, code, out_len).0),
        io.pending is Some ==> converse_run(io, code, out_len).0.pending is Some,
        converse_run(io, code, out_len).0.pending is None ==> live(
            converse_run(io, code, out_len).0,
        ) == live(io),
{
    broadcast use lemma_live_ask;

    reveal(converse_run);
    let io = if out_len > 0 {
        io.tell(WdfOp::Fill(Object::Output, out_len as usize, 0xFF))
    } else {
        io
    };
    let (io, formatted) = io.status(
        WdfOp::Format(
            code,
            Some(Object::Input),
            if out_len > 0 {
                Some(Object::Output)
            } else {
                None
            },
        ),
    );
    let (io, sent) = send_run(io);
    lemma_take_bytes_keeps_live(io, Object::Output, out_len);
}

/// A finished exchange leaves nothing alive that was not alive before it, on any
/// path: success, failure of the request, or failure to create one of its parts.
pub proof fn law_exchange_leaks_nothing(io: Io<WdfOp>, code: u32, input: Seq<u8>, out_len: nat)
    requires
        aligned(io),
        !live(io).contains(Object::Request),
        !live(io).contains(Object::Input),
        !live(io).contains(Object::Output),
    ensures
        aligned(exchange_run(io, code, input, out_len).0),
        io.pending is Some ==> exchange_run(io, code, input, out_len).0.pending is Some,
        exchange_run(io, code, input, out_len).0.pending is None ==> live(
            exchange_run(io, code, input, out_len).0,
        ) == live(io),
{
    broadcast use lemma_live_ask;

    reveal(exchange_run);
    let start = live(io);
    let (io1, request) = io.status(WdfOp::RequestCreate);
    if request >= 0 {
        let (io2, memory) = io1.status(WdfOp::MemoryCreate(Object::Input, input.len() as usize));
        if memory >= 0 {
            lemma_put_bytes_keeps_live(io2, Object::Input, input);
            let io3 = put_bytes_run(io2, Object::Input, input);
            let (io4, room) = if out_len > 0 {
                io3.status(WdfOp::MemoryCreate(Object::Output, out_len as usize))
            } else {
                (io3, 0)
            };
            if room >= 0 {
                lemma_converse_keeps_live(io4, code, out_len);
                let (io5, r) = converse_run(io4, code, out_len);
                assert(io5.pending is None ==> live(io5) == live(io4));
            }
        }
    }
    assert(start.insert(Object::Request).remove(Object::Request) =~= start);
    assert(start.insert(Object::Request).insert(Object::Input).remove(Object::Input).remove(
        Object::Request,
    ) =~= start);
    assert(start.insert(Object::Request).insert(Object::Input).insert(Object::Output).remove(
        Object::Output,
    ).remove(Object::Input).remove(Object::Request) =~= start);
}

/// A finished exchange with both buffers made first leaves nothing alive that was not
/// alive before it, on any path.
pub proof fn law_roomy_exchange_leaks_nothing(
    io: Io<WdfOp>,
    code: u32,
    input: Seq<u8>,
    out_len: nat,
)
    requires
        aligned(io),
        !live(io).contains(Object::Request),
        !live(io).contains(Object::Input),
        !live(io).contains(Object::Output),
    ensures
        aligned(roomy_exchange_run(io, code, input, out_len).0),
        io.pending is Some ==> roomy_exchange_run(io, code, input, out_len).0.pending is Some,
        roomy_exchange_run(io, code, input, out_len).0.pending is None ==> live(
            roomy_exchange_run(io, code, input, out_len).0,
        ) == live(io),
{
    broadcast use lemma_live_ask;

    reveal(roomy_exchange_run);
    let start = live(io);
    let (io1, request) = io.status(WdfOp::RequestCreate);
    if request >= 0 {
        let (io2, memory) = io1.status(WdfOp::MemoryCreate(Object::Input, input.len() as usize));
        if memory >= 0 {
            let (io3, room) = io2.status(WdfOp::MemoryCreate(Object::Output, out_len as usize));
            if room >= 0 {
                lemma_put_bytes_keeps_live(io3, Object::Input, input);
                let io4 = put_bytes_run(io3, Object::Input, input);
                lemma_converse_keeps_live(io4, code, out_len);
                let (io5, r) = converse_run(io4, code, out_len);
                assert(io5.pending is None ==> live(io5) == live(io3));
            }
        }
    }
    assert(start.insert(Object::Request).remove(Object::Request) =~= start);
    assert(start.insert(Object::Request).insert(Object::Input).remove(Object::Input).remove(
        Object::Request,
    ) =~= start);
    assert(start.insert(Object::Request).insert(Object::Input).insert(Object::Output).remove(
        Object::Output,
    ).remove(Object::Input).remove(Object::Request) =~= start);
}

// ---------------------------------------------------------------------------
// Probes of the parent's target
// ---------------------------------------------------------------------------
#[verifier::opaque]
pub open spec fn attach_frame_run(io: Io<WdfOp>, input: Object) -> Io<WdfOp> {
    io.tell(WdfOp::PutWord(input, 0, ATTACH_MAGIC)).tell(WdfOp::PutWord(input, 4, 1))
}

/// Writes the attach request.
pub fn attach_frame(io: &mut Session<WdfOp>, input: Object)
    ensures
        final(io)@ == attach_frame_run(old(io)@, input),
{
    proof {
        reveal(attach_frame_run);
    }
    io.tell(WdfOp::PutWord(input, 0, ATTACH_MAGIC));
    io.tell(WdfOp::PutWord(input, 4, 1));
}

#[verifier::opaque]
pub open spec fn attach_words_run(io: Io<WdfOp>, output: Object, status: i32) -> (
    Io<WdfOp>,
    AttachReply,
) {
    let (io, word0) = io.word(WdfOp::TakeWord(output, 0));
    let (io, word1) = io.word(WdfOp::TakeWord(output, 4));
    let (io, word2) = io.word(WdfOp::TakeWord(output, 8));
    let (io, word3) = io.word(WdfOp::TakeWord(output, 12));
    (io, AttachReply { status, word0, word1, word2, word3 })
}

/// Reads the first words of the attach answer.
pub fn attach_words(io: &mut Session<WdfOp>, output: Object, status: i32) -> (r: AttachReply)
    ensures
        (final(io)@, r) == attach_words_run(old(io)@, output, status),
{
    proof {
        reveal(attach_words_run);
    }
    let word0: u32 = io.word(WdfOp::TakeWord(output, 0));
    let word1: u32 = io.word(WdfOp::TakeWord(output, 4));
    let word2: u32 = io.word(WdfOp::TakeWord(output, 8));
    let word3: u32 = io.word(WdfOp::TakeWord(output, 12));
    AttachReply { status, word0, word1, word2, word3 }
}

#[verifier::opaque]
pub open spec fn publish_words_run(io: Io<WdfOp>) -> Io<WdfOp> {
    let (io, word0) = io.word(WdfOp::TakeWord(Object::AttachOut, 0));
    let (io, word1) = io.mark("Par0", word0).word(WdfOp::TakeWord(Object::AttachOut, 4));
    let (io, word2) = io.mark("Par1", word1).word(WdfOp::TakeWord(Object::AttachOut, 8));
    let (io, word3) = io.mark("Par2", word2).word(WdfOp::TakeWord(Object::AttachOut, 12));
    io.mark("Par3", word3)
}

/// Publishes the first words of the parent's answer, each as it is read.
fn publish_words(io: &mut Session<WdfOp>)
    ensures
        final(io)@ == publish_words_run(old(io)@),
{
    proof {
        reveal(publish_words_run);
    }
    let word0: u32 = io.word(WdfOp::TakeWord(Object::AttachOut, 0));
    io.mark("Par0", word0);
    let word1: u32 = io.word(WdfOp::TakeWord(Object::AttachOut, 4));
    io.mark("Par1", word1);
    let word2: u32 = io.word(WdfOp::TakeWord(Object::AttachOut, 8));
    io.mark("Par2", word2);
    let word3: u32 = io.word(WdfOp::TakeWord(Object::AttachOut, 12));
    io.mark("Par3", word3);
}

#[verifier::opaque]
pub open spec fn attach_parent_run(io: Io<WdfOp>) -> (Io<WdfOp>, i32) {
    let (io, formatted) = attach_frame_run(io, Object::AttachIn).status(
        WdfOp::Format(IOCTL_ATTACH, Some(Object::AttachIn), Some(Object::AttachOut)),
    );
    if formatted < 0 {
        (io, formatted)
    } else {
        let (io, sent) = send_run(io);
        match sent {
            None => (io, SEND_FAILED),
            Some(status) => {
                let io = if status >= 0 {
                    publish_words_run(io)
                } else {
                    io
                };
                (
                    io.tell(WdfOp::Delete(Object::Request))
                        .tell(WdfOp::Delete(Object::AttachIn))
                        .tell(WdfOp::Delete(Object::AttachOut)),
                    status,
                )
            },
        }
    }
}

/// Sends the attach request and publishes its answer.
fn attach_parent(io: &mut Session<WdfOp>) -> (status: i32)
    ensures
        (final(io)@, status) == attach_parent_run(old(io)@),
{
    proof {
        reveal(attach_parent_run);
    }
    attach_frame(io, Object::AttachIn);
    let formatted: i32 = io.status(
        WdfOp::Format(IOCTL_ATTACH, Some(Object::AttachIn), Some(Object::AttachOut)),
    );
    if formatted < 0 {
        return formatted;
    }
    match send(io) {
        None => SEND_FAILED,
        Some(status) => {
            if status >= 0 {
                publish_words(io);
            }
            io.tell(WdfOp::Delete(Object::Request));
            io.tell(WdfOp::Delete(Object::AttachIn));
            io.tell(WdfOp::Delete(Object::AttachOut));
            status
        },
    }
}

#[verifier::opaque]
pub open spec fn parent_attach_probe_run(io: Io<WdfOp>) -> (Io<WdfOp>, i32) {
    let (io, parent) = io.flag(WdfOp::TargetParent);
    if !parent {
        (io, NO_PARENT)
    } else {
        let (io, request) = io.status(WdfOp::RequestCreate);
        if request < 0 {
            (io, request)
        } else {
            let (io, input) = io.status(
                WdfOp::MemoryCreate(Object::AttachIn, ATTACH_INPUT_LEN),
            );
            if input < 0 {
                (io, input)
            } else {
                let (io, output) = io.status(
                    WdfOp::MemoryCreate(Object::AttachOut, ATTACH_REPLY_LEN),
                );
                if output < 0 {
                    (io, output)
                } else {
                    attach_parent_run(io)
                }
            }
        }
    }
}

/// Tries the attach request on the parent's target and publishes the first words
/// of its answer.
pub fn parent_attach_probe(io: &mut Session<WdfOp>) -> (status: i32)
    ensures
        (final(io)@, status) == parent_attach_probe_run(old(io)@),
{
    proof {
        reveal(parent_attach_probe_run);
    }
    if !io.flag(WdfOp::TargetParent) {
        return NO_PARENT;
    }
    let request: i32 = io.status(WdfOp::RequestCreate);
    if request < 0 {
        return request;
    }
    let input: i32 = io.status(WdfOp::MemoryCreate(Object::AttachIn, ATTACH_INPUT_LEN));
    if input < 0 {
        return input;
    }
    let output: i32 = io.status(WdfOp::MemoryCreate(Object::AttachOut, ATTACH_REPLY_LEN));
    if output < 0 {
        return output;
    }
    attach_parent(io)
}

#[verifier::opaque]
pub open spec fn read_list_run(io: Io<WdfOp>, address: u8) -> Io<WdfOp> {
    io.tell(WdfOp::PutByte(Object::Data, 0, address))
        .tell(WdfOp::PutHead(SpbTransferList::header_size() as u32, 0, 2))
        .tell(WdfOp::PutEntry(16, entry_init(SPB_DIRECTION_TO_DEVICE, Some(0usize), 1)))
        .tell(WdfOp::PutEntry(48, entry_init(SPB_DIRECTION_FROM_DEVICE, Some(1usize), 1)))
}

/// Writes the list of a register read: the address out, one byte in.
fn read_list(io: &mut Session<WdfOp>, address: u8)
    ensures
        final(io)@ == read_list_run(old(io)@, address),
{
    proof {
        reveal(read_list_run);
    }
    io.tell(WdfOp::PutByte(Object::Data, 0, address));
    io.tell(WdfOp::PutHead(SpbTransferList::header_size() as u32, 0, 2));
    io.tell(WdfOp::PutEntry(16, entry_init(SPB_DIRECTION_TO_DEVICE, Some(0usize), 1)));
    io.tell(WdfOp::PutEntry(48, entry_init(SPB_DIRECTION_FROM_DEVICE, Some(1usize), 1)));
}

#[verifier::opaque]
pub open spec fn sequence_parent_run(io: Io<WdfOp>, address: u8) -> (Io<WdfOp>, i32) {
    let (io, formatted) = read_list_run(io, address).status(
        WdfOp::Format(IOCTL_SPB_EXECUTE_SEQUENCE, Some(Object::Area), None),
    );
    if formatted < 0 {
        (io, formatted)
    } else {
        let (io, sent) = send_run(io);
        match sent {
            None => (io, SEND_FAILED),
            Some(status) => {
                let io = if status >= 0 {
                    let (io, value) = io.octet(WdfOp::TakeByte(Object::Data, 1));
                    io.mark("ParSeqValue", value as u32)
                } else {
                    io
                };
                (
                    io.tell(WdfOp::Delete(Object::Request))
                        .tell(WdfOp::Delete(Object::Area))
                        .tell(WdfOp::Delete(Object::Data)),
                    status,
                )
            },
        }
    }
}

/// Sends a register read and publishes its byte.
fn sequence_parent(io: &mut Session<WdfOp>, address: u8) -> (status: i32)
    ensures
        (final(io)@, status) == sequence_parent_run(old(io)@, address),
{
    proof {
        reveal(sequence_parent_run);
    }
    read_list(io, address);
    let formatted: i32 = io.status(
        WdfOp::Format(IOCTL_SPB_EXECUTE_SEQUENCE, Some(Object::Area), None),
    );
    if formatted < 0 {
        return formatted;
    }
    match send(io) {
        None => SEND_FAILED,
        Some(status) => {
            if status >= 0 {
                let value: u8 = io.octet(WdfOp::TakeByte(Object::Data, 1));
                io.mark("ParSeqValue", value as u32);
            }
            io.tell(WdfOp::Delete(Object::Request));
            io.tell(WdfOp::Delete(Object::Area));
            io.tell(WdfOp::Delete(Object::Data));
            status
        },
    }
}

#[verifier::opaque]
pub open spec fn parent_sequence_probe_run(io: Io<WdfOp>, address: u8) -> (Io<WdfOp>, i32) {
    let (io, parent) = io.flag(WdfOp::TargetParent);
    if !parent {
        (io, NO_PARENT)
    } else {
        let (io, request) = io.status(WdfOp::RequestCreate);
        if request < 0 {
            (io, request)
        } else {
            let (io, list) = io.status(
                WdfOp::MemoryCreate(Object::Area, SpbTransferList::area_size(2)),
            );
            if list < 0 {
                (io, list)
            } else {
                let (io, data) = io.status(WdfOp::MemoryCreate(Object::Data, DATA_LEN));
                if data < 0 {
                    (io, data)
                } else {
                    sequence_parent_run(io, address)
                }
            }
        }
    }
}

/// Tries a register read on the parent's target and publishes its byte.
pub fn parent_sequence_probe(io: &mut Session<WdfOp>, address: u8) -> (status: i32)
    ensures
        (final(io)@, status) == parent_sequence_probe_run(old(io)@, address),
{
    proof {
        reveal(parent_sequence_probe_run);
    }
    if !io.flag(WdfOp::TargetParent) {
        return NO_PARENT;
    }
    let request: i32 = io.status(WdfOp::RequestCreate);
    if request < 0 {
        return request;
    }
    let list: i32 = io.status(WdfOp::MemoryCreate(Object::Area, SpbTransferList::area_size(2)));
    if list < 0 {
        return list;
    }
    let data: i32 = io.status(WdfOp::MemoryCreate(Object::Data, DATA_LEN));
    if data < 0 {
        return data;
    }
    sequence_parent(io, address)
}

/// How many values a log publishes.
pub open spec fn published(log: Seq<Event<WdfOp>>) -> nat
    decreases log.len(),
{
    if log.len() == 0 {
        0
    } else {
        published(log.drop_last()) + if log.last() is Mark {
            1nat
        } else {
            0nat
        }
    }
}

/// A call publishes nothing.
pub broadcast proof fn lemma_ask_publishes_nothing(io: Io<WdfOp>, op: WdfOp)
    ensures
        published((#[trigger] io.ask(op)).0.log) == published(io.log),
{
    assert(io.log.push(Event::Did(op)).drop_last() =~= io.log);
}

/// A mark publishes one value, unless a call is pending.
pub broadcast proof fn lemma_mark_publishes_one(io: Io<WdfOp>, name: &'static str, value: u32)
    ensures
        published((#[trigger] io.mark(name, value)).log) == published(io.log) + if io.pending is None {
            1nat
        } else {
            0nat
        },
{
    assert(io.log.push(Event::Mark(name, value)).drop_last() =~= io.log);
}

/// The probes of the parent's target publish their answer exactly where their
/// status is good: four words of an attach, one byte of a register read.
pub proof fn law_parent_probes_publish_with_success(io: Io<WdfOp>, address: u8)
    ensures
        ({
            let (after, status) = parent_attach_probe_run(io);
            &&& status < 0 ==> published(after.log) == published(io.log)
            &&& status >= 0 && after.pending is None ==> published(after.log) == published(io.log)
                + 4
        }),
        ({
            let (after, status) = parent_sequence_probe_run(io, address);
            &&& status < 0 ==> published(after.log) == published(io.log)
            &&& status >= 0 && after.pending is None ==> published(after.log) == published(io.log)
                + 1
        }),
{
    broadcast use {lemma_ask_publishes_nothing, lemma_mark_publishes_one};

    reveal(parent_attach_probe_run);
    reveal(attach_parent_run);
    reveal(attach_frame_run);
    reveal(publish_words_run);
    reveal(parent_sequence_probe_run);
    reveal(sequence_parent_run);
    reveal(read_list_run);
}

// ---------------------------------------------------------------------------
// Targets by name
// ---------------------------------------------------------------------------
/// Create options of a target that is opened by name.
pub const OPEN_OPTIONS: u32 = 0x0000_0040;

#[verifier::opaque]
pub open spec fn probe_named_target_ex_run(
    io: Io<WdfOp>,
    name: &'static str,
    access: u32,
    share: u32,
) -> (Io<WdfOp>, i32) {
    let (io, created) = io.status(WdfOp::TargetCreate);
    if created < 0 {
        (io, created)
    } else {
        let (io, opened) = io.status(
            WdfOp::TargetOpen {
                name: TargetName::Device(name),
                access,
                share,
                options: OPEN_OPTIONS,
            },
        );
        let io = if opened >= 0 {
            io.tell(WdfOp::TargetClose)
        } else {
            io
        };
        (io.tell(WdfOp::Delete(Object::Target)), opened)
    }
}

/// Opens and closes a target by name; the status of the open.
pub fn probe_named_target_ex(
    io: &mut Session<WdfOp>,
    name: &'static str,
    access: u32,
    share: u32,
) -> (status: i32)
    ensures
        (final(io)@, status) == probe_named_target_ex_run(old(io)@, name, access, share),
{
    proof {
        reveal(probe_named_target_ex_run);
    }
    let created: i32 = io.status(WdfOp::TargetCreate);
    if created < 0 {
        return created;
    }
    let opened: i32 = io.status(
        WdfOp::TargetOpen {
            name: TargetName::Device(name),
            access,
            share,
            options: OPEN_OPTIONS,
        },
    );
    if opened >= 0 {
        io.tell(WdfOp::TargetClose);
    }
    io.tell(WdfOp::Delete(Object::Target));
    opened
}

/// Opens and closes a target by name without sharing it.
pub fn probe_named_target(io: &mut Session<WdfOp>, name: &'static str, access: u32) -> (status: i32)
    ensures
        (final(io)@, status) == probe_named_target_ex_run(old(io)@, name, access, 0),
{
    probe_named_target_ex(io, name, access, 0)
}

/// A finished probe of a name leaves nothing alive.
pub proof fn law_named_probe_leaks_nothing(
    io: Io<WdfOp>,
    name: &'static str,
    access: u32,
    share: u32,
)
    requires
        aligned(io),
        !live(io).contains(Object::Target),
    ensures
        probe_named_target_ex_run(io, name, access, share).0.pending is None ==> live(
            probe_named_target_ex_run(io, name, access, share).0,
        ) == live(io),
{
    broadcast use lemma_live_ask;

    reveal(probe_named_target_ex_run);
    assert(live(io).insert(Object::Target).remove(Object::Target) =~= live(io));
}

// ---------------------------------------------------------------------------
// Calls of a conversation
// ---------------------------------------------------------------------------
/// The calls of a log from a line on.
pub open spec fn calls(log: Seq<Event<WdfOp>>, start: nat) -> Seq<WdfOp>
    decreases log.len(),
{
    if log.len() <= start {
        Seq::empty()
    } else {
        let before = calls(log.drop_last(), start);
        match log.last() {
            Event::Did(op) => before.push(op),
            _ => before,
        }
    }
}

/// The calls between two points of a conversation.
#[verifier::opaque]
pub open spec fn called(from: Io<WdfOp>, to: Io<WdfOp>) -> Seq<WdfOp> {
    calls(to.log, from.log.len())
}

pub proof fn lemma_called_nothing(io: Io<WdfOp>)
    ensures
        called(io, io) == Seq::<WdfOp>::empty(),
{
    reveal(called);
}

pub broadcast proof fn lemma_called_ask(from: Io<WdfOp>, io: Io<WdfOp>, op: WdfOp)
    requires
        from.log.len() <= io.log.len(),
    ensures
        #[trigger] called(from, io.ask(op).0) == if io.ask(op).0.pending is None {
            called(from, io).push(op)
        } else {
            called(from, io)
        },
        from.log.len() <= io.ask(op).0.log.len(),
{
    reveal(called);
    assert(io.log.push(Event::Did(op)).drop_last() =~= io.log);
}

pub broadcast proof fn lemma_called_record(from: Io<WdfOp>, io: Io<WdfOp>, line: Event<WdfOp>)
    requires
        from.log.len() <= io.log.len(),
        line !is Did,
    ensures
        #[trigger] called(from, io.record(line)) == called(from, io),
        from.log.len() <= io.record(line).log.len(),
{
    reveal(called);
    assert(io.log.push(line).drop_last() =~= io.log);
}

pub broadcast group group_calls {
    lemma_called_ask,
    lemma_called_record,
}

/// The answer to the call with a number, counted from a point of a conversation.
pub open spec fn answer(io: Io<WdfOp>, index: int) -> Reply {
    io.replies[io.next + index]
}

/// The status in an answer.
pub open spec fn status_of(reply: Reply) -> i32 {
    match reply {
        Reply::Status(status) => status,
        _ => (-1) as i32,
    }
}

/// Bytes are put where they belong: each at its own index, in order.
pub proof fn law_bytes_are_put_in_order(
    from: Io<WdfOp>,
    io: Io<WdfOp>,
    object: Object,
    bytes: Seq<u8>,
)
    requires
        io.pending is None,
        from.log.len() <= io.log.len(),
        bytes.len() <= usize::MAX,
    ensures
        ({
            let after = put_bytes_run(io, object, bytes);
            &&& io.log.len() <= after.log.len() && after.replies == io.replies
            &&& io.next <= after.next
            &&& after.pending is None ==> after.next == io.next + bytes.len() && called(from, after)
                == called(from, io) + Seq::new(
                bytes.len(),
                |i: int| WdfOp::PutByte(object, i as usize, bytes[i]),
            )
        }),
    decreases bytes.len(),
{
    broadcast use group_calls;

    if bytes.len() > 0 {
        law_bytes_are_put_in_order(from, io, object, bytes.drop_last());
        let before = put_bytes_run(io, object, bytes.drop_last());
        let after = put_bytes_run(io, object, bytes);
        if after.pending is None {
            assert(before.pending is None);
            assert(called(from, after) =~= called(from, io) + Seq::new(
                bytes.len(),
                |i: int| WdfOp::PutByte(object, i as usize, bytes[i]),
            ));
        }
    } else {
        assert(called(from, io) =~= called(from, io) + Seq::new(
            bytes.len(),
            |i: int| WdfOp::PutByte(object, i as usize, bytes[i]),
        ));
    }
}

/// Bytes are taken in order, each from its own index, as they stand there.
pub proof fn law_bytes_are_taken_in_order(
    from: Io<WdfOp>,
    io: Io<WdfOp>,
    object: Object,
    count: nat,
)
    requires
        io.pending is None,
        from.log.len() <= io.log.len(),
        count <= usize::MAX,
    ensures
        ({
            let (after, bytes) = take_bytes_run(io, object, count);
            &&& bytes.len() == count
            &&& io.log.len() <= after.log.len() && after.replies == io.replies
            &&& io.next <= after.next
            &&& after.pending is None ==> {
                &&& after.next == io.next + count
                &&& called(from, after) == called(from, io) + Seq::new(
                    count,
                    |i: int| WdfOp::TakeByte(object, i as usize),
                )
                &&& forall|i: int|
                    0 <= i < count ==> #[trigger] bytes[i] == match answer(io, i) {
                        Reply::Octet(byte) => byte,
                        _ => 0,
                    }
            }
        }),
    decreases count,
{
    broadcast use group_calls;

    if count > 0 {
        law_bytes_are_taken_in_order(from, io, object, (count - 1) as nat);
        let before = take_bytes_run(io, object, (count - 1) as nat).0;
        let after = take_bytes_run(io, object, count).0;
        if after.pending is None {
            assert(before.pending is None);
            assert(called(from, after) =~= called(from, io) + Seq::new(
                count,
                |i: int| WdfOp::TakeByte(object, i as usize),
            ));
        }
    } else {
        assert(called(from, io) =~= called(from, io) + Seq::new(
            count,
            |i: int| WdfOp::TakeByte(object, i as usize),
        ));
    }
}

/// A request is given a second, and its status is looked at only where it came back.
pub proof fn law_request_is_sent_with_patience(io: Io<WdfOp>)
    requires
        io.pending is None,
        send_run(io).0.pending is None,
    ensures
        ({
            let (after, r) = send_run(io);
            let back = answer(io, 0) == Reply::Flag(true);
            &&& called(io, after) == if back {
                seq![WdfOp::Send((-10_000_000) as i64), WdfOp::Completed]
            } else {
                seq![WdfOp::Send((-10_000_000) as i64)]
            }
            &&& r is Some <==> back
            &&& r matches Some(status) ==> status == status_of(answer(io, 1))
        }),
{
    broadcast use group_calls;

    lemma_called_nothing(io);
}

/// A conversation fills its output first, formats the request for its code and its
/// buffers, sends it, and reads the output only where all that succeeded. What is
/// answered is the first failure, or the status with every byte.
pub proof fn law_conversation_reads_after_success(io: Io<WdfOp>, code: u32, out_len: nat)
    requires
        io.pending is None,
        out_len <= usize::MAX,
        converse_run(io, code, out_len).0.pending is None,
    ensures
        ({
            let (after, r) = converse_run(io, code, out_len);
            let k: int = if out_len > 0 {
                1
            } else {
                0
            };
            let output = if out_len > 0 {
                Some(Object::Output)
            } else {
                None
            };
            let formatted = status_of(answer(io, k));
            let back = answer(io, k + 1) == Reply::Flag(true);
            let status = status_of(answer(io, k + 2));
            let made = called(io, after);
            &&& r.made
            &&& made.len() > k && made[k] == WdfOp::Format(code, Some(Object::Input), output)
            &&& out_len > 0 ==> made[0] == WdfOp::Fill(Object::Output, out_len as usize, 0xFF)
            &&& formatted < 0 ==> r.status == formatted && made.len() == k + 1
            &&& formatted >= 0 && !back ==> r.status == -1 && made.len() == k + 2
            &&& formatted >= 0 && back ==> r.status == status
            &&& formatted >= 0 && back && status >= 0 ==> {
                &&& r.output.len() == out_len
                &&& made.len() == k + 3 + out_len
                &&& forall|i: int|
                    0 <= i < out_len ==> #[trigger] r.output[i] == match answer(io, k + 3 + i) {
                        Reply::Octet(byte) => byte,
                        _ => 0,
                    }
            }
            &&& formatted < 0 || !back || status < 0 ==> r.output.len() == 0
        }),
{
    broadcast use group_calls;

    reveal(converse_run);
    lemma_called_nothing(io);
    let filled = if out_len > 0 {
        io.tell(WdfOp::Fill(Object::Output, out_len as usize, 0xFF))
    } else {
        io
    };
    let (at, formatted) = filled.status(
        WdfOp::Format(
            code,
            Some(Object::Input),
            if out_len > 0 {
                Some(Object::Output)
            } else {
                None
            },
        ),
    );
    let (sent, status) = send_run(at);
    if sent.pending is None {
        law_bytes_are_taken_in_order(io, sent, Object::Output, out_len);
        let (after, r) = converse_run(io, code, out_len);
        let k: int = if out_len > 0 {
            1
        } else {
            0
        };
        assert forall|i: int| 0 <= i < r.output.len() implies #[trigger] r.output[i] == match answer(
            io,
            k + 3 + i,
        ) {
            Reply::Octet(byte) => byte,
            _ => 0,
        } by {
            assert(answer(sent, i) == answer(io, k + 3 + i));
        }
    }
}

/// An exchange makes its request and its buffers first, and fails with the first that
/// cannot be made; its input is put there byte by byte before the conversation.
pub proof fn law_exchange_needs_its_parts(io: Io<WdfOp>, code: u32, input: Seq<u8>, out_len: nat)
    requires
        io.pending is None,
        input.len() <= usize::MAX,
        out_len <= usize::MAX,
        exchange_run(io, code, input, out_len).0.pending is None,
    ensures
        ({
            let (after, r) = exchange_run(io, code, input, out_len);
            let request = status_of(answer(io, 0));
            let memory = status_of(answer(io, 1));
            let room = status_of(answer(io, 2 + input.len() as int));
            let start = put_bytes_run(
                io.tell(WdfOp::RequestCreate).tell(
                    WdfOp::MemoryCreate(Object::Input, input.len() as usize),
                ),
                Object::Input,
                input,
            );
            let ready = if out_len > 0 {
                start.tell(WdfOp::MemoryCreate(Object::Output, out_len as usize))
            } else {
                start
            };
            &&& request < 0 ==> !r.made && r.status == request && called(io, after) == seq![
                WdfOp::RequestCreate,
            ]
            &&& request >= 0 && memory < 0 ==> !r.made && r.status == memory
            &&& request >= 0 && memory >= 0 && out_len > 0 && room < 0 ==> !r.made && r.status
                == room
            &&& request >= 0 && memory >= 0 && (out_len == 0 || room >= 0) ==> r.made && r
                == converse_run(ready, code, out_len).1
        }),
{
    broadcast use group_calls;

    reveal(exchange_run);
    lemma_called_nothing(io);
    let at = io.tell(WdfOp::RequestCreate).tell(
        WdfOp::MemoryCreate(Object::Input, input.len() as usize),
    );
    if at.pending is None {
        law_bytes_are_put_in_order(io, at, Object::Input, input);
        lemma_put_bytes_inert(at, Object::Input, input);
    }
    reveal(converse_run);
}

/// Putting bytes answers nothing once a call stays unanswered.
proof fn lemma_put_bytes_inert(io: Io<WdfOp>, object: Object, bytes: Seq<u8>)
    ensures
        put_bytes_run(io, object, bytes).replies == io.replies,
        io.pending is Some ==> put_bytes_run(io, object, bytes) == io,
    decreases bytes.len(),
{
    if bytes.len() > 0 {
        lemma_put_bytes_inert(io, object, bytes.drop_last());
    }
}

/// A roomy exchange deletes what it made, in the reverse order, whether it got as far as
/// the conversation or not, and answers as the conversation did.
pub proof fn law_roomy_exchange_cleans_up(
    io: Io<WdfOp>,
    code: u32,
    input: Seq<u8>,
    out_len: nat,
)
    requires
        io.pending is None,
        input.len() <= usize::MAX,
        out_len <= usize::MAX,
        roomy_exchange_run(io, code, input, out_len).0.pending is None,
    ensures
        ({
            let (after, r) = roomy_exchange_run(io, code, input, out_len);
            let request = status_of(answer(io, 0));
            let memory = status_of(answer(io, 1));
            let room = status_of(answer(io, 2));
            let made = seq![
                WdfOp::RequestCreate,
                WdfOp::MemoryCreate(Object::Input, input.len() as usize),
                WdfOp::MemoryCreate(Object::Output, out_len as usize),
            ];
            &&& request < 0 ==> !r.made && r.status == request && called(io, after) == made.take(1)
            &&& request >= 0 && memory < 0 ==> !r.made && r.status == memory && called(io, after)
                == made.take(2) + seq![WdfOp::Delete(Object::Request)]
            &&& request >= 0 && memory >= 0 && room < 0 ==> !r.made && r.status == room && called(
                io,
                after,
            ) == made + seq![WdfOp::Delete(Object::Input), WdfOp::Delete(Object::Request)]
            &&& request >= 0 && memory >= 0 && room >= 0 ==> {
                let start = put_bytes_run(
                    io.tell(made[0]).tell(made[1]).tell(made[2]),
                    Object::Input,
                    input,
                );
                &&& r == converse_run(start, code, out_len).1
                &&& called(io, start) == made + Seq::new(
                    input.len(),
                    |i: int| WdfOp::PutByte(Object::Input, i as usize, input[i]),
                )
            }
        }),
{
    broadcast use group_calls;

    reveal(roomy_exchange_run);
    lemma_called_nothing(io);
    let at = io.tell(WdfOp::RequestCreate).tell(
        WdfOp::MemoryCreate(Object::Input, input.len() as usize),
    ).tell(WdfOp::MemoryCreate(Object::Output, out_len as usize));
    let made = seq![
        WdfOp::RequestCreate,
        WdfOp::MemoryCreate(Object::Input, input.len() as usize),
        WdfOp::MemoryCreate(Object::Output, out_len as usize),
    ];
    if at.pending is None {
        law_bytes_are_put_in_order(io, at, Object::Input, input);
        lemma_put_bytes_inert(at, Object::Input, input);
        assert(called(io, at) =~= made);
        let start = put_bytes_run(at, Object::Input, input);
        if start.pending is Some {
            reveal(converse_run);
        }
    }
    assert(made.take(1) =~= seq![made[0]]);
    assert(made.take(2) =~= seq![made[0], made[1]]);
}

/// An attach of the parent puts its two words, formats, sends and, where it succeeds,
/// takes four words of the answer. What came back is deleted with its buffers.
pub proof fn law_parent_is_attached(io: Io<WdfOp>)
    requires
        io.pending is None,
        attach_parent_run(io).0.pending is None,
    ensures
        ({
            let (after, r) = attach_parent_run(io);
            let first = seq![
                WdfOp::PutWord(Object::AttachIn, 0, crate::spb_abi::ATTACH_MAGIC),
                WdfOp::PutWord(Object::AttachIn, 4, 1),
                WdfOp::Format(0x0032_C004, Some(Object::AttachIn), Some(Object::AttachOut)),
            ];
            let words = seq![
                WdfOp::TakeWord(Object::AttachOut, 0),
                WdfOp::TakeWord(Object::AttachOut, 4),
                WdfOp::TakeWord(Object::AttachOut, 8),
                WdfOp::TakeWord(Object::AttachOut, 12),
            ];
            let sent = seq![WdfOp::Send((-10_000_000) as i64), WdfOp::Completed];
            let end = seq![
                WdfOp::Delete(Object::Request),
                WdfOp::Delete(Object::AttachIn),
                WdfOp::Delete(Object::AttachOut),
            ];
            let formatted = status_of(answer(io, 2));
            let back = answer(io, 3) == Reply::Flag(true);
            let status = status_of(answer(io, 4));
            &&& formatted < 0 ==> r == formatted && called(io, after) == first
            &&& formatted >= 0 && !back ==> r == -1 && called(io, after) == first + sent.take(1)
            &&& formatted >= 0 && back ==> r == status
            &&& formatted >= 0 && back && status < 0 ==> called(io, after) == first + sent + end
            &&& formatted >= 0 && back && status >= 0 ==> called(io, after) == first + sent + words
                + end
        }),
{
    broadcast use group_calls;

    reveal(attach_parent_run);
    reveal(attach_frame_run);
    reveal(publish_words_run);
    lemma_called_nothing(io);
    assert(seq![WdfOp::Send((-10_000_000) as i64), WdfOp::Completed].take(1) =~= seq![
        WdfOp::Send((-10_000_000) as i64),
    ]);
}

/// A sequence over the parent writes the address out and one byte in behind it, formats,
/// sends and, where it succeeds, takes that byte. What came back is deleted with its
/// buffers.
pub proof fn law_parent_runs_a_sequence(io: Io<WdfOp>, address: u8)
    requires
        io.pending is None,
        sequence_parent_run(io, address).0.pending is None,
    ensures
        ({
            let (after, r) = sequence_parent_run(io, address);
            let first = seq![
                WdfOp::PutByte(Object::Data, 0, address),
                WdfOp::PutHead(48, 0, 2),
                WdfOp::PutEntry(16, entry_init(2, Some(0usize), 1)),
                WdfOp::PutEntry(48, entry_init(1, Some(1usize), 1)),
                WdfOp::Format(0x0004_1808, Some(Object::Area), None),
            ];
            let sent = seq![WdfOp::Send((-10_000_000) as i64), WdfOp::Completed];
            let end = seq![
                WdfOp::Delete(Object::Request),
                WdfOp::Delete(Object::Area),
                WdfOp::Delete(Object::Data),
            ];
            let formatted = status_of(answer(io, 4));
            let back = answer(io, 5) == Reply::Flag(true);
            let status = status_of(answer(io, 6));
            &&& formatted < 0 ==> r == formatted && called(io, after) == first
            &&& formatted >= 0 && !back ==> r == -1 && called(io, after) == first + sent.take(1)
            &&& formatted >= 0 && back ==> r == status
            &&& formatted >= 0 && back && status < 0 ==> called(io, after) == first + sent + end
            &&& formatted >= 0 && back && status >= 0 ==> called(io, after) == first + sent + seq![
                WdfOp::TakeByte(Object::Data, 1),
            ] + end
        }),
{
    broadcast use group_calls;

    reveal(sequence_parent_run);
    reveal(read_list_run);
    lemma_called_nothing(io);
    assert(seq![WdfOp::Send((-10_000_000) as i64), WdfOp::Completed].take(1) =~= seq![
        WdfOp::Send((-10_000_000) as i64),
    ]);
}

/// A name is probed by opening it with the access and the sharing that are asked for. It
/// is closed where it opened, and deleted either way.
pub proof fn law_name_is_probed(io: Io<WdfOp>, name: &'static str, access: u32, share: u32)
    requires
        io.pending is None,
        probe_named_target_ex_run(io, name, access, share).0.pending is None,
    ensures
        ({
            let (after, r) = probe_named_target_ex_run(io, name, access, share);
            let made = called(io, after);
            let created = status_of(answer(io, 0));
            let opened = status_of(answer(io, 1));
            &&& created < 0 ==> made == seq![WdfOp::TargetCreate] && r == created
            &&& created >= 0 ==> {
                &&& r == opened && made.len() >= 3 && made[0] == WdfOp::TargetCreate
                &&& made[1] is TargetOpen && made[1]->TargetOpen_name == TargetName::Device(name)
                &&& made[1]->TargetOpen_access == access && made[1]->TargetOpen_share == share
                &&& opened >= 0 ==> made.len() == 4 && made[2] == WdfOp::TargetClose
                &&& opened < 0 ==> made.len() == 3
                &&& made.last() == WdfOp::Delete(Object::Target)
            }
        }),
{
    broadcast use group_calls;

    reveal(probe_named_target_ex_run);
    lemma_called_nothing(io);
}

/// The probes of the parent need one, a request and two buffers of their sizes; the first
/// that is missing is the answer, and nothing more is made.
pub proof fn law_parent_probes_need_their_parts(io: Io<WdfOp>, address: u8)
    requires
        io.pending is None,
    ensures
        ({
            let (attached, a) = parent_attach_probe_run(io);
            let (sequenced, s) = parent_sequence_probe_run(io, address);
            let parent = answer(io, 0) == Reply::Flag(true);
            let request = status_of(answer(io, 1));
            let first = status_of(answer(io, 2));
            let second = status_of(answer(io, 3));
            let head = seq![WdfOp::TargetParent, WdfOp::RequestCreate];
            let attach_parts = head + seq![
                WdfOp::MemoryCreate(Object::AttachIn, 8),
                WdfOp::MemoryCreate(Object::AttachOut, 1024),
            ];
            let sequence_parts = head + seq![
                WdfOp::MemoryCreate(Object::Area, 80),
                WdfOp::MemoryCreate(Object::Data, 8),
            ];
            let n: int = if !parent {
                1
            } else if request < 0 {
                2
            } else if first < 0 {
                3
            } else {
                4
            };
            let missing = !parent || request < 0 || first < 0 || second < 0;
            let answered = if !parent {
                NO_PARENT
            } else if request < 0 {
                request
            } else if first < 0 {
                first
            } else {
                second
            };
            &&& attached.pending is None && missing ==> a == answered && called(io, attached)
                == attach_parts.take(n)
            &&& sequenced.pending is None && missing ==> s == answered && called(io, sequenced)
                == sequence_parts.take(n)
            &&& attached.pending is None && !missing ==> exists|start: Io<WdfOp>|
                #![trigger attach_parent_run(start)]
                called(io, start) == attach_parts && (attached, a) == attach_parent_run(start)
            &&& sequenced.pending is None && !missing ==> exists|start: Io<WdfOp>|
                #![trigger sequence_parent_run(start, address)]
                called(io, start) == sequence_parts && (sequenced, s) == sequence_parent_run(
                    start,
                    address,
                )
        }),
{
    broadcast use group_calls;

    reveal(parent_attach_probe_run);
    reveal(parent_sequence_probe_run);
    lemma_called_nothing(io);
    crate::spb_abi::law_area_sizes(1, 2);
    let base = io.tell(WdfOp::TargetParent).tell(WdfOp::RequestCreate);
    let attach = base.tell(WdfOp::MemoryCreate(Object::AttachIn, 8)).tell(
        WdfOp::MemoryCreate(Object::AttachOut, 1024),
    );
    let sequence = base.tell(WdfOp::MemoryCreate(Object::Area, 80)).tell(
        WdfOp::MemoryCreate(Object::Data, 8),
    );
    if attach.pending is Some {
        reveal(attach_parent_run);
        reveal(attach_frame_run);
    }
    if sequence.pending is Some {
        reveal(sequence_parent_run);
        reveal(read_list_run);
    }
    assert(attach_parent_run(attach) == attach_parent_run(attach));
    assert(sequence_parent_run(sequence, address) == sequence_parent_run(sequence, address));
}

} // verus!
