//! Reading a log: what was asked, what was written to the PMIC, and what is known of
//! its registers.
//!
//! The laws of the procedures are stated over these: over the requests that reached the
//! machine and the answers that came back.
use crate::exchange::{Op, Reply};
use crate::hvdcp::{HvdcpError, HvdcpState};
use crate::session::{Event, Io};
use crate::usbin;
use vstd::prelude::*;

verus! {

// ---------------------------------------------------------------------------
// Runs
// ---------------------------------------------------------------------------
/// How many requests of a log were answered.
pub open spec fn told(log: Seq<Event<Op>>) -> nat
    decreases log.len(),
{
    if log.len() == 0 {
        0
    } else {
        told(log.drop_last()) + if log.last() is Did {
            1nat
        } else {
            0nat
        }
    }
}

/// A session whose log holds exactly the requests whose replies it consumed.
pub open spec fn honest(io: Io<Op>) -> bool {
    io.next == told(io.log) && io.next <= io.replies.len()
}

pub broadcast proof fn lemma_honest_ask(io: Io<Op>, op: Op)
    requires
        honest(io),
    ensures
        #[trigger] honest(io.ask(op).0),
{
    assert(io.log.push(Event::Did(op)).drop_last() =~= io.log);
}

pub broadcast proof fn lemma_honest_record(io: Io<Op>, line: Event<Op>)
    requires
        honest(io),
        line !is Did,
    ensures
        #[trigger] honest(io.record(line)),
{
    assert(io.log.push(line).drop_last() =~= io.log);
}

/// One point of a run comes after another: the log has only grown, and from a point at
/// which a request is pending nothing goes on.
#[verifier::opaque]
pub open spec fn follows(from: Io<Op>, to: Io<Op>) -> bool {
    &&& from.log.is_prefix_of(to.log)
    &&& to.replies == from.replies
    &&& from.pending is Some ==> to == from
    &&& honest(from) ==> honest(to)
}

pub proof fn lemma_follows_at_first(io: Io<Op>)
    ensures
        follows(io, io),
{
    reveal(follows);
}

pub broadcast proof fn lemma_ask_follows(from: Io<Op>, io: Io<Op>, op: Op)
    requires
        follows(from, io),
    ensures
        #[trigger] follows(from, io.ask(op).0),
{
    reveal(follows);
    assert(io.log.push(Event::Did(op)).drop_last() =~= io.log);
}

pub broadcast proof fn lemma_record_follows(from: Io<Op>, io: Io<Op>, line: Event<Op>)
    requires
        follows(from, io),
        line !is Did,
    ensures
        #[trigger] follows(from, io.record(line)),
{
    reveal(follows);
    assert(io.log.push(line).drop_last() =~= io.log);
}

pub proof fn lemma_follows_in_turn(a: Io<Op>, b: Io<Op>, c: Io<Op>)
    requires
        follows(a, b),
        follows(b, c),
    ensures
        follows(a, c),
{
    reveal(follows);
}

/// What follows a finished run keeps it as its beginning.
/// What follows an honest run is honest, and no shorter.
pub proof fn lemma_honest_after(a: Io<Op>, b: Io<Op>)
    requires
        follows(a, b),
    ensures
        a.log.len() <= b.log.len(),
        honest(a) ==> honest(b),
        a.replies == b.replies,
{
    reveal(follows);
}

pub proof fn lemma_finished_before(a: Io<Op>, b: Io<Op>)
    requires
        follows(a, b),
        b.pending is None,
    ensures
        a.pending is None,
        a.log.len() <= b.log.len(),
        b.log.take(a.log.len() as int) == a.log,
        b.replies == a.replies,
        honest(a) ==> honest(b),
{
    reveal(follows);
    assert(b.log.take(a.log.len() as int) =~= a.log);
}

// ---------------------------------------------------------------------------
// Requests
// ---------------------------------------------------------------------------
/// The requests of a log from a line on.
pub open spec fn requests(log: Seq<Event<Op>>, start: nat) -> Seq<Op>
    decreases log.len(),
{
    if log.len() <= start {
        Seq::empty()
    } else {
        let before = requests(log.drop_last(), start);
        match log.last() {
            Event::Did(op) => before.push(op),
            _ => before,
        }
    }
}

/// The requests between two points of a run.
#[verifier::opaque]
pub open spec fn asked(from: Io<Op>, to: Io<Op>) -> Seq<Op> {
    requests(to.log, from.log.len())
}

pub proof fn lemma_asked_nothing(io: Io<Op>)
    ensures
        asked(io, io) == Seq::<Op>::empty(),
{
    reveal(asked);
}

pub broadcast proof fn lemma_asked_ask(from: Io<Op>, io: Io<Op>, op: Op)
    requires
        from.log.len() <= io.log.len(),
    ensures
        #[trigger] asked(from, io.ask(op).0) == if io.ask(op).0.pending is None {
            asked(from, io).push(op)
        } else {
            asked(from, io)
        },
        from.log.len() <= io.ask(op).0.log.len(),
{
    reveal(asked);
    assert(io.log.push(Event::Did(op)).drop_last() =~= io.log);
}

pub broadcast proof fn lemma_asked_record(from: Io<Op>, io: Io<Op>, line: Event<Op>)
    requires
        from.log.len() <= io.log.len(),
        line !is Did,
    ensures
        #[trigger] asked(from, io.record(line)) == asked(from, io),
        from.log.len() <= io.record(line).log.len(),
{
    reveal(asked);
    assert(io.log.push(line).drop_last() =~= io.log);
}

proof fn lemma_requests_grow(log: Seq<Event<Op>>, longer: Seq<Event<Op>>, start: nat)
    requires
        log.is_prefix_of(longer),
    ensures
        requests(log, start).is_prefix_of(requests(longer, start)),
    decreases longer.len(),
{
    if longer.len() > log.len() {
        assert(log.is_prefix_of(longer.drop_last()));
        lemma_requests_grow(log, longer.drop_last(), start);
    } else {
        assert(log =~= longer);
    }
}

/// What was asked at a point stays the beginning of what was asked later.
pub proof fn lemma_asked_grows(from: Io<Op>, mid: Io<Op>, to: Io<Op>)
    requires
        follows(mid, to),
    ensures
        asked(from, mid).is_prefix_of(asked(from, to)),
        asked(from, mid).len() <= asked(from, to).len(),
        forall|i: int|
            0 <= i < asked(from, mid).len() ==> #[trigger] asked(from, to)[i] == asked(from, mid)[i],
{
    reveal(follows);
    reveal(asked);
    lemma_requests_grow(mid.log, to.log, from.log.len());
}

// ---------------------------------------------------------------------------
// Writes
// ---------------------------------------------------------------------------
/// The writes to the PMIC in a log from a line on, on either path.
pub open spec fn writes(log: Seq<Event<Op>>, start: nat) -> Seq<(u16, u8)>
    decreases log.len(),
{
    if log.len() <= start {
        Seq::empty()
    } else {
        let before = writes(log.drop_last(), start);
        match log.last() {
            Event::Did(Op::SuWrite { reg, value, .. }) => before.push((reg, value)),
            Event::Did(Op::UsbinWrite { addr, value, .. }) => before.push((addr, value)),
            _ => before,
        }
    }
}

/// The writes to the PMIC between two points of a run.
#[verifier::opaque]
pub open spec fn written(from: Io<Op>, to: Io<Op>) -> Seq<(u16, u8)> {
    writes(to.log, from.log.len())
}

pub proof fn lemma_written_nothing(io: Io<Op>)
    ensures
        written(io, io) == Seq::<(u16, u8)>::empty(),
{
    reveal(written);
}

pub broadcast proof fn lemma_written_ask(from: Io<Op>, io: Io<Op>, op: Op)
    requires
        from.log.len() <= io.log.len(),
    ensures
        #[trigger] written(from, io.ask(op).0) == if io.ask(op).0.pending is None {
            match op {
                Op::SuWrite { reg, value, .. } => written(from, io).push((reg, value)),
                Op::UsbinWrite { addr, value, .. } => written(from, io).push((addr, value)),
                _ => written(from, io),
            }
        } else {
            written(from, io)
        },
        from.log.len() <= io.ask(op).0.log.len(),
{
    reveal(written);
    assert(io.log.push(Event::Did(op)).drop_last() =~= io.log);
}

pub broadcast proof fn lemma_written_record(from: Io<Op>, io: Io<Op>, line: Event<Op>)
    requires
        from.log.len() <= io.log.len(),
        line !is Did,
    ensures
        #[trigger] written(from, io.record(line)) == written(from, io),
        from.log.len() <= io.record(line).log.len(),
{
    reveal(written);
    assert(io.log.push(line).drop_last() =~= io.log);
}

proof fn lemma_writes_grow(log: Seq<Event<Op>>, longer: Seq<Event<Op>>, start: nat)
    requires
        log.is_prefix_of(longer),
    ensures
        writes(log, start).is_prefix_of(writes(longer, start)),
    decreases longer.len(),
{
    if longer.len() > log.len() {
        assert(log.is_prefix_of(longer.drop_last()));
        lemma_writes_grow(log, longer.drop_last(), start);
    } else {
        assert(log =~= longer);
    }
}

/// What was written at a point stays the beginning of what was written later.
pub proof fn lemma_written_grows(from: Io<Op>, mid: Io<Op>, to: Io<Op>)
    requires
        follows(mid, to),
    ensures
        written(from, mid).is_prefix_of(written(from, to)),
        written(from, mid).len() <= written(from, to).len(),
        forall|i: int|
            0 <= i < written(from, mid).len() ==> #[trigger] written(from, to)[i] == written(from, mid)[i],
{
    reveal(follows);
    reveal(written);
    lemma_writes_grow(mid.log, to.log, from.log.len());
}

// ---------------------------------------------------------------------------
// Registers
// ---------------------------------------------------------------------------
/// What an answered request teaches of a register of the PMIC: a read its value, and a
/// write that was accepted what was written.
pub open spec fn learned(op: Op, reply: Reply, reg: u16) -> Option<u8> {
    match op {
        Op::SuRead { reg: r, .. } => if r == reg && reply is Byte {
            reply->Byte_0
        } else {
            None
        },
        Op::UsbinRead { addr, .. } => if addr == reg && reply is Byte {
            reply->Byte_0
        } else {
            None
        },
        Op::SuWrite { reg: r, value, .. } => if r == reg && reply == Reply::Flag(true) {
            Some(value)
        } else {
            None
        },
        Op::UsbinWrite { addr, value, .. } => if addr == reg && (reply matches Reply::Byte(Some(_))) {
            Some(value)
        } else {
            None
        },
        _ => None,
    }
}

/// What a log and its replies tell of a register, by the last thing learned of it.
pub open spec fn last_learned(log: Seq<Event<Op>>, replies: Seq<Reply>, reg: u16) -> Option<u8>
    decreases log.len(),
{
    if log.len() == 0 {
        None
    } else {
        let before = last_learned(log.drop_last(), replies, reg);
        match log.last() {
            Event::Did(op) => {
                let now = learned(op, replies[told(log.drop_last()) as int], reg);
                if now is Some {
                    now
                } else {
                    before
                }
            },
            _ => before,
        }
    }
}

/// What is known of a register of the PMIC at a point of a run.
#[verifier::opaque]
pub open spec fn known(io: Io<Op>, reg: u16) -> Option<u8> {
    last_learned(io.log, io.replies, reg)
}

pub broadcast proof fn lemma_known_ask(io: Io<Op>, op: Op, reg: u16)
    requires
        honest(io),
    ensures
        #[trigger] known(io.ask(op).0, reg) == if io.ask(op).0.pending is None && learned(
            op,
            io.ask(op).1,
            reg,
        ) is Some {
            learned(op, io.ask(op).1, reg)
        } else {
            known(io, reg)
        },
        honest(io.ask(op).0),
{
    reveal(known);
    assert(io.log.push(Event::Did(op)).drop_last() =~= io.log);
}

pub broadcast proof fn lemma_known_record(io: Io<Op>, line: Event<Op>, reg: u16)
    requires
        honest(io),
        line !is Did,
    ensures
        #[trigger] known(io.record(line), reg) == known(io, reg),
        honest(io.record(line)),
{
    reveal(known);
    assert(io.log.push(line).drop_last() =~= io.log);
}

// ---------------------------------------------------------------------------
// Success
// ---------------------------------------------------------------------------
/// Whether an access to the PMIC was answered with success. Other requests have none.
pub open spec fn went_well(op: Op, reply: Reply) -> bool {
    match op {
        Op::SuOpen => reply == Reply::Outcome(Ok(())),
        Op::SuGrant(_) => reply == Reply::Outcome(Ok(())),
        Op::SuRead { .. } => reply matches Reply::Byte(Some(_)),
        Op::SuReadPair { .. } => reply matches Reply::Pair(Some(_)),
        Op::SuWrite { .. } => reply == Reply::Flag(true),
        Op::UsbinOpen(_) => reply == Reply::Flag(true),
        Op::UsbinRead { .. } => reply matches Reply::Byte(Some(_)),
        Op::UsbinWrite { .. } => reply matches Reply::Byte(Some(_)),
        _ => true,
    }
}

/// Whether every access to the PMIC in a log from a line on went well.
pub open spec fn well(log: Seq<Event<Op>>, replies: Seq<Reply>, start: nat) -> bool
    decreases log.len(),
{
    log.len() <= start || (well(log.drop_last(), replies, start) && (match log.last() {
        Event::Did(op) => went_well(op, replies[told(log.drop_last()) as int]),
        _ => true,
    }))
}

/// Whether every access to the PMIC between two points of a run went well.
#[verifier::opaque]
pub open spec fn smooth(from: Io<Op>, to: Io<Op>) -> bool {
    well(to.log, to.replies, from.log.len())
}

pub broadcast proof fn lemma_smooth_ask(from: Io<Op>, io: Io<Op>, op: Op)
    requires
        honest(io),
        from.log.len() <= io.log.len(),
    ensures
        #[trigger] smooth(from, io.ask(op).0) <==> smooth(from, io) && (io.ask(op).0.pending is None
            ==> went_well(op, io.ask(op).1)),
        honest(io.ask(op).0),
        from.log.len() <= io.ask(op).0.log.len(),
{
    reveal(smooth);
    assert(io.log.push(Event::Did(op)).drop_last() =~= io.log);
}

pub broadcast proof fn lemma_smooth_record(from: Io<Op>, io: Io<Op>, line: Event<Op>)
    requires
        honest(io),
        from.log.len() <= io.log.len(),
        line !is Did,
    ensures
        #[trigger] smooth(from, io.record(line)) <==> smooth(from, io),
        honest(io.record(line)),
        from.log.len() <= io.record(line).log.len(),
{
    reveal(smooth);
    assert(io.log.push(line).drop_last() =~= io.log);
}

proof fn lemma_well_before(
    log: Seq<Event<Op>>,
    longer: Seq<Event<Op>>,
    replies: Seq<Reply>,
    start: nat,
)
    requires
        log.is_prefix_of(longer),
        well(longer, replies, start),
    ensures
        well(log, replies, start),
    decreases longer.len(),
{
    if longer.len() > log.len() {
        assert(log.is_prefix_of(longer.drop_last()));
        lemma_well_before(log, longer.drop_last(), replies, start);
    } else {
        assert(log =~= longer);
    }
}

proof fn lemma_well_later(log: Seq<Event<Op>>, replies: Seq<Reply>, start: nat, later: nat)
    requires
        start <= later,
        well(log, replies, start),
    ensures
        well(log, replies, later),
    decreases log.len(),
{
    if log.len() > later {
        lemma_well_later(log.drop_last(), replies, start, later);
    }
}

/// A smooth run is smooth up to every point of it and from every point of it.
pub proof fn lemma_smooth_parts(from: Io<Op>, mid: Io<Op>, to: Io<Op>)
    requires
        follows(from, mid),
        follows(mid, to),
        smooth(from, to),
    ensures
        smooth(from, mid),
        smooth(mid, to),
{
    reveal(follows);
    reveal(smooth);
    lemma_well_before(mid.log, to.log, to.replies, from.log.len());
    lemma_well_later(to.log, to.replies, from.log.len(), mid.log.len());
}

pub broadcast group group_trace {
    lemma_honest_ask,
    lemma_honest_record,
    lemma_ask_follows,
    lemma_record_follows,
    lemma_asked_ask,
    lemma_asked_record,
    lemma_written_ask,
    lemma_written_record,
    lemma_known_ask,
    lemma_known_record,
    lemma_smooth_ask,
    lemma_smooth_record,
}

// ---------------------------------------------------------------------------
// Answers
// ---------------------------------------------------------------------------
/// Whether an answer is a yes.
pub open spec fn yes(reply: Reply) -> bool {
    reply == Reply::Flag(true)
}

/// Whether an answer is the success of a status.
pub open spec fn good(reply: Reply) -> bool {
    reply matches Reply::Outcome(Ok(_))
}

/// Whether an answer says that the pump did what it was told.
pub open spec fn done(reply: Reply) -> bool {
    reply matches Reply::Effect(Ok(_))
}

/// The answer to the request with a number, counted from a point of a run.
pub open spec fn answer(io: Io<Op>, index: int) -> Reply {
    io.replies[io.next + index]
}

// ---------------------------------------------------------------------------
// Publishing
// ---------------------------------------------------------------------------
/// Publishing the state of a negotiation reaches nobody else.
pub broadcast proof fn lemma_publish_asks_nothing(
    from: Io<Op>,
    io: Io<Op>,
    state: HvdcpState,
    err: Option<HvdcpError>,
)
    requires
        from.log.len() <= io.log.len(),
    ensures
        #[trigger] asked(from, usbin::publish_marks_run(io, state, err)) == asked(from, io),
        from.log.len() <= usbin::publish_marks_run(io, state, err).log.len(),
{
    broadcast use lemma_asked_record;

    reveal(usbin::publish_marks_run);
}

pub broadcast proof fn lemma_publish_writes_nothing(
    from: Io<Op>,
    io: Io<Op>,
    state: HvdcpState,
    err: Option<HvdcpError>,
)
    requires
        from.log.len() <= io.log.len(),
    ensures
        #[trigger] written(from, usbin::publish_marks_run(io, state, err)) == written(from, io),
        from.log.len() <= usbin::publish_marks_run(io, state, err).log.len(),
{
    broadcast use lemma_written_record;

    reveal(usbin::publish_marks_run);
}

pub broadcast proof fn lemma_publish_teaches_nothing(
    io: Io<Op>,
    state: HvdcpState,
    err: Option<HvdcpError>,
    reg: u16,
)
    requires
        honest(io),
    ensures
        #[trigger] known(usbin::publish_marks_run(io, state, err), reg) == known(io, reg),
        honest(usbin::publish_marks_run(io, state, err)),
{
    broadcast use {lemma_known_record, lemma_honest_record};

    reveal(usbin::publish_marks_run);
}

pub broadcast proof fn lemma_publish_is_smooth(
    from: Io<Op>,
    io: Io<Op>,
    state: HvdcpState,
    err: Option<HvdcpError>,
)
    requires
        honest(io),
        from.log.len() <= io.log.len(),
    ensures
        #[trigger] smooth(from, usbin::publish_marks_run(io, state, err)) <==> smooth(from, io),
        honest(usbin::publish_marks_run(io, state, err)),
        from.log.len() <= usbin::publish_marks_run(io, state, err).log.len(),
{
    broadcast use {lemma_smooth_record, lemma_honest_record};

    reveal(usbin::publish_marks_run);
}

/// It consumes no answer.
pub broadcast proof fn lemma_publish_consumes_nothing(
    io: Io<Op>,
    state: HvdcpState,
    err: Option<HvdcpError>,
)
    ensures
        (#[trigger] usbin::publish_marks_run(io, state, err)).next == io.next,
        usbin::publish_marks_run(io, state, err).replies == io.replies,
        usbin::publish_marks_run(io, state, err).pending == io.pending,
{
    reveal(usbin::publish_marks_run);
}

/// It belongs to the run that it stands in.
pub broadcast proof fn lemma_publish_follows(
    from: Io<Op>,
    io: Io<Op>,
    state: HvdcpState,
    err: Option<HvdcpError>,
)
    requires
        follows(from, io),
    ensures
        #[trigger] follows(from, usbin::publish_marks_run(io, state, err)),
{
    broadcast use lemma_record_follows;

    reveal(usbin::publish_marks_run);
}

pub broadcast proof fn lemma_publish_is_honest(
    io: Io<Op>,
    state: HvdcpState,
    err: Option<HvdcpError>,
)
    requires
        honest(io),
    ensures
        #[trigger] honest(usbin::publish_marks_run(io, state, err)),
{
    broadcast use lemma_honest_record;

    reveal(usbin::publish_marks_run);
}

pub broadcast group group_publish {
    lemma_publish_follows,
    lemma_publish_is_honest,
    lemma_publish_asks_nothing,
    lemma_publish_writes_nothing,
    lemma_publish_teaches_nothing,
    lemma_publish_is_smooth,
    lemma_publish_consumes_nothing,
}

/// What was written in two parts of a run, one after the other.
pub proof fn lemma_written_in_turn(a: Io<Op>, b: Io<Op>, c: Io<Op>)
    requires
        a.log.len() <= b.log.len(),
        follows(b, c),
    ensures
        written(a, c) == written(a, b) + written(b, c),
{
    reveal(follows);
    reveal(written);
    lemma_writes_in_turn(b.log, c.log, a.log.len());
}

proof fn lemma_writes_in_turn(log: Seq<Event<Op>>, longer: Seq<Event<Op>>, start: nat)
    requires
        start <= log.len(),
        log.is_prefix_of(longer),
    ensures
        writes(longer, start) == writes(log, start) + writes(longer, log.len()),
    decreases longer.len(),
{
    if longer.len() > log.len() {
        assert(log.is_prefix_of(longer.drop_last()));
        lemma_writes_in_turn(log, longer.drop_last(), start);
        assert(writes(longer, start) =~= writes(log, start) + writes(longer, log.len()));
    } else {
        assert(log =~= longer);
        assert(writes(longer, start) =~= writes(log, start) + writes(longer, log.len()));
    }
}

/// What was asked in two parts of a run, one after the other.
pub proof fn lemma_asked_in_turn(a: Io<Op>, b: Io<Op>, c: Io<Op>)
    requires
        a.log.len() <= b.log.len(),
        follows(b, c),
    ensures
        asked(a, c) == asked(a, b) + asked(b, c),
{
    reveal(follows);
    reveal(asked);
    lemma_requests_in_turn(b.log, c.log, a.log.len());
}

proof fn lemma_requests_in_turn(log: Seq<Event<Op>>, longer: Seq<Event<Op>>, start: nat)
    requires
        start <= log.len(),
        log.is_prefix_of(longer),
    ensures
        requests(longer, start) == requests(log, start) + requests(longer, log.len()),
    decreases longer.len(),
{
    if longer.len() > log.len() {
        assert(log.is_prefix_of(longer.drop_last()));
        lemma_requests_in_turn(log, longer.drop_last(), start);
        assert(requests(longer, start) =~= requests(log, start) + requests(longer, log.len()));
    } else {
        assert(log =~= longer);
        assert(requests(longer, start) =~= requests(log, start) + requests(longer, log.len()));
    }
}

// ---------------------------------------------------------------------------
// Marks
// ---------------------------------------------------------------------------
/// The values that a log publishes for the device from a line on.
pub open spec fn marks(log: Seq<Event<Op>>, start: nat) -> Seq<(&'static str, u32)>
    decreases log.len(),
{
    if log.len() <= start {
        Seq::empty()
    } else {
        let before = marks(log.drop_last(), start);
        match log.last() {
            Event::Mark(name, value) => before.push((name, value)),
            _ => before,
        }
    }
}

/// The values that are published for the device between two points of a run.
#[verifier::opaque]
pub open spec fn published(from: Io<Op>, to: Io<Op>) -> Seq<(&'static str, u32)> {
    marks(to.log, from.log.len())
}

pub proof fn lemma_published_nothing(io: Io<Op>)
    ensures
        published(io, io) == Seq::<(&'static str, u32)>::empty(),
{
    reveal(published);
}

pub broadcast proof fn lemma_published_ask(from: Io<Op>, io: Io<Op>, op: Op)
    requires
        from.log.len() <= io.log.len(),
    ensures
        #[trigger] published(from, io.ask(op).0) == published(from, io),
        from.log.len() <= io.ask(op).0.log.len(),
{
    reveal(published);
    assert(io.log.push(Event::Did(op)).drop_last() =~= io.log);
}

pub broadcast proof fn lemma_published_record(from: Io<Op>, io: Io<Op>, line: Event<Op>)
    requires
        from.log.len() <= io.log.len(),
    ensures
        #[trigger] published(from, io.record(line)) == match line {
            Event::Mark(name, value) if io.pending is None => published(from, io).push((name, value)),
            _ => published(from, io),
        },
        from.log.len() <= io.record(line).log.len(),
{
    reveal(published);
    assert(io.log.push(line).drop_last() =~= io.log);
}

pub broadcast group group_marks {
    lemma_published_ask,
    lemma_published_record,
}

/// What was published in two parts of a run, one after the other.
pub proof fn lemma_published_in_turn(a: Io<Op>, b: Io<Op>, c: Io<Op>)
    requires
        a.log.len() <= b.log.len(),
        follows(b, c),
    ensures
        published(a, c) == published(a, b) + published(b, c),
{
    reveal(follows);
    reveal(published);
    lemma_marks_in_turn(b.log, c.log, a.log.len());
}

proof fn lemma_marks_in_turn(log: Seq<Event<Op>>, longer: Seq<Event<Op>>, start: nat)
    requires
        start <= log.len(),
        log.is_prefix_of(longer),
    ensures
        marks(longer, start) == marks(log, start) + marks(longer, log.len()),
    decreases longer.len(),
{
    if longer.len() > log.len() {
        assert(log.is_prefix_of(longer.drop_last()));
        lemma_marks_in_turn(log, longer.drop_last(), start);
    } else {
        assert(log =~= longer);
    }
    assert(marks(longer, start) =~= marks(log, start) + marks(longer, log.len()));
}

/// The status in an answer.
pub open spec fn status_of(reply: Reply) -> i32 {
    match reply {
        Reply::Status(status) => status,
        _ => (-1) as i32,
    }
}

/// What is asked in a part of a run is asked in the whole.
pub proof fn lemma_asked_within(a: Io<Op>, b: Io<Op>, c: Io<Op>, d: Io<Op>, op: Op)
    requires
        follows(a, b),
        follows(b, c),
        follows(c, d),
        asked(b, c).contains(op),
    ensures
        asked(a, d).contains(op),
{
    lemma_honest_after(a, b);
    lemma_asked_in_turn(a, b, c);
    lemma_follows_in_turn(a, b, c);
    lemma_honest_after(a, c);
    lemma_asked_in_turn(a, c, d);
    let i = choose|i: int| 0 <= i < asked(b, c).len() && asked(b, c)[i] == op;
    assert(asked(a, d)[asked(a, b).len() + i] == op);
}

} // verus!
