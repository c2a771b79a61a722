//! Conversations with the machine, driven from outside.
//!
//! The library performs no input or output. A procedure that has to read a
//! register, wait or command the pump takes a [`Session`]: a list of the
//! replies gathered so far. It runs from its start, consuming them in order.
//! The first request without a reply becomes the session's pending request;
//! from then on nothing is recorded and every answer is silence, so the
//! procedure runs out without effect. The caller performs the pending request,
//! appends the reply and runs the procedure again on the same starting state.
//! When a run leaves nothing pending, its result stands.
//!
//! What a procedure does is therefore a function of the replies, and its
//! contract says which: [`Io`] is the mathematical view of a session, and the
//! contract of a procedure `f` equates its effect with `f_run`, a function on
//! that view.
use crate::exchange::{AttachReply, Descriptor, Reply, SuperuserApsdProbe, Transfer};
use crate::pump::{
    ApsdElevate, BypassResolution, ChipStatus, Force9vWait, GuardAction, OpMode, PumpError,
    PumpState, Qc35AuthGate, SessionSummary, TelemetrySample,
};
use vstd::prelude::*;

verus! {

/// One line of a session's log.
#[derive(Debug, Clone, Copy)]
pub enum Event<T> {
    /// A diagnostic value was published under the device's key.
    Mark(&'static str, u32),
    /// A diagnostic value was published under the driver's key.
    DriverMark(&'static str, u32),
    /// A request was performed.
    Did(T),
}

/// Replies gathered so far, and what was made of them.
pub struct Session<T> {
    replies: Vec<Reply>,
    next: usize,
    log: Vec<Event<T>>,
    pending: Option<T>,
}

/// The mathematical view of a [`Session`].
#[verifier::ext_equal]
pub struct Io<T> {
    /// The replies, in the order of the requests.
    pub replies: Seq<Reply>,
    /// How many of them are consumed.
    pub next: nat,
    /// What was published and performed so far.
    pub log: Seq<Event<T>>,
    /// The request that waits for its reply.
    pub pending: Option<T>,
}

impl<T> Io<T> {
    /// A session that has consumed nothing.
    pub open spec fn fresh(replies: Seq<Reply>) -> Self {
        Io { replies, next: 0, log: Seq::empty(), pending: None }
    }

    /// No more replies are consumed than there are.
    pub open spec fn valid(self) -> bool {
        self.next <= self.replies.len()
    }

    /// Adds a line to the log, unless a request is pending.
    pub open spec fn record(self, event: Event<T>) -> Self {
        if self.pending is Some {
            self
        } else {
            Io { log: self.log.push(event), ..self }
        }
    }

    /// Publishes a value under the device's key.
    pub open spec fn mark(self, name: &'static str, value: u32) -> Self {
        self.record(Event::Mark(name, value))
    }

    /// Publishes a value under the driver's key.
    pub open spec fn driver_mark(self, name: &'static str, value: u32) -> Self {
        self.record(Event::DriverMark(name, value))
    }

    /// Makes a request.
    pub open spec fn ask(self, op: T) -> (Self, Reply) {
        if self.pending is Some {
            (self, Reply::Silence)
        } else if self.next < self.replies.len() {
            (
                Io { next: self.next + 1, log: self.log.push(Event::Did(op)), ..self },
                self.replies[self.next as int],
            )
        } else {
            (Io { pending: Some(op), ..self }, Reply::Silence)
        }
    }

    /// Makes a request whose answer does not matter.
    pub open spec fn tell(self, op: T) -> Self {
        self.ask(op).0
    }

    /// Asks for success or a status; silence is failure `-1`.
    pub open spec fn outcome(self, op: T) -> (Self, Result<(), i32>) {
        let (io, reply) = self.ask(op);
        (io, match reply {
            Reply::Outcome(v) => v,
            _ => Err((-1) as i32),
        })
    }

    /// Asks for a status; silence is `-1`.
    pub open spec fn status(self, op: T) -> (Self, i32) {
        let (io, reply) = self.ask(op);
        (io, match reply {
            Reply::Status(v) => v,
            _ => (-1) as i32,
        })
    }

    /// Asks for a register; silence is an unreadable one.
    pub open spec fn byte(self, op: T) -> (Self, Option<u8>) {
        let (io, reply) = self.ask(op);
        (io, match reply {
            Reply::Byte(v) => v,
            _ => None,
        })
    }

    /// Asks for a byte of memory; silence is 0.
    pub open spec fn octet(self, op: T) -> (Self, u8) {
        let (io, reply) = self.ask(op);
        (io, match reply {
            Reply::Octet(v) => v,
            _ => 0,
        })
    }

    /// Asks for two registers; silence is unreadable ones.
    pub open spec fn pair(self, op: T) -> (Self, Option<(u8, u8)>) {
        let (io, reply) = self.ask(op);
        (io, match reply {
            Reply::Pair(v) => v,
            _ => None,
        })
    }

    /// Asks for a measurement; silence is a missing one.
    pub open spec fn reading(self, op: T) -> (Self, Option<i32>) {
        let (io, reply) = self.ask(op);
        (io, match reply {
            Reply::Reading(v) => v,
            _ => None,
        })
    }

    /// Asks for a number that may be missing; silence is a missing one.
    pub open spec fn number(self, op: T) -> (Self, Option<u32>) {
        let (io, reply) = self.ask(op);
        (io, match reply {
            Reply::Number(v) => v,
            _ => None,
        })
    }

    /// Asks for a number; silence is 0.
    pub open spec fn word(self, op: T) -> (Self, u32) {
        let (io, reply) = self.ask(op);
        (io, match reply {
            Reply::Word(v) => v,
            _ => 0,
        })
    }

    /// Asks for a time; silence is 0.
    pub open spec fn millis(self, op: T) -> (Self, u64) {
        let (io, reply) = self.ask(op);
        (io, match reply {
            Reply::Millis(v) => v,
            _ => 0,
        })
    }

    /// Asks a question; silence is a no.
    pub open spec fn flag(self, op: T) -> (Self, bool) {
        let (io, reply) = self.ask(op);
        (io, match reply {
            Reply::Flag(v) => v,
            _ => false,
        })
    }

    /// Asks a question that may stay undecided; silence is undecided.
    pub open spec fn verdict(self, op: T) -> (Self, Option<bool>) {
        let (io, reply) = self.ask(op);
        (io, match reply {
            Reply::Verdict(v) => v,
            _ => None,
        })
    }

    /// Asks for a mode; silence is none.
    pub open spec fn mode(self, op: T) -> (Self, Option<OpMode>) {
        let (io, reply) = self.ask(op);
        (io, match reply {
            Reply::Mode(v) => v,
            _ => None,
        })
    }

    /// Asks for a mode change; silence is an unknown failure.
    pub open spec fn engaged(self, op: T) -> (Self, Result<OpMode, PumpError>) {
        let (io, reply) = self.ask(op);
        (io, match reply {
            Reply::Engaged(v) => v,
            _ => Err(PumpError::Other),
        })
    }

    /// Asks for a pump command; silence is an unknown failure.
    pub open spec fn effect(self, op: T) -> (Self, Result<(), PumpError>) {
        let (io, reply) = self.ask(op);
        (io, match reply {
            Reply::Effect(v) => v,
            _ => Err(PumpError::Other),
        })
    }

    /// Asks for a pump register; silence is an unknown failure.
    pub open spec fn register(self, op: T) -> (Self, Result<u8, PumpError>) {
        let (io, reply) = self.ask(op);
        (io, match reply {
            Reply::Register(v) => v,
            _ => Err(PumpError::Other),
        })
    }

    /// Asks for the status registers; silence is unreadable ones.
    pub open spec fn chip(self, op: T) -> (Self, Option<ChipStatus>) {
        let (io, reply) = self.ask(op);
        (io, match reply {
            Reply::Chip(v) => v,
            _ => None,
        })
    }

    /// Asks the protection; silence is nothing to do.
    pub open spec fn guard(self, op: T) -> (Self, (GuardAction, bool)) {
        let (io, reply) = self.ask(op);
        (io, match reply {
            Reply::Guard(a, c) => (a, c),
            _ => (GuardAction::Keep, false),
        })
    }

    /// Asks for a bypass verdict; silence is an unknown one.
    pub open spec fn bypass(self, op: T) -> (Self, BypassResolution) {
        let (io, reply) = self.ask(op);
        (io, match reply {
            Reply::Bypass(v) => v,
            _ => BypassResolution::Other,
        })
    }

    /// Asks how to raise an adapter; silence is a rejection.
    pub open spec fn elevate(self, op: T) -> (Self, ApsdElevate) {
        let (io, reply) = self.ask(op);
        (io, match reply {
            Reply::Elevate(v) => v,
            _ => ApsdElevate::Reject,
        })
    }

    /// Asks whether to try the QC3.5 train; silence is an unmeasured input.
    pub open spec fn gate(self, op: T) -> (Self, Qc35AuthGate) {
        let (io, reply) = self.ask(op);
        (io, match reply {
            Reply::Gate(v) => v,
            _ => Qc35AuthGate::SkipVinInvalid,
        })
    }

    /// Asks what to do between two samples; silence gives up.
    pub open spec fn force9v(self, op: T) -> (Self, Force9vWait) {
        let (io, reply) = self.ask(op);
        (io, match reply {
            Reply::Force9v(v) => v,
            _ => Force9vWait::Stop,
        })
    }

    /// Asks for the unplug verdict; silence disbelieves it.
    pub open spec fn unplug(self, op: T) -> (Self, (bool, u32)) {
        let (io, reply) = self.ask(op);
        (io, match reply {
            Reply::Unplug(b, n) => (b, n),
            _ => (false, 0),
        })
    }

    /// Asks for the gauge trend; silence is a flat one.
    pub open spec fn trend(self, op: T) -> (Self, (bool, u64)) {
        let (io, reply) = self.ask(op);
        (io, match reply {
            Reply::Trend(b, n) => (b, n),
            _ => (false, 0),
        })
    }

    /// Asks for two counters; silence is two zeros.
    pub open spec fn counters(self, op: T) -> (Self, (u32, u32)) {
        let (io, reply) = self.ask(op);
        (io, match reply {
            Reply::Counters(a, b) => (a, b),
            _ => (0, 0),
        })
    }

    /// Asks for two totals; silence is two zeros.
    pub open spec fn totals(self, op: T) -> (Self, (u64, u64)) {
        let (io, reply) = self.ask(op);
        (io, match reply {
            Reply::Totals(a, b) => (a, b),
            _ => (0, 0),
        })
    }

    /// Asks for a sample; silence is none.
    pub open spec fn sample(self, op: T) -> (Self, Option<TelemetrySample>) {
        let (io, reply) = self.ask(op);
        (io, match reply {
            Reply::Sample(v) => v,
            _ => None,
        })
    }

    /// Asks for a session; silence is none.
    pub open spec fn summary(self, op: T) -> (Self, Option<SessionSummary>) {
        let (io, reply) = self.ask(op);
        (io, match reply {
            Reply::Summary(v) => v,
            _ => None,
        })
    }

    /// Asks for the pump's lifecycle; silence is no pump.
    pub open spec fn lifecycle(self, op: T) -> (Self, Option<PumpState>) {
        let (io, reply) = self.ask(op);
        (io, match reply {
            Reply::Lifecycle(v) => v,
            _ => None,
        })
    }

    /// Asks for a resource descriptor; silence is the end of the list.
    pub open spec fn descriptor(self, op: T) -> (Self, Option<Descriptor>) {
        let (io, reply) = self.ask(op);
        (io, match reply {
            Reply::Descriptor(v) => v,
            _ => None,
        })
    }

    /// Asks for a register transfer; silence is a failed one.
    pub open spec fn transfer(self, op: T) -> (Self, Transfer) {
        let (io, reply) = self.ask(op);
        (io, match reply {
            Reply::Transfer(v) => v,
            _ => (Transfer { value: None, status: (-1) as i32 }),
        })
    }

    /// Asks for an attach; silence is a failed one.
    pub open spec fn attach(self, op: T) -> (Self, AttachReply) {
        let (io, reply) = self.ask(op);
        (io, match reply {
            Reply::Attach(v) => v,
            _ => (AttachReply { status: (-1) as i32, word0: 0, word1: 0, word2: 0, word3: 0 }),
        })
    }

    /// Asks for the APSD probe; silence is a failed one.
    pub open spec fn apsd(self, op: T) -> (Self, SuperuserApsdProbe) {
        let (io, reply) = self.ask(op);
        (io, match reply {
            Reply::Apsd(v) => v,
            _ => (SuperuserApsdProbe { open_status: (-1) as i32, grant_status: (-1) as i32, read_status: (-1) as i32, value: 0 }),
        })
    }

    /// Asks which loops are disabled; silence is neither.
    pub open spec fn loops(self, op: T) -> (Self, (bool, bool)) {
        let (io, reply) = self.ask(op);
        (io, match reply {
            Reply::Loops(a, b) => (a, b),
            _ => (false, false),
        })
    }
}

impl<T> View for Session<T> {
    type V = Io<T>;

    closed spec fn view(&self) -> Io<T> {
        Io {
            replies: self.replies@,
            next: self.next as nat,
            log: self.log@,
            pending: self.pending,
        }
    }
}

impl<T: Copy> Session<T> {
    /// A run over the replies gathered so far.
    pub fn new(replies: Vec<Reply>) -> (session: Self)
        ensures
            session@ == Io::<T>::fresh(replies@),
    {
        Session { replies, next: 0, log: Vec::new(), pending: None }
    }

    /// The request that waits for its reply.
    pub fn pending(&self) -> (op: Option<T>)
        ensures
            op == self@.pending,
    {
        self.pending
    }

    /// What was published and performed.
    pub fn log(&self) -> (log: &Vec<Event<T>>)
        ensures
            log@ == self@.log,
    {
        &self.log
    }

    fn record(&mut self, event: Event<T>)
        ensures
            final(self)@ == old(self)@.record(event),
    {
        if self.pending.is_none() {
            self.log.push(event);
        }
    }

    /// Publishes a value under the device's key.
    pub fn mark(&mut self, name: &'static str, value: u32)
        ensures
            final(self)@ == old(self)@.mark(name, value),
    {
        self.record(Event::Mark(name, value));
    }

    /// Publishes a value under the driver's key.
    pub fn driver_mark(&mut self, name: &'static str, value: u32)
        ensures
            final(self)@ == old(self)@.driver_mark(name, value),
    {
        self.record(Event::DriverMark(name, value));
    }

    /// Makes a request.
    pub fn ask(&mut self, op: T) -> (reply: Reply)
        ensures
            (final(self)@, reply) == old(self)@.ask(op),
    {
        if self.pending.is_some() {
            Reply::Silence
        } else if self.next < self.replies.len() {
            let reply = self.replies[self.next];
            self.next = self.next + 1;
            self.log.push(Event::Did(op));
            reply
        } else {
            self.pending = Some(op);
            Reply::Silence
        }
    }

    /// Makes a request whose answer does not matter.
    pub fn tell(&mut self, op: T)
        ensures
            final(self)@ == old(self)@.tell(op),
    {
        let _ = self.ask(op);
    }

    /// Asks for success or a status; silence is failure `-1`.
    pub fn outcome(&mut self, op: T) -> (answer: Result<(), i32>)
        ensures
            (final(self)@, answer) == old(self)@.outcome(op),
    {
        match self.ask(op) {
            Reply::Outcome(v) => v,
            _ => Err(-1),
        }
    }

    /// Asks for a status; silence is `-1`.
    pub fn status(&mut self, op: T) -> (answer: i32)
        ensures
            (final(self)@, answer) == old(self)@.status(op),
    {
        match self.ask(op) {
            Reply::Status(v) => v,
            _ => -1,
        }
    }

    /// Asks for a register; silence is an unreadable one.
    pub fn byte(&mut self, op: T) -> (answer: Option<u8>)
        ensures
            (final(self)@, answer) == old(self)@.byte(op),
    {
        match self.ask(op) {
            Reply::Byte(v) => v,
            _ => None,
        }
    }

    /// Asks for a byte of memory; silence is 0.
    pub fn octet(&mut self, op: T) -> (answer: u8)
        ensures
            (final(self)@, answer) == old(self)@.octet(op),
    {
        match self.ask(op) {
            Reply::Octet(v) => v,
            _ => 0,
        }
    }

    /// Asks for two registers; silence is unreadable ones.
    pub fn pair(&mut self, op: T) -> (answer: Option<(u8, u8)>)
        ensures
            (final(self)@, answer) == old(self)@.pair(op),
    {
        match self.ask(op) {
            Reply::Pair(v) => v,
            _ => None,
        }
    }

    /// Asks for a measurement; silence is a missing one.
    pub fn reading(&mut self, op: T) -> (answer: Option<i32>)
        ensures
            (final(self)@, answer) == old(self)@.reading(op),
    {
        match self.ask(op) {
            Reply::Reading(v) => v,
            _ => None,
        }
    }

    /// Asks for a number that may be missing; silence is a missing one.
    pub fn number(&mut self, op: T) -> (answer: Option<u32>)
        ensures
            (final(self)@, answer) == old(self)@.number(op),
    {
        match self.ask(op) {
            Reply::Number(v) => v,
            _ => None,
        }
    }

    /// Asks for a number; silence is 0.
    pub fn word(&mut self, op: T) -> (answer: u32)
        ensures
            (final(self)@, answer) == old(self)@.word(op),
    {
        match self.ask(op) {
            Reply::Word(v) => v,
            _ => 0,
        }
    }

    /// Asks for a time; silence is 0.
    pub fn millis(&mut self, op: T) -> (answer: u64)
        ensures
            (final(self)@, answer) == old(self)@.millis(op),
    {
        match self.ask(op) {
            Reply::Millis(v) => v,
            _ => 0,
        }
    }

    /// Asks a question; silence is a no.
    pub fn flag(&mut self, op: T) -> (answer: bool)
        ensures
            (final(self)@, answer) == old(self)@.flag(op),
    {
        match self.ask(op) {
            Reply::Flag(v) => v,
            _ => false,
        }
    }

    /// Asks a question that may stay undecided; silence is undecided.
    pub fn verdict(&mut self, op: T) -> (answer: Option<bool>)
        ensures
            (final(self)@, answer) == old(self)@.verdict(op),
    {
        match self.ask(op) {
            Reply::Verdict(v) => v,
            _ => None,
        }
    }

    /// Asks for a mode; silence is none.
    pub fn mode(&mut self, op: T) -> (answer: Option<OpMode>)
        ensures
            (final(self)@, answer) == old(self)@.mode(op),
    {
        match self.ask(op) {
            Reply::Mode(v) => v,
            _ => None,
        }
    }

    /// Asks for a mode change; silence is an unknown failure.
    pub fn engaged(&mut self, op: T) -> (answer: Result<OpMode, PumpError>)
        ensures
            (final(self)@, answer) == old(self)@.engaged(op),
    {
        match self.ask(op) {
            Reply::Engaged(v) => v,
            _ => Err(PumpError::Other),
        }
    }

    /// Asks for a pump command; silence is an unknown failure.
    pub fn effect(&mut self, op: T) -> (answer: Result<(), PumpError>)
        ensures
            (final(self)@, answer) == old(self)@.effect(op),
    {
        match self.ask(op) {
            Reply::Effect(v) => v,
            _ => Err(PumpError::Other),
        }
    }

    /// Asks for a pump register; silence is an unknown failure.
    pub fn register(&mut self, op: T) -> (answer: Result<u8, PumpError>)
        ensures
            (final(self)@, answer) == old(self)@.register(op),
    {
        match self.ask(op) {
            Reply::Register(v) => v,
            _ => Err(PumpError::Other),
        }
    }

    /// Asks for the status registers; silence is unreadable ones.
    pub fn chip(&mut self, op: T) -> (answer: Option<ChipStatus>)
        ensures
            (final(self)@, answer) == old(self)@.chip(op),
    {
        match self.ask(op) {
            Reply::Chip(v) => v,
            _ => None,
        }
    }

    /// Asks the protection; silence is nothing to do.
    pub fn guard(&mut self, op: T) -> (answer: (GuardAction, bool))
        ensures
            (final(self)@, answer) == old(self)@.guard(op),
    {
        match self.ask(op) {
            Reply::Guard(a, c) => (a, c),
            _ => (GuardAction::Keep, false),
        }
    }

    /// Asks for a bypass verdict; silence is an unknown one.
    pub fn bypass(&mut self, op: T) -> (answer: BypassResolution)
        ensures
            (final(self)@, answer) == old(self)@.bypass(op),
    {
        match self.ask(op) {
            Reply::Bypass(v) => v,
            _ => BypassResolution::Other,
        }
    }

    /// Asks how to raise an adapter; silence is a rejection.
    pub fn elevate(&mut self, op: T) -> (answer: ApsdElevate)
        ensures
            (final(self)@, answer) == old(self)@.elevate(op),
    {
        match self.ask(op) {
            Reply::Elevate(v) => v,
            _ => ApsdElevate::Reject,
        }
    }

    /// Asks whether to try the QC3.5 train; silence is an unmeasured input.
    pub fn gate(&mut self, op: T) -> (answer: Qc35AuthGate)
        ensures
            (final(self)@, answer) == old(self)@.gate(op),
    {
        match self.ask(op) {
            Reply::Gate(v) => v,
            _ => Qc35AuthGate::SkipVinInvalid,
        }
    }

    /// Asks what to do between two samples; silence gives up.
    pub fn force9v(&mut self, op: T) -> (answer: Force9vWait)
        ensures
            (final(self)@, answer) == old(self)@.force9v(op),
    {
        match self.ask(op) {
            Reply::Force9v(v) => v,
            _ => Force9vWait::Stop,
        }
    }

    /// Asks for the unplug verdict; silence disbelieves it.
    pub fn unplug(&mut self, op: T) -> (answer: (bool, u32))
        ensures
            (final(self)@, answer) == old(self)@.unplug(op),
    {
        match self.ask(op) {
            Reply::Unplug(b, n) => (b, n),
            _ => (false, 0),
        }
    }

    /// Asks for the gauge trend; silence is a flat one.
    pub fn trend(&mut self, op: T) -> (answer: (bool, u64))
        ensures
            (final(self)@, answer) == old(self)@.trend(op),
    {
        match self.ask(op) {
            Reply::Trend(b, n) => (b, n),
            _ => (false, 0),
        }
    }

    /// Asks for two counters; silence is two zeros.
    pub fn counters(&mut self, op: T) -> (answer: (u32, u32))
        ensures
            (final(self)@, answer) == old(self)@.counters(op),
    {
        match self.ask(op) {
            Reply::Counters(a, b) => (a, b),
            _ => (0, 0),
        }
    }

    /// Asks for two totals; silence is two zeros.
    pub fn totals(&mut self, op: T) -> (answer: (u64, u64))
        ensures
            (final(self)@, answer) == old(self)@.totals(op),
    {
        match self.ask(op) {
            Reply::Totals(a, b) => (a, b),
            _ => (0, 0),
        }
    }

    /// Asks for a sample; silence is none.
    pub fn sample(&mut self, op: T) -> (answer: Option<TelemetrySample>)
        ensures
            (final(self)@, answer) == old(self)@.sample(op),
    {
        match self.ask(op) {
            Reply::Sample(v) => v,
            _ => None,
        }
    }

    /// Asks for a session; silence is none.
    pub fn summary(&mut self, op: T) -> (answer: Option<SessionSummary>)
        ensures
            (final(self)@, answer) == old(self)@.summary(op),
    {
        match self.ask(op) {
            Reply::Summary(v) => v,
            _ => None,
        }
    }

    /// Asks for the pump's lifecycle; silence is no pump.
    pub fn lifecycle(&mut self, op: T) -> (answer: Option<PumpState>)
        ensures
            (final(self)@, answer) == old(self)@.lifecycle(op),
    {
        match self.ask(op) {
            Reply::Lifecycle(v) => v,
            _ => None,
        }
    }

    /// Asks for a resource descriptor; silence is the end of the list.
    pub fn descriptor(&mut self, op: T) -> (answer: Option<Descriptor>)
        ensures
            (final(self)@, answer) == old(self)@.descriptor(op),
    {
        match self.ask(op) {
            Reply::Descriptor(v) => v,
            _ => None,
        }
    }

    /// Asks for a register transfer; silence is a failed one.
    pub fn transfer(&mut self, op: T) -> (answer: Transfer)
        ensures
            (final(self)@, answer) == old(self)@.transfer(op),
    {
        match self.ask(op) {
            Reply::Transfer(v) => v,
            _ => Transfer { value: None, status: -1 },
        }
    }

    /// Asks for an attach; silence is a failed one.
    pub fn attach(&mut self, op: T) -> (answer: AttachReply)
        ensures
            (final(self)@, answer) == old(self)@.attach(op),
    {
        match self.ask(op) {
            Reply::Attach(v) => v,
            _ => AttachReply { status: -1, word0: 0, word1: 0, word2: 0, word3: 0 },
        }
    }

    /// Asks for the APSD probe; silence is a failed one.
    pub fn apsd(&mut self, op: T) -> (answer: SuperuserApsdProbe)
        ensures
            (final(self)@, answer) == old(self)@.apsd(op),
    {
        match self.ask(op) {
            Reply::Apsd(v) => v,
            _ => SuperuserApsdProbe { open_status: -1, grant_status: -1, read_status: -1, value: 0 },
        }
    }

    /// Asks which loops are disabled; silence is neither.
    pub fn loops(&mut self, op: T) -> (answer: (bool, bool))
        ensures
            (final(self)@, answer) == old(self)@.loops(op),
    {
        match self.ask(op) {
            Reply::Loops(a, b) => (a, b),
            _ => (false, false),
        }
    }
}

/// Whether `long` is the run of `short` with at least as many replies: the same
/// run up to the request at which `short` stopped.
pub open spec fn continues<T>(short: Io<T>, long: Io<T>) -> bool {
    &&& short.replies.is_prefix_of(long.replies)
    &&& if short.pending is Some {
        short.next <= long.next && short.log.is_prefix_of(long.log)
    } else {
        long.pending is None && short.next == long.next && short.log == long.log
    }
}

/// A run is repeated faithfully when replies are added: every request and every
/// publication of the shorter run is made again, in the same place and with the
/// same answer.
pub proof fn law_replay_agrees<T>(short: Io<T>, long: Io<T>, op: T, event: Event<T>)
    requires
        short.valid(),
        long.valid(),
        continues(short, long),
    ensures
        continues(short.ask(op).0, long.ask(op).0),
        continues(short.record(event), long.record(event)),
        short.ask(op).0.pending is None ==> short.ask(op).1 == long.ask(op).1,
        short.ask(op).0.valid() && long.ask(op).0.valid(),
        short.record(event).valid() && long.record(event).valid(),
{
    let s = short.ask(op).0;
    let l = long.ask(op).0;
    assert(short.log.is_prefix_of(short.log.push(Event::Did(op))));
    assert(long.log.is_prefix_of(long.log.push(Event::Did(op))));
    assert(long.log.is_prefix_of(long.log.push(event)));
    assert(s.log.is_prefix_of(l.log));
    assert(short.record(event).log.is_prefix_of(long.record(event).log));
}

/// The request at which a run stops is the first thing that a run with one more
/// reply does after it.
pub proof fn law_pending_request_comes_next<T>(short: Io<T>, long: Io<T>, op: T)
    requires
        short.valid(),
        continues(short, long),
        short.pending is None,
        short.ask(op).0.pending is Some,
        short.replies.len() < long.replies.len(),
    ensures
        short.ask(op).0.pending == Some(op),
        long.ask(op).0.log == short.log.push(Event::Did(op)),
        long.ask(op).1 == long.replies[short.replies.len() as int],
{
}

/// Once a request is pending, a run has no effect any more: nothing is consumed,
/// recorded or answered.
pub proof fn law_stopped_run_is_inert<T>(io: Io<T>, op: T, event: Event<T>)
    requires
        io.pending is Some,
    ensures
        io.ask(op) == (io, Reply::Silence),
        io.record(event) == io,
{
}

/// What is recorded stays: a log only grows at its end.
pub proof fn law_log_only_grows<T>(io: Io<T>, op: T, event: Event<T>)
    ensures
        io.log.is_prefix_of(io.ask(op).0.log),
        io.log.is_prefix_of(io.record(event).log),
{
}

/// How long a request sleeps (ms).
pub open spec fn pause_ms(op: crate::exchange::Op) -> nat {
    match op {
        crate::exchange::Op::Sleep(ms) => ms as nat,
        _ => 0,
    }
}

/// How long the requests of a log have slept (ms).
pub open spec fn slept_ms(log: Seq<Event<crate::exchange::Op>>) -> nat
    decreases log.len(),
{
    if log.len() == 0 {
        0
    } else {
        slept_ms(log.drop_last()) + match log.last() {
            Event::Did(op) => pause_ms(op),
            _ => 0,
        }
    }
}

/// A request adds at most its own pause to a log.
pub proof fn lemma_slept_by_a_request(io: Io<crate::exchange::Op>, op: crate::exchange::Op)
    ensures
        slept_ms(io.ask(op).0.log) <= slept_ms(io.log) + pause_ms(op),
{
    assert(io.log.push(Event::Did(op)).drop_last() =~= io.log);
}

/// What a request is answered with is what its caller gets, for every kind of answer.
pub proof fn law_answers_are_passed_on<T>(io: Io<T>, op: T)
    requires
        io.pending is None,
        io.next < io.replies.len(),
    ensures
        io.replies[io.next as int] matches Reply::Outcome(v) ==> io.outcome(op).1 == v,
        io.replies[io.next as int] matches Reply::Status(v) ==> io.status(op).1 == v,
        io.replies[io.next as int] matches Reply::Byte(v) ==> io.byte(op).1 == v,
        io.replies[io.next as int] matches Reply::Octet(v) ==> io.octet(op).1 == v,
        io.replies[io.next as int] matches Reply::Pair(v) ==> io.pair(op).1 == v,
        io.replies[io.next as int] matches Reply::Reading(v) ==> io.reading(op).1 == v,
        io.replies[io.next as int] matches Reply::Number(v) ==> io.number(op).1 == v,
        io.replies[io.next as int] matches Reply::Word(v) ==> io.word(op).1 == v,
        io.replies[io.next as int] matches Reply::Millis(v) ==> io.millis(op).1 == v,
        io.replies[io.next as int] matches Reply::Flag(v) ==> io.flag(op).1 == v,
        io.replies[io.next as int] matches Reply::Verdict(v) ==> io.verdict(op).1 == v,
        io.replies[io.next as int] matches Reply::Mode(v) ==> io.mode(op).1 == v,
        io.replies[io.next as int] matches Reply::Engaged(v) ==> io.engaged(op).1 == v,
        io.replies[io.next as int] matches Reply::Effect(v) ==> io.effect(op).1 == v,
        io.replies[io.next as int] matches Reply::Register(v) ==> io.register(op).1 == v,
        io.replies[io.next as int] matches Reply::Chip(v) ==> io.chip(op).1 == v,
        io.replies[io.next as int] matches Reply::Guard(a, c) ==> io.guard(op).1 == (a, c),
        io.replies[io.next as int] matches Reply::Bypass(v) ==> io.bypass(op).1 == v,
        io.replies[io.next as int] matches Reply::Elevate(v) ==> io.elevate(op).1 == v,
        io.replies[io.next as int] matches Reply::Gate(v) ==> io.gate(op).1 == v,
        io.replies[io.next as int] matches Reply::Force9v(v) ==> io.force9v(op).1 == v,
        io.replies[io.next as int] matches Reply::Unplug(b, n) ==> io.unplug(op).1 == (b, n),
        io.replies[io.next as int] matches Reply::Trend(b, n) ==> io.trend(op).1 == (b, n),
        io.replies[io.next as int] matches Reply::Counters(a, b) ==> io.counters(op).1 == (a, b),
        io.replies[io.next as int] matches Reply::Totals(a, b) ==> io.totals(op).1 == (a, b),
        io.replies[io.next as int] matches Reply::Sample(v) ==> io.sample(op).1 == v,
        io.replies[io.next as int] matches Reply::Summary(v) ==> io.summary(op).1 == v,
        io.replies[io.next as int] matches Reply::Lifecycle(v) ==> io.lifecycle(op).1 == v,
        io.replies[io.next as int] matches Reply::Descriptor(v) ==> io.descriptor(op).1 == v,
        io.replies[io.next as int] matches Reply::Transfer(v) ==> io.transfer(op).1 == v,
        io.replies[io.next as int] matches Reply::Attach(v) ==> io.attach(op).1 == v,
        io.replies[io.next as int] matches Reply::Apsd(v) ==> io.apsd(op).1 == v,
        io.replies[io.next as int] matches Reply::Loops(a, b) ==> io.loops(op).1 == (a, b),
{
}

/// Silence has a meaning for every kind of answer: nothing was read, and nothing succeeded.
pub proof fn law_silence_is_no_success<T>(io: Io<T>, op: T)
    requires
        io.pending is None,
        io.next < io.replies.len(),
        io.replies[io.next as int] is Silence,
    ensures
        io.outcome(op).1 == Err::<(), i32>((-1) as i32),
        io.status(op).1 == (-1) as i32,
        io.byte(op).1 is None,
        io.octet(op).1 == 0,
        io.pair(op).1 is None,
        io.reading(op).1 is None,
        io.number(op).1 is None,
        io.word(op).1 == 0,
        io.millis(op).1 == 0,
        io.flag(op).1 == false,
        io.verdict(op).1 is None,
        io.mode(op).1 is None,
        io.engaged(op).1 == Err::<OpMode, PumpError>(PumpError::Other),
        io.effect(op).1 == Err::<(), PumpError>(PumpError::Other),
        io.register(op).1 == Err::<u8, PumpError>(PumpError::Other),
        io.chip(op).1 is None,
        io.guard(op).1 == (GuardAction::Keep, false),
        io.bypass(op).1 == BypassResolution::Other,
        io.elevate(op).1 == ApsdElevate::Reject,
        io.gate(op).1 == Qc35AuthGate::SkipVinInvalid,
        io.force9v(op).1 == Force9vWait::Stop,
        io.unplug(op).1 == (false, 0u32),
        io.trend(op).1 == (false, 0u64),
        io.counters(op).1 == (0u32, 0u32),
        io.totals(op).1 == (0u64, 0u64),
        io.sample(op).1 is None,
        io.summary(op).1 is None,
        io.lifecycle(op).1 is None,
        io.descriptor(op).1 is None,
        io.transfer(op).1 == (Transfer { value: None, status: (-1) as i32 }),
        io.attach(op).1 == (AttachReply { status: (-1) as i32, word0: 0, word1: 0, word2: 0, word3: 0 }),
        io.apsd(op).1 == (SuperuserApsdProbe { open_status: (-1) as i32, grant_status: (-1) as i32, read_status: (-1) as i32, value: 0 }),
        io.loops(op).1 == (false, false),
{
}

} // verus!
