//! Creation of the driver and of the device.
use crate::battery::{self, assign_ioctl_preprocess};
use crate::exchange::Op;
use crate::names::{SDDL_TEXT, SYMLINK_NAME};
use crate::negotiate::status_word;
use crate::prepare::{self, mark_stage};
use crate::sddl::{self, assign};
use crate::session::{Event, Io, Session};
use crate::state::DriverState;
use crate::status::STATUS_SUCCESS;
use crate::trace;
use vstd::prelude::*;

verus! {

/// The driver object is there.
pub const STAGE_DRIVER: u32 = 1;

/// The device callback was entered.
pub const STAGE_ENTER: u32 = 10;

/// It came to the device object.
pub const STAGE_DEVICE: u32 = 11;

/// It came to the interface.
pub const STAGE_INTERFACE: u32 = 12;

/// It came to the symbolic link.
pub const STAGE_SYMLINK: u32 = 13;

/// It came to the queue.
pub const STAGE_QUEUE: u32 = 14;

/// It came to the timer.
pub const STAGE_TIMER: u32 = 15;

/// It finished.
pub const STAGE_DONE: u32 = 0xFF;

pub open spec fn mark_driver_run(io: Io<Op>, stage: u32, status: i32) -> Io<Op> {
    io.driver_mark("DriverStage", stage).driver_mark("DriverStatus", status_word(status))
}

/// Publishes how far the driver came, and with which status.
pub fn mark_driver(io: &mut Session<Op>, stage: u32, status: i32)
    ensures
        final(io)@ == mark_driver_run(old(io)@, stage, status),
{
    io.driver_mark("DriverStage", stage);
    io.driver_mark("DriverStatus", status_word(status));
}

/// Seconds since the machine started, as far as they fit.
#[verifier::allow_in_spec]
pub fn uptime_word(now_ms: u64) -> (word: u32)
    returns
        (now_ms / 1000 % 0x1_0000_0000) as u32,
{
    (now_ms / 1000 % 0x1_0000_0000) as u32
}

#[verifier::opaque]
pub open spec fn driver_entry_run(io: Io<Op>) -> (Io<Op>, i32) {
    let (io, status) = io.status(Op::DriverCreate);
    if status < 0 {
        (io, status)
    } else {
        let (io, now) = io.millis(Op::Now);
        (
            io.driver_mark("DriverStage", STAGE_DRIVER).driver_mark(
                "DriverStatus",
                uptime_word(now),
            ),
            status,
        )
    }
}

/// Creates the driver object and publishes when that was.
pub fn driver_entry(io: &mut Session<Op>) -> (status: i32)
    ensures
        (final(io)@, status) == driver_entry_run(old(io)@),
{
    proof {
        reveal(driver_entry_run);
    }
    let status: i32 = io.status(Op::DriverCreate);
    if status >= 0 {
        let now: u64 = io.millis(Op::Now);
        io.driver_mark("DriverStage", STAGE_DRIVER);
        io.driver_mark("DriverStatus", uptime_word(now));
    }
    status
}

#[verifier::opaque]
pub open spec fn init_device_run(io: Io<Op>) -> (Io<Op>, i32) {
    let io = mark_driver_run(io.tell(Op::LockInit), STAGE_ENTER, 0);
    let (io, size) = io.word(Op::AttributeSize);
    let io = io.driver_mark("AttrSize", size).tell(Op::PnpCallbacks);
    let (io, preprocess) = battery::assign_ioctl_preprocess_run(io);
    if preprocess < 0 {
        (mark_driver_run(io, STAGE_DEVICE, preprocess), preprocess)
    } else {
        let (io, policy) = sddl::assign_run(io);
        let (io, created) = io.driver_mark("SddlSt", status_word(policy)).status(Op::DeviceCreate);
        if created < 0 {
            (mark_driver_run(io, STAGE_DEVICE, created), created)
        } else {
            let (io, interface) = mark_driver_run(io, STAGE_DEVICE, 0).status(
                Op::InterfaceCreate,
            );
            if interface < 0 {
                (mark_driver_run(io, STAGE_INTERFACE, interface), interface)
            } else {
                (io, STATUS_SUCCESS)
            }
        }
    }
}

/// Registers the callbacks, assigns the access policy and creates device and
/// interface. What became of the policy is only published.
fn init_device(io: &mut Session<Op>) -> (status: i32)
    ensures
        (final(io)@, status) == init_device_run(old(io)@),
{
    proof {
        reveal(init_device_run);
    }
    io.tell(Op::LockInit);
    mark_driver(io, STAGE_ENTER, 0);
    let size: u32 = io.word(Op::AttributeSize);
    io.driver_mark("AttrSize", size);
    io.tell(Op::PnpCallbacks);
    let preprocess: i32 = assign_ioctl_preprocess(io);
    if preprocess < 0 {
        mark_driver(io, STAGE_DEVICE, preprocess);
        return preprocess;
    }
    let policy: i32 = assign(io);
    io.driver_mark("SddlSt", status_word(policy));
    let created: i32 = io.status(Op::DeviceCreate);
    if created < 0 {
        mark_driver(io, STAGE_DEVICE, created);
        return created;
    }
    mark_driver(io, STAGE_DEVICE, 0);
    let interface: i32 = io.status(Op::InterfaceCreate);
    if interface < 0 {
        mark_driver(io, STAGE_INTERFACE, interface);
        return interface;
    }
    STATUS_SUCCESS
}

#[verifier::opaque]
pub open spec fn equip_device_run(io: Io<Op>) -> (Io<Op>, Result<bool, i32>) {
    let (io, link) = io.status(Op::SymlinkCreate(SYMLINK_NAME));
    let io = if link < 0 {
        mark_driver_run(io, STAGE_SYMLINK, link).driver_mark("LinkStatus", status_word(link))
    } else {
        io
    };
    let (io, queue) = io.status(Op::QueueCreate);
    if queue < 0 {
        (mark_driver_run(io, STAGE_QUEUE, queue), Err(queue))
    } else {
        let (io, timer) = io.status(Op::TimerCreate);
        if timer < 0 {
            (mark_driver_run(io, STAGE_TIMER, timer), Ok(false))
        } else {
            (io, Ok(true))
        }
    }
}

/// Creates link, queue and timer. Only the queue is indispensable; the result
/// says whether there is a timer.
fn equip_device(io: &mut Session<Op>) -> (r: Result<bool, i32>)
    ensures
        (final(io)@, r) == equip_device_run(old(io)@),
{
    proof {
        reveal(equip_device_run);
    }
    let link: i32 = io.status(Op::SymlinkCreate(SYMLINK_NAME));
    if link < 0 {
        mark_driver(io, STAGE_SYMLINK, link);
        io.driver_mark("LinkStatus", status_word(link));
    }
    let queue: i32 = io.status(Op::QueueCreate);
    if queue < 0 {
        mark_driver(io, STAGE_QUEUE, queue);
        return Err(queue);
    }
    let timer: i32 = io.status(Op::TimerCreate);
    if timer < 0 {
        mark_driver(io, STAGE_TIMER, timer);
        return Ok(false);
    }
    Ok(true)
}

#[verifier::opaque]
pub open spec fn evt_device_add_run(io: Io<Op>, state: DriverState) -> (
    Io<Op>,
    DriverState,
    i32,
) {
    let (io, status) = init_device_run(io);
    if status < 0 {
        (io, state, status)
    } else {
        let (io, equipped) = equip_device_run(io);
        match equipped {
            Err(status) => (io, state, status),
            Ok(timer_ready) => (
                prepare::mark_stage_run(
                    mark_driver_run(io.tell(Op::HandlesStore), STAGE_DONE, 0),
                    STAGE_DONE,
                    0,
                ),
                DriverState { timer_ready, device_ready: true, ..state },
                STATUS_SUCCESS,
            ),
        }
    }
}

/// Creates the device with its interface, link, queue and telemetry timer.
pub fn evt_device_add(io: &mut Session<Op>, state: &mut DriverState) -> (status: i32)
    ensures
        (final(io)@, *final(state), status) == evt_device_add_run(old(io)@, *old(state)),
        old(state).valid() ==> final(state).valid(),
{
    proof {
        reveal(evt_device_add_run);
    }
    let status: i32 = init_device(io);
    if status < 0 {
        return status;
    }
    match equip_device(io) {
        Err(status) => status,
        Ok(timer_ready) => {
            io.tell(Op::HandlesStore);
            state.timer_ready = timer_ready;
            state.device_ready = true;
            mark_driver(io, STAGE_DONE, 0);
            mark_stage(io, STAGE_DONE, 0);
            STATUS_SUCCESS
        },
    }
}

/// The device is there exactly after success; a failure leaves the state alone.
pub proof fn law_device_is_there_after_success(io: Io<Op>, state: DriverState)
    ensures
        ({
            let (_, after, status) = evt_device_add_run(io, state);
            &&& status >= 0 ==> status == STATUS_SUCCESS && after.device_ready
            &&& status < 0 ==> after == state
        }),
{
    reveal(evt_device_add_run);
    reveal(init_device_run);
    reveal(equip_device_run);
}

/// The line of a log that assigned the driver's access policy.
pub open spec fn policy_line() -> Event<Op> {
    Event::Did(Op::AccessPolicy(SDDL_TEXT))
}

/// Every creation of the device in a log comes after the access policy.
pub open spec fn policy_first(log: Seq<Event<Op>>) -> bool {
    forall|i: int|
        0 <= i < log.len() && #[trigger] log[i] == Event::Did(Op::DeviceCreate) ==> log.take(
            i,
        ).contains(policy_line())
}

proof fn lemma_line_keeps_policy_first(log: Seq<Event<Op>>, line: Event<Op>)
    requires
        policy_first(log),
        line == Event::Did(Op::DeviceCreate) ==> log.contains(policy_line()),
    ensures
        policy_first(log.push(line)),
        log.contains(policy_line()) || line == policy_line() ==> log.push(line).contains(
            policy_line(),
        ),
{
    let longer = log.push(line);
    assert forall|i: int|
        0 <= i < longer.len() && #[trigger] longer[i] == Event::Did(
            Op::DeviceCreate,
        ) implies longer.take(i).contains(policy_line()) by {
        if i < log.len() {
            assert(longer.take(i) =~= log.take(i));
        } else {
            assert(longer.take(i) =~= log);
        }
    }
    if log.contains(policy_line()) {
        let j = choose|j: int| 0 <= j < log.len() && log[j] == policy_line();
        assert(longer[j] == policy_line());
    }
    if line == policy_line() {
        assert(longer[log.len() as int] == policy_line());
    }
}

broadcast proof fn lemma_ask_keeps_policy_first(io: Io<Op>, op: Op)
    requires
        policy_first(io.log),
        op is DeviceCreate ==> io.pending is Some || io.log.contains(policy_line()),
    ensures
        policy_first((#[trigger] io.ask(op)).0.log),
        io.log.contains(policy_line()) ==> io.ask(op).0.log.contains(policy_line()),
        op == Op::AccessPolicy(SDDL_TEXT) ==> io.ask(op).0.pending is Some || io.ask(
            op,
        ).0.log.contains(policy_line()),
{
    if io.pending is None {
        lemma_line_keeps_policy_first(io.log, Event::Did(op));
    }
}

broadcast proof fn lemma_record_keeps_policy_first(io: Io<Op>, line: Event<Op>)
    requires
        policy_first(io.log),
        line !is Did,
    ensures
        policy_first((#[trigger] io.record(line)).log),
        io.log.contains(policy_line()) ==> io.record(line).log.contains(policy_line()),
{
    lemma_line_keeps_policy_first(io.log, line);
}

/// The access policy is assigned before the device is created, every time.
pub proof fn law_policy_comes_before_the_device(io: Io<Op>, state: DriverState)
    requires
        policy_first(io.log),
    ensures
        policy_first(evt_device_add_run(io, state).0.log),
{
    broadcast use {lemma_ask_keeps_policy_first, lemma_record_keeps_policy_first};

    reveal(evt_device_add_run);
    reveal(init_device_run);
    reveal(equip_device_run);
}

/// The driver is created first, and its start is noted where that succeeds.
pub proof fn law_driver_is_created(io: Io<Op>)
    requires
        io.pending is None,
        driver_entry_run(io).0.pending is None,
    ensures
        ({
            let (after, status) = driver_entry_run(io);
            &&& status == trace::status_of(trace::answer(io, 0))
            &&& trace::asked(io, after) == if status < 0 {
                seq![Op::DriverCreate]
            } else {
                seq![Op::DriverCreate, Op::Now]
            }
        }),
{
    broadcast use trace::group_trace;

    reveal(driver_entry_run);
    trace::lemma_asked_nothing(io);
}

/// A device is made in this order, and no further than the first step that fails, whose
/// status is answered: lock and callbacks, the looks at requests, the access policy, the
/// device and its interface. The outcome of the policy stops nothing.
pub proof fn law_device_is_made_in_order(io: Io<Op>)
    requires
        io.pending is None,
        init_device_run(io).0.pending is None,
    ensures
        ({
            let (after, status) = init_device_run(io);
            let asked = trace::asked(io, after);
            let s = |k: int| trace::status_of(trace::answer(io, k));
            let first = seq![
                Op::LockInit,
                Op::AttributeSize,
                Op::PnpCallbacks,
                Op::PreprocessDeviceControl,
            ];
            let looks = first.push(Op::PreprocessSystemControl);
            let device = looks.push(
                Op::AccessPolicy("D:P(A;;GA;;;SY)(A;;GA;;;BA)"),
            ).push(Op::DeviceCreate);
            &&& s(3) < 0 ==> asked == first && status == s(3)
            &&& s(3) >= 0 && s(4) < 0 ==> asked == looks && status == s(4)
            &&& s(3) >= 0 && s(4) >= 0 && s(6) < 0 ==> asked == device && status == s(6)
            &&& s(3) >= 0 && s(4) >= 0 && s(6) >= 0 ==> asked == device.push(Op::InterfaceCreate)
                && status == if s(7) < 0 {
                s(7)
            } else {
                0
            }
        }),
{
    broadcast use trace::group_trace;

    reveal(init_device_run);
    trace::lemma_asked_nothing(io);
}

/// A device is equipped with its link, its queue and its timer. Only the queue is
/// indispensable; whether there is a timer is answered.
pub proof fn law_device_needs_its_queue(io: Io<Op>)
    requires
        io.pending is None,
        equip_device_run(io).0.pending is None,
    ensures
        ({
            let (after, r) = equip_device_run(io);
            let asked = trace::asked(io, after);
            let queue = trace::status_of(trace::answer(io, 1));
            let timer = trace::status_of(trace::answer(io, 2));
            let link = Op::SymlinkCreate("/DosDevices/nabu_ln8000");
            &&& queue < 0 ==> asked == seq![link, Op::QueueCreate] && r == Err::<bool, i32>(queue)
            &&& queue >= 0 ==> asked == seq![link, Op::QueueCreate, Op::TimerCreate] && r == Ok::<
                bool,
                i32,
            >(timer >= 0)
        }),
{
    broadcast use trace::group_trace;

    reveal(equip_device_run);
    trace::lemma_asked_nothing(io);
}

/// A device that was made and equipped is stored, and the state says that it is there
/// and whether it has a timer.
pub proof fn law_device_is_stored(io: Io<Op>, state: DriverState)
    requires
        io.pending is None,
        evt_device_add_run(io, state).0.pending is None,
    ensures
        ({
            let (after, left, status) = evt_device_add_run(io, state);
            let (made, first) = init_device_run(io);
            let (equipped, r) = equip_device_run(made);
            &&& first < 0 ==> status == first && left == state
            &&& first >= 0 && r is Err ==> status == r->Err_0 && left == state
            &&& first >= 0 && r is Ok ==> status == 0 && left == (DriverState {
                timer_ready: r->Ok_0,
                device_ready: true,
                ..state
            }) && trace::asked(io, after).last() == Op::HandlesStore
        }),
{
    broadcast use trace::group_trace;

    reveal(evt_device_add_run);
    trace::lemma_asked_nothing(io);
    let (made, first) = init_device_run(io);
    assert(io.log.len() <= made.log.len()) by {
        reveal(init_device_run);
    }
    let (equipped, r) = equip_device_run(made);
    assert(made.log.len() <= equipped.log.len()) by {
        reveal(equip_device_run);
    }
}

} // verus!
