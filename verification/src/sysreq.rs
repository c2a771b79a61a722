//! The power request that keeps the platform out of standby.
//!
//! It is held for the whole life of the device.
use crate::exchange::Op;
use crate::names::REASON_TEXT;
use crate::session::{Io, Session};
use crate::status::{STATUS_INVALID_PARAMETER, STATUS_SUCCESS};
use crate::trace;
use vstd::prelude::*;

verus! {

pub open spec fn acquire_run(io: Io<Op>, held: bool) -> (Io<Op>, bool, i32) {
    if held {
        (io, held, STATUS_SUCCESS)
    } else {
        let (io, object) = io.flag(Op::FunctionObject);
        if !object {
            (io, held, STATUS_INVALID_PARAMETER)
        } else {
            let (io, created) = io.status(Op::PowerRequestCreate(REASON_TEXT));
            if created < 0 {
                (io, held, created)
            } else {
                let (io, set) = io.status(Op::PowerRequestSet);
                if set < 0 {
                    (io.tell(Op::PowerRequestDelete), held, set)
                } else {
                    (io, true, STATUS_SUCCESS)
                }
            }
        }
    }
}

/// Creates and sets the request, unless it is held already. A request that
/// cannot be set is deleted again.
pub fn acquire(io: &mut Session<Op>, held: &mut bool) -> (status: i32)
    ensures
        (final(io)@, *final(held), status) == acquire_run(old(io)@, *old(held)),
{
    if *held {
        return STATUS_SUCCESS;
    }
    if !io.flag(Op::FunctionObject) {
        return STATUS_INVALID_PARAMETER;
    }
    let created: i32 = io.status(Op::PowerRequestCreate(REASON_TEXT));
    if created < 0 {
        return created;
    }
    let set: i32 = io.status(Op::PowerRequestSet);
    if set < 0 {
        io.tell(Op::PowerRequestDelete);
        return set;
    }
    *held = true;
    STATUS_SUCCESS
}

pub open spec fn release_run(io: Io<Op>, held: bool) -> (Io<Op>, bool) {
    if held {
        (io.tell(Op::PowerRequestClear).tell(Op::PowerRequestDelete), false)
    } else {
        (io, held)
    }
}

/// Takes the request back and deletes it, if it is held.
pub fn release(io: &mut Session<Op>, held: &mut bool)
    ensures
        (final(io)@, *final(held)) == release_run(old(io)@, *old(held)),
{
    if *held {
        io.tell(Op::PowerRequestClear);
        io.tell(Op::PowerRequestDelete);
        *held = false;
    }
}

/// The request is held exactly after a successful acquisition, and never after a
/// release; acquiring a held request does nothing.
pub proof fn law_release_undoes_acquire(io: Io<Op>, held: bool)
    ensures
        acquire_run(io, held).1 <==> acquire_run(io, held).2 >= 0,
        !release_run(acquire_run(io, held).0, acquire_run(io, held).1).1,
        held ==> acquire_run(io, held) == (io, true, STATUS_SUCCESS),
        !held ==> release_run(io, held) == (io, false),
{
}

/// The request is created with its reason and set, and deleted again where it cannot be
/// set; one that is held is left alone. What failed is what is answered.
pub proof fn law_request_is_created_and_set(io: Io<Op>, held: bool)
    requires
        io.pending is None,
        acquire_run(io, held).0.pending is None,
    ensures
        ({
            let (after, left, status) = acquire_run(io, held);
            let asked = trace::asked(io, after);
            let create = Op::PowerRequestCreate("nabu ln8000 charge pump");
            let there = trace::yes(trace::answer(io, 0));
            let created = trace::status_of(trace::answer(io, 1));
            let set = trace::status_of(trace::answer(io, 2));
            &&& held ==> asked.len() == 0 && left && status == 0
            &&& !held && !there ==> asked == seq![Op::FunctionObject] && !left && status
                == -1073741811
            &&& !held && there && created < 0 ==> asked == seq![Op::FunctionObject, create]
                && !left && status == created
            &&& !held && there && created >= 0 && set < 0 ==> asked == seq![
                Op::FunctionObject,
                create,
                Op::PowerRequestSet,
                Op::PowerRequestDelete,
            ] && !left && status == set
            &&& !held && there && created >= 0 && set >= 0 ==> asked == seq![
                Op::FunctionObject,
                create,
                Op::PowerRequestSet,
            ] && left && status == 0
        }),
        ({
            let (after, left) = release_run(io, held);
            after.pending is None ==> !left && trace::asked(io, after) == if held {
                seq![Op::PowerRequestClear, Op::PowerRequestDelete]
            } else {
                Seq::<Op>::empty()
            }
        }),
{
    broadcast use trace::group_trace;

    trace::lemma_asked_nothing(io);
}

} // verus!
