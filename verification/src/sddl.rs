//! Who may open the device.
use crate::exchange::Op;
use crate::names::SDDL_TEXT;
use crate::session::{Io, Session};
use crate::trace;
use vstd::prelude::*;

verus! {

pub open spec fn assign_run(io: Io<Op>) -> (Io<Op>, i32) {
    io.status(Op::AccessPolicy(SDDL_TEXT))
}

/// Assigns the access policy: the system and administrators, nobody else.
pub fn assign(io: &mut Session<Op>) -> (status: i32)
    ensures
        (final(io)@, status) == assign_run(old(io)@),
{
    io.status(Op::AccessPolicy(SDDL_TEXT))
}

/// The access policy that is assigned is the one of the device, and the status is the
/// answer.
pub proof fn law_policy_is_assigned(io: Io<Op>)
    requires
        io.pending is None,
        assign_run(io).0.pending is None,
    ensures
        trace::asked(io, assign_run(io).0) == seq![
            Op::AccessPolicy("D:P(A;;GA;;;SY)(A;;GA;;;BA)"),
        ],
        assign_run(io).1 == trace::status_of(trace::answer(io, 0)),
{
    broadcast use trace::group_trace;

    trace::lemma_asked_nothing(io);
}

} // verus!
