use vstd::prelude::*;

use crate::base::{fired_during, is_persistent, BaseView};
use crate::flags::{EventFlags, LoopFlags, EV_ALL, EV_READ};
use crate::reason::{exit_reason_of, ExitReason, EXIT_NORMAL};
use crate::time::TimeSpec;

verus! {

/// A notice for any key leaves the table's length and the break mark as they
/// were, and never arms a registration.
proof fn lemma_dispatch_frame(b: BaseView, e: int, id: int)
    ensures
        b.after_dispatch(e).regs.len() == b.regs.len(),
        b.after_dispatch(e).break_requested == b.break_requested,
        b.valid(id) && !b.regs[id].pending ==> !b.after_dispatch(e).regs[id].pending,
{
}

/// A registration that is not armed receives none of the notices that
/// follow, whatever keys they name.
pub proof fn lemma_unarmed_stays_silent(b: BaseView, evs: Seq<(int, u32)>, id: int)
    requires
        !(b.valid(id) && b.regs[id].pending),
    ensures
        !fired_during(b, evs, id),
    decreases evs.len(),
{
    if evs.len() > 0 {
        lemma_dispatch_frame(b, evs[0].0, id);
        lemma_unarmed_stays_silent(b.after_dispatch(evs[0].0), evs.drop_first(), id);
    }
}

/// Once a handle is disabled, no later notice reaches its callback, even one
/// that the backend had already queued.
pub proof fn lemma_disabled_never_fires(b: BaseView, id: int, evs: Seq<(int, u32)>)
    requires
        b.valid(id),
    ensures
        !fired_during(b.after_disable(id), evs, id),
{
    lemma_unarmed_stays_silent(b.after_disable(id), evs, id);
}

/// After a break is requested, no further notice of the pass reaches any
/// callback, and a pass that the backend ends normally with the break mark
/// set (and no exit mark) reports the break.
pub proof fn lemma_break_halts_dispatch(b: BaseView, evs: Seq<(int, u32)>, id: int, flags: LoopFlags)
    ensures
        !fired_during(b.after_break(), evs, id),
        exit_reason_of(flags, EXIT_NORMAL, false, true) == ExitReason::GotBreak,
    decreases evs.len(),
{
    if evs.len() > 0 {
        let b1 = b.after_break().after_dispatch(evs[0].0);
        lemma_dispatch_frame(b.after_break(), evs[0].0, id);
        assert(b1 == b1.after_break());
        lemma_break_halts_dispatch(b1, evs.drop_first(), id, flags);
    }
}

/// A one-shot trigger that fires is disarmed: no later notice reaches its
/// callback until it is armed again.
pub proof fn lemma_one_shot_fires_once(b: BaseView, id: int, evs: Seq<(int, u32)>)
    requires
        b.fires(id),
        !is_persistent(b.regs[id]),
    ensures
        !fired_during(b.after_dispatch(id), evs, id),
{
    lemma_unarmed_stays_silent(b.after_dispatch(id), evs, id);
}

/// A persistent trigger that fires stays armed with its timeout: the next
/// notice for it reaches its callback again.
pub proof fn lemma_persistent_rearms(b: BaseView, id: int)
    requires
        b.fires(id),
        is_persistent(b.regs[id]),
    ensures
        b.after_dispatch(id) == b,
        b.after_dispatch(id).fires(id),
{
}

/// An armed trigger given a notice with the read bit runs its callback, and
/// the flags handed to it hold the read bit.
pub proof fn lemma_read_notice_reaches_callback(b: BaseView, id: int, fired: u32)
    requires
        b.fires(id),
        fired & EV_READ == EV_READ,
    ensures
        fired_during(b, seq![(id, fired)], id),
        (fired & EV_ALL) & EV_READ == EV_READ,
{
    assert(seq![(id, fired)][0] == (id, fired));
    assert((fired & 0xff) & 0x02 == 0x02) by (bit_vector)
        requires
            fired & 0x02 == 0x02,
    ;
}

/// Disabling a handle, re-assigning it and arming it again gives the same
/// registration, and the same outcome, as making a new handle with those
/// settings and arming it: nothing of the earlier use is left.
pub proof fn lemma_reassign_matches_fresh(
    b: BaseView,
    id: int,
    fd: Option<i32>,
    flags: EventFlags,
    timeout: Option<TimeSpec>,
)
    requires
        b.valid(id),
    ensures
        ({
            let reused = b.after_disable(id);
            let assigned = reused.after_assign(id, fd, flags);
            let n = b.regs.len() as int;
            let fresh = b.after_new(fd, flags);
            &&& reused.assign_outcome(id) is Ok
            &&& assigned.add_outcome(id, timeout) == fresh.add_outcome(n, timeout)
            &&& assigned.after_add(id, timeout).regs[id] == fresh.after_add(n, timeout).regs[n]
            &&& assigned.after_add(id, timeout).fires(id) == fresh.after_add(n, timeout).fires(n)
            &&& assigned.after_add(id, timeout).after_dispatch(id).regs[id]
                == fresh.after_add(n, timeout).after_dispatch(n).regs[n]
        }),
{
}

} // verus!
