pub mod base;
pub mod flags;
pub mod laws;
pub mod reason;
pub mod time;

pub use base::{raw_fd, Base, EventHandle, Registration, RegistrationError};
pub use flags::{EventFlags, LoopFlags};
pub use reason::ExitReason;
pub use time::{to_timeval, TimeSpec};

use vstd::prelude::*;

use crate::base::BaseView;
use crate::flags::{EVLOOP_NONBLOCK, EVLOOP_ONCE, EV_PERSIST};
use crate::reason::exit_reason_of;

verus! {

/// How the backend is to run one loop call: its loop modes, and the delay
/// after which an exit is scheduled first, if any.
#[derive(Clone, Copy, Debug, PartialEq, Eq, Structural)]
pub struct LoopRun {
    pub flags: LoopFlags,
    pub exit_after: Option<TimeSpec>,
}

/// A reactor with the everyday loop calls. Each loop call starts a pass and
/// says how the backend is to run it; `finish` turns the backend's report
/// into whether the call ended without a fatal error.
pub struct Libevent {
    base: Base,
}

impl View for Libevent {
    type V = BaseView;

    closed spec fn view(&self) -> BaseView {
        self.base@
    }
}

impl Libevent {
    pub fn new() -> (r: Libevent)
        ensures
            r@.regs.len() == 0,
            !r@.break_requested,
    {
        Libevent { base: Base::new() }
    }

    pub fn base(&self) -> (r: &Base)
        ensures
            r@ == self@,
    {
        &self.base
    }

    pub fn base_mut(&mut self) -> (r: &mut Base)
        ensures
            r@ == old(self)@,
            final(self)@ == final(r)@,
    {
        &mut self.base
    }

    /// One pass that does not wait: what is ready now is dispatched.
    pub fn turn(&mut self) -> (r: LoopRun)
        ensures
            r.flags@ == EVLOOP_NONBLOCK,
            r.exit_after is None,
            final(self)@ == old(self)@.after_continue(),
    {
        self.base.begin_pass();
        LoopRun { flags: LoopFlags::nonblock(), exit_after: None }
    }

    /// Runs until an exit, scheduled `timeout` from now, or a break.
    pub fn run_timeout(&mut self, timeout: TimeSpec) -> (r: LoopRun)
        ensures
            r.flags@ == 0,
            r.exit_after == Some(timeout),
            final(self)@ == old(self)@.after_continue(),
    {
        self.base.begin_pass();
        LoopRun { flags: LoopFlags::empty(), exit_after: Some(timeout) }
    }

    /// Waits for the next ready triggers and dispatches them.
    pub fn run_until_event(&mut self) -> (r: LoopRun)
        ensures
            r.flags@ == EVLOOP_ONCE,
            r.exit_after is None,
            final(self)@ == old(self)@.after_continue(),
    {
        self.base.begin_pass();
        LoopRun { flags: LoopFlags::once(), exit_after: None }
    }

    /// Runs until an exit, a break, or nothing is left registered.
    pub fn run(&mut self) -> (r: LoopRun)
        ensures
            r.flags@ == 0,
            r.exit_after is None,
            final(self)@ == old(self)@.after_continue(),
    {
        self.base.begin_pass();
        LoopRun { flags: LoopFlags::empty(), exit_after: None }
    }

    /// Whether the loop call `run` ended without a fatal backend error, from
    /// the backend's result code and its exit and break marks.
    pub fn finish(&self, run: &LoopRun, exit_code: i32, got_exit: bool, got_break: bool) -> (r: bool)
        ensures
            r == !(exit_reason_of(run.flags, exit_code, got_exit, got_break) is Error),
    {
        let reason = self.base.loop_(run.flags, exit_code, got_exit, got_break);
        reason.completed()
    }

    /// Registers a repeating timer that fires every `interval`, armed at once.
    pub fn add_interval(&mut self, interval: TimeSpec) -> (r: EventHandle)
        requires
            old(self)@.regs.len() < usize::MAX,
        ensures
            r.id == old(self)@.regs.len(),
            final(self)@.regs.len() == old(self)@.regs.len() + 1,
            final(self)@.regs.drop_last() == old(self)@.regs,
            final(self)@.regs.last().fd is None,
            final(self)@.regs.last().flags@ == EV_PERSIST,
            final(self)@.regs.last().timeout == Some(interval),
            final(self)@.regs.last().pending,
            final(self)@.break_requested == old(self)@.break_requested,
    {
        let ev = self.base.event_new(None, EventFlags::persist());
        let added = self.base.event_add(&ev, Some(interval));
        proof {
            assert(added is Ok);
            assert(self@.regs.drop_last() =~= old(self)@.regs);
        }
        ev
    }
}

} // verus!
