use vstd::prelude::*;

use crate::flags::{EventFlags, LoopFlags, EV_ALL, EV_PERSIST};
use crate::reason::{exit_reason_of, ExitReason};
use crate::time::TimeSpec;

verus! {

/// Descriptor that the backend takes for a pure timer.
pub const NO_FD: i32 = -1;

/// Why a registration operation was refused.
#[derive(Clone, Copy, Debug, PartialEq, Eq, Structural)]
pub enum RegistrationError {
    /// The handle was not issued by this reactor.
    UnknownHandle,
    /// The handle is armed; it must be disabled first.
    Active,
    /// Neither a descriptor nor a timeout: nothing could make it fire.
    NeverFires,
}

/// One trigger: its descriptor (none for a pure timer), what arms it, the
/// timeout it was last armed with, and whether it is armed now.
#[derive(Clone, Copy, Debug, PartialEq, Eq, Structural)]
pub struct Registration {
    pub fd: Option<i32>,
    pub flags: EventFlags,
    pub timeout: Option<TimeSpec>,
    pub pending: bool,
}

/// A registration as it stands right after it is made or re-assigned.
pub open spec fn fresh_registration(fd: Option<i32>, flags: EventFlags) -> Registration {
    Registration { fd, flags, timeout: None, pending: false }
}

/// Whether a registration stays armed after it fires.
pub open spec fn is_persistent(reg: Registration) -> bool {
    reg.flags@ & EV_PERSIST == EV_PERSIST
}

/// The key of one registration in a reactor.
#[derive(Clone, Copy, Debug, PartialEq, Eq, Structural)]
pub struct EventHandle {
    pub id: usize,
}

/// What a reactor holds: its registrations by key, and whether a break was
/// requested in the current pass.
pub struct BaseView {
    pub regs: Seq<Registration>,
    pub break_requested: bool,
}

impl BaseView {
    pub open spec fn valid(self, id: int) -> bool {
        0 <= id < self.regs.len()
    }

    pub open spec fn after_new(self, fd: Option<i32>, flags: EventFlags) -> BaseView {
        BaseView { regs: self.regs.push(fresh_registration(fd, flags)), ..self }
    }

    pub open spec fn assign_outcome(self, id: int) -> Result<(), RegistrationError> {
        if !self.valid(id) {
            Err(RegistrationError::UnknownHandle)
        } else if self.regs[id].pending {
            Err(RegistrationError::Active)
        } else {
            Ok(())
        }
    }

    pub open spec fn after_assign(self, id: int, fd: Option<i32>, flags: EventFlags) -> BaseView {
        if self.assign_outcome(id) is Ok {
            BaseView { regs: self.regs.update(id, fresh_registration(fd, flags)), ..self }
        } else {
            self
        }
    }

    pub open spec fn add_outcome(self, id: int, timeout: Option<TimeSpec>) -> Result<(), RegistrationError> {
        if !self.valid(id) {
            Err(RegistrationError::UnknownHandle)
        } else if self.regs[id].fd is None && timeout is None {
            Err(RegistrationError::NeverFires)
        } else {
            Ok(())
        }
    }

    pub open spec fn after_add(self, id: int, timeout: Option<TimeSpec>) -> BaseView {
        if self.add_outcome(id, timeout) is Ok {
            BaseView {
                regs: self.regs.update(id, Registration { timeout, pending: true, ..self.regs[id] }),
                ..self
            }
        } else {
            self
        }
    }

    pub open spec fn after_disable(self, id: int) -> BaseView {
        if self.valid(id) {
            BaseView { regs: self.regs.update(id, Registration { pending: false, ..self.regs[id] }), ..self }
        } else {
            self
        }
    }

    /// Whether a readiness notice for `id` reaches its callback now.
    pub open spec fn fires(self, id: int) -> bool {
        self.valid(id) && self.regs[id].pending && !self.break_requested
    }

    /// The state after a readiness notice for `id`: a one-shot trigger that
    /// fires is disarmed.
    pub open spec fn after_dispatch(self, id: int) -> BaseView {
        if self.fires(id) && !is_persistent(self.regs[id]) {
            self.after_disable(id)
        } else {
            self
        }
    }

    pub open spec fn after_break(self) -> BaseView {
        BaseView { break_requested: true, ..self }
    }

    pub open spec fn after_continue(self) -> BaseView {
        BaseView { break_requested: false, ..self }
    }
}

/// Whether any notice of `evs`, delivered in turn from state `b`, reaches the
/// callback of `id`. Each notice names a key and the bits that fired.
pub open spec fn fired_during(b: BaseView, evs: Seq<(int, u32)>, id: int) -> bool
    decreases evs.len(),
{
    if evs.len() == 0 {
        false
    } else {
        (evs[0].0 == id && b.fires(id)) || fired_during(b.after_dispatch(evs[0].0), evs.drop_first(), id)
    }
}

/// The registry of a reactor and its dispatch rules. The backend that polls
/// descriptors and timers reports to it: each readiness notice goes through
/// `dispatch`, which decides whether the callback runs.
pub struct Base {
    regs: Vec<Registration>,
    break_requested: bool,
}

impl View for Base {
    type V = BaseView;

    closed spec fn view(&self) -> BaseView {
        BaseView { regs: self.regs@, break_requested: self.break_requested }
    }
}

/// The descriptor that the backend takes for `fd`.
pub fn raw_fd(fd: Option<i32>) -> (r: i32)
    ensures
        r == match fd {
            Some(f) => f,
            None => NO_FD,
        },
{
    match fd {
        Some(f) => f,
        None => NO_FD,
    }
}

impl Base {
    /// A reactor with nothing registered.
    pub fn new() -> (r: Base)
        ensures
            r@.regs.len() == 0,
            !r@.break_requested,
    {
        Base { regs: Vec::new(), break_requested: false }
    }

    /// The number of handles issued.
    pub fn len(&self) -> (r: usize)
        ensures
            r == self@.regs.len(),
    {
        self.regs.len()
    }

    /// The registration under `ev`, if `ev` was issued here.
    pub fn registration(&self, ev: &EventHandle) -> (r: Option<Registration>)
        ensures
            r == (if self@.valid(ev.id as int) {
                Some(self@.regs[ev.id as int])
            } else {
                None
            }),
    {
        if ev.id < self.regs.len() {
            Some(self.regs[ev.id])
        } else {
            None
        }
    }

    /// Whether `ev` is armed.
    pub fn is_pending(&self, ev: &EventHandle) -> (r: bool)
        ensures
            r == (self@.valid(ev.id as int) && self@.regs[ev.id as int].pending),
    {
        ev.id < self.regs.len() && self.regs[ev.id].pending
    }

    /// Whether some registration is armed.
    pub fn has_pending(&self) -> (r: bool)
        ensures
            r == exists|i: int| 0 <= i < self@.regs.len() && #[trigger] self@.regs[i].pending,
    {
        let mut i: usize = 0;
        while i < self.regs.len()
            invariant
                i <= self.regs.len(),
                forall|j: int| 0 <= j < i ==> !#[trigger] self.regs@[j].pending,
            decreases self.regs.len() - i,
        {
            if self.regs[i].pending {
                return true;
            }
            i = i + 1;
        }
        false
    }

    /// Whether a break was requested in the current pass.
    pub fn break_requested(&self) -> (r: bool)
        ensures
            r == self@.break_requested,
    {
        self.break_requested
    }

    /// Makes a new, unarmed trigger on `fd` (none: a pure timer).
    pub fn event_new(&mut self, fd: Option<i32>, flags: EventFlags) -> (r: EventHandle)
        requires
            old(self)@.regs.len() < usize::MAX,
        ensures
            r.id == old(self)@.regs.len(),
            final(self)@ == old(self)@.after_new(fd, flags),
    {
        self.regs.push(Registration { fd, flags, timeout: None, pending: false });
        EventHandle { id: self.regs.len() - 1 }
    }

    /// Re-initialises the unarmed trigger `ev` in place.
    pub fn event_assign(&mut self, ev: &EventHandle, fd: Option<i32>, flags: EventFlags) -> (r: Result<(), RegistrationError>)
        ensures
            r == old(self)@.assign_outcome(ev.id as int),
            final(self)@ == old(self)@.after_assign(ev.id as int, fd, flags),
    {
        if ev.id >= self.regs.len() {
            return Err(RegistrationError::UnknownHandle);
        }
        if self.regs[ev.id].pending {
            return Err(RegistrationError::Active);
        }
        self.regs.set(ev.id, Registration { fd, flags, timeout: None, pending: false });
        Ok(())
    }

    /// Arms `ev`, with `timeout` as its timeout if there is one.
    pub fn event_add(&mut self, ev: &EventHandle, timeout: Option<TimeSpec>) -> (r: Result<(), RegistrationError>)
        ensures
            r == old(self)@.add_outcome(ev.id as int, timeout),
            final(self)@ == old(self)@.after_add(ev.id as int, timeout),
    {
        if ev.id >= self.regs.len() {
            return Err(RegistrationError::UnknownHandle);
        }
        let reg = self.regs[ev.id];
        if reg.fd.is_none() && timeout.is_none() {
            return Err(RegistrationError::NeverFires);
        }
        self.regs.set(ev.id, Registration { timeout, pending: true, ..reg });
        Ok(())
    }

    /// Disarms `ev`; a disarmed one stays as it is.
    pub fn disable(&mut self, ev: &EventHandle) -> (r: Result<(), RegistrationError>)
        ensures
            r is Ok <==> old(self)@.valid(ev.id as int),
            r matches Err(e) ==> e == RegistrationError::UnknownHandle,
            final(self)@ == old(self)@.after_disable(ev.id as int),
    {
        if ev.id >= self.regs.len() {
            return Err(RegistrationError::UnknownHandle);
        }
        let reg = self.regs[ev.id];
        self.regs.set(ev.id, Registration { pending: false, ..reg });
        Ok(())
    }

    /// Arms `ev` again with the timeout it was last armed with.
    pub fn enable(&mut self, ev: &EventHandle) -> (r: Result<(), RegistrationError>)
        ensures
            old(self)@.valid(ev.id as int) ==> {
                let t = old(self)@.regs[ev.id as int].timeout;
                &&& r == old(self)@.add_outcome(ev.id as int, t)
                &&& final(self)@ == old(self)@.after_add(ev.id as int, t)
            },
            !old(self)@.valid(ev.id as int) ==> r == Err::<(), RegistrationError>(RegistrationError::UnknownHandle)
                && final(self)@ == old(self)@,
    {
        if ev.id >= self.regs.len() {
            return Err(RegistrationError::UnknownHandle);
        }
        let t = self.regs[ev.id].timeout;
        self.event_add(ev, t)
    }

    /// Handles a readiness notice for `ev` with the bits `fired`: returns the
    /// flags to hand its callback, or `None` where the callback must not run
    /// (unknown or disarmed handle, or a break requested in this pass).
    pub fn dispatch(&mut self, ev: &EventHandle, fired: u32) -> (r: Option<EventFlags>)
        ensures
            r is Some <==> old(self)@.fires(ev.id as int),
            r matches Some(f) ==> f@ == fired & EV_ALL,
            final(self)@ == old(self)@.after_dispatch(ev.id as int),
    {
        if self.break_requested || ev.id >= self.regs.len() || !self.regs[ev.id].pending {
            return None;
        }
        let reg = self.regs[ev.id];
        if !reg.flags.contains(EventFlags::persist()) {
            self.regs.set(ev.id, Registration { pending: false, ..reg });
        }
        Some(EventFlags::from_bits_truncate(fired))
    }

    /// Starts a dispatch pass: a break of an earlier pass is forgotten.
    pub fn begin_pass(&mut self)
        ensures
            final(self)@ == old(self)@.after_continue(),
    {
        self.break_requested = false;
    }

    /// Stops the current pass once the running callback returns.
    pub fn loopbreak(&mut self)
        ensures
            final(self)@ == old(self)@.after_break(),
    {
        self.break_requested = true;
    }

    /// Withdraws a requested break: dispatch goes on.
    pub fn loopcontinue(&mut self)
        ensures
            final(self)@ == old(self)@.after_continue(),
    {
        self.break_requested = false;
    }

    /// Why the pass run with `flags` returned, from the backend's result code
    /// and its exit and break marks.
    pub fn loop_(&self, flags: LoopFlags, exit_code: i32, got_exit: bool, got_break: bool) -> (r: ExitReason)
        ensures
            r == exit_reason_of(flags, exit_code, got_exit, got_break),
    {
        ExitReason::from_dispatch(flags, exit_code, got_exit, got_break)
    }
}

} // verus!
