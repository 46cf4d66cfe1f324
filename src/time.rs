use vstd::prelude::*;

verus! {

/// Microseconds in one second.
pub const MICROS_PER_SEC: u32 = 1_000_000;
/// Nanoseconds in one second.
pub const NANOS_PER_SEC: u32 = 1_000_000_000;
/// Nanoseconds in one microsecond.
pub const NANOS_PER_MICRO: u32 = 1_000;

/// A relative time as the backend takes it: whole seconds and the
/// microseconds past them.
#[derive(Clone, Copy, Debug, PartialEq, Eq, Structural)]
pub struct TimeSpec {
    pub secs: u64,
    pub micros: u32,
}

impl TimeSpec {
    pub open spec fn wf(self) -> bool {
        self.micros < MICROS_PER_SEC
    }

    /// The time in microseconds.
    pub open spec fn total_micros(self) -> int {
        self.secs * MICROS_PER_SEC + self.micros
    }
}

/// The backend's form of a duration of `secs` seconds and `subsec_nanos`
/// nanoseconds: the nanoseconds below a whole microsecond are dropped.
pub fn to_timeval(secs: u64, subsec_nanos: u32) -> (r: TimeSpec)
    requires
        subsec_nanos < NANOS_PER_SEC,
    ensures
        r.wf(),
        r.secs == secs,
        r.micros == subsec_nanos / NANOS_PER_MICRO,
        r.total_micros() * NANOS_PER_MICRO <= secs * NANOS_PER_SEC + subsec_nanos,
        secs * NANOS_PER_SEC + subsec_nanos < (r.total_micros() + 1) * NANOS_PER_MICRO,
{
    let r = TimeSpec { secs, micros: subsec_nanos / NANOS_PER_MICRO };
    assert(r.total_micros() * 1000 <= secs * 1_000_000_000 + subsec_nanos
        && secs * 1_000_000_000 + subsec_nanos < (r.total_micros() + 1) * 1000) by (nonlinear_arith)
        requires
            r.total_micros() == secs * 1_000_000 + subsec_nanos / 1000,
            subsec_nanos < 1_000_000_000,
    ;
    r
}

} // verus!
