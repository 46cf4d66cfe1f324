use vstd::prelude::*;

use crate::flags::LoopFlags;

verus! {

/// Why one call of the loop returned.
#[derive(Clone, Copy, Debug, PartialEq, Eq, Structural)]
pub enum ExitReason {
    /// A scheduled exit came due.
    GotExit,
    /// A break was requested.
    GotBreak,
    /// The backend reported a fatal error.
    Error,
    /// No trigger was left registered.
    NoPendingEvents,
    /// A backend result that none of the above describes.
    Unknown { flags: LoopFlags, exit_code: i32 },
}

/// Backend result of a dispatch that ended normally.
pub const EXIT_NORMAL: i32 = 0;
/// Backend result of a dispatch that failed.
pub const EXIT_ERROR: i32 = -1;
/// Backend result of a dispatch that found nothing registered.
pub const EXIT_EMPTY: i32 = 1;

/// The reason reported for a dispatch run with `flags` that returned
/// `exit_code`, with the backend's exit and break marks as they stood then.
/// A requested exit is reported before a requested break.
pub open spec fn exit_reason_of(flags: LoopFlags, exit_code: i32, got_exit: bool, got_break: bool) -> ExitReason {
    if exit_code == EXIT_NORMAL {
        if got_exit {
            ExitReason::GotExit
        } else if got_break {
            ExitReason::GotBreak
        } else {
            ExitReason::Unknown { flags, exit_code }
        }
    } else if exit_code == EXIT_ERROR {
        ExitReason::Error
    } else if exit_code == EXIT_EMPTY {
        ExitReason::NoPendingEvents
    } else {
        ExitReason::Unknown { flags, exit_code }
    }
}

impl ExitReason {
    /// Classifies the result of one dispatch.
    pub fn from_dispatch(flags: LoopFlags, exit_code: i32, got_exit: bool, got_break: bool) -> (r: ExitReason)
        ensures
            r == exit_reason_of(flags, exit_code, got_exit, got_break),
    {
        match exit_code {
            EXIT_NORMAL => {
                if got_exit {
                    ExitReason::GotExit
                } else if got_break {
                    ExitReason::GotBreak
                } else {
                    ExitReason::Unknown { flags, exit_code }
                }
            },
            EXIT_ERROR => ExitReason::Error,
            EXIT_EMPTY => ExitReason::NoPendingEvents,
            _ => ExitReason::Unknown { flags, exit_code },
        }
    }

    /// Whether the loop returned without a fatal backend error.
    pub fn completed(&self) -> (r: bool)
        ensures
            r == !(*self is Error),
    {
        !matches!(self, ExitReason::Error)
    }
}

} // verus!
