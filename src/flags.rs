use vstd::prelude::*;

verus! {

/// Bit of a trigger that fired on its timeout.
pub const EV_TIMEOUT: u32 = 0x01;
/// Bit of a descriptor that is ready for reading.
pub const EV_READ: u32 = 0x02;
/// Bit of a descriptor that is ready for writing.
pub const EV_WRITE: u32 = 0x04;
/// Bit of a signal trigger.
pub const EV_SIGNAL: u32 = 0x08;
/// Bit of a trigger that stays armed after it fires.
pub const EV_PERSIST: u32 = 0x10;
/// Bit of an edge-triggered descriptor.
pub const EV_ET: u32 = 0x20;
/// Bit of a trigger whose removal is finalised by the loop.
pub const EV_FINALIZE: u32 = 0x40;
/// Bit of a descriptor whose peer closed its end.
pub const EV_CLOSED: u32 = 0x80;
/// Every trigger bit.
pub const EV_ALL: u32 = 0xff;

/// Loop mode: block for one batch of ready triggers, dispatch it, return.
pub const EVLOOP_ONCE: u32 = 0x01;
/// Loop mode: poll without waiting, dispatch what is ready, return.
pub const EVLOOP_NONBLOCK: u32 = 0x02;
/// Loop mode: keep waiting when no trigger is registered.
pub const EVLOOP_NO_EXIT_ON_EMPTY: u32 = 0x04;
/// Every loop-mode bit.
pub const EVLOOP_ALL: u32 = 0x07;

/// A set of trigger kinds: what arms a registration, and what fired when it is
/// dispatched. Its view is the bit set.
#[derive(Clone, Copy, Debug, PartialEq, Eq, Structural)]
pub struct EventFlags {
    bits: u32,
}

impl View for EventFlags {
    type V = u32;

    closed spec fn view(&self) -> u32 {
        self.bits
    }
}

impl EventFlags {
    pub fn empty() -> (r: EventFlags)
        ensures
            r@ == 0,
    {
        EventFlags { bits: 0 }
    }

    pub fn all() -> (r: EventFlags)
        ensures
            r@ == EV_ALL,
    {
        EventFlags { bits: EV_ALL }
    }

    pub fn timeout() -> (r: EventFlags)
        ensures
            r@ == EV_TIMEOUT,
    {
        EventFlags { bits: EV_TIMEOUT }
    }

    pub fn read() -> (r: EventFlags)
        ensures
            r@ == EV_READ,
    {
        EventFlags { bits: EV_READ }
    }

    pub fn write() -> (r: EventFlags)
        ensures
            r@ == EV_WRITE,
    {
        EventFlags { bits: EV_WRITE }
    }

    pub fn signal() -> (r: EventFlags)
        ensures
            r@ == EV_SIGNAL,
    {
        EventFlags { bits: EV_SIGNAL }
    }

    pub fn persist() -> (r: EventFlags)
        ensures
            r@ == EV_PERSIST,
    {
        EventFlags { bits: EV_PERSIST }
    }

    pub fn edge_triggered() -> (r: EventFlags)
        ensures
            r@ == EV_ET,
    {
        EventFlags { bits: EV_ET }
    }

    pub fn finalize() -> (r: EventFlags)
        ensures
            r@ == EV_FINALIZE,
    {
        EventFlags { bits: EV_FINALIZE }
    }

    pub fn closed() -> (r: EventFlags)
        ensures
            r@ == EV_CLOSED,
    {
        EventFlags { bits: EV_CLOSED }
    }

    pub fn bits(&self) -> (r: u32)
        ensures
            r == self@,
    {
        self.bits
    }

    /// The known bits of `b`; the others are dropped.
    pub fn from_bits_truncate(b: u32) -> (r: EventFlags)
        ensures
            r@ == b & EV_ALL,
    {
        EventFlags { bits: b & EV_ALL }
    }

    /// The set of bits `b`, if each of them is known.
    pub fn from_bits(b: u32) -> (r: Option<EventFlags>)
        ensures
            r is Some <==> b & !EV_ALL == 0,
            r matches Some(f) ==> f@ == b,
    {
        if b & !EV_ALL == 0 {
            Some(EventFlags { bits: b })
        } else {
            None
        }
    }

    pub fn is_empty(&self) -> (r: bool)
        ensures
            r == (self@ == 0),
    {
        self.bits == 0
    }

    /// Whether every bit of `other` is in this set.
    pub fn contains(&self, other: EventFlags) -> (r: bool)
        ensures
            r == (self@ & other@ == other@),
    {
        self.bits & other.bits == other.bits
    }

    /// Whether the two sets share a bit.
    pub fn intersects(&self, other: EventFlags) -> (r: bool)
        ensures
            r == (self@ & other@ != 0),
    {
        self.bits & other.bits != 0
    }

    pub fn union(&self, other: EventFlags) -> (r: EventFlags)
        ensures
            r@ == self@ | other@,
    {
        EventFlags { bits: self.bits | other.bits }
    }

    pub fn intersection(&self, other: EventFlags) -> (r: EventFlags)
        ensures
            r@ == self@ & other@,
    {
        EventFlags { bits: self.bits & other.bits }
    }

    pub fn difference(&self, other: EventFlags) -> (r: EventFlags)
        ensures
            r@ == self@ & !other@,
    {
        EventFlags { bits: self.bits & !other.bits }
    }

    pub fn insert(&mut self, other: EventFlags)
        ensures
            final(self)@ == old(self)@ | other@,
    {
        self.bits = self.bits | other.bits;
    }

    pub fn remove(&mut self, other: EventFlags)
        ensures
            final(self)@ == old(self)@ & !other@,
    {
        self.bits = self.bits & !other.bits;
    }
}

/// A set of loop modes. Its view is the bit set.
#[derive(Clone, Copy, Debug, PartialEq, Eq, Structural)]
pub struct LoopFlags {
    bits: u32,
}

impl View for LoopFlags {
    type V = u32;

    closed spec fn view(&self) -> u32 {
        self.bits
    }
}

impl LoopFlags {
    pub fn empty() -> (r: LoopFlags)
        ensures
            r@ == 0,
    {
        LoopFlags { bits: 0 }
    }

    pub fn all() -> (r: LoopFlags)
        ensures
            r@ == EVLOOP_ALL,
    {
        LoopFlags { bits: EVLOOP_ALL }
    }

    pub fn once() -> (r: LoopFlags)
        ensures
            r@ == EVLOOP_ONCE,
    {
        LoopFlags { bits: EVLOOP_ONCE }
    }

    pub fn nonblock() -> (r: LoopFlags)
        ensures
            r@ == EVLOOP_NONBLOCK,
    {
        LoopFlags { bits: EVLOOP_NONBLOCK }
    }

    pub fn no_exit_on_empty() -> (r: LoopFlags)
        ensures
            r@ == EVLOOP_NO_EXIT_ON_EMPTY,
    {
        LoopFlags { bits: EVLOOP_NO_EXIT_ON_EMPTY }
    }

    pub fn bits(&self) -> (r: u32)
        ensures
            r == self@,
    {
        self.bits
    }

    /// The known bits of `b`; the others are dropped.
    pub fn from_bits_truncate(b: u32) -> (r: LoopFlags)
        ensures
            r@ == b & EVLOOP_ALL,
    {
        LoopFlags { bits: b & EVLOOP_ALL }
    }

    pub fn is_empty(&self) -> (r: bool)
        ensures
            r == (self@ == 0),
    {
        self.bits == 0
    }

    /// Whether every bit of `other` is in this set.
    pub fn contains(&self, other: LoopFlags) -> (r: bool)
        ensures
            r == (self@ & other@ == other@),
    {
        self.bits & other.bits == other.bits
    }

    pub fn union(&self, other: LoopFlags) -> (r: LoopFlags)
        ensures
            r@ == self@ | other@,
    {
        LoopFlags { bits: self.bits | other.bits }
    }
}

} // verus!
