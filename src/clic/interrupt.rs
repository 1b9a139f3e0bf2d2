//! Interrupt register control for a CLIC.
//!
//! Each interrupt source `n` owns the control word at byte offset `4 * n` of
//! the register array. Its bytes are, in order: the pending flag, the enable
//! flag, a reserved attribute byte and the priority level.

use vstd::prelude::*;

use crate::clic::{InterruptNumber, PriorityNumber};
use crate::window::RegisterWindow;

verus! {

/// Number of bytes in the control word of one interrupt source.
pub const CONTROL_WORD_BYTES: usize = 4;

/// Value of a pending or enable lane that is set.
pub const FLAG_SET: u8 = 1;

/// Value of a pending or enable lane that is clear.
pub const FLAG_CLEAR: u8 = 0;

/// Whether a pending or enable lane that holds `value` reads as set: only
/// [`FLAG_SET`] does.
pub fn flag_is_set(value: u8) -> (r: bool)
    ensures
        r == (value == FLAG_SET),
{
    value == FLAG_SET
}

/// The byte lanes of a control word that this module reads and writes.
#[derive(Clone, Copy, Debug, PartialEq, Eq, Structural)]
pub enum Lane {
    /// Byte 0: `1` when the source is pending.
    Pending,
    /// Byte 1: `1` when the source may be taken.
    Enable,
    /// Byte 3: the priority level of the source.
    Priority,
}

impl Lane {
    /// Offset of the lane within its control word.
    pub open spec fn spec_offset(self) -> nat {
        match self {
            Lane::Pending => 0,
            Lane::Enable => 1,
            Lane::Priority => 3,
        }
    }

    /// Offset of the lane within its control word.
    pub fn offset(self) -> (r: usize)
        ensures
            r == self.spec_offset(),
    {
        match self {
            Lane::Pending => 0,
            Lane::Enable => 1,
            Lane::Priority => 3,
        }
    }
}

/// Address of `lane` in the control word of source `number`, for a register
/// array that starts at `base`.
pub open spec fn lane_address(base: int, number: int, lane: Lane) -> int {
    base + CONTROL_WORD_BYTES * number + lane.spec_offset()
}

/// In a CLIC, all properties of an interrupt are controlled via a single
/// word-wide register block. This handle holds the address of the array of
/// those blocks.
#[derive(Clone, Copy, Debug, PartialEq, Eq, Structural)]
pub struct INTERRUPTS {
    address: usize,
}

impl View for INTERRUPTS {
    type V = usize;

    /// Address of the control word array.
    closed spec fn view(&self) -> usize {
        self.address
    }
}

impl INTERRUPTS {
    /// Address of `lane` of the control word of `source`.
    pub open spec fn spec_lane_address<I: InterruptNumber>(self, source: I, lane: Lane) -> int {
        lane_address(self@ as int, source.spec_number() as int, lane)
    }

    /// A handle on the control word array at `address`.
    pub fn new(address: usize) -> (r: INTERRUPTS)
        ensures
            r@ == address,
    {
        INTERRUPTS { address }
    }

    /// Address of the control word array.
    pub fn address(self) -> (r: usize)
        ensures
            r == self@,
    {
        self.address
    }

    /// Address of `lane` of the control word of `source`.
    pub fn lane_address<I: InterruptNumber>(self, source: I, lane: Lane) -> (r: usize)
        requires
            self.spec_lane_address(source, lane) <= usize::MAX,
        ensures
            r == self.spec_lane_address(source, lane),
    {
        let number: u16 = source.number();
        let word: usize = CONTROL_WORD_BYTES * (number as usize);
        self.address + word + lane.offset()
    }

    /// Reads `lane` of the control word of `source`.
    fn read_lane<I: InterruptNumber>(self, window: &RegisterWindow, source: I, lane: Lane) -> (r: u8)
        requires
            window.wf(),
            window.covers(self.spec_lane_address(source, lane)),
        ensures
            r == window.byte_at(self.spec_lane_address(source, lane)),
    {
        let addr: usize = self.lane_address(source, lane);
        window.read(addr)
    }

    /// Writes `value` to `lane` of the control word of `source`.
    fn write_lane<I: InterruptNumber>(
        self,
        window: &mut RegisterWindow,
        source: I,
        lane: Lane,
        value: u8,
    )
        requires
            old(window).wf(),
            old(window).covers(self.spec_lane_address(source, lane)),
        ensures
            final(window).is_write_of(old(window), self.spec_lane_address(source, lane), value),
    {
        let addr: usize = self.lane_address(source, lane);
        window.write(addr, value);
    }

    /// Checks if an interrupt source is enabled: its enable lane holds `1`.
    pub fn is_enabled<I: InterruptNumber>(self, window: &RegisterWindow, source: I) -> (r: bool)
        requires
            window.wf(),
            window.covers(self.spec_lane_address(source, Lane::Enable)),
        ensures
            r == (window.byte_at(self.spec_lane_address(source, Lane::Enable)) == 1),
    {
        flag_is_set(self.read_lane(window, source, Lane::Enable))
    }

    /// Enables an interrupt source by writing `1` to its enable lane.
    ///
    /// Enabling an interrupt source can break mask-based critical sections.
    pub fn enable<I: InterruptNumber>(self, window: &mut RegisterWindow, source: I)
        requires
            old(window).wf(),
            old(window).covers(self.spec_lane_address(source, Lane::Enable)),
        ensures
            final(window).is_write_of(old(window), self.spec_lane_address(source, Lane::Enable), 1),
    {
        self.write_lane(window, source, Lane::Enable, FLAG_SET);
    }

    /// Disables an interrupt source by writing `0` to its enable lane.
    pub fn disable<I: InterruptNumber>(self, window: &mut RegisterWindow, source: I)
        requires
            old(window).wf(),
            old(window).covers(self.spec_lane_address(source, Lane::Enable)),
        ensures
            final(window).is_write_of(old(window), self.spec_lane_address(source, Lane::Enable), 0),
    {
        self.write_lane(window, source, Lane::Enable, FLAG_CLEAR);
    }

    /// Returns the raw priority level stored for an interrupt source.
    pub fn get_priority<I: InterruptNumber>(self, window: &RegisterWindow, source: I) -> (r: u8)
        requires
            window.wf(),
            window.covers(self.spec_lane_address(source, Lane::Priority)),
        ensures
            r == window.byte_at(self.spec_lane_address(source, Lane::Priority)),
    {
        self.read_lane(window, source, Lane::Priority)
    }

    /// Sets the priority of an interrupt source by writing the number of
    /// `prio` to its priority lane.
    ///
    /// Changing the priority of an interrupt may break mask-based critical sections.
    pub fn set_priority<I: InterruptNumber, P: PriorityNumber>(
        self,
        window: &mut RegisterWindow,
        source: I,
        prio: P,
    )
        requires
            old(window).wf(),
            old(window).covers(self.spec_lane_address(source, Lane::Priority)),
        ensures
            final(window).is_write_of(
                old(window),
                self.spec_lane_address(source, Lane::Priority),
                prio.spec_number(),
            ),
    {
        let level: u8 = prio.number();
        self.write_lane(window, source, Lane::Priority, level);
    }

    /// Returns the pending status of an interrupt: its pending lane holds `1`.
    pub fn is_pending<I: InterruptNumber>(self, window: &RegisterWindow, source: I) -> (r: bool)
        requires
            window.wf(),
            window.covers(self.spec_lane_address(source, Lane::Pending)),
        ensures
            r == (window.byte_at(self.spec_lane_address(source, Lane::Pending)) == 1),
    {
        flag_is_set(self.read_lane(window, source, Lane::Pending))
    }

    /// Sets an interrupt as pending by writing `1` to its pending lane.
    ///
    /// Pending interrupts may break mask-based critical sections.
    pub fn pend<I: InterruptNumber>(self, window: &mut RegisterWindow, source: I)
        requires
            old(window).wf(),
            old(window).covers(self.spec_lane_address(source, Lane::Pending)),
        ensures
            final(window).is_write_of(old(window), self.spec_lane_address(source, Lane::Pending), 1),
    {
        self.write_lane(window, source, Lane::Pending, FLAG_SET);
    }

    /// Sets an interrupt as not pending by writing `0` to its pending lane.
    ///
    /// Unpending interrupts is side-effectful.
    pub fn unpend<I: InterruptNumber>(self, window: &mut RegisterWindow, source: I)
        requires
            old(window).wf(),
            old(window).covers(self.spec_lane_address(source, Lane::Pending)),
        ensures
            final(window).is_write_of(old(window), self.spec_lane_address(source, Lane::Pending), 0),
    {
        self.write_lane(window, source, Lane::Pending, FLAG_CLEAR);
    }
}

/// Writing one lane of one source leaves every other lane of every source as
/// it was: the other lanes of that source, and each lane of each other source.
pub proof fn lemma_lanes_independent<I: InterruptNumber>(
    interrupts: INTERRUPTS,
    before: RegisterWindow,
    after: RegisterWindow,
    source: I,
    written: Lane,
    value: u8,
    other: I,
    lane: Lane,
)
    requires
        before.covers(interrupts.spec_lane_address(source, written)),
        after.is_write_of(&before, interrupts.spec_lane_address(source, written), value),
        before.covers(interrupts.spec_lane_address(other, lane)),
        other.spec_number() != source.spec_number() || lane != written,
    ensures
        after.byte_at(interrupts.spec_lane_address(other, lane)) == before.byte_at(
            interrupts.spec_lane_address(other, lane),
        ),
{
}

/// Writing a value to a lane a second time leaves the window as the first
/// write left it: `enable`, `disable`, `pend` and `unpend` are idempotent.
pub proof fn lemma_lane_write_idempotent<I: InterruptNumber>(
    interrupts: INTERRUPTS,
    source: I,
    lane: Lane,
    value: u8,
    w0: RegisterWindow,
    w1: RegisterWindow,
    w2: RegisterWindow,
)
    requires
        w0.covers(interrupts.spec_lane_address(source, lane)),
        w1.is_write_of(&w0, interrupts.spec_lane_address(source, lane), value),
        w2.is_write_of(&w1, interrupts.spec_lane_address(source, lane), value),
    ensures
        w2.spec_base() == w1.spec_base(),
        w2@ == w1@,
{
    assert(w2@ =~= w1@);
}

/// After `set_priority(source, prio)`, `get_priority(source)` reads the
/// number of `prio`.
pub proof fn lemma_priority_write_read<I: InterruptNumber, P: PriorityNumber>(
    interrupts: INTERRUPTS,
    source: I,
    prio: P,
    before: RegisterWindow,
    after: RegisterWindow,
)
    requires
        before.covers(interrupts.spec_lane_address(source, Lane::Priority)),
        after.is_write_of(&before, interrupts.spec_lane_address(source, Lane::Priority), prio.spec_number()),
    ensures
        after.byte_at(interrupts.spec_lane_address(source, Lane::Priority)) == prio.spec_number(),
{
}

} // verus!
