//! Core-Local Interrupt Controller (CLIC) peripheral.

use vstd::prelude::*;

pub mod example;
pub mod interrupt;

use crate::clic::interrupt::INTERRUPTS;
use crate::window::RegisterWindow;

verus! {

/// Enumerations of interrupt sources, implemented by a platform description.
///
/// Number `0` is reserved as "no interrupt". The proof functions are the
/// obligations of an implementation: every source has a number in
/// `1..=MAX_INTERRUPT_NUMBER`, the highest of them is
/// `MAX_INTERRUPT_NUMBER`, and no two sources share one.
pub trait InterruptNumber: Copy + Sized {
    /// Highest number assigned to an interrupt source.
    const MAX_INTERRUPT_NUMBER: u16;

    /// The number of this source.
    spec fn spec_number(self) -> u16;

    /// Converts an interrupt source to its corresponding number.
    fn number(self) -> (r: u16)
        ensures
            r == self.spec_number(),
    ;

    /// Tries to convert a number to a valid interrupt source.
    /// If the conversion fails, it returns an error with the number back.
    fn from_number(value: u16) -> (r: Result<Self, u16>)
        ensures
            match r {
                Ok(v) => v.spec_number() == value,
                Err(e) => e == value && forall|v: Self| #[trigger] v.spec_number() != value,
            },
    ;

    /// Every source has a number in `1..=MAX_INTERRUPT_NUMBER`.
    proof fn lemma_number_in_range(self)
        ensures
            1 <= self.spec_number() <= Self::MAX_INTERRUPT_NUMBER,
    ;

    /// Distinct sources have distinct numbers.
    proof fn lemma_number_injective(self, other: Self)
        ensures
            self.spec_number() == other.spec_number() ==> self == other,
    ;

    /// Some source has the number `MAX_INTERRUPT_NUMBER`.
    proof fn lemma_max_number_used()
        ensures
            exists|v: Self| #[trigger] v.spec_number() == Self::MAX_INTERRUPT_NUMBER,
    ;
}

/// Enumerations of priority levels, implemented by a platform description.
///
/// Level `0` means "never interrupt" and must be one of the levels. The proof
/// functions are the obligations of an implementation: every level is at most
/// `MAX_PRIORITY_NUMBER`, which is itself a level, no two levels share a
/// number, and level `0` exists.
pub trait PriorityNumber: Copy + Sized {
    /// Platform wide highest supported priority level.
    const MAX_PRIORITY_NUMBER: u8;

    /// The number of this level.
    spec fn spec_number(self) -> u8;

    /// Converts a priority level to its corresponding number.
    fn number(self) -> (r: u8)
        ensures
            r == self.spec_number(),
    ;

    /// Tries to convert a number to a valid priority level.
    /// If the conversion fails, it returns an error with the number back.
    fn from_number(value: u8) -> (r: Result<Self, u8>)
        ensures
            match r {
                Ok(p) => p.spec_number() == value,
                Err(e) => e == value && forall|p: Self| #[trigger] p.spec_number() != value,
            },
    ;

    /// Every level is at most `MAX_PRIORITY_NUMBER`.
    proof fn lemma_number_in_range(self)
        ensures
            self.spec_number() <= Self::MAX_PRIORITY_NUMBER,
    ;

    /// Distinct levels have distinct numbers.
    proof fn lemma_number_injective(self, other: Self)
        ensures
            self.spec_number() == other.spec_number() ==> self == other,
    ;

    /// Some level has the number `MAX_PRIORITY_NUMBER`.
    proof fn lemma_max_number_used()
        ensures
            exists|p: Self| #[trigger] p.spec_number() == Self::MAX_PRIORITY_NUMBER,
    ;

    /// Some level is numbered `0`.
    proof fn lemma_zero_level()
        ensures
            exists|p: Self| #[trigger] p.spec_number() == 0,
    ;
}

/// Binding of a CLIC peripheral to its place in the address space.
///
/// `BASE` must be the address at which the target maps the peripheral.
pub trait Clic: Copy {
    /// Base address of the CLIC peripheral.
    const BASE: usize;
}

/// What `InterruptNumber::from_number(value)` may return: the source
/// numbered `value`, or the value itself when no source has that number.
pub open spec fn interrupt_decoding<I: InterruptNumber>(value: u16, r: Result<I, u16>) -> bool {
    match r {
        Ok(v) => v.spec_number() == value,
        Err(e) => e == value && forall|v: I| #[trigger] v.spec_number() != value,
    }
}

/// What `PriorityNumber::from_number(value)` may return: the level numbered
/// `value`, or the value itself when no level has that number.
pub open spec fn priority_decoding<P: PriorityNumber>(value: u8, r: Result<P, u8>) -> bool {
    match r {
        Ok(p) => p.spec_number() == value,
        Err(e) => e == value && forall|p: P| #[trigger] p.spec_number() != value,
    }
}

/// Converting a source to its number and back gives the same source.
pub proof fn lemma_interrupt_round_trip<I: InterruptNumber>(v: I, r: Result<I, u16>)
    requires
        interrupt_decoding(v.spec_number(), r),
    ensures
        r == Ok::<I, u16>(v),
{
    match r {
        Ok(w) => w.lemma_number_injective(v),
        Err(_) => {},
    }
}

/// Converting a level to its number and back gives the same level.
pub proof fn lemma_priority_round_trip<P: PriorityNumber>(p: P, r: Result<P, u8>)
    requires
        priority_decoding(p.spec_number(), r),
    ensures
        r == Ok::<P, u8>(p),
{
    match r {
        Ok(q) => q.lemma_number_injective(p),
        Err(_) => {},
    }
}

/// Numbers `0` and above `MAX_INTERRUPT_NUMBER` are rejected, each handed back.
pub proof fn lemma_interrupt_rejects<I: InterruptNumber>(value: u16, r: Result<I, u16>)
    requires
        interrupt_decoding(value, r),
        value == 0 || value > I::MAX_INTERRUPT_NUMBER,
    ensures
        r == Err::<I, u16>(value),
{
    if let Ok(v) = r {
        v.lemma_number_in_range();
    }
}

/// Numbers above `MAX_PRIORITY_NUMBER` are rejected, each handed back.
pub proof fn lemma_priority_rejects<P: PriorityNumber>(value: u8, r: Result<P, u8>)
    requires
        priority_decoding(value, r),
        value > P::MAX_PRIORITY_NUMBER,
    ensures
        r == Err::<P, u8>(value),
{
    if let Ok(p) = r {
        p.lemma_number_in_range();
    }
}

/// Number `0` always decodes to a level: the one that never interrupts.
pub proof fn lemma_priority_zero_accepted<P: PriorityNumber>(r: Result<P, u8>)
    requires
        priority_decoding(0, r),
    ensures
        r is Ok,
        r->Ok_0.spec_number() == 0,
{
    P::lemma_zero_level();
}

/// Offset from the peripheral's base address to its interrupt control words.
pub const INTERRUPTS_OFFSET: usize = 0x1000;

/// Controller-wide state, together with the peripheral's registers.
pub struct ControllerState {
    /// Whether the hart takes interrupts at all (the Machine Interrupt Enable
    /// bit of `mstatus`).
    pub interrupts_enabled: bool,
    /// The global priority threshold against which pending interrupts are filtered.
    pub threshold: usize,
    /// The peripheral's memory-mapped registers.
    pub registers: RegisterWindow,
}

impl ControllerState {
    /// This state with the global interrupt enable set to `on`.
    pub open spec fn with_interrupts_enabled(self, on: bool) -> ControllerState {
        ControllerState { interrupts_enabled: on, ..self }
    }

    /// This state with the global threshold set to `thresh`.
    pub open spec fn with_threshold(self, thresh: usize) -> ControllerState {
        ControllerState { threshold: thresh, ..self }
    }
}

/// Core-Local Interrupt Controller (CLIC) peripheral.
///
/// The base address, as well as all the associated types, are defined in the
/// [`Clic`] trait. The CLIC standard allows for up to 4096 interrupts, each
/// with its own control word.
#[allow(clippy::upper_case_acronyms)]
#[derive(Copy, Debug, Default, Eq, PartialEq)]
pub struct CLIC<C: Clic> {
    _marker: std::marker::PhantomData<C>,
}

impl<C: Clic> Clone for CLIC<C> {
    fn clone(&self) -> (r: Self)
        ensures
            r == *self,
    {
        *self
    }
}

impl<C: Clic> CLIC<C> {
    /// Clears the global interrupt enable. When cleared, CLIC interrupts are
    /// effectively disabled.
    pub fn disable(state: &mut ControllerState)
        ensures
            *final(state) == old(state).with_interrupts_enabled(false),
    {
        state.interrupts_enabled = false;
    }

    /// Sets the global interrupt enable. When set, CLIC interrupts are
    /// effectively enabled.
    ///
    /// Enabling interrupts may break critical sections.
    pub fn enable(state: &mut ControllerState)
        ensures
            *final(state) == old(state).with_interrupts_enabled(true),
    {
        state.interrupts_enabled = true;
    }

    /// Sets the global priority threshold against which all pending interrupts
    /// are filtered.
    ///
    /// Lowering the threshold may admit an interrupt at once.
    pub fn set_threshold(state: &mut ControllerState, thresh: usize)
        ensures
            *final(state) == old(state).with_threshold(thresh),
    {
        state.threshold = thresh;
    }

    /// Returns the current global priority threshold against which all
    /// pending interrupts are filtered.
    pub fn get_threshold(state: &ControllerState) -> (r: usize)
        ensures
            r == state.threshold,
    {
        state.threshold
    }

    /// Returns the interrupt configuration registers of the CLIC.
    pub fn interrupts() -> (r: INTERRUPTS)
        requires
            C::BASE + INTERRUPTS_OFFSET <= usize::MAX,
        ensures
            r@ == C::BASE + INTERRUPTS_OFFSET,
    {
        INTERRUPTS::new(C::BASE + INTERRUPTS_OFFSET)
    }
}

/// Reading the threshold after setting it to `thresh` gives `thresh`.
pub proof fn lemma_threshold_pass_through(state: ControllerState, thresh: usize)
    ensures
        state.with_threshold(thresh).threshold == thresh,
{
}

/// Setting or clearing the global interrupt enable changes neither the
/// registers of any source nor the threshold.
pub proof fn lemma_global_gate_independent(state: ControllerState, on: bool)
    ensures
        state.with_interrupts_enabled(on).registers == state.registers,
        state.with_interrupts_enabled(on).threshold == state.threshold,
        state.with_interrupts_enabled(on).interrupts_enabled == on,
{
}

} // verus!
