//! A minimal platform description: four interrupt sources and four priority
//! levels. It is a template for platform crates, whose implementations carry
//! the same proof obligations, and lets the library run on a simulated window.

use vstd::prelude::*;

use crate::clic::{InterruptNumber, PriorityNumber};

verus! {

/// Interrupt sources numbered `1` to `4`.
#[derive(Clone, Copy, Debug, PartialEq, Eq, Structural)]
pub enum Interrupt {
    I1,
    I2,
    I3,
    I4,
}

/// Priority levels numbered `0` to `3`.
#[derive(Clone, Copy, Debug, PartialEq, Eq, Structural)]
pub enum Priority {
    L0,
    L1,
    L2,
    L3,
}

impl InterruptNumber for Interrupt {
    const MAX_INTERRUPT_NUMBER: u16 = 4;

    open spec fn spec_number(self) -> u16 {
        match self {
            Interrupt::I1 => 1,
            Interrupt::I2 => 2,
            Interrupt::I3 => 3,
            Interrupt::I4 => 4,
        }
    }

    fn number(self) -> (r: u16) {
        match self {
            Interrupt::I1 => 1,
            Interrupt::I2 => 2,
            Interrupt::I3 => 3,
            Interrupt::I4 => 4,
        }
    }

    fn from_number(value: u16) -> (r: Result<Self, u16>) {
        match value {
            1 => Ok(Interrupt::I1),
            2 => Ok(Interrupt::I2),
            3 => Ok(Interrupt::I3),
            4 => Ok(Interrupt::I4),
            _ => Err(value),
        }
    }

    proof fn lemma_number_in_range(self) {
    }

    proof fn lemma_number_injective(self, other: Self) {
    }

    proof fn lemma_max_number_used() {
        assert(Interrupt::I4.spec_number() == 4);
    }
}

impl PriorityNumber for Priority {
    const MAX_PRIORITY_NUMBER: u8 = 3;

    open spec fn spec_number(self) -> u8 {
        match self {
            Priority::L0 => 0,
            Priority::L1 => 1,
            Priority::L2 => 2,
            Priority::L3 => 3,
        }
    }

    fn number(self) -> (r: u8) {
        match self {
            Priority::L0 => 0,
            Priority::L1 => 1,
            Priority::L2 => 2,
            Priority::L3 => 3,
        }
    }

    fn from_number(value: u8) -> (r: Result<Self, u8>) {
        match value {
            0 => Ok(Priority::L0),
            1 => Ok(Priority::L1),
            2 => Ok(Priority::L2),
            3 => Ok(Priority::L3),
            _ => Err(value),
        }
    }

    proof fn lemma_number_in_range(self) {
    }

    proof fn lemma_number_injective(self, other: Self) {
    }

    proof fn lemma_max_number_used() {
        assert(Priority::L3.spec_number() == 3);
    }

    proof fn lemma_zero_level() {
        assert(Priority::L0.spec_number() == 0);
    }
}

} // verus!
